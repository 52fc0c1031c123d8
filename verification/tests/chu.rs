use print_agent::chu::{
    bang, bat_dau, cat_trang, chua, hex8, ket_thuc, ky_tu, so_co_dinh, so_hex_thuong, so_thap_phan, tim, tim_cuoi,
    tu_khoang, tu_ky_tu,
};

#[test]
fn so_thanh_chu() {
    assert_eq!(so_thap_phan(0), "0");
    assert_eq!(so_thap_phan(u64::MAX), "18446744073709551615");
    assert_eq!(hex8(0x12ab), "000012AB");
    assert_eq!(so_hex_thuong(0x12ab), "12ab");
    assert_eq!(so_hex_thuong(0), "0");
    assert_eq!(so_co_dinh(7, 10, 3), "007");
}

#[test]
fn tim_trong_chu() {
    assert!(chua("Máy in hết giấy", "hết"));
    assert!(!chua("abc", "abcd"));
    assert!(chua("abc", ""));
    assert!(bat_dau("print-agent-x", "print-agent-") && ket_thuc("x.pdf", ".pdf"));
    assert!(bang("ạ", "ạ") && !bang("a", "ạ"));
    let v = ky_tu("a-b-c");
    assert_eq!(tim(&v, &ky_tu("-"), 2), Some(3));
    assert_eq!(tim_cuoi(&v, '-', 3), Some(1));
    assert_eq!(tu_khoang(&v, 2, 5), "b-c");
    assert_eq!(tu_ky_tu(&v), "a-b-c");
}

#[test]
fn cat_trang_nhu_trim() {
    for s in ["", "  ", " a b ", "\t\r\nx", "\u{a0}\u{3000}y\u{2028}", "\u{200b}z", "\u{feff}w"] {
        assert_eq!(cat_trang(s), s.trim(), "{:?}", s);
    }
    for c in (0..=0x10ffff).filter_map(char::from_u32) {
        let s = c.to_string();
        assert_eq!(cat_trang(&s).is_empty(), c.is_whitespace(), "{:?}", c);
    }
}
