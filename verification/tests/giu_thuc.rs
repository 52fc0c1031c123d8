use print_agent::giu_thuc::{chu_giai_thich, dong_nhat_ky, tinh_trang_sau, TinhTrang};

#[test]
fn chu_giai_thich_theo_tinh_trang() {
    let binh_thuong = TinhTrang { dang_giu: true, modern_standby: false };
    assert_eq!(chu_giai_thich(true, binh_thuong, false), "", "held on an ordinary computer: nothing to say");
    assert!(chu_giai_thich(false, binh_thuong, false).contains("KHÔNG nhận được lệnh in"));
    assert!(chu_giai_thich(true, binh_thuong, true).contains("Không bao giờ"));
    let ms = TinhTrang { dang_giu: true, modern_standby: true };
    assert!(chu_giai_thich(true, ms, false).contains("TẮT MÀN HÌNH"));
}

#[test]
fn giu_chi_khi_he_thong_dong_y() {
    assert!(tinh_trang_sau(true, &Ok(()), false).dang_giu);
    assert!(!tinh_trang_sau(true, &Err("x".into()), false).dang_giu);
    assert!(!tinh_trang_sau(false, &Ok(()), true).dang_giu);
    let tt = TinhTrang { dang_giu: true, modern_standby: false };
    assert_eq!(dong_nhat_ky(tt, "power_request", &Ok(())), "bat cach=power_request modern_standby=khong");
    let tt = TinhTrang { dang_giu: false, modern_standby: true };
    assert_eq!(dong_nhat_ky(tt, "x", &Err("hong".into())), "tat cach=x modern_standby=co loi=hong");
}
