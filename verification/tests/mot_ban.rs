use print_agent::mot_ban::{
    chu_da_chay, ket_luan_tao_khoa, BanKhac, KetLuanKhoa, MA_ACCESS_DENIED, TEN_KHOA, TEN_KHOA_PHIEN,
};

#[test]
fn ten_khoa_dung() {
    assert_eq!(TEN_KHOA, r"Global\print-agent-lednelia");
    assert_eq!(TEN_KHOA_PHIEN, r"Local\print-agent-lednelia");
}

#[test]
fn r_l_access_denied_la_da_co_ban_khac() {
    assert_eq!(ket_luan_tao_khoa(Ok(false), false), KetLuanKhoa::DuocChay);
    assert_eq!(ket_luan_tao_khoa(Ok(true), true), KetLuanKhoa::DaCoBanKhac(BanKhac::CungPhien));
    assert_eq!(ket_luan_tao_khoa(Ok(true), false), KetLuanKhoa::DaCoBanKhac(BanKhac::PhienKhac));
    assert_eq!(ket_luan_tao_khoa(Err(MA_ACCESS_DENIED), false), KetLuanKhoa::DaCoBanKhac(BanKhac::PhienKhac));
    assert_eq!(ket_luan_tao_khoa(Err(MA_ACCESS_DENIED), true), KetLuanKhoa::DaCoBanKhac(BanKhac::PhienKhac));
    assert_eq!(ket_luan_tao_khoa(Err(87), false), KetLuanKhoa::LoiLa, "an unknown error lets the agent run");
}

#[test]
fn t10_cau_hop_thoai_noi_ro_phien_khac() {
    assert!(chu_da_chay(BanKhac::CungPhien).contains("khay hệ thống"));
    let chu = chu_da_chay(BanKhac::PhienKhac);
    assert!(chu.contains("đang chạy ở phiên đăng nhập Windows khác"), "{}", chu);
    assert!(!chu.contains("khay"));
}
