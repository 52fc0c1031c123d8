use print_agent::su_co::MaSuCo;
use print_agent::usb_may_in::{DocUsb, TinhTrangUsb};

fn doc(byte: u8, status: Option<&str>) -> DocUsb {
    DocUsb { byte, status: status.map(|s| s.to_string()) }
}

#[test]
fn ba_tra_loi_cua_thiet_bi() {
    assert_eq!(doc(0x18, Some("IDLE")).tinh_trang(), TinhTrangUsb::Ranh);
    assert_eq!(doc(0x98, Some("BUSY")).tinh_trang(), TinhTrangUsb::DangIn);
    assert_eq!(doc(0x90, Some("BUSY")).tinh_trang(), TinhTrangUsb::Loi(MaSuCo::CanXuLy));
    assert_eq!(doc(0x98, None).tinh_trang(), TinhTrangUsb::KhongLoi);
    assert_eq!(doc(0x98, Some("la")).tinh_trang(), TinhTrangUsb::KhongLoi);
    assert_eq!(doc(0x90, None).ma_su_co(), Some(MaSuCo::CanXuLy));
    assert_eq!(doc(0x08, None).ma_su_co(), None);
}

#[test]
fn mo_ta_tra_loi() {
    assert_eq!(doc(0x98, Some("BUSY")).mo_ta(), "USB 0x98 STATUS:BUSY");
    assert_eq!(doc(0x90, None).mo_ta(), "USB 0x90 STATUS:- (máy báo lỗi: hết giấy, kẹt giấy hoặc mở nắp)");
    assert_eq!(doc(0x98, Some("BUSY")).mo_ta_ngan(), "0x98/BUSY");
}
