use print_agent::su_co::co::{
    JOB_STATUS_BLOCKED_DEVQ, JOB_STATUS_ERROR, JOB_STATUS_OFFLINE, JOB_STATUS_PAPEROUT, JOB_STATUS_PRINTED, JOB_STATUS_PRINTING, JOB_STATUS_USER_INTERVENTION, PRINTER_ATTRIBUTE_WORK_OFFLINE, PRINTER_STATUS_DOOR_OPEN, PRINTER_STATUS_ERROR, PRINTER_STATUS_NOT_AVAILABLE, PRINTER_STATUS_NO_TONER, PRINTER_STATUS_OFFLINE, PRINTER_STATUS_PAPER_JAM, PRINTER_STATUS_PAPER_OUT, PRINTER_STATUS_PAPER_PROBLEM, PRINTER_STATUS_PAUSED, PRINTER_STATUS_SERVER_UNKNOWN, PRINTER_STATUS_TONER_LOW, PRINTER_STATUS_USER_INTERVENTION,
};
use print_agent::su_co::{
    bo_dau, cac_ma_may_in, ma_tu_co_job, ma_tu_co_may_in, mo_ta_co_job, mo_ta_co_may_in, tinh_chinh_theo_chu,
    tinh_chinh_theo_chu_sach, tinh_trang_may_in,
    uu_tien_hon, MaSuCo, MucDo, TapMa, CHU_DUNG_OFFLINE, CHU_HANG_DOI_TAM_DUNG,
};

const TAT_CA: [MaSuCo; 12] = [
    MaSuCo::HetGiay, MaSuCo::KetGiay, MaSuCo::Offline, MaSuCo::MoNap, MaSuCo::HetMuc,
    MaSuCo::CanXuLy, MaSuCo::LoiMayIn, MaSuCo::KhongTimThayMayIn, MaSuCo::LoiSumatra,
    MaSuCo::LoiPdf, MaSuCo::KhongXacNhan, MaSuCo::BinhThuong,
];

#[test]
fn serde_ra_dung_chuoi_ma_cua_hop_dong() {
    let ma = [
        "het_giay", "ket_giay", "offline", "mo_nap", "het_muc", "can_xu_ly", "loi_may_in", "khong_tim_thay_may_in",
        "loi_sumatra", "loi_pdf", "khong_xac_nhan", "binh_thuong",
    ];
    for (i, m) in TAT_CA.into_iter().enumerate() {
        assert_eq!(m.ma(), ma[i], "{:?}", m);
    }
    assert_eq!(MaSuCo::KhongTimThayMayIn.ma(), "khong_tim_thay_may_in");
}

#[test]
fn muc_dung_bang_1() {
    assert_eq!(MaSuCo::HetMuc.muc(), MucDo::CanhBao);
    assert_eq!(MaSuCo::BinhThuong.muc(), MucDo::ThongTin);
    for ma in TAT_CA.into_iter().filter(|m| !matches!(m, MaSuCo::HetMuc | MaSuCo::BinhThuong)) {
        assert_eq!(ma.muc(), MucDo::Loi, "{:?}", ma);
        assert!(ma.chan_in());
    }
    assert!(!MaSuCo::HetMuc.chan_in());
}

#[test]
fn co_may_in_don_le_ra_dung_ma() {
    let bang = [
        (PRINTER_STATUS_PAPER_OUT, MaSuCo::HetGiay),
        (PRINTER_STATUS_PAPER_PROBLEM, MaSuCo::HetGiay),
        (PRINTER_STATUS_PAPER_JAM, MaSuCo::KetGiay),
        (PRINTER_STATUS_OFFLINE, MaSuCo::Offline),
        (PRINTER_STATUS_NOT_AVAILABLE, MaSuCo::Offline),
        (PRINTER_STATUS_SERVER_UNKNOWN, MaSuCo::Offline),
        (PRINTER_STATUS_DOOR_OPEN, MaSuCo::MoNap),
        (PRINTER_STATUS_NO_TONER, MaSuCo::HetMuc),
        (PRINTER_STATUS_TONER_LOW, MaSuCo::HetMuc),
        (PRINTER_STATUS_USER_INTERVENTION, MaSuCo::CanXuLy),
        (PRINTER_STATUS_ERROR, MaSuCo::LoiMayIn),
    ];
    for (c, ma) in bang {
        assert_eq!(ma_tu_co_may_in(c), ma, "co 0x{:X}", c);
    }
}

#[test]
fn may_in_khong_co_su_co_la_binh_thuong() {
    assert_eq!(ma_tu_co_may_in(0), MaSuCo::BinhThuong);
    assert_eq!(ma_tu_co_may_in(0x200 | 0x400 | 0x0100_0000), MaSuCo::BinhThuong);
}

#[test]
fn nhieu_co_may_in_lay_theo_uu_tien() {
    assert_eq!(ma_tu_co_may_in(PRINTER_STATUS_ERROR | PRINTER_STATUS_PAPER_OUT), MaSuCo::HetGiay);
    assert_eq!(ma_tu_co_may_in(PRINTER_STATUS_PAPER_JAM | PRINTER_STATUS_OFFLINE), MaSuCo::KetGiay);
    assert_eq!(ma_tu_co_may_in(PRINTER_STATUS_OFFLINE | PRINTER_STATUS_DOOR_OPEN), MaSuCo::Offline);
    assert_eq!(ma_tu_co_may_in(PRINTER_STATUS_DOOR_OPEN | PRINTER_STATUS_USER_INTERVENTION), MaSuCo::MoNap);
    assert_eq!(ma_tu_co_may_in(PRINTER_STATUS_USER_INTERVENTION | PRINTER_STATUS_ERROR), MaSuCo::CanXuLy);
    assert_eq!(ma_tu_co_may_in(PRINTER_STATUS_ERROR | PRINTER_STATUS_TONER_LOW), MaSuCo::LoiMayIn);
}

#[test]
fn co_job_ra_dung_ma_va_uu_tien() {
    assert_eq!(ma_tu_co_job(JOB_STATUS_PAPEROUT), Some(MaSuCo::HetGiay));
    assert_eq!(ma_tu_co_job(JOB_STATUS_OFFLINE), Some(MaSuCo::Offline));
    assert_eq!(ma_tu_co_job(JOB_STATUS_USER_INTERVENTION), Some(MaSuCo::CanXuLy));
    assert_eq!(ma_tu_co_job(JOB_STATUS_ERROR), Some(MaSuCo::LoiMayIn));
    assert_eq!(ma_tu_co_job(JOB_STATUS_BLOCKED_DEVQ), Some(MaSuCo::LoiMayIn));
    assert_eq!(ma_tu_co_job(JOB_STATUS_ERROR | JOB_STATUS_PAPEROUT), Some(MaSuCo::HetGiay));
    assert_eq!(ma_tu_co_job(JOB_STATUS_ERROR | JOB_STATUS_OFFLINE), Some(MaSuCo::Offline));
    assert_eq!(ma_tu_co_job(JOB_STATUS_PRINTING | JOB_STATUS_PRINTED | 0x8), None);
}

#[test]
fn mo_ta_co_ghi_ten_va_hex() {
    assert_eq!(
        mo_ta_co_may_in(PRINTER_STATUS_PAPER_OUT | PRINTER_STATUS_ERROR),
        "PRINTER_STATUS PAPER_OUT|ERROR (0x00000012)"
    );
    assert_eq!(mo_ta_co_job(JOB_STATUS_PAPEROUT), "JOB_STATUS PAPEROUT (0x00000040)");
    assert_eq!(mo_ta_co_may_in(0x0100_0000), "PRINTER_STATUS - (0x01000000)");
}

#[test]
fn moi_ma_loi_deu_co_huong_dan() {
    for ma in TAT_CA.into_iter().filter(|m| *m != MaSuCo::BinhThuong) {
        assert!(!ma.huong_dan().is_empty(), "{:?}", ma);
        assert!(!ma.nhan().is_empty());
    }
}

#[test]
fn huong_dan_khong_bao_gio_bao_in_lai() {
    for ma in TAT_CA {
        let hd = ma.huong_dan().to_lowercase();
        assert!(!hd.contains("in lại") && !hd.contains("in lai"), "{:?}: {}", ma, hd);
    }
    assert_eq!(MaSuCo::HetGiay.huong_dan(), "Nạp giấy vào khay");
    assert_eq!(MaSuCo::KhongXacNhan.huong_dan(), "Xem khay giấy");
    assert_eq!(MaSuCo::LoiMayIn.huong_dan(), "Xem màn hình máy in, tắt/bật lại máy in");
}

#[test]
fn su_co_may_in_la_su_co_vat_ly() {
    for ma in [MaSuCo::HetGiay, MaSuCo::KetGiay, MaSuCo::Offline, MaSuCo::MoNap, MaSuCo::HetMuc,
               MaSuCo::CanXuLy, MaSuCo::LoiMayIn] {
        assert!(ma.la_su_co_may_in(), "{:?}", ma);
    }
    for ma in [MaSuCo::KhongTimThayMayIn, MaSuCo::LoiSumatra, MaSuCo::LoiPdf, MaSuCo::KhongXacNhan, MaSuCo::BinhThuong] {
        assert!(!ma.la_su_co_may_in(), "{:?}", ma);
    }
}

#[test]
fn may_in_tam_dung_va_dung_offline() {
    let (ma, ct) = tinh_trang_may_in(PRINTER_STATUS_PAUSED, 0);
    assert_eq!(ma, MaSuCo::CanXuLy);
    assert!(ct.as_deref().unwrap().starts_with(CHU_HANG_DOI_TAM_DUNG), "{:?}", ct);
    let (ma, ct) = tinh_trang_may_in(0, PRINTER_ATTRIBUTE_WORK_OFFLINE | 0x40);
    assert_eq!(ma, MaSuCo::Offline);
    assert!(ct.as_deref().unwrap().starts_with(CHU_DUNG_OFFLINE), "{:?}", ct);
    assert_eq!(tinh_trang_may_in(PRINTER_STATUS_PAPER_OUT, PRINTER_ATTRIBUTE_WORK_OFFLINE).0, MaSuCo::HetGiay);
    assert_eq!(tinh_trang_may_in(PRINTER_STATUS_PAUSED, PRINTER_ATTRIBUTE_WORK_OFFLINE).0, MaSuCo::Offline);
    let (ma, ct) = tinh_trang_may_in(PRINTER_STATUS_USER_INTERVENTION | PRINTER_STATUS_PAUSED, 0);
    assert_eq!(ma, MaSuCo::CanXuLy);
    assert!(!ct.unwrap().contains(CHU_HANG_DOI_TAM_DUNG));
    assert_eq!(tinh_trang_may_in(0, 0), (MaSuCo::BinhThuong, None));
    assert_eq!(tinh_trang_may_in(PRINTER_STATUS_OFFLINE, 0).1.as_deref(), Some("PRINTER_STATUS OFFLINE (0x00000080)"));
}

#[test]
fn suy_ma_tu_chu_driver() {
    let bang = [
        ("Paper Out", MaSuCo::HetGiay),
        ("Error - Out of paper", MaSuCo::HetGiay),
        ("PAPER EMPTY", MaSuCo::HetGiay),
        ("Load paper in Tray 2", MaSuCo::HetGiay),
        ("Máy in hết giấy", MaSuCo::HetGiay),
        ("HET GIAY", MaSuCo::HetGiay),
        ("Paper jam", MaSuCo::KetGiay),
        ("Kẹt giấy khay 2", MaSuCo::KetGiay),
        ("ket giay", MaSuCo::KetGiay),
        ("Door open", MaSuCo::MoNap),
        ("Front cover open", MaSuCo::MoNap),
        ("lid open", MaSuCo::MoNap),
        ("Mở nắp", MaSuCo::MoNap),
        ("Toner low", MaSuCo::HetMuc),
        ("Ink Low", MaSuCo::HetMuc),
        ("Low toner", MaSuCo::HetMuc),
        ("Sắp hết mực", MaSuCo::HetMuc),
        ("Printer offline", MaSuCo::Offline),
        ("Not connected", MaSuCo::Offline),
        ("Mất kết nối", MaSuCo::Offline),
        ("he\u{302}\u{301}t gia\u{302}\u{301}y", MaSuCo::HetGiay),
        ("Error", MaSuCo::LoiMayIn),
        ("", MaSuCo::LoiMayIn),
    ];
    for (chu, mong) in bang {
        assert_eq!(tinh_chinh_theo_chu(MaSuCo::LoiMayIn, chu), mong, "{:?}", chu);
    }
    assert_eq!(tinh_chinh_theo_chu(MaSuCo::CanXuLy, "Paper jam"), MaSuCo::KetGiay);
    assert_eq!(tinh_chinh_theo_chu(MaSuCo::Offline, "Paper out"), MaSuCo::Offline);
    assert_eq!(tinh_chinh_theo_chu(MaSuCo::KetGiay, "Paper out"), MaSuCo::KetGiay);
    assert_eq!(tinh_chinh_theo_chu(MaSuCo::LoiMayIn, "Paper jam / paper out"), MaSuCo::HetGiay);
}

#[test]
fn het_giay_ma_driver_noi_ket_thi_ket_giay() {
    for chu in ["Paper jam", "Paper Jam in Tray 2", "Kẹt giấy", "KET GIAY khay 2", "jam"] {
        assert_eq!(tinh_chinh_theo_chu(MaSuCo::HetGiay, chu), MaSuCo::KetGiay, "{:?}", chu);
    }
    for chu in ["Paper out", "Paper jam / paper out", "Door open", "", "Error"] {
        assert_eq!(tinh_chinh_theo_chu(MaSuCo::HetGiay, chu), MaSuCo::HetGiay, "{:?}", chu);
    }
    assert_eq!(tinh_chinh_theo_chu(MaSuCo::HetGiay, "Mất kết nối"), MaSuCo::HetGiay);
}

#[test]
fn khong_tieu_luot_khop_backend() {
    for ma in TAT_CA {
        let chan_in_cap_may = ma.chan_in() && !matches!(ma, MaSuCo::LoiSumatra | MaSuCo::LoiPdf | MaSuCo::KhongXacNhan);
        assert_eq!(ma.khong_tieu_luot(), chan_in_cap_may && ma != MaSuCo::LoiMayIn, "{:?}", ma);
    }
    assert!(!MaSuCo::LoiMayIn.khong_tieu_luot());
    assert!(MaSuCo::CanXuLy.khong_tieu_luot() && MaSuCo::KhongTimThayMayIn.khong_tieu_luot());
}

#[test]
fn tap_ma_may_in_va_uu_tien() {
    let nen = cac_ma_may_in(PRINTER_STATUS_PAPER_OUT | PRINTER_STATUS_ERROR, 0);
    assert!(nen.co(MaSuCo::HetGiay) && nen.co(MaSuCo::LoiMayIn) && !nen.co(MaSuCo::Offline));
    assert_eq!(nen.chan_in_uu_tien(), Some(MaSuCo::HetGiay));
    assert_eq!(cac_ma_may_in(PRINTER_STATUS_ERROR, 0).tru(nen).chan_in_uu_tien(), None);
    let moi = cac_ma_may_in(PRINTER_STATUS_ERROR | PRINTER_STATUS_PAPER_JAM, 0).tru(nen);
    assert_eq!(moi.chan_in_uu_tien(), Some(MaSuCo::KetGiay));
    assert_eq!(cac_ma_may_in(PRINTER_STATUS_TONER_LOW, 0).chan_in_uu_tien(), None);
    assert_eq!(cac_ma_may_in(0, PRINTER_ATTRIBUTE_WORK_OFFLINE).chan_in_uu_tien(), Some(MaSuCo::Offline));
    assert!(cac_ma_may_in(0, 0).is_empty());
    assert_eq!(TapMa::tu_danh_sach(&vec![MaSuCo::KhongTimThayMayIn]).chan_in_uu_tien(), Some(MaSuCo::KhongTimThayMayIn));
    assert_eq!(uu_tien_hon(MaSuCo::LoiMayIn, MaSuCo::HetGiay), MaSuCo::HetGiay);
    assert_eq!(uu_tien_hon(MaSuCo::BinhThuong, MaSuCo::HetMuc), MaSuCo::HetMuc);
    assert_eq!(uu_tien_hon(MaSuCo::Offline, MaSuCo::BinhThuong), MaSuCo::Offline);
}

#[test]
fn chu_sach_theo_ma() {
    assert_eq!(bo_dau(&"hế\u{301}t giấy đỏ".chars().collect()), "het giay do");
    assert_eq!(tinh_chinh_theo_chu_sach(MaSuCo::LoiMayIn, "cover open"), MaSuCo::MoNap);
    assert_eq!(tinh_chinh_theo_chu_sach(MaSuCo::HetGiay, "jam"), MaSuCo::KetGiay);
    assert_eq!(tinh_chinh_theo_chu_sach(MaSuCo::Offline, "jam"), MaSuCo::Offline);
}

#[test]
fn hai_tap_cung_ma_la_bang_nhau() {
    let mut a = TapMa::default();
    a.them(MaSuCo::KetGiay);
    a.them(MaSuCo::HetGiay);
    let mut b = TapMa::rong();
    b.them(MaSuCo::HetGiay);
    b.them(MaSuCo::KetGiay);
    b.them(MaSuCo::HetGiay);
    assert_eq!(a, b);
    assert_ne!(a, TapMa::default());
    for m in TAT_CA {
        let mut t = TapMa::default();
        t.them(m);
        assert!(TAT_CA.iter().all(|x| t.co(*x) == (*x == m)), "{:?}", m);
        assert_eq!(t, TapMa::tu_danh_sach(&vec![m, m]));
        assert_eq!(t.tru(t), TapMa::default());
        assert!(!t.is_empty());
    }
    assert_eq!(cac_ma_may_in(PRINTER_STATUS_PAPER_OUT, 0), TapMa::tu_danh_sach(&vec![MaSuCo::HetGiay]));
}

#[test]
fn chu_driver_doc_lai_khong_doi_va_khong_theo_hoa_dau() {
    for m in TAT_CA {
        for s in ["", "  ", "Paper Jam", "kẹt giấy", "HẾT GIẤY", "door open; toner low", "offline", "paper out jam", "???"] {
            let r = tinh_chinh_theo_chu(m, s);
            assert_eq!(tinh_chinh_theo_chu(r, s), r, "{:?} {}", m, s);
            assert_eq!(tinh_chinh_theo_chu(m, &s.to_uppercase()), r, "{:?} {}", m, s);
            if r != m {
                assert!(matches!(m, MaSuCo::LoiMayIn | MaSuCo::CanXuLy | MaSuCo::HetGiay), "{:?} {}", m, s);
            }
        }
        assert_eq!(tinh_chinh_theo_chu(m, " \t"), m);
        assert_eq!(tinh_chinh_theo_chu(m, "ket giay"), tinh_chinh_theo_chu(m, "Kẹt Giấy"));
    }
    assert_eq!(tinh_chinh_theo_chu(MaSuCo::HetGiay, "door open"), MaSuCo::HetGiay);
    assert_eq!(tinh_chinh_theo_chu(MaSuCo::HetGiay, "paper jam"), MaSuCo::KetGiay);
}
