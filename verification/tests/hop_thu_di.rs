use print_agent::bao_cao::HoTro;
use print_agent::gia_tri::GiaTri;
use print_agent::hop_thu_di::cong::CongCoVet;
use print_agent::hop_thu_di::{
    gui_qua, quyet_gui, xa_qua, CanHoTro, CongGui, DuongGui, HopThuDi, KetQuaGui, LoiGuiAck, QuyetGui, ThuDi, CHO_CAU_HINH_MS, TRAN_HOP_THU,
};
use std::sync::atomic::{AtomicBool, Ordering};
use std::sync::{Arc, Mutex};

fn chu(s: &str) -> GiaTri {
    GiaTri::Chuoi(s.to_string())
}

fn dt(ds: &[(&str, GiaTri)]) -> GiaTri {
    GiaTri::DoiTuong(ds.iter().map(|(k, v)| (k.to_string(), sao(v))).collect())
}

fn du() -> HoTro {
    HoTro { khong_ro: true, su_co: true, trang_thai_may_in: true, nhat_ky_app: false, hang_doi: false }
}

#[test]
fn quyet_gui_theo_ket_noi_va_ho_tro() {
    assert_eq!(quyet_gui(false, Some(du()), CanHoTro::KhongCan), QuyetGui::XepHang);
    assert_eq!(quyet_gui(true, None, CanHoTro::KhongCan), QuyetGui::GuiNgay);
    assert_eq!(quyet_gui(true, None, CanHoTro::KhongRo), QuyetGui::XepHang);
    assert_eq!(quyet_gui(true, Some(du()), CanHoTro::KhongRo), QuyetGui::GuiNgay);
    assert_eq!(quyet_gui(true, Some(HoTro::default()), CanHoTro::KhongRo), QuyetGui::Bo);
    assert_eq!(quyet_gui(true, Some(HoTro::default()), CanHoTro::SuCo), QuyetGui::Bo);
    assert_eq!(quyet_gui(true, Some(HoTro::default()), CanHoTro::TrangThaiMayIn), QuyetGui::Bo);
    assert_eq!(quyet_gui(true, Some(HoTro::default()), CanHoTro::KhongCan), QuyetGui::GuiNgay);
}

fn thu(i: usize) -> ThuDi {
    ThuDi { su_kien: "ket-qua", gia_tri: dt(&[("jobId", GiaTri::Chuoi(i.to_string()))]), can: CanHoTro::KhongCan }
}

#[test]
fn hop_thu_co_tran_bo_cu_nhat() {
    let mut h = HopThuDi::moi();
    for i in 0..TRAN_HOP_THU {
        assert!(h.cat(thu(i)).is_none());
    }
    let bo = h.cat(thu(999)).unwrap();
    assert_eq!(bo.gia_tri.chuoi("jobId"), Some("0"));
    assert_eq!(h.len(), TRAN_HOP_THU);
    let ds = h.lay_het();
    assert_eq!(ds.first().unwrap().gia_tri.chuoi("jobId"), Some("1"));
    assert_eq!(ds.last().unwrap().gia_tri.chuoi("jobId"), Some("999"));
    assert!(h.is_empty());
}

#[test]
fn hop_thu_chi_giu_trang_thai_may_in_moi_nhat() {
    let mut h = HopThuDi::moi();
    let tt = |ma: &str| ThuDi { su_kien: "trang-thai-may-in", gia_tri: dt(&[("trangThai", chu(ma))]), can: CanHoTro::TrangThaiMayIn };
    h.cat(tt("het_giay"));
    h.cat(thu(1));
    h.cat(tt("binh_thuong"));
    let ds = h.lay_het();
    assert_eq!(ds.len(), 2);
    assert_eq!(ds[1].gia_tri.chuoi("trangThai"), Some("binh_thuong"));
}

/// A connection that writes down what it sends; `hong` makes it fail.
#[derive(Default)]
struct CongGia {
    da_gui: Mutex<Vec<(String, GiaTri)>>,
    hong: AtomicBool,
}

struct Cong(Arc<CongGia>);

impl CongGui for Cong {
    fn emit(&self, su_kien: &str, gia_tri: &GiaTri) -> Result<(), String> {
        if self.0.hong.load(Ordering::SeqCst) {
            return Err("IllegalActionBeforeOpen".into());
        }
        self.0.da_gui.lock().unwrap().push((su_kien.to_string(), sao(gia_tri)));
        Ok(())
    }

    fn emit_ack(&self, su_kien: &str, gia_tri: &GiaTri, _cho_ms: u64) -> Result<GiaTri, String> {
        self.emit(su_kien, gia_tri)?;
        Ok(dt(&[("ok", GiaTri::Bool(true))]))
    }
}

fn sao(g: &GiaTri) -> GiaTri {
    match g {
        GiaTri::Rong => GiaTri::Rong,
        GiaTri::Bool(b) => GiaTri::Bool(*b),
        GiaTri::So(n) => GiaTri::So(*n),
        GiaTri::SoThuc(s) => GiaTri::SoThuc(s.clone()),
        GiaTri::Chuoi(s) => GiaTri::Chuoi(s.clone()),
        GiaTri::Mang(v) => GiaTri::Mang(v.iter().map(sao).collect()),
        GiaTri::DoiTuong(v) => GiaTri::DoiTuong(v.iter().map(|(k, x)| (k.clone(), sao(x))).collect()),
    }
}

#[test]
fn emit_loi_thi_xep_hang_roi_gui_qua_ket_noi_moi() {
    let mut dg: DuongGui<Cong> = DuongGui::moi();
    let cu = Arc::new(CongGia::default());
    let t0: u64 = 1_000_000;
    dg.mo_ket_noi(Cong(cu.clone()), t0);
    dg.nhan_cau_hinh(du());
    cu.hong.store(true, Ordering::SeqCst);
    let kq = dg.gui("ket-qua", dt(&[("jobId", chu("1790251200000-7")), ("trangThai", chu("da_in"))]), CanHoTro::KhongCan);
    assert_eq!(kq, KetQuaGui::XepHang);
    assert_eq!(dg.so_thu_cho(), 1);

    let moi = Arc::new(CongGia::default());
    dg.mo_ket_noi(Cong(moi.clone()), t0);
    dg.nhan_cau_hinh(du());
    let ra = dg.xa_hop_thu();
    assert_eq!(ra.len(), 1);
    assert_eq!(ra[0].1, KetQuaGui::Co);
    assert_eq!(moi.da_gui.lock().unwrap()[0].1.chuoi("jobId"), Some("1790251200000-7"));
    assert!(cu.da_gui.lock().unwrap().is_empty());
    assert_eq!(dg.so_thu_cho(), 0);
}

#[test]
fn xa_hop_thu_loc_lai_theo_ho_tro_moi() {
    let mut dg: DuongGui<Cong> = DuongGui::moi();
    dg.gui("ket-qua", dt(&[("trangThai", chu("khong_ro"))]), CanHoTro::KhongRo);
    dg.gui("su-co", dt(&[("loai", chu("het_giay"))]), CanHoTro::SuCo);
    dg.gui("ket-qua", dt(&[("trangThai", chu("loi"))]), CanHoTro::KhongCan);
    assert_eq!(dg.so_thu_cho(), 3);

    let moi = Arc::new(CongGia::default());
    let t0: u64 = 1_000_000;
    dg.mo_ket_noi(Cong(moi.clone()), t0);
    let ra = dg.xa_hop_thu();
    assert_eq!(ra.iter().map(|(t, k)| (t.su_kien, *k)).collect::<Vec<_>>(), vec![("ket-qua", KetQuaGui::Co)]);
    assert_eq!(dg.so_thu_cho(), 2);
    assert!(!dg.kiem_ban_cu(t0 + 9_000));
    assert!(dg.kiem_ban_cu(t0 + CHO_CAU_HINH_MS));
    assert!(!dg.kiem_ban_cu(t0 + CHO_CAU_HINH_MS * 2));
    let ra = dg.xa_hop_thu();
    assert!(ra.iter().all(|(_, k)| *k == KetQuaGui::Bo), "{:?}", ra);
    assert_eq!(moi.da_gui.lock().unwrap().len(), 1);
    assert_eq!(dg.gui("ket-qua", dt(&[("trangThai", chu("khong_ro"))]), CanHoTro::KhongRo), KetQuaGui::Bo);
}

#[test]
fn t2_backend_moi_chi_khi_ket_noi_hien_tai_co_cau_hinh() {
    let mut dg: DuongGui<Cong> = DuongGui::moi();
    assert!(!dg.backend_moi());
    let t0: u64 = 1_000_000;
    let the_he = dg.mo_ket_noi(Cong(Arc::new(CongGia::default())), t0);
    assert!(!dg.backend_moi());
    assert!(dg.kiem_ban_cu(t0 + CHO_CAU_HINH_MS));
    assert!(!dg.backend_moi());
    dg.mo_ket_noi(Cong(Arc::new(CongGia::default())), t0);
    dg.nhan_cau_hinh(du());
    assert!(dg.backend_moi());
    dg.dong_ket_noi(the_he);
    assert!(dg.backend_moi());
    let the_he = dg.mo_ket_noi(Cong(Arc::new(CongGia::default())), t0);
    assert!(!dg.backend_moi());
    dg.nhan_cau_hinh(du());
    dg.dong_ket_noi(the_he);
    assert!(!dg.backend_moi());
}

#[test]
fn dong_ket_noi_cu_khong_xoa_ket_noi_moi() {
    let mut dg: DuongGui<Cong> = DuongGui::moi();
    let t0: u64 = 1_000_000;
    let the_he_cu = dg.mo_ket_noi(Cong(Arc::new(CongGia::default())), t0);
    let moi = Arc::new(CongGia::default());
    dg.mo_ket_noi(Cong(moi.clone()), t0);
    dg.dong_ket_noi(the_he_cu);
    assert_eq!(dg.gui("ket-qua", dt(&[]), CanHoTro::KhongCan), KetQuaGui::Co);
    assert_eq!(moi.da_gui.lock().unwrap().len(), 1);
    let the_he_moi = dg.mo_ket_noi(Cong(moi), t0);
    dg.dong_ket_noi(the_he_moi);
    assert_eq!(dg.gui("ket-qua", dt(&[]), CanHoTro::KhongCan), KetQuaGui::XepHang);
}

#[test]
fn xa_hop_thu_dut_giua_chung_giu_thu_tu() {
    let mut dg: DuongGui<Cong> = DuongGui::moi();
    for i in 0..3 {
        dg.gui("ket-qua", dt(&[("jobId", GiaTri::So(i))]), CanHoTro::KhongCan);
    }
    let hong = Arc::new(CongGia::default());
    hong.hong.store(true, Ordering::SeqCst);
    dg.mo_ket_noi(Cong(hong), 0);
    assert!(dg.xa_hop_thu().is_empty());
    let moi = Arc::new(CongGia::default());
    dg.mo_ket_noi(Cong(moi.clone()), 0);
    dg.xa_hop_thu();
    let ids: Vec<i128> = moi
        .da_gui
        .lock()
        .unwrap()
        .iter()
        .map(|(_, v)| match v.truong("jobId") {
            Some(GiaTri::So(n)) => *n,
            _ => panic!("no number"),
        })
        .collect();
    assert_eq!(ids, vec![0, 1, 2]);
}

#[test]
fn gui_ack_chi_khi_ket_noi_hieu() {
    let mut dg: DuongGui<Cong> = DuongGui::moi();
    assert!(matches!(dg.gui_ack_ro("x", GiaTri::Rong, CanHoTro::HangDoi, 1_000), Err(LoiGuiAck::ChuaGui(_))));
    assert!(dg.gui_ack("x", GiaTri::Rong, CanHoTro::HangDoi, 1_000).is_err());
    let cong = Arc::new(CongGia::default());
    dg.mo_ket_noi(Cong(cong.clone()), 0);
    assert!(dg.gui_ngay("x", GiaTri::Rong, CanHoTro::HangDoi).is_err(), "not known yet what it understands");
    assert_eq!(dg.the_he_ho_tro(CanHoTro::HangDoi), None);
    dg.nhan_cau_hinh(HoTro { hang_doi: true, ..HoTro::default() });
    assert!(dg.the_he_ho_tro(CanHoTro::HangDoi).is_some());
    assert!(dg.gui_ngay("x", GiaTri::Rong, CanHoTro::HangDoi).is_ok());
    assert_eq!(dg.gui_ack("x", GiaTri::Rong, CanHoTro::HangDoi, 1_000), Ok(dt(&[("ok", GiaTri::Bool(true))])));
    assert!(dg.gui_ack("x", GiaTri::Rong, CanHoTro::NhatKyApp, 1_000).is_err());
    assert_eq!(cong.da_gui.lock().unwrap().len(), 2);
    assert_eq!(dg.so_thu_cho(), 0, "such requests are never put in the box");
    assert_eq!((KetQuaGui::Co.chu(), KetQuaGui::XepHang.chu(), KetQuaGui::Bo.chu()), ("co", "xep_hang", "bo"));
}

#[test]
fn tra_ve_dau_qua_tran_bo_cu_nhat() {
    let mut h = HopThuDi::moi();
    for i in 0..TRAN_HOP_THU {
        h.cat(thu(i));
    }
    let bo = h.tra_ve_dau(vec![thu(500), thu(501)]);
    assert_eq!(bo, vec![thu(500), thu(501)]);
    assert_eq!(h.len(), TRAN_HOP_THU);
}

#[test]
fn uu_tien_dem_yeu_cau_dang_chay() {
    let mut dg: DuongGui<Cong> = DuongGui::moi();
    assert!(!dg.co_uu_tien());
    dg.giu_uu_tien();
    dg.giu_uu_tien();
    dg.tha_uu_tien();
    assert!(dg.co_uu_tien());
    dg.tha_uu_tien();
    assert!(!dg.co_uu_tien());
}

#[test]
fn gui_qua_tra_lai_thu_khong_gui_duoc() {
    let gia = Arc::new(CongGia::default());
    let mut cong = CongCoVet::moi(Some(Cong(gia.clone())));
    let (kq, con) = gui_qua(&mut cong, None, thu(1));
    assert_eq!(kq, KetQuaGui::Co);
    assert!(con.is_none());
    assert_eq!(gia.da_gui.lock().unwrap().len(), 1);
    let can = |can: CanHoTro| ThuDi { can, ..thu(2) };
    let (kq, con) = gui_qua(&mut cong, Some(HoTro::default()), can(CanHoTro::SuCo));
    assert_eq!(kq, KetQuaGui::Bo);
    assert!(con.is_none());
    let (kq, con) = gui_qua(&mut cong, None, can(CanHoTro::SuCo));
    assert_eq!(kq, KetQuaGui::XepHang);
    assert_eq!(con.unwrap().gia_tri.chuoi("jobId"), Some("2"));
    gia.hong.store(true, Ordering::SeqCst);
    let (kq, con) = gui_qua(&mut cong, None, thu(3));
    assert_eq!(kq, KetQuaGui::XepHang);
    assert_eq!(con.unwrap().gia_tri.chuoi("jobId"), Some("3"));
    let mut khong_noi = CongCoVet::<Cong>::moi(None);
    let (kq, con) = gui_qua(&mut khong_noi, Some(du()), thu(4));
    assert_eq!(kq, KetQuaGui::XepHang);
    assert_eq!(con.unwrap().gia_tri.chuoi("jobId"), Some("4"));
    assert_eq!(gia.da_gui.lock().unwrap().len(), 1);
}

#[test]
fn xa_qua_dung_lai_o_thu_dau_tien_hong() {
    let gia = Arc::new(CongGia::default());
    let mut cong = CongCoVet::moi(Some(Cong(gia.clone())));
    let cho = ThuDi { can: CanHoTro::KhongRo, ..thu(1) };
    let (ra, con) = xa_qua(&mut cong, None, vec![thu(0), cho, thu(2)]);
    assert_eq!(ra.iter().map(|(t, k)| (t.gia_tri.chuoi("jobId"), *k)).collect::<Vec<_>>(), vec![
        (Some("0"), KetQuaGui::Co),
        (Some("2"), KetQuaGui::Co),
    ]);
    assert_eq!(con.len(), 1);
    gia.hong.store(true, Ordering::SeqCst);
    let bo = ThuDi { can: CanHoTro::SuCo, ..thu(5) };
    let (ra, con) = xa_qua(&mut cong, Some(HoTro::default()), vec![bo, thu(6), thu(7)]);
    assert_eq!(ra.iter().map(|(_, k)| *k).collect::<Vec<_>>(), vec![KetQuaGui::Bo]);
    let ids: Vec<_> = con.iter().map(|t| t.gia_tri.chuoi("jobId").unwrap().to_string()).collect();
    assert_eq!(ids, vec!["6", "7"]);
    assert_eq!(gia.da_gui.lock().unwrap().len(), 2);
}

#[test]
fn lay_thu_roi_tra_thu_giu_thu_tu() {
    let mut dg: DuongGui<Cong> = DuongGui::default();
    for i in 0..3 {
        assert!(dg.cat(thu(i)).is_none());
    }
    let ds = dg.lay_thu();
    assert_eq!(dg.so_thu_cho(), 0);
    dg.cat(thu(9));
    assert!(dg.tra_thu(ds).is_empty());
    let ids: Vec<_> = dg.lay_thu().iter().map(|t| t.gia_tri.chuoi("jobId").unwrap().to_string()).collect();
    assert_eq!(ids, vec!["0", "1", "2", "9"]);
    for i in 0..TRAN_HOP_THU {
        assert!(dg.cat(thu(i)).is_none());
    }
    assert_eq!(dg.cat(thu(999)).unwrap().gia_tri.chuoi("jobId"), Some("0"));
    let tran = dg.tra_thu(vec![thu(500), thu(501)]);
    assert_eq!(tran.len(), 2);
    assert_eq!(tran[0].gia_tri.chuoi("jobId"), Some("500"));
    assert_eq!(dg.so_thu_cho(), TRAN_HOP_THU);
}

#[test]
fn su_kien_di_qua_ket_noi_hien_tai() {
    let (cu, moi) = (Arc::new(CongGia::default()), Arc::new(CongGia::default()));
    let mut dg = DuongGui::moi();
    assert!(dg.hien_tai().0.is_none());
    dg.mo_ket_noi(Cong(cu.clone()), 1);
    dg.gui("ket-qua", dt(&[]), CanHoTro::KhongCan);
    dg.mo_ket_noi(Cong(moi.clone()), 2);
    dg.nhan_cau_hinh(du());
    assert_eq!(dg.hien_tai().1, Some(du()));
    assert!(Arc::ptr_eq(&dg.hien_tai().0.unwrap().0, &moi));
    dg.gui("ket-qua", dt(&[]), CanHoTro::KhongCan);
    assert_eq!(cu.da_gui.lock().unwrap().len(), 1);
    assert_eq!(moi.da_gui.lock().unwrap().len(), 1);
    assert!(HopThuDi::default().is_empty());
}

struct CongKhongAck;

impl CongGui for CongKhongAck {
    fn emit(&self, _su_kien: &str, _gia_tri: &GiaTri) -> Result<(), String> {
        Ok(())
    }
}

#[test]
fn cong_khong_ho_tro_ack_thi_noi_ra() {
    let mut dg = DuongGui::moi();
    dg.mo_ket_noi(CongKhongAck, 0);
    dg.nhan_cau_hinh(HoTro { nhat_ky_app: true, ..HoTro::default() });
    let r = dg.gui_ack_ro("nhat-ky-app", dt(&[]), CanHoTro::NhatKyApp, 1_000);
    assert_eq!(r, Err(LoiGuiAck::SauKhiGui("cong khong ho tro ack".into())));
}

#[test]
fn con_so_cho_ket_noi_moi() {
    let mut dg: DuongGui<Cong> = DuongGui::moi();
    for i in 1..4 {
        assert!(dg.con_so_ket_noi());
        assert_eq!(dg.mo_ket_noi(Cong(Arc::new(CongGia::default())), 0), i);
    }
}
