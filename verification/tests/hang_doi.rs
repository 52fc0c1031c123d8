use print_agent::bao_cao::{HangDoiServer, HoTro, MucHangDoi};
use print_agent::gia_tri::GiaTri;
use print_agent::hang_doi::khoi::{chu_dai_tam_giu, CheDo, KhoiHangDoi, MauDong, NutDong};
use print_agent::hang_doi::yeu_cau::{gui_yeu_cau, KenhCoVet, KenhYeuCau, CHO_ACK_MS};
use print_agent::hang_doi::{
    HangDoiApp, KetCuc, LoaiViec, CHONG_BAM_DUP_MS, CU_SAU_MS, GIU_DA_BO_MS, GIU_DA_HUY_MS, GIU_TONG_KET_MS,
    SO_LAN_GUI_TOI_DA, VI_SAO_CHUA_XAC_NHAN, VI_SAO_DANG_IN,
};
use print_agent::hop_thu_di::{CanHoTro, CongGui, DuongGui, LoiGuiAck};
use print_agent::su_co::MaSuCo;
use std::cell::RefCell;
use std::rc::Rc;

fn muc(id: &str, trang_thai: &str, tam_giu: bool) -> MucHangDoi {
    MucHangDoi {
        id: id.into(),
        so_hoa_don: format!("INV/{}", id),
        ten_khach: Some("Anh Dev".into()),
        trang_thai: trang_thai.into(),
        nhom: if trang_thai == "khong_ro" { "chua_xac_nhan" } else { "cho_in" }.into(),
        ly_do: String::new(),
        tam_giu,
        tao: "2026-09-25T11:45:00.000Z".into(),
        huy: if trang_thai == "cho_in" { "chac_chan" } else { "khong" }.into(),
    }
}

fn anh(cho: Vec<MucHangDoi>, cxn: Vec<MucHangDoi>) -> HangDoiServer {
    HangDoiServer { cho_in: cho, chua_xac_nhan: cxn, cap_nhat: String::new() }
}

fn san_sang(a: HangDoiServer, t: u64) -> HangDoiApp {
    let mut h = HangDoiApp::default();
    h.nhan_cau_hinh(true);
    h.nhan_anh(a, t);
    h
}

fn khoi(h: &HangDoiApp, da_noi: bool, t: u64) -> KhoiHangDoi {
    h.khoi(da_noi, Some(MaSuCo::HetGiay), t, &|tao: &str| format!("<{}>", tao))
}

fn che_do(h: &HangDoiApp, t: u64) -> Vec<(String, CheDo)> {
    khoi(h, true, t).dong.into_iter().map(|d| (d.id, d.che_do)).collect()
}

fn sau(t: u64) -> u64 {
    t + CHONG_BAM_DUP_MS
}

fn dang_huy(h: &mut HangDoiApp, id: &str, t: u64) -> MucHangDoi {
    assert!(h.bam_huy(id, true, t));
    h.bat_dau(id, LoaiViec::Huy, true, sau(t)).unwrap()
}

fn duoc() -> KetCuc {
    KetCuc::Duoc { cach: "chua_gui".into(), noi_dung: String::new() }
}

#[test]
fn muoi_hoa_don_tam_giu_hien_du_va_dai_cam() {
    let t: u64 = 1_000_000;
    let ds: Vec<_> = (0..10).map(|i| muc(&format!("j{i}"), "cho_in", true)).collect();
    let h = san_sang(anh(ds, vec![]), t);
    let k = khoi(&h, true, t);
    assert!(k.hien);
    assert_eq!(k.tieu_de, "HÀNG ĐỢI (10)");
    assert_eq!(k.dong.len(), 10);
    assert!(k.dong.iter().all(|d| d.nut == NutDong::Huy && d.bat_nut && d.mau == MauDong::TamGiu));
    assert_eq!(
        k.dai_tam_giu,
        "10 hoá đơn đang chờ — máy in Hết giấy. Nạp giấy là tự in. Hoá đơn nào không cần nữa: bấm Huỷ TRƯỚC khi nạp giấy."
    );
    assert_eq!(k.so_huy_ca, 10);
    assert_eq!(k.dong[0].tieu_de, "INV/j0 · Anh Dev");
    assert_eq!(k.dong[0].trang_thai, "Tạm giữ — chờ máy in hết lỗi");
}

#[test]
fn huy_thanh_cong_hien_5_giay_roi_bien_mat() {
    let t: u64 = 1_000_000;
    let mut h = san_sang(anh(vec![muc("a", "cho_in", true), muc("b", "cho_in", true)], vec![]), t);
    assert!(h.bam_huy("a", true, t));
    assert_eq!(che_do(&h, t)[0].1, CheDo::XacNhanHuy);
    assert_eq!(khoi(&h, true, t).dong[0].thong_diep, "Huỷ lệnh in INV/a? Hoá đơn này sẽ KHÔNG được in.");
    let m = h.bat_dau("a", LoaiViec::Huy, true, sau(t)).unwrap();
    assert_eq!(m.id, "a");
    assert_eq!(h.bat_dau("a", LoaiViec::Huy, true, sau(t)), None);
    assert_eq!(che_do(&h, t)[0].1, CheDo::Dang);
    h.ket_thuc("a", LoaiViec::Huy, &duoc(), t);
    h.nhan_anh(anh(vec![muc("b", "cho_in", true)], vec![]), t);
    let k = khoi(&h, true, t);
    assert_eq!(k.dong.iter().map(|d| (d.id.as_str(), d.che_do)).collect::<Vec<_>>(), vec![("a", CheDo::DaHuy), ("b", CheDo::BinhThuong)]);
    assert_eq!(k.dong[0].thong_diep, "Đã huỷ — hoá đơn chắc chắn không in");
    assert_eq!(k.tieu_de, "HÀNG ĐỢI (1)");
    h.don_dep(t + 4_000);
    assert_eq!(che_do(&h, t).len(), 2);
    h.don_dep(t + GIU_DA_HUY_MS);
    assert_eq!(che_do(&h, t), vec![("b".to_string(), CheDo::BinhThuong)]);
}

#[test]
fn bam_dup_khong_huy_ngay() {
    let t: u64 = 1_000_000;
    let mut h = san_sang(anh(vec![muc("a", "cho_in", true)], vec![]), t);
    assert!(h.bam_huy("a", true, t));
    assert_eq!(h.bat_dau("a", LoaiViec::Huy, true, t + 150), None);
    assert_eq!(che_do(&h, t)[0].1, CheDo::XacNhanHuy);
    assert!(h.bat_dau("a", LoaiViec::Huy, true, sau(t)).is_some());
    let mut h = san_sang(anh(vec![muc("a", "cho_in", true), muc("b", "cho_in", true)], vec![]), t);
    assert!(h.bam_huy_ca(true, t));
    assert!(h.bat_dau_loat(true, t + 100).is_empty());
    assert_eq!(h.bat_dau_loat(true, sau(t)).len(), 2);
}

#[test]
fn huy_that_bai_giu_do_toi_khi_dong() {
    let t: u64 = 1_000_000;
    let mut h = san_sang(anh(vec![muc("a", "cho_in", true)], vec![]), t);
    dang_huy(&mut h, "a", t);
    h.ket_thuc(
        "a",
        LoaiViec::Huy,
        &KetCuc::KhongDuoc { loi: "DANG_IN".into(), noi_dung: "Hoá đơn đang được gửi/in ở máy in".into() },
        t,
    );
    h.don_dep(t + 3600_000);
    let d = &khoi(&h, true, t).dong[0];
    assert_eq!(d.che_do, CheDo::ThatBai);
    assert_eq!(d.thong_diep, "Không huỷ được: Hoá đơn đang được gửi/in ở máy in");
    assert!(!d.thong_diep.contains("Đã huỷ"));
    h.dong("a");
    assert_eq!(che_do(&h, t)[0].1, CheDo::BinhThuong);
}

#[test]
fn chua_gui_va_chua_ro_noi_dung_su_that() {
    let t: u64 = 1_000_000;
    let mut h = san_sang(anh(vec![muc("a", "cho_in", true), muc("b", "cho_in", true), muc("c", "cho_in", true)], vec![]), t);
    for id in ["a", "b", "c"] {
        dang_huy(&mut h, id, t);
    }
    h.ket_thuc("a", LoaiViec::Huy, &KetCuc::ChuaGui { ly_do: "chua ket noi".into() }, t);
    h.ket_thuc("b", LoaiViec::Huy, &KetCuc::ChuaRo { ly_do: "het gio".into() }, t);
    h.ket_thuc("c", LoaiViec::Huy, &KetCuc::ChuaGui { ly_do: "backend chua ho tro".into() }, t);
    let k = khoi(&h, true, t);
    assert_eq!(k.dong[0].che_do, CheDo::ThatBai);
    assert!(k.dong[0].thong_diep.starts_with("CHƯA huỷ — không gửi được"), "{}", k.dong[0].thong_diep);
    assert!(k.dong[0].co_nut_huy_lai);
    assert_eq!(k.dong[1].che_do, CheDo::ChuaRo);
    assert!(k.dong[1].thong_diep.contains("VẪN đang chờ"), "{}", k.dong[1].thong_diep);
    assert!(k.dong[1].co_nut_huy_lai);
    assert!(k.dong[2].thong_diep.contains("chưa hỗ trợ"), "{}", k.dong[2].thong_diep);
    assert!(h.bam_huy("b", true, t));
    assert_eq!(khoi(&h, true, t).dong[1].che_do, CheDo::XacNhanHuy);
    h.dong("b");
    let mut h2 = san_sang(anh(vec![muc("a", "cho_in", true)], vec![]), t);
    dang_huy(&mut h2, "a", t);
    h2.ket_thuc("a", LoaiViec::Huy, &KetCuc::ChuaRo { ly_do: "het gio".into() }, t);
    h2.nhan_anh(anh(vec![], vec![]), t);
    let d = &khoi(&h2, true, t).dong[0];
    assert!(d.thong_diep.contains("đã rời hàng đợi") && !d.co_nut_huy_lai, "{}", d.thong_diep);
}

#[test]
fn xac_nhan_dong_khi_hoa_don_vua_duoc_gui() {
    let t: u64 = 1_000_000;
    let mut h = san_sang(anh(vec![muc("a", "cho_in", true)], vec![]), t);
    h.bam_huy("a", true, t);
    h.nhan_anh(anh(vec![muc("a", "dang_gui", false)], vec![]), t);
    let d = &khoi(&h, true, t).dong[0];
    assert_eq!((d.che_do, d.nut, d.mau), (CheDo::BinhThuong, NutDong::ViSao, MauDong::DangIn));
    assert_eq!(h.bat_dau("a", LoaiViec::Huy, true, sau(t)), None);
    assert!(!h.bam_huy("a", true, t));
}

#[test]
fn mat_ket_noi_khoa_nut_va_ghi_chu() {
    let t: u64 = 1_000_000;
    let mut h = san_sang(anh(vec![muc("a", "cho_in", true)], vec![]), t);
    h.bam_huy("a", true, t);
    let k = khoi(&h, false, t);
    assert_eq!(k.ghi_chu, "có thể chưa cập nhật — app đang mất kết nối");
    assert!(!k.dong[0].bat_nut);
    assert_eq!(k.dong[0].che_do, CheDo::BinhThuong);
    assert_eq!(k.so_huy_ca, 0);
    assert_eq!(h.bat_dau("a", LoaiViec::Huy, false, sau(t)), None);
    assert!(!h.bam_huy("a", false, t));
    h.ket_noi_moi();
    let k = khoi(&h, true, t);
    assert_eq!(k.ghi_chu, "đang tải lại…");
    assert!(!k.dong[0].bat_nut);
    assert_eq!(h.co_trong_anh("a"), None);
    h.nhan_anh(anh(vec![muc("a", "cho_in", true)], vec![]), t);
    assert!(khoi(&h, true, t).dong[0].bat_nut);
    assert_eq!(h.co_trong_anh("a"), Some(true));
    assert_eq!(h.co_trong_anh("x"), Some(false));
    assert_eq!(khoi(&h, true, t + CU_SAU_MS).ghi_chu, "có thể chưa cập nhật");
}

#[test]
fn chua_xac_nhan_vi_sao_roi_bo_theo_doi() {
    let t: u64 = 1_000_000;
    let mut h = san_sang(anh(vec![], vec![muc("k", "khong_ro", false)]), t);
    let k = khoi(&h, true, t);
    assert_eq!(k.tieu_de, "HÀNG ĐỢI (0) · 1 chưa xác nhận");
    assert_eq!((k.dong[0].nut, k.dong[0].mau), (NutDong::ViSao, MauDong::ChuaXacNhan));
    assert!(!h.bam_huy("k", true, t));
    assert!(h.bam_vi_sao("k"));
    let d = &khoi(&h, true, t).dong[0];
    assert_eq!((d.che_do, d.co_nut_bo), (CheDo::ViSao, true));
    assert_eq!(d.thong_diep, VI_SAO_CHUA_XAC_NHAN);
    assert!(h.bam_bo("k", true, t));
    assert!(khoi(&h, true, t).dong[0].thong_diep.starts_with("Bỏ INV/k khỏi hàng đợi?"));
    assert_eq!(h.bat_dau("k", LoaiViec::Huy, true, sau(t)), None);
    h.bat_dau("k", LoaiViec::BoTheoDoi, true, sau(t)).unwrap();
    h.ket_thuc("k", LoaiViec::BoTheoDoi, &KetCuc::Duoc { cach: String::new(), noi_dung: "Đã huỷ".into() }, t);
    let d = &khoi(&h, true, t).dong[0];
    assert_eq!(d.che_do, CheDo::DaBo);
    assert!(!d.thong_diep.contains("huỷ") && !d.thong_diep.contains("Huỷ"), "{}", d.thong_diep);
    h.don_dep(t + GIU_DA_HUY_MS);
    assert_eq!(che_do(&h, t)[0].1, CheDo::DaBo);
    h.don_dep(t + GIU_DA_BO_MS);
    h.nhan_anh(anh(vec![], vec![]), t);
    assert!(!khoi(&h, true, t).hien);
}

#[test]
fn dang_gui_vi_sao() {
    let t: u64 = 1_000_000;
    let mut h = san_sang(anh(vec![muc("a", "dang_gui", false)], vec![]), t);
    assert!(h.bam_vi_sao("a"));
    let d = &khoi(&h, true, t).dong[0];
    assert_eq!((d.thong_diep.as_str(), d.co_nut_bo), (VI_SAO_DANG_IN, false));
    assert!(!h.bam_bo("a", true, t));
    h.dong("a");
    assert_eq!(khoi(&h, true, t).dong[0].che_do, CheDo::BinhThuong);
}

#[test]
fn mot_hop_thoai_mot_luc() {
    let t: u64 = 1_000_000;
    let mut h = san_sang(anh(vec![muc("a", "cho_in", true), muc("b", "cho_in", true)], vec![]), t);
    h.bam_huy("a", true, t);
    h.bam_huy("b", true, t);
    assert_eq!(che_do(&h, t), vec![("a".into(), CheDo::BinhThuong), ("b".into(), CheDo::XacNhanHuy)]);
    assert_eq!(h.bat_dau("a", LoaiViec::Huy, true, sau(t)), None);
}

#[test]
fn huy_ca_chot_danh_sach_luc_hoi_va_tong_ket() {
    let t: u64 = 1_000_000;
    let mut h = san_sang(anh(vec![muc("a", "cho_in", true), muc("b", "cho_in", true)], vec![]), t);
    assert!(h.bam_huy_ca(true, t));
    assert_eq!(khoi(&h, true, t).loat_che_do, 1);
    assert!(khoi(&h, true, t).loat_chu.starts_with("Huỷ cả 2 lệnh"));
    assert_eq!(khoi(&h, true, t).loat_nut, "Huỷ 2 lệnh in");
    h.nhan_anh(anh(vec![muc("a", "cho_in", true), muc("b", "cho_in", true), muc("c", "cho_in", true)], vec![]), t);
    let ds = h.bat_dau_loat(true, sau(t));
    assert_eq!(ds.iter().map(|m| m.id.as_str()).collect::<Vec<_>>(), vec!["a", "b"]);
    assert_eq!(khoi(&h, true, t).loat_chu, "Đang huỷ 0/2 lệnh in…");
    h.ket_thuc("a", LoaiViec::Huy, &duoc(), t);
    h.ket_thuc("b", LoaiViec::Huy, &KetCuc::KhongDuoc { loi: "DANG_IN".into(), noi_dung: "x".into() }, t);
    let k = khoi(&h, true, t);
    assert_eq!(k.loat_che_do, 4);
    assert!(k.loat_chu.starts_with("Đã huỷ 1/2"));
    assert_eq!(k.dong.iter().find(|d| d.id == "c").unwrap().che_do, CheDo::BinhThuong);
    h.don_dep(t + 3600_000);
    assert_eq!(khoi(&h, true, t).loat_che_do, 4);
    h.dong_loat();
    assert_eq!(khoi(&h, true, t).loat_che_do, 0);
}

#[test]
fn huy_ca_khong_dem_lenh_le_song_song() {
    let t: u64 = 1_000_000;
    let mut h = san_sang(
        anh(vec![muc("a", "cho_in", true), muc("b", "cho_in", true), muc("c", "cho_in", false)], vec![]),
        t,
    );
    dang_huy(&mut h, "c", t);
    assert!(h.bam_huy_ca(true, t));
    let ds = h.bat_dau_loat(true, sau(t));
    assert_eq!(ds.len(), 2);
    h.ket_thuc("c", LoaiViec::Huy, &duoc(), t);
    h.ket_thuc("a", LoaiViec::Huy, &duoc(), t);
    assert_eq!(khoi(&h, true, t).loat_chu, "Đang huỷ 1/2 lệnh in…");
    h.ket_thuc("b", LoaiViec::Huy, &KetCuc::KhongDuoc { loi: "DANG_IN".into(), noi_dung: "x".into() }, t);
    assert!(khoi(&h, true, t).loat_chu.starts_with("Đã huỷ 1/2"));
}

#[test]
fn huy_ca_thanh_cong_het_tu_tat() {
    let t: u64 = 1_000_000;
    let mut h = san_sang(anh(vec![muc("a", "cho_in", true)], vec![]), t);
    h.bam_huy_ca(true, t);
    let ds = h.bat_dau_loat(true, sau(t));
    h.ket_thuc(&ds[0].id, LoaiViec::Huy, &duoc(), t);
    assert_eq!(khoi(&h, true, t).loat_chu, "Đã huỷ 1/1 lệnh in");
    h.don_dep(t + GIU_TONG_KET_MS);
    assert_eq!(khoi(&h, true, t).loat_che_do, 0);
}

#[test]
fn con_dang_sau_khi_luu() {
    let t: u64 = 1_000_000;
    let mut h = san_sang(anh(vec![muc("a", "cho_in", true)], vec![]), t);
    dang_huy(&mut h, "a", t);
    assert!(h.con_dang("a"));
    let h = HangDoiApp::default();
    assert!(!h.con_dang("a"));
}

#[test]
fn backend_khong_ho_tro_an_khoi() {
    let t: u64 = 1_000_000;
    let mut h = san_sang(anh(vec![muc("a", "cho_in", true)], vec![]), t);
    h.nhan_cau_hinh(false);
    assert!(!khoi(&h, true, t).hien);
    assert!(!h.bam_huy("a", true, t));
}

#[test]
fn cau_dai_tam_giu_theo_ma() {
    assert!(chu_dai_tam_giu(2, Some(MaSuCo::KetGiay)).contains("Gỡ giấy kẹt là tự in"));
    assert!(chu_dai_tam_giu(2, Some(MaSuCo::BinhThuong)).contains("sắp tự in"));
    assert!(chu_dai_tam_giu(2, None).contains("đang được giữ lại vì máy in đang lỗi"));
    assert!(!chu_dai_tam_giu(2, None).contains("sắp"));
    for ma in [None, Some(MaSuCo::HetGiay), Some(MaSuCo::Offline), Some(MaSuCo::LoiMayIn), Some(MaSuCo::HetMuc)] {
        assert!(!chu_dai_tam_giu(3, ma).to_lowercase().contains("in lại"));
    }
}

#[test]
fn nhan_anh_chi_tom_tat_khi_so_luong_doi() {
    let t: u64 = 1_000_000;
    let mut h = HangDoiApp::default();
    h.nhan_cau_hinh(true);
    assert!(h.nhan_anh(anh(vec![muc("a", "cho_in", true)], vec![]), t).is_some());
    assert!(h.nhan_anh(anh(vec![muc("b", "cho_in", true)], vec![]), t).is_none());
    assert_eq!(h.nhan_anh(anh(vec![], vec![]), t).as_deref(), Some("cho_in=0 tam_giu=0 chua_xac_nhan=0"));
}

#[test]
fn dong_nhat_ky_bat_dau_ok() {
    let m = muc("a", "cho_in", true);
    assert!(duoc().dong_nhat_ky(&m).starts_with("ok=true "));
    for kc in [
        KetCuc::KhongDuoc { loi: "DA_IN".into(), noi_dung: "x".into() },
        KetCuc::ChuaGui { ly_do: "x".into() },
        KetCuc::ChuaRo { ly_do: "x".into() },
    ] {
        assert!(kc.dong_nhat_ky(&m).starts_with("ok=false "));
    }
}


fn chu(s: &str) -> GiaTri {
    GiaTri::Chuoi(s.to_string())
}

fn dt(ds: Vec<(&str, GiaTri)>) -> GiaTri {
    GiaTri::DoiTuong(ds.into_iter().map(|(k, v)| (k.to_string(), v)).collect())
}

fn tra_loi(id: &str, ok: bool, khoa: &str, gia_tri: &str, noi_dung: &str) -> Result<GiaTri, String> {
    Ok(dt(vec![("id", chu(id)), ("ok", GiaTri::Bool(ok)), (khoa, chu(gia_tri)), ("noiDung", chu(noi_dung))]))
}

fn tra_loi_la(so_dong: i128) -> Result<GiaTri, String> {
    Ok(dt(vec![("ok", GiaTri::Bool(true)), ("soDong", GiaTri::So(so_dong))]))
}

/// A connection that takes its replies from a list.
struct CongKichBan {
    phan_hoi: RefCell<Vec<Result<GiaTri, String>>>,
    da_gui: RefCell<Vec<(String, String)>>,
}

struct Cong(Rc<CongKichBan>);

impl CongGui for Cong {
    fn emit(&self, _: &str, _: &GiaTri) -> Result<(), String> {
        Ok(())
    }

    fn emit_ack(&self, su_kien: &str, gia_tri: &GiaTri, _cho_ms: u64) -> Result<GiaTri, String> {
        self.0.da_gui.borrow_mut().push((su_kien.into(), gia_tri.chuoi("printJobId").unwrap().into()));
        let mut p = self.0.phan_hoi.borrow_mut();
        if p.is_empty() {
            Err("het gio cho ack".into())
        } else {
            p.remove(0)
        }
    }
}

fn duong(phan_hoi: Vec<Result<GiaTri, String>>, hang_doi: bool) -> (DuongGui<Cong>, Rc<CongKichBan>) {
    let mut dg = DuongGui::moi();
    let cong = Rc::new(CongKichBan { phan_hoi: RefCell::new(phan_hoi), da_gui: RefCell::new(Vec::new()) });
    dg.mo_ket_noi(Cong(cong.clone()), 1_000_000);
    dg.nhan_cau_hinh(HoTro { hang_doi, ..HoTro::default() });
    (dg, cong)
}

/// The outside of a request: every pause also uses up the wait for a reply.
struct Kenh {
    dg: DuongGui<Cong>,
    con_tiep: bool,
    lan_cuoi: u32,
    bay_gio: u64,
}

impl KenhYeuCau for Kenh {
    fn con_tiep(&mut self) -> bool {
        self.con_tiep
    }

    fn bao_lan(&mut self, lan: u32, _da_gui: u32) {
        self.lan_cuoi = lan;
    }

    fn gui_ack_ro(
        &mut self,
        su_kien: &'static str,
        gia_tri: GiaTri,
        can: CanHoTro,
        cho_ms: u64,
    ) -> Result<GiaTri, LoiGuiAck> {
        self.dg.gui_ack_ro(su_kien, gia_tri, can, cho_ms)
    }

    fn ngu(&mut self, ms: u64) {
        self.bay_gio += ms + CHO_ACK_MS;
    }

    fn bay_gio_ms(&mut self) -> u64 {
        self.bay_gio
    }
}

fn chay(dg: DuongGui<Cong>, loai: LoaiViec) -> (KetCuc, u32) {
    let mut kenh = KenhCoVet::moi(Kenh { dg, con_tiep: true, lan_cuoi: 0, bay_gio: 1_000_000 });
    let kc = gui_yeu_cau(&mut kenh, loai, "a");
    (kc, kenh.tra_lai().lan_cuoi)
}

#[test]
fn gui_ok_mot_lan() {
    let (dg, cong) = duong(vec![tra_loi("a", true, "cach", "chua_gui", "Đã huỷ")], true);
    let (kc, lan) = chay(dg, LoaiViec::Huy);
    assert_eq!(kc, KetCuc::Duoc { cach: "chua_gui".into(), noi_dung: "Đã huỷ".into() });
    assert_eq!(lan, 1);
    assert_eq!(cong.da_gui.borrow()[0], ("yeu-cau-huy".to_string(), "a".to_string()));
}

#[test]
fn ack_khong_dung_id_khong_bao_gio_la_da_huy() {
    let (dg, cong) = duong(
        vec![
            tra_loi_la(5),
            tra_loi("khac", true, "cach", "chua_gui", "Đã huỷ"),
            tra_loi("a", false, "loi", "DANG_IN", "đang in"),
        ],
        true,
    );
    let (kc, _) = chay(dg, LoaiViec::Huy);
    assert_eq!(kc, KetCuc::KhongDuoc { loi: "DANG_IN".into(), noi_dung: "đang in".into() });
    assert_eq!(cong.da_gui.borrow().len(), 3);
    let (dg, _) = duong(vec![tra_loi_la(1), tra_loi_la(1), tra_loi_la(1)], true);
    assert!(matches!(chay(dg, LoaiViec::Huy).0, KetCuc::ChuaRo { .. }));
}

#[test]
fn het_gio_hoi_lai_ra_cau_tra_loi_chac() {
    let (dg, _) = duong(
        vec![Err("het gio cho ack".into()), tra_loi("a", true, "cach", "da_huy_truoc", "")],
        true,
    );
    let (kc, lan) = chay(dg, LoaiViec::Huy);
    assert_eq!(kc, KetCuc::Duoc { cach: "da_huy_truoc".into(), noi_dung: String::new() });
    assert_eq!(lan, 2);
}

#[test]
fn khong_duoc_tra_ngay_khong_hoi_lai() {
    let (dg, cong) = duong(vec![tra_loi("a", false, "loi", "DA_IN", "đã in")], true);
    let (kc, _) = chay(dg, LoaiViec::Huy);
    assert_eq!(kc, KetCuc::KhongDuoc { loi: "DA_IN".into(), noi_dung: "đã in".into() });
    assert_eq!(cong.da_gui.borrow().len(), 1);
}

#[test]
fn gui_ma_khong_ai_tra_loi_la_chua_ro_toi_da_3_lan() {
    let (dg, cong) = duong(vec![], true);
    let (kc, _) = chay(dg, LoaiViec::BoTheoDoi);
    assert!(matches!(kc, KetCuc::ChuaRo { .. }), "{kc:?}");
    let g = cong.da_gui.borrow();
    assert_eq!(g.len() as u32, SO_LAN_GUI_TOI_DA);
    assert_eq!(g[0].0, "yeu-cau-bo-theo-doi");
}

#[test]
fn khong_ket_noi_la_chua_gui() {
    let dg: DuongGui<Cong> = DuongGui::moi();
    let (kc, lan) = chay(dg, LoaiViec::Huy);
    assert_eq!(kc, KetCuc::ChuaGui { ly_do: "chua ket noi".into() });
    assert!(lan >= 2);
}

#[test]
fn backend_khong_ho_tro_la_chua_gui() {
    let (dg, cong) = duong(vec![], false);
    let (kc, _) = chay(dg, LoaiViec::Huy);
    assert!(matches!(kc, KetCuc::ChuaGui { .. }));
    assert!(cong.da_gui.borrow().is_empty());
}

#[test]
fn thoi_gui_khi_yeu_cau_bi_xoa() {
    let (dg, cong) = duong(vec![], true);
    let mut kenh = KenhCoVet::moi(Kenh { dg, con_tiep: false, lan_cuoi: 0, bay_gio: 1_000_000 });
    let kc = gui_yeu_cau(&mut kenh, LoaiViec::Huy, "a");
    assert!(matches!(kc, KetCuc::ChuaGui { .. }));
    assert!(cong.da_gui.borrow().is_empty());
}

#[test]
fn khoi_co_gio_may_va_du_muc_dung_thu_tu() {
    let t: u64 = 1_000_000;
    let mut h = san_sang(anh(vec![muc("a", "cho_in", true), muc("b", "cho_in", false)], vec![muc("k", "khong_ro", false)]), t);
    let k = khoi(&h, true, t);
    assert!(k.dong.iter().all(|d| d.gio == "<2026-09-25T11:45:00.000Z>" && d.tao == "2026-09-25T11:45:00.000Z"));
    assert_eq!(k.dong.iter().map(|d| d.id.as_str()).collect::<Vec<_>>(), vec!["a", "b", "k"]);
    dang_huy(&mut h, "a", t);
    h.nhan_anh(anh(vec![muc("b", "cho_in", false), muc("c", "cho_in", false)], vec![muc("k", "khong_ro", false)]), t);
    let ids: Vec<_> = khoi(&h, true, t).dong.into_iter().map(|d| d.id).collect();
    assert_eq!(ids, vec!["a", "b", "c", "k"]);
    assert_eq!(KhoiHangDoi::default(), khoi(&HangDoiApp::default(), true, t));
}

#[test]
fn man_hinh_mot_hop_thoai_ke_ca_loat() {
    let t: u64 = 1_000_000;
    let so_hop = |h: &HangDoiApp, da_noi: bool| {
        let k = khoi(h, da_noi, t);
        let hoi = [CheDo::XacNhanHuy, CheDo::XacNhanBo, CheDo::ViSao];
        k.dong.iter().filter(|d| hoi.contains(&d.che_do)).count() + usize::from(k.loat_che_do == 1)
    };
    let mut h = san_sang(anh(vec![muc("a", "cho_in", true), muc("b", "cho_in", true)], vec![muc("k", "khong_ro", false)]), t);
    assert!(h.bam_huy("a", true, t));
    assert_eq!(so_hop(&h, true), 1);
    assert!(h.bam_huy_ca(true, t));
    assert_eq!(so_hop(&h, true), 1);
    assert!(h.bam_vi_sao("k"));
    assert_eq!(so_hop(&h, true), 1);
    assert!(h.bam_bo("k", true, t));
    assert_eq!(so_hop(&h, true), 1);
    assert_eq!(so_hop(&h, false), 0);
    let k = khoi(&h, false, t);
    assert_eq!(k.so_huy_ca, 0);
    assert!(k.dong.iter().all(|d| !d.bat_nut));
}

#[test]
fn loat_chi_huy_nhung_gi_co_luc_hoi() {
    let t: u64 = 1_000_000;
    let mut h = san_sang(anh(vec![muc("a", "cho_in", true), muc("b", "cho_in", true), muc("c", "cho_in", true)], vec![]), t);
    assert!(h.bam_huy_ca(true, t));
    assert!(h.bat_dau_loat(true, t + CHONG_BAM_DUP_MS - 1).is_empty());
    let moi = vec![muc("x", "cho_in", true), muc("c", "cho_in", true), muc("b", "dang_gui", false), muc("a", "cho_in", false)];
    h.nhan_anh(anh(moi, vec![]), t + 1);
    let r = h.bat_dau_loat(true, sau(t));
    assert_eq!(r.iter().map(|m| m.id.as_str()).collect::<Vec<_>>(), vec!["a", "c"]);
    assert!(h.con_dang("a") && h.con_dang("c") && !h.con_dang("x") && !h.con_dang("b"));
    assert!(h.bat_dau_loat(true, sau(t)).is_empty());
}

#[test]
fn dai_tam_giu_moi_ma() {
    let ma = [
        MaSuCo::HetGiay, MaSuCo::KetGiay, MaSuCo::Offline, MaSuCo::MoNap, MaSuCo::HetMuc, MaSuCo::CanXuLy,
        MaSuCo::LoiMayIn, MaSuCo::KhongTimThayMayIn, MaSuCo::LoiSumatra, MaSuCo::LoiPdf, MaSuCo::KhongXacNhan,
        MaSuCo::BinhThuong,
    ];
    for m in ma.iter().map(|m| Some(*m)).chain([None]) {
        let s = chu_dai_tam_giu(120, m);
        assert!(s.starts_with("120 hoá đơn đang "), "{}", s);
        assert!(!s.to_lowercase().contains("in lại"), "{}", s);
        assert_eq!(s.contains("sắp"), m == Some(MaSuCo::BinhThuong), "{}", s);
    }
    assert_eq!(chu_dai_tam_giu(3, None), chu_dai_tam_giu(3, Some(MaSuCo::HetMuc)));
    assert!(chu_dai_tam_giu(3, None).contains("đang được giữ lại vì máy in đang lỗi"));
}

#[test]
fn bam_huy_chi_mo_mot_cau_hoi() {
    let t: u64 = 1_000_000;
    let mut h = san_sang(
        anh(vec![muc("a", "cho_in", true), muc("b", "cho_in", true), muc("c", "dang_gui", false)], vec![]),
        t,
    );
    for (id, da_noi) in [("c", true), ("x", true), ("a", false)] {
        let truoc = khoi(&h, true, t);
        assert!(!h.bam_huy(id, da_noi, t));
        assert_eq!(khoi(&h, true, t), truoc);
    }
    assert!(h.bam_huy_ca(true, t));
    assert!(h.bam_huy("b", true, t));
    let hoi: Vec<_> = che_do(&h, t).into_iter().filter(|d| d.1 != CheDo::BinhThuong).collect();
    assert_eq!(hoi, vec![("b".to_string(), CheDo::XacNhanHuy)]);
    assert_eq!(khoi(&h, true, t).loat_che_do, 0);
    assert!(h.bat_dau("b", LoaiViec::Huy, true, sau(t)).is_some());
    assert!(!h.bam_huy("b", true, t), "under way");
    h.ket_thuc("b", LoaiViec::Huy, &duoc(), t);
    assert!(!h.bam_huy("b", true, t), "just done");
    assert!(h.bam_huy("a", true, t));
}

#[test]
fn bam_huy_ca_dong_moi_cau_hoi_khac() {
    let t: u64 = 1_000_000;
    let mut h = san_sang(
        anh(vec![muc("a", "cho_in", true), muc("b", "cho_in", true), muc("c", "cho_in", true)], vec![]),
        t,
    );
    dang_huy(&mut h, "c", t);
    assert!(h.bam_huy("a", true, t));
    assert_eq!(khoi(&h, true, t).so_huy_ca, 2);
    assert!(!h.bam_huy_ca(false, t));
    assert_eq!(che_do(&h, t)[0].1, CheDo::XacNhanHuy);
    assert!(h.bam_huy_ca(true, t));
    let k = khoi(&h, true, t);
    assert_eq!((k.loat_che_do, k.loat_nut.as_str()), (1, "Huỷ 2 lệnh in"));
    assert!(k.dong.iter().all(|d| d.che_do == CheDo::BinhThuong || d.che_do == CheDo::Dang));
    assert_eq!(h.bat_dau_loat(true, sau(t)).len(), 2);
    let truoc = khoi(&h, true, t);
    assert_eq!(truoc.loat_che_do, 2);
    assert!(!h.bam_huy_ca(true, t));
    assert_eq!(khoi(&h, true, t), truoc);
}

#[test]
fn don_dep_va_dong_chi_bo_dung_phan() {
    let t: u64 = 1_000_000;
    let ds = ["a", "b", "c"].iter().map(|id| muc(id, "cho_in", true)).collect();
    let mut h = san_sang(anh(ds, vec![]), t);
    for id in ["a", "b", "c"] {
        dang_huy(&mut h, id, t);
    }
    h.ket_thuc("a", LoaiViec::Huy, &duoc(), t);
    h.ket_thuc("b", LoaiViec::Huy, &KetCuc::KhongDuoc { loi: "x".into(), noi_dung: "y".into() }, t);
    let dang = vec![CheDo::DaHuy, CheDo::ThatBai, CheDo::Dang];
    let cac = |h: &HangDoiApp| che_do(h, t).into_iter().map(|d| d.1).collect::<Vec<_>>();
    assert_eq!(cac(&h), dang);
    h.dong("a");
    h.dong("c");
    assert_eq!(cac(&h), dang, "neither what is under way nor what was just done can be closed");
    h.don_dep(t + GIU_DA_HUY_MS - 1);
    assert_eq!(cac(&h), dang);
    h.don_dep(t + GIU_DA_HUY_MS);
    let sau = vec![CheDo::BinhThuong, CheDo::ThatBai, CheDo::Dang];
    assert_eq!(cac(&h), sau);
    h.don_dep(t + GIU_DA_HUY_MS);
    assert_eq!(cac(&h), sau);
    h.dong("b");
    assert_eq!(cac(&h), vec![CheDo::BinhThuong, CheDo::BinhThuong, CheDo::Dang]);
}
