use print_agent::job::{KetQuaIn, LyDo};
use print_agent::spooler::bo_suy::{bo_sung_loai, quan_sat_job, quan_sat_theo, suy_ket_qua};
use print_agent::spooler::go_job::{go_job_khoi_hang_doi, quyet_loi_truoc_khi_in, tiep_tuc_job_bi_dung_cua_app};
use print_agent::spooler::kieu::TrangThaiJob::{
    BiHuy, DaInXong, DangCho, DangIn, KetHangDoi, KhongThay, LoiJob, LoiTruyVan, MayInLoi,
};
use print_agent::spooler::kieu::{
    hang_doi_cho_doc_usb, BangChungJob, JobHangDoi, KetQuaGoJob, LenhJob, QuanSat, VongDoc, CHO_SAU_TAM_DUNG_MS,
    SO_LAN_DOC_MAY_IN_SAU_KHI_ROI, SO_LAN_KIEM_SAU_XOA, SO_LAN_USB_KHONG_THAY_IN, SO_LAN_USB_TOI_DA,
    SO_LAN_VANG_LA_XONG,
};
use print_agent::spooler::may_in::{
    chu_ket_hoa_don, chup_nen, kiem_hang_doi_truoc_khi_in, kiem_truoc_khi_in, ma_job_ket, mo_ta_vong, tap_may_in,
    tinh_trang_gop,
    KiemTruoc, CHU_KET_JOB_KHAC,
};
use print_agent::spooler::moi_truong::{DongHo, KenhBao, MoiTruong, Spooler};
use print_agent::spooler::sau_khi_roi::{BoSauKhiRoi, SauKhiRoi};
use print_agent::spooler::ten_job::{
    cung_may, la_cua_job, la_id_backend, la_job_cua_app, so_hoa_don_cua, tach_job_id_tu_ten, ten_may_trung, tim_job,
};
use print_agent::spooler::theo_doi::{ma_loi_khong_tieu_luot, theo_doi_job_voi};
use print_agent::su_co::co::{
    JOB_STATUS_BLOCKED_DEVQ, JOB_STATUS_COMPLETE, JOB_STATUS_DELETED, JOB_STATUS_DELETING, JOB_STATUS_ERROR,
    JOB_STATUS_OFFLINE, JOB_STATUS_PAPEROUT, JOB_STATUS_PAUSED, JOB_STATUS_PRINTED, JOB_STATUS_PRINTING,
    JOB_STATUS_RESTART, JOB_STATUS_RETAINED, JOB_STATUS_SPOOLING, JOB_STATUS_USER_INTERVENTION,
    PRINTER_ATTRIBUTE_WORK_OFFLINE, PRINTER_STATUS_ERROR, PRINTER_STATUS_OFFLINE, PRINTER_STATUS_PAPER_OUT,
    PRINTER_STATUS_TONER_LOW,
};
use print_agent::su_co::{MaSuCo, TapMa};
use print_agent::usb_may_in::{DocUsb, TinhTrangUsb};
use std::cell::RefCell;
use std::rc::Rc;

const ID: &str = "tokHN-1727170000000-3";
const MAY: &str = "PC-SHOP";

fn job(id: u32, status: u32) -> JobHangDoi {
    JobHangDoi {
        id,
        document: format!("AI-INV_2026_030045-Anh_Loc-{}.pdf", ID),
        status,
        trang_da_in: 0,
        mo_ta_driver: String::new(),
        submitted_epoch_secs: 1_000,
        may_tinh: r"\\PC-SHOP".into(),
    }
}

fn job_khac(id: u32) -> JobHangDoi {
    JobHangDoi { document: "Microsoft Word - bao gia.docx".into(), ..job(id, 0) }
}

fn vong(co_may_in: u32, jobs: Vec<JobHangDoi>) -> VongDoc {
    VongDoc { co_may_in: Some(co_may_in), hang_doi: Some(jobs), ..VongDoc::default() }
}

const USB_RANH: (u8, &str) = (0x18, "IDLE");
const USB_DANG_IN: (u8, &str) = (0x98, "BUSY");
const USB_HET_GIAY: (u8, &str) = (0x90, "BUSY");

fn vong_usb((byte, status): (u8, &str)) -> VongDoc {
    VongDoc {
        la_may_usb: true,
        usb: Some(DocUsb { byte, status: Some(status.to_string()) }),
        ..vong(0, vec![])
    }
}

fn vong_may_usb(jobs: Vec<JobHangDoi>) -> VongDoc {
    VongDoc { la_may_usb: true, ..vong(0, jobs) }
}

#[derive(Default)]
struct SpoolerGia {
    vong: Vec<VongDoc>,
    so_vong_da_doc: usize,
    hang_doi: Option<Vec<JobHangDoi>>,
    lenh: Vec<(u32, LenhJob)>,
    lenh_loi: Option<LenhJob>,
    het_sau_so_lan_doc: Option<usize>,
    in_ngay_khi_tam_dung: bool,
    sau_xoa_thay_in: bool,
    da_xoa: bool,
    so_lan_doc_sau_xoa: usize,
    su_kien: Rc<RefCell<Vec<String>>>,
}

impl Spooler for SpoolerGia {
    fn doc_vong(&mut self) -> VongDoc {
        let i = self.so_vong_da_doc.min(self.vong.len() - 1);
        self.so_vong_da_doc += 1;
        self.vong[i].clone()
    }
    fn doc_hang_doi(&mut self) -> Option<Vec<JobHangDoi>> {
        self.su_kien.borrow_mut().push("doc_hang_doi".into());
        if self.da_xoa {
            self.so_lan_doc_sau_xoa += 1;
            if self.het_sau_so_lan_doc.is_some_and(|n| self.so_lan_doc_sau_xoa > n) {
                return Some(Vec::new());
            }
            if self.sau_xoa_thay_in {
                let mut v = self.hang_doi.clone()?;
                for j in &mut v {
                    j.status |= JOB_STATUS_PRINTING | JOB_STATUS_DELETING;
                }
                return Some(v);
            }
        }
        self.hang_doi.clone()
    }
    fn dieu_khien(&mut self, id: u32, lenh: LenhJob) -> Result<(), String> {
        self.lenh.push((id, lenh));
        if self.lenh_loi == Some(lenh) {
            return Err("ERROR_ACCESS_DENIED".into());
        }
        match lenh {
            LenhJob::TamDung => {
                for j in self.hang_doi.iter_mut().flatten().filter(|j| j.id == id) {
                    j.status |= JOB_STATUS_PAUSED;
                    if self.in_ngay_khi_tam_dung {
                        j.status |= JOB_STATUS_PRINTING;
                    }
                }
            }
            LenhJob::TiepTuc => {
                for j in self.hang_doi.iter_mut().flatten().filter(|j| j.id == id) {
                    j.status &= !JOB_STATUS_PAUSED;
                }
            }
            LenhJob::Xoa => self.da_xoa = true,
        }
        Ok(())
    }
    fn cho(&mut self, ms: u64) {
        self.su_kien.borrow_mut().push(format!("cho {}ms", ms));
    }
}

/// Takes down the reports.
struct GhiLai {
    da_bao: Vec<QuanSat>,
    su_kien: Rc<RefCell<Vec<String>>>,
}

impl KenhBao for GhiLai {
    fn bao(&mut self, qs: QuanSat) {
        if let QuanSat::SuCo { loai, .. } = &qs {
            self.su_kien.borrow_mut().push(format!("su_co:{}", loai.ma()));
        }
        self.da_bao.push(qs);
    }
}

/// Lets so many readings pass; its clock stands still.
struct DemVong {
    con: usize,
}

impl DongHo for DemVong {
    fn con_thoi_gian(&mut self) -> bool {
        self.con -= 1;
        self.con > 0
    }

    fn bay_gio_ms(&mut self) -> u64 {
        0
    }
}

fn go_job(sp: &mut SpoolerGia, job_id: &str, da_thay_in: bool) -> KetQuaGoJob {
    let kenh = GhiLai { da_bao: Vec::new(), su_kien: sp.su_kien.clone() };
    let mut mt = MoiTruong::moi(std::mem::take(sp), kenh, DemVong { con: 1 });
    let kq = go_job_khoi_hang_doi(&mut mt, job_id, da_thay_in);
    *sp = mt.tra_lai().0;
    kq
}

fn tiep_tuc(sp: &mut SpoolerGia, may: &str) -> Vec<(u32, String, Result<(), String>)> {
    let kenh = GhiLai { da_bao: Vec::new(), su_kien: sp.su_kien.clone() };
    let mut mt = MoiTruong::moi(std::mem::take(sp), kenh, DemVong { con: 1 });
    let kq = tiep_tuc_job_bi_dung_cua_app(&mut mt, may);
    *sp = mt.tra_lai().0;
    kq
}

fn kiem_hang_doi(ds: Option<&[JobHangDoi]>, ket: Option<(String, MaSuCo)>) -> Option<LyDo> {
    kiem_hang_doi_truoc_khi_in(&ds.map(|d| d.to_vec()), ket)
}

#[test]
fn a_thay_printed_tra_da_in() {
    let kq = suy_ket_qua(&vec![DangCho, DangIn, DaInXong]);
    assert_eq!(kq, KetQuaIn::DaIn);
}

#[test]
fn a2_printed_ngay_lan_dau_tra_da_in() {
    assert_eq!(suy_ket_qua(&vec![DaInXong]), KetQuaIn::DaIn);
}


#[test]
fn b_loi_tren_job_truoc_khi_thay_in_la_khong_ro_khong_phai_loi() {
    let kq = suy_ket_qua(&vec![DangCho, LoiJob(MaSuCo::Offline)]);
    assert!(matches!(kq, KetQuaIn::KhongRo(ref l) if l.loai == Some(MaSuCo::Offline)), "got {:?}", kq);
}

#[test]
fn b2_may_in_loi_ngay_dau_la_ung_vien_xoa() {
    let kq = suy_ket_qua(&vec![MayInLoi(MaSuCo::HetGiay)]);
    assert!(matches!(kq, KetQuaIn::Loi(_)));
}

#[test]
fn c_dang_in_roi_timeout_tra_khong_ro() {
    let kq = suy_ket_qua(&vec![DangCho, DangIn, DangCho, DangIn]);
    assert!(matches!(kq, KetQuaIn::KhongRo(_)), "expect KhongRo, got {:?}", kq);
}

#[test]
fn c2_dang_in_roi_loi_van_khong_ro_khong_phai_loi() {
    let kq = suy_ket_qua(&vec![DangIn, LoiJob(MaSuCo::KetGiay)]);
    assert!(matches!(kq, KetQuaIn::KhongRo(_)), "expect KhongRo, got {:?}", kq);
}

#[test]
fn c3_dang_in_roi_job_roi_hang_doi_sach_la_da_in() {
    let kq = suy_ket_qua(&vec![DangIn, KhongThay, KhongThay]);
    assert_eq!(kq, KetQuaIn::DaIn);
}

#[test]
fn c3b_vang_mot_lan_roi_thay_lai_thi_khong_tinh_la_xong() {
    let kq = suy_ket_qua(&vec![DangIn, KhongThay, DangIn, KhongThay]);
    assert!(matches!(kq, KetQuaIn::KhongRo(_)));
}

#[test]
fn c3c_chua_tung_thay_dang_in_thi_vang_bao_nhieu_cung_khong_phai_da_in() {
    let kq = suy_ket_qua(&vec![KhongThay, KhongThay, KhongThay, KhongThay]);
    assert!(matches!(kq, KetQuaIn::KhongRo(_)));
}

#[test]
fn c3d_loi_truy_van_khong_duoc_tinh_la_roi_hang_doi() {
    let kq = suy_ket_qua(&vec![DangIn, LoiTruyVan, LoiTruyVan, LoiTruyVan]);
    assert!(matches!(kq, KetQuaIn::KhongRo(_)));
}

#[test]
fn c3e_ket_giay_thi_van_khong_ro_khong_thanh_da_in() {
    let kq = suy_ket_qua(&vec![DangIn, LoiJob(MaSuCo::HetGiay), KhongThay, KhongThay]);
    assert!(matches!(kq, KetQuaIn::KhongRo(_)));
}

#[test]
fn r5a_bi_huy_roi_bien_mat_khong_phai_da_in() {
    for chuoi in [
        vec![DangIn, BiHuy, KhongThay, KhongThay],
        vec![DangCho, BiHuy, KhongThay, KhongThay, KhongThay],
        vec![BiHuy, DangIn, KhongThay, KhongThay],
    ] {
        let kq = suy_ket_qua(&chuoi);
        let KetQuaIn::KhongRo(l) = kq else { panic!("{:?} → {:?}", chuoi, kq) };
        assert_eq!(l.loai, Some(MaSuCo::KhongXacNhan));
        assert!(l.chu.contains("huỷ/khởi động lại"), "{}", l.chu);
    }
}

#[test]
fn r5a_restart_va_deleting_la_bi_huy() {
    assert_eq!(quan_sat_job(JOB_STATUS_RESTART | JOB_STATUS_PRINTING), vec![DangIn, BiHuy]);
    assert_eq!(quan_sat_job(JOB_STATUS_DELETING), vec![BiHuy]);
    assert_eq!(quan_sat_job(JOB_STATUS_DELETED), vec![BiHuy]);
}

#[test]
fn d_khong_bao_gio_thay_job_tra_khong_ro() {
    let kq = suy_ket_qua(&vec![KhongThay, KhongThay, KhongThay]);
    assert!(matches!(kq, KetQuaIn::KhongRo(_)));
}

#[test]
fn e_loi_truy_van_chua_quan_sat_gi_khong_ro_khong_phai_loi() {
    let kq = suy_ket_qua(&vec![LoiTruyVan, LoiTruyVan]);
    assert!(matches!(kq, KetQuaIn::KhongRo(_)), "expect KhongRo, got {:?}", kq);
}

#[test]
fn f_cho_lau_roi_in_xong_tra_da_in() {
    let kq = suy_ket_qua(&vec![DangCho, DangCho, DangCho, DangIn, DaInXong]);
    assert_eq!(kq, KetQuaIn::DaIn);
}

#[test]
fn g_printed_roi_bien_mat_van_da_in() {
    let kq = suy_ket_qua(&vec![DangIn, DaInXong, KhongThay]);
    assert_eq!(kq, KetQuaIn::DaIn);
}

#[test]
fn h_loi_may_in_khi_dang_cho_la_ung_vien_xoa() {
    let kq = suy_ket_qua(&vec![DangCho, MayInLoi(MaSuCo::Offline)]);
    assert!(matches!(kq, KetQuaIn::Loi(_)));
    let kq = suy_ket_qua(&vec![MayInLoi(MaSuCo::Offline), DangCho]);
    assert!(matches!(kq, KetQuaIn::KhongRo(_)), "{:?}", kq);
}

#[test]
fn i_chuoi_rong_tra_khong_ro_khong_panic() {
    let kq = suy_ket_qua(&vec![]);
    assert!(matches!(kq, KetQuaIn::KhongRo(_)));
}



#[test]
fn quan_sat_job_tu_co() {
    assert_eq!(quan_sat_job(JOB_STATUS_PRINTED | JOB_STATUS_ERROR), vec![DaInXong]);
    assert_eq!(quan_sat_job(JOB_STATUS_PRINTING), vec![DangIn]);
    assert_eq!(quan_sat_job(0), vec![DangCho]);
    assert_eq!(quan_sat_job(JOB_STATUS_SPOOLING), vec![DangCho]);
    assert_eq!(quan_sat_job(JOB_STATUS_PAUSED), vec![DangCho]);
    assert_eq!(quan_sat_job(JOB_STATUS_PAPEROUT), vec![LoiJob(MaSuCo::HetGiay)]);
    assert_eq!(quan_sat_job(JOB_STATUS_USER_INTERVENTION), vec![LoiJob(MaSuCo::CanXuLy)]);
    assert_eq!(quan_sat_job(JOB_STATUS_PRINTING | JOB_STATUS_PAPEROUT), vec![DangIn, LoiJob(MaSuCo::HetGiay)]);
    assert_eq!(quan_sat_job(JOB_STATUS_BLOCKED_DEVQ), vec![KetHangDoi(MaSuCo::LoiMayIn)]);
    assert_eq!(quan_sat_job(JOB_STATUS_BLOCKED_DEVQ | JOB_STATUS_ERROR), vec![LoiJob(MaSuCo::LoiMayIn)]);
    assert_eq!(quan_sat_job(JOB_STATUS_COMPLETE), vec![DangIn]);
    assert_eq!(quan_sat_theo(0, 1, ""), vec![DangIn]);
}

#[test]
fn j_dang_in_kem_loi_ngay_lan_dau_thay_la_khong_ro_khong_phai_loi() {
    let kq = suy_ket_qua(&quan_sat_job(JOB_STATUS_PRINTING | JOB_STATUS_PAPEROUT));
    assert!(matches!(kq, KetQuaIn::KhongRo(ref l) if l.loai == Some(MaSuCo::HetGiay)), "got {:?}", kq);
}

#[test]
fn suy_ket_qua_gan_ma_su_co() {
    let KetQuaIn::KhongRo(l) = suy_ket_qua(&vec![DangCho, LoiJob(MaSuCo::HetGiay)]) else { panic!() };
    assert_eq!(l.loai, Some(MaSuCo::HetGiay));
    let KetQuaIn::Loi(l) = suy_ket_qua(&vec![DangCho, MayInLoi(MaSuCo::HetGiay)]) else { panic!() };
    assert_eq!(l.loai, Some(MaSuCo::HetGiay));
    let KetQuaIn::KhongRo(l) = suy_ket_qua(&vec![DangIn, MayInLoi(MaSuCo::KetGiay)]) else { panic!() };
    assert_eq!(l.loai, Some(MaSuCo::KetGiay));
    let KetQuaIn::KhongRo(l) = suy_ket_qua(&vec![DangCho, DangCho]) else { panic!() };
    assert_eq!(l.loai, Some(MaSuCo::KhongXacNhan));
}

#[test]
fn bo_sung_loai_chi_thay_khong_xac_nhan() {
    let het_gio = KetQuaIn::KhongRo(LyDo::co_loai("het gio", MaSuCo::KhongXacNhan));
    let KetQuaIn::KhongRo(l) = bo_sung_loai(het_gio.clone(), Some(MaSuCo::Offline)) else { panic!() };
    assert_eq!(l.loai, Some(MaSuCo::Offline));
    assert_eq!(bo_sung_loai(het_gio.clone(), None), het_gio);
    let ket = KetQuaIn::KhongRo(LyDo::co_loai("x", MaSuCo::KetGiay));
    assert_eq!(bo_sung_loai(ket.clone(), Some(MaSuCo::Offline)), ket);
    assert_eq!(bo_sung_loai(KetQuaIn::DaIn, Some(MaSuCo::Offline)), KetQuaIn::DaIn);
}


fn ung_vien_loi() -> LyDo {
    LyDo::co_loai("loi truoc khi in: Hết giấy", MaSuCo::HetGiay)
}

#[test]
fn quyet_loi_job_khong_trong_hang_doi_thi_khong_ro_chong_in_doi() {
    let kq = quyet_loi_truoc_khi_in(ung_vien_loi(), KetQuaGoJob::KhongCoTrongHangDoi);
    let KetQuaIn::KhongRo(l) = kq else { panic!("phai KhongRo (chong in doi), got {:?}", kq) };
    assert_eq!(l.loai, Some(MaSuCo::HetGiay));
}

#[test]
fn quyet_loi_xoa_duoc_thi_loi_giu_ma() {
    let KetQuaIn::Loi(l) = quyet_loi_truoc_khi_in(ung_vien_loi(), KetQuaGoJob::DaGoXong) else { panic!() };
    assert_eq!(l.loai, Some(MaSuCo::HetGiay));
    assert!(l.chu.contains("da xoa job"));
}

#[test]
fn quyet_loi_khong_xoa_duoc_thi_khong_ro_giu_ma() {
    let kq = quyet_loi_truoc_khi_in(ung_vien_loi(), KetQuaGoJob::KhongGoDuoc("ACCESS_DENIED".into()));
    let KetQuaIn::KhongRo(l) = kq else { panic!("{:?}", kq) };
    assert_eq!(l.loai, Some(MaSuCo::HetGiay));
    assert!(l.chu.contains("ACCESS_DENIED"));
    let kq = quyet_loi_truoc_khi_in(ung_vien_loi(), KetQuaGoJob::KhongAnToanDeXoa("PRINTING".into()));
    assert!(matches!(kq, KetQuaIn::KhongRo(_)));
}


#[test]
fn go_job_khong_co_job_cua_ta_thi_khong_dong_gi() {
    let mut sp = SpoolerGia { hang_doi: Some(vec![job_khac(9)]), ..Default::default() };
    assert_eq!(go_job(&mut sp, ID, false), KetQuaGoJob::KhongCoTrongHangDoi);
    assert!(sp.lenh.is_empty());
}

#[test]
fn go_job_sach_thi_tam_dung_roi_xoa_roi_kiem_lai_het() {
    let mut sp = SpoolerGia {
        hang_doi: Some(vec![job(7, JOB_STATUS_SPOOLING), job_khac(9)]),
        het_sau_so_lan_doc: Some(2),
        ..Default::default()
    };
    assert_eq!(go_job(&mut sp, ID, false), KetQuaGoJob::DaGoXong);
    assert_eq!(sp.lenh, vec![(7, LenhJob::TamDung), (7, LenhJob::Xoa)]);
    assert_eq!(sp.so_lan_doc_sau_xoa, 3);
}

#[test]
fn go_job_hai_ban_cung_lan_in_deu_bi_xoa() {
    let mut sp = SpoolerGia {
        hang_doi: Some(vec![job(7, JOB_STATUS_BLOCKED_DEVQ), job(8, 0)]),
        het_sau_so_lan_doc: Some(0),
        ..Default::default()
    };
    assert_eq!(go_job(&mut sp, ID, false), KetQuaGoJob::DaGoXong);
    assert_eq!(sp.lenh, vec![(7, LenhJob::TamDung), (8, LenhJob::TamDung), (7, LenhJob::Xoa), (8, LenhJob::Xoa)]);
}

#[test]
fn go_job_co_bat_ky_co_nao_ngoai_danh_sach_trang_thi_khong_dong_vao() {
    for status in [
        JOB_STATUS_PAPEROUT | JOB_STATUS_ERROR,
        JOB_STATUS_ERROR,
        JOB_STATUS_PAPEROUT,
        JOB_STATUS_USER_INTERVENTION,
        JOB_STATUS_OFFLINE,
        JOB_STATUS_RESTART,
        JOB_STATUS_PRINTING,
        JOB_STATUS_PRINTED,
        JOB_STATUS_DELETING,
        JOB_STATUS_DELETED,
        JOB_STATUS_COMPLETE,
        JOB_STATUS_RETAINED,
        JOB_STATUS_SPOOLING | JOB_STATUS_ERROR,
        0x4000,
    ] {
        let mut sp = SpoolerGia { hang_doi: Some(vec![job(7, status)]), ..Default::default() };
        let kq = go_job(&mut sp, ID, false);
        assert!(matches!(kq, KetQuaGoJob::KhongAnToanDeXoa(_)), "status 0x{:X}: {:?}", status, kq);
        assert!(sp.lenh.is_empty());
    }
    let mut sp = SpoolerGia { hang_doi: Some(vec![JobHangDoi { trang_da_in: 1, ..job(7, 0) }]), ..Default::default() };
    assert!(matches!(go_job(&mut sp, ID, false), KetQuaGoJob::KhongAnToanDeXoa(_)));
    assert!(sp.lenh.is_empty());
}

#[test]
fn go_job_da_tung_thay_in_trong_luc_theo_doi_thi_khong_doc_khong_xoa() {
    let mut sp = SpoolerGia { hang_doi: Some(vec![job(7, 0)]), ..Default::default() };
    assert!(matches!(go_job(&mut sp, ID, true), KetQuaGoJob::KhongAnToanDeXoa(_)));
    assert!(sp.lenh.is_empty());
}

#[test]
fn go_job_xoa_bi_tu_choi_thi_khong_go_duoc_va_cho_chay_tiep() {
    let mut sp = SpoolerGia {
        hang_doi: Some(vec![job(7, 0)]),
        lenh_loi: Some(LenhJob::Xoa),
        ..Default::default()
    };
    assert!(matches!(go_job(&mut sp, ID, false), KetQuaGoJob::KhongGoDuoc(_)));
    assert_eq!(sp.lenh.last(), Some(&(7, LenhJob::TiepTuc)));
}

#[test]
fn go_job_tam_dung_bi_tu_choi_thi_khong_xoa() {
    let mut sp = SpoolerGia {
        hang_doi: Some(vec![job(7, 0)]),
        lenh_loi: Some(LenhJob::TamDung),
        ..Default::default()
    };
    assert!(matches!(go_job(&mut sp, ID, false), KetQuaGoJob::KhongGoDuoc(_)));
    assert!(!sp.lenh.iter().any(|(_, l)| *l == LenhJob::Xoa));
}

#[test]
fn go_job_xoa_roi_van_con_thi_khong_go_duoc() {
    let mut sp = SpoolerGia { hang_doi: Some(vec![job(7, JOB_STATUS_SPOOLING)]), ..Default::default() };
    assert!(matches!(go_job(&mut sp, ID, false), KetQuaGoJob::KhongGoDuoc(_)));
    assert_eq!(sp.so_lan_doc_sau_xoa, SO_LAN_KIEM_SAU_XOA);
}

#[test]
fn go_job_bat_dau_in_dung_luc_tam_dung_thi_khong_xoa_va_cho_chay_tiep() {
    let mut sp = SpoolerGia {
        hang_doi: Some(vec![job(7, 0)]),
        in_ngay_khi_tam_dung: true,
        ..Default::default()
    };
    assert!(matches!(go_job(&mut sp, ID, false), KetQuaGoJob::KhongAnToanDeXoa(_)));
    assert_eq!(sp.lenh, vec![(7, LenhJob::TamDung), (7, LenhJob::TiepTuc)]);
}

#[test]
fn go_job_cho_chay_tiep_loi_thi_bao_ra_cau_loi() {
    let mut sp = SpoolerGia {
        hang_doi: Some(vec![job(7, 0)]),
        in_ngay_khi_tam_dung: true,
        lenh_loi: Some(LenhJob::TiepTuc),
        ..Default::default()
    };
    let KetQuaGoJob::KhongAnToanDeXoa(e) = go_job(&mut sp, ID, false) else { panic!() };
    assert!(e.contains("KHONG cho chay tiep duoc") && e.contains("ERROR_ACCESS_DENIED"), "{}", e);
}

#[test]
fn go_job_khong_doc_duoc_hang_doi_thi_khong_go_duoc() {
    let mut sp = SpoolerGia { hang_doi: None, ..Default::default() };
    assert!(matches!(go_job(&mut sp, ID, false), KetQuaGoJob::KhongGoDuoc(_)));
    assert!(sp.lenh.is_empty());
}


/// Watches at most `so_vong` readings; the first reading is what was seen before the job.
fn chay(sp: &mut SpoolerGia, so_vong: usize) -> (KetQuaIn, Vec<QuanSat>) {
    let nen = chup_nen(&sp.vong[0]);
    chay_voi_nen(sp, so_vong, nen)
}

/// The same, with nothing wrong before the job.
fn chay_su_co_moi(sp: &mut SpoolerGia, so_vong: usize) -> (KetQuaIn, Vec<QuanSat>) {
    chay_voi_nen(sp, so_vong, TapMa::default())
}

fn chay_voi_nen(sp: &mut SpoolerGia, so_vong: usize, nen: TapMa) -> (KetQuaIn, Vec<QuanSat>) {
    let kenh = GhiLai { da_bao: Vec::new(), su_kien: sp.su_kien.clone() };
    let mut mt = MoiTruong::moi(std::mem::take(sp), kenh, DemVong { con: so_vong });
    let kq = theo_doi_job_voi(&mut mt, ID, 1_000, nen);
    let (s, kenh, _) = mt.tra_lai();
    *sp = s;
    (kq, kenh.da_bao)
}

fn so_su_co(ds: &[QuanSat], ma: MaSuCo) -> usize {
    ds.iter().filter(|q| matches!(q, QuanSat::SuCo { loai, .. } if *loai == ma)).count()
}

fn co_theo_doi_tiep(ds: &[QuanSat]) -> bool {
    ds.iter().any(|q| matches!(q, QuanSat::ConTrongHangDoi(_)))
}

#[test]
fn t_pb3_job_paperout_error_chua_printing_thi_khong_ro_khong_xoa() {
    let mut sp = SpoolerGia {
        vong: vec![vong(0, vec![job(7, JOB_STATUS_PAPEROUT | JOB_STATUS_ERROR)])],
        hang_doi: Some(vec![job(7, JOB_STATUS_PAPEROUT | JOB_STATUS_ERROR)]),
        het_sau_so_lan_doc: Some(0),
        ..Default::default()
    };
    let (kq, bao) = chay(&mut sp, 30);
    assert!(matches!(kq, KetQuaIn::KhongRo(ref l) if l.loai == Some(MaSuCo::HetGiay)), "{:?}", kq);
    assert!(!sp.lenh.iter().any(|(_, l)| *l == LenhJob::Xoa));
    assert!(sp.lenh.is_empty());
    assert_eq!(so_su_co(&bao, MaSuCo::HetGiay), 1);
    assert_eq!(sp.su_kien.borrow().first().map(String::as_str), Some("su_co:het_giay"));
    assert!(co_theo_doi_tiep(&bao));
}

#[test]
fn t_job_offline_cap_job_thi_khong_ro_khong_xoa() {
    let mut sp = SpoolerGia {
        vong: vec![vong(PRINTER_STATUS_OFFLINE, vec![job(7, JOB_STATUS_OFFLINE)])],
        hang_doi: Some(vec![job(7, JOB_STATUS_OFFLINE)]),
        het_sau_so_lan_doc: Some(0),
        ..Default::default()
    };
    let (kq, _) = chay(&mut sp, 30);
    assert!(matches!(kq, KetQuaIn::KhongRo(ref l) if l.loai == Some(MaSuCo::Offline)), "{:?}", kq);
    assert!(sp.lenh.is_empty());
}

#[test]
fn t_may_in_het_giay_job_sach_het_cua_so_thi_xoa_roi_loi() {
    let mut sp = SpoolerGia {
        vong: vec![vong(PRINTER_STATUS_PAPER_OUT, vec![job(7, 0)])],
        hang_doi: Some(vec![job(7, 0)]),
        het_sau_so_lan_doc: Some(0),
        ..Default::default()
    };
    let (kq, bao) = chay_su_co_moi(&mut sp, 30);
    let KetQuaIn::Loi(l) = kq else { panic!("{:?}", kq) };
    assert_eq!(l.loai, Some(MaSuCo::HetGiay));
    assert_eq!(sp.lenh, vec![(7, LenhJob::TamDung), (7, LenhJob::Xoa)]);
    assert_eq!(sp.so_vong_da_doc, 30);
    assert!(so_su_co(&bao, MaSuCo::HetGiay) >= 1);
    assert!(!co_theo_doi_tiep(&bao));
}

#[test]
fn kiem_cuoi_co_nen_khong_bao_gio_xoa_job_sach() {
    for co in [PRINTER_STATUS_PAPER_OUT, PRINTER_STATUS_ERROR] {
        let mut sp = SpoolerGia {
            vong: vec![vong(co, vec![job(7, JOB_STATUS_SPOOLING)])],
            hang_doi: Some(vec![job(7, JOB_STATUS_SPOOLING)]),
            het_sau_so_lan_doc: Some(0),
            ..Default::default()
        };
        let (kq, bao) = chay(&mut sp, 30);
        let KetQuaIn::KhongRo(l) = kq else { panic!("{:?}", kq) };
        assert!(l.loai.is_some_and(|m| m.chan_in()));
        assert!(sp.lenh.is_empty());
        assert!(co_theo_doi_tiep(&bao));
        assert_eq!(so_su_co(&bao, l.loai.unwrap()), 0);
    }
}

#[test]
fn t_may_in_bao_het_giay_nhung_job_van_in_thi_khong_xoa() {
    let mut sp = SpoolerGia {
        vong: vec![
            vong(PRINTER_STATUS_PAPER_OUT, vec![job(7, 0)]),
            vong(PRINTER_STATUS_PAPER_OUT, vec![job(7, JOB_STATUS_PRINTING)]),
            vong(PRINTER_STATUS_PAPER_OUT, vec![job(7, JOB_STATUS_PRINTING)]),
        ],
        hang_doi: Some(vec![job(7, JOB_STATUS_PRINTING)]),
        het_sau_so_lan_doc: Some(0),
        ..Default::default()
    };
    let (kq, bao) = chay(&mut sp, 10);
    assert!(matches!(kq, KetQuaIn::KhongRo(ref l) if l.loai == Some(MaSuCo::KhongXacNhan)), "{:?}", kq);
    assert!(sp.lenh.is_empty(), "{:?}", sp.lenh);
    assert!(co_theo_doi_tiep(&bao));
}

#[test]
fn t_may_in_het_giay_job_sach_nhung_xoa_bi_tu_choi_thi_khong_ro_va_theo_doi_tiep() {
    let mut sp = SpoolerGia {
        vong: vec![vong(PRINTER_STATUS_PAPER_OUT, vec![job(7, 0)])],
        hang_doi: Some(vec![job(7, 0)]),
        lenh_loi: Some(LenhJob::Xoa),
        ..Default::default()
    };
    let (kq, bao) = chay(&mut sp, 5);
    assert!(matches!(kq, KetQuaIn::KhongRo(ref l) if l.loai == Some(MaSuCo::HetGiay)));
    assert!(co_theo_doi_tiep(&bao));
}

#[test]
fn t_may_in_dung_offline_job_sach_thi_xoa_roi_loi_offline() {
    let mut sp = SpoolerGia {
        vong: vec![VongDoc { thuoc_tinh_may_in: PRINTER_ATTRIBUTE_WORK_OFFLINE, ..vong(0, vec![job(7, 0)]) }],
        hang_doi: Some(vec![job(7, 0)]),
        het_sau_so_lan_doc: Some(0),
        ..Default::default()
    };
    let (kq, _) = chay_su_co_moi(&mut sp, 4);
    assert!(matches!(kq, KetQuaIn::Loi(ref l) if l.loai == Some(MaSuCo::Offline)), "{:?}", kq);
}

#[test]
fn t_job_blocked_devq_sach_thi_xoa_va_ma_theo_chu_driver() {
    let j = JobHangDoi { mo_ta_driver: "Paper out".into(), ..job(7, JOB_STATUS_BLOCKED_DEVQ) };
    let mut sp = SpoolerGia {
        vong: vec![vong(0, vec![j.clone()])],
        hang_doi: Some(vec![j]),
        het_sau_so_lan_doc: Some(0),
        ..Default::default()
    };
    let (kq, bao) = chay(&mut sp, 4);
    assert!(matches!(kq, KetQuaIn::Loi(ref l) if l.loai == Some(MaSuCo::HetGiay)), "{:?}", kq);
    assert_eq!(so_su_co(&bao, MaSuCo::HetGiay), 4);
}

#[test]
fn t_job_chi_co_error_ma_driver_noi_het_giay_thi_bao_het_giay() {
    let j = JobHangDoi { mo_ta_driver: "Error - Paper Out".into(), ..job(7, JOB_STATUS_ERROR) };
    let mut sp = SpoolerGia { vong: vec![vong(0, vec![j.clone()])], hang_doi: Some(vec![j]), ..Default::default() };
    let (kq, bao) = chay(&mut sp, 3);
    assert!(matches!(kq, KetQuaIn::KhongRo(ref l) if l.loai == Some(MaSuCo::HetGiay)), "{:?}", kq);
    assert_eq!(so_su_co(&bao, MaSuCo::HetGiay), 1);
    assert_eq!(so_su_co(&bao, MaSuCo::LoiMayIn), 0);
}

#[test]
fn t_may_in_het_giay_job_khong_trong_hang_doi_thi_khong_ro_khong_gui_lai() {
    let mut sp = SpoolerGia {
        vong: vec![vong(PRINTER_STATUS_PAPER_OUT, vec![job_khac(9)])],
        hang_doi: Some(vec![job_khac(9)]),
        ..Default::default()
    };
    let (kq, bao) = chay(&mut sp, 30);
    assert!(matches!(kq, KetQuaIn::KhongRo(ref l) if l.loai == Some(MaSuCo::KhongXacNhan)), "{:?}", kq);
    assert!(sp.lenh.is_empty());
    assert!(!co_theo_doi_tiep(&bao));
    let mut sp = SpoolerGia {
        vong: vec![vong(0, vec![job_khac(9)]), vong(PRINTER_STATUS_PAPER_OUT, vec![job_khac(9)])],
        hang_doi: Some(vec![job_khac(9)]),
        ..Default::default()
    };
    let (kq, bao) = chay(&mut sp, 30);
    assert!(matches!(kq, KetQuaIn::KhongRo(ref l) if l.loai == Some(MaSuCo::HetGiay)), "{:?}", kq);
    assert!(sp.lenh.is_empty());
    assert!(so_su_co(&bao, MaSuCo::HetGiay) >= 1);
}

#[test]
fn t_dang_in_ma_het_giay_khong_bao_gio_ra_loi_va_bao_su_co_truoc_khi_ket_luan() {
    let mut sp = SpoolerGia {
        vong: vec![vong(0, vec![job(7, JOB_STATUS_PRINTING | JOB_STATUS_PAPEROUT)])],
        hang_doi: Some(vec![job(7, JOB_STATUS_PRINTING | JOB_STATUS_PAPEROUT)]),
        ..Default::default()
    };
    let (kq, bao) = chay(&mut sp, 3);
    assert!(matches!(kq, KetQuaIn::KhongRo(ref l) if l.loai == Some(MaSuCo::HetGiay)), "{:?}", kq);
    assert!(sp.lenh.is_empty());
    assert_eq!(so_su_co(&bao, MaSuCo::HetGiay), 1);
    let pos_su_co = bao.iter().position(|q| matches!(q, QuanSat::SuCo { .. })).unwrap();
    let pos_tiep = bao.iter().position(|q| matches!(q, QuanSat::ConTrongHangDoi(_))).unwrap();
    assert!(pos_su_co < pos_tiep);
    assert_eq!(bao[pos_tiep], QuanSat::ConTrongHangDoi(BangChungJob { da_thay_in: true, ..Default::default() }));
}

#[test]
fn t_dang_in_roi_roi_hang_doi_sach_van_la_da_in() {
    let mut sp = SpoolerGia {
        vong: vec![vong(0, vec![job(7, JOB_STATUS_PRINTING)]), vong(0, vec![]), vong(0, vec![])],
        ..Default::default()
    };
    let (kq, bao) = chay(&mut sp, 30);
    assert_eq!(kq, KetQuaIn::DaIn);
    assert_eq!(bao.iter().filter(|q| matches!(q, QuanSat::SuCo { .. })).count(), 0);
    assert_eq!(sp.so_vong_da_doc, 3 + SO_LAN_DOC_MAY_IN_SAU_KHI_ROI);
}

#[test]
fn t_roi_hang_doi_sach_nhung_may_in_het_giay_ngay_sau_thi_khong_ro() {
    let mut sp = SpoolerGia {
        vong: vec![
            vong(0, vec![job(7, JOB_STATUS_PRINTING)]),
            vong(0, vec![]),
            vong(0, vec![]),
            vong(0, vec![]),
            vong(PRINTER_STATUS_PAPER_OUT, vec![]),
        ],
        ..Default::default()
    };
    let (kq, bao) = chay(&mut sp, 30);
    assert!(matches!(kq, KetQuaIn::KhongRo(ref l) if l.loai == Some(MaSuCo::HetGiay)), "{:?}", kq);
    assert_eq!(so_su_co(&bao, MaSuCo::HetGiay), 1);
    assert!(!co_theo_doi_tiep(&bao));
}

#[test]
fn t_nv_huy_job_roi_bien_mat_khong_phai_da_in() {
    let mut sp = SpoolerGia {
        vong: vec![
            vong(0, vec![job(7, JOB_STATUS_PRINTING)]),
            vong(0, vec![job(7, JOB_STATUS_PRINTING | JOB_STATUS_DELETING)]),
            vong(0, vec![]),
        ],
        ..Default::default()
    };
    let (kq, _) = chay(&mut sp, 30);
    let KetQuaIn::KhongRo(l) = kq else { panic!("{:?}", kq) };
    assert_eq!(l.loai, Some(MaSuCo::KhongXacNhan));
    assert!(l.chu.contains("huỷ/khởi động lại"));
}

#[test]
fn t_enumjobs_loi_sau_khi_dang_in_khong_thanh_da_in() {
    let mut sp = SpoolerGia {
        vong: vec![vong(0, vec![job(7, JOB_STATUS_PRINTING)]), VongDoc { co_may_in: Some(0), ..VongDoc::default() }],
        ..Default::default()
    };
    let (kq, _) = chay(&mut sp, 10);
    assert!(matches!(kq, KetQuaIn::KhongRo(_)), "{:?}", kq);
}

#[test]
fn t_cho_het_gio_ma_khong_co_su_co_thi_khong_ro_va_theo_doi_tiep() {
    let mut sp = SpoolerGia {
        vong: vec![vong(0, vec![job(7, 0)])],
        hang_doi: Some(vec![job(7, 0)]),
        ..Default::default()
    };
    let (kq, bao) = chay(&mut sp, 4);
    assert!(matches!(kq, KetQuaIn::KhongRo(ref l) if l.loai == Some(MaSuCo::KhongXacNhan)), "{:?}", kq);
    assert!(sp.lenh.is_empty());
    assert!(co_theo_doi_tiep(&bao));
}

#[test]
fn t_muc_yeu_khong_chan_in_khong_bao_su_co() {
    let mut sp = SpoolerGia {
        vong: vec![
            vong(PRINTER_STATUS_TONER_LOW, vec![job(7, JOB_STATUS_PRINTING)]),
            vong(PRINTER_STATUS_TONER_LOW, vec![]),
            vong(PRINTER_STATUS_TONER_LOW, vec![]),
        ],
        ..Default::default()
    };
    let (kq, bao) = chay(&mut sp, 5);
    assert_eq!(kq, KetQuaIn::DaIn);
    assert!(bao.iter().all(|q| !matches!(q, QuanSat::SuCo { .. })));
    assert!(bao.iter().any(|q| matches!(q, QuanSat::MayIn { ma: MaSuCo::HetMuc, .. })));
}

#[test]
fn t_khong_tim_thay_may_in_la_khong_ro_khong_phai_loi() {
    let mut sp = SpoolerGia {
        vong: vec![VongDoc { khong_tim_thay_may_in: true, ..VongDoc::default() }],
        ..Default::default()
    };
    let (kq, bao) = chay(&mut sp, 3);
    assert!(matches!(kq, KetQuaIn::KhongRo(ref l) if l.loai == Some(MaSuCo::KhongTimThayMayIn)), "{:?}", kq);
    assert!(sp.lenh.is_empty());
    assert_eq!(so_su_co(&bao, MaSuCo::KhongTimThayMayIn), 3);
}

#[test]
fn t_job_id_khong_token_van_tim_duoc() {
    let id = "1790251200000-7";
    let j = JobHangDoi { document: format!("AI-INV_2026_030045-Anh_Loc-{}.pdf", id), ..job(7, JOB_STATUS_PRINTING) };
    assert!(la_cua_job(&j, id));
    assert_eq!(tim_job(&vec![j.clone()], id, 1_000).map(|j| j.id), Some(7));
    let j71 = JobHangDoi { document: "AI-INV_1-Khach-1790251200000-71.pdf".into(), ..job(8, 0) };
    assert!(!la_cua_job(&j71, id));
    assert!(la_cua_job(&j71, "1790251200000-71"));
    let jdp = JobHangDoi { document: format!("print-agent-{}-18a2f.pdf", id), ..job(9, 0) };
    assert!(la_cua_job(&jdp, id));
}


#[test]
fn r_b_s5_error_cap_may_suot_ma_job_in_xong_la_da_in() {
    let e = PRINTER_STATUS_ERROR;
    let mut sp = SpoolerGia {
        vong: vec![
            vong(e, vec![job(7, JOB_STATUS_SPOOLING)]),
            vong(e, vec![job(7, 0)]),
            vong(e, vec![job(7, JOB_STATUS_PRINTING)]),
            vong(e, vec![job(7, JOB_STATUS_PRINTING)]),
            vong(e, vec![]),
            vong(e, vec![]),
            vong(e, vec![]),
        ],
        hang_doi: Some(vec![]),
        ..Default::default()
    };
    let (kq, bao) = chay(&mut sp, 30);
    assert_eq!(kq, KetQuaIn::DaIn);
    assert!(sp.lenh.is_empty());
    assert_eq!(so_su_co(&bao, MaSuCo::LoiMayIn), 0);
    assert!(!co_theo_doi_tiep(&bao));
    let mut sp = SpoolerGia {
        vong: vec![
            vong(e, vec![job(7, JOB_STATUS_PRINTING)]),
            vong(e, vec![job(7, 0)]),
            vong(e, vec![]),
            vong(e, vec![]),
        ],
        ..Default::default()
    };
    assert_eq!(chay(&mut sp, 30).0, KetQuaIn::DaIn);
}

#[test]
fn r_b_error_moi_xuat_hien_sau_khi_job_bat_dau_van_khong_ro() {
    let e = PRINTER_STATUS_ERROR;
    let mut sp = SpoolerGia {
        vong: vec![vong(0, vec![job(7, JOB_STATUS_PRINTING)]), vong(e, vec![]), vong(e, vec![]), vong(e, vec![])],
        ..Default::default()
    };
    let (kq, bao) = chay(&mut sp, 30);
    assert!(matches!(kq, KetQuaIn::KhongRo(ref l) if l.loai == Some(MaSuCo::LoiMayIn)), "{:?}", kq);
    assert!(so_su_co(&bao, MaSuCo::LoiMayIn) >= 1);
    let mut sp = SpoolerGia {
        vong: vec![vong(0, vec![job(7, JOB_STATUS_PRINTING)]), vong(0, vec![]), vong(0, vec![]), vong(e, vec![])],
        ..Default::default()
    };
    assert!(matches!(chay(&mut sp, 30).0, KetQuaIn::KhongRo(ref l) if l.loai == Some(MaSuCo::LoiMayIn)));
    let mut sp = SpoolerGia {
        vong: vec![
            vong(e, vec![job(7, JOB_STATUS_PRINTING)]),
            vong(e, vec![]),
            vong(e, vec![]),
            vong(e | PRINTER_STATUS_PAPER_OUT, vec![]),
        ],
        ..Default::default()
    };
    assert!(matches!(chay(&mut sp, 30).0, KetQuaIn::KhongRo(ref l) if l.loai == Some(MaSuCo::HetGiay)));
}

#[test]
fn r_b_error_moi_tren_job_sach_thi_xoa_bao_can_xu_ly() {
    let mut sp = SpoolerGia {
        vong: vec![vong(PRINTER_STATUS_ERROR, vec![job(7, JOB_STATUS_SPOOLING)])],
        hang_doi: Some(vec![job(7, JOB_STATUS_SPOOLING)]),
        het_sau_so_lan_doc: Some(0),
        ..Default::default()
    };
    let (kq, _) = chay_su_co_moi(&mut sp, 30);
    assert!(matches!(kq, KetQuaIn::Loi(ref l) if l.loai == Some(MaSuCo::CanXuLy)), "{:?}", kq);
    assert_eq!(sp.lenh, vec![(7, LenhJob::TamDung), (7, LenhJob::Xoa)]);
}

#[test]
fn t4_loi_chung_chung_cap_may_tren_job_sach_la_can_xu_ly() {
    let loi_cua = |v: VongDoc, j: JobHangDoi| {
        let mut sp = SpoolerGia { vong: vec![v], hang_doi: Some(vec![j]), het_sau_so_lan_doc: Some(0), ..Default::default() };
        match chay_su_co_moi(&mut sp, 30).0 {
            KetQuaIn::Loi(l) => l.loai,
            kq => panic!("{:?}", kq),
        }
    };
    let mut sp = SpoolerGia {
        vong: vec![vong(0, vec![job(7, 0)]), vong(PRINTER_STATUS_ERROR, vec![job(7, 0)])],
        hang_doi: Some(vec![job(7, 0)]),
        het_sau_so_lan_doc: Some(0),
        ..Default::default()
    };
    let (kq, _) = chay(&mut sp, 30);
    let KetQuaIn::Loi(l) = kq else { panic!("{:?}", kq) };
    assert_eq!(l.loai, Some(MaSuCo::CanXuLy));
    assert!(l.chu.contains("can_xu_ly"), "{}", l.chu);
    assert_eq!(loi_cua(vong(0, vec![job(7, JOB_STATUS_BLOCKED_DEVQ)]), job(7, JOB_STATUS_BLOCKED_DEVQ)), Some(MaSuCo::LoiMayIn));
    assert_eq!(loi_cua(vong(PRINTER_STATUS_PAPER_OUT, vec![job(7, 0)]), job(7, 0)), Some(MaSuCo::HetGiay));
    assert_eq!(ma_loi_khong_tieu_luot(KetQuaIn::KhongRo(LyDo::co_loai("x", MaSuCo::LoiMayIn)), true),
        KetQuaIn::KhongRo(LyDo::co_loai("x", MaSuCo::LoiMayIn)));
}

#[test]
fn t3_su_co_bat_dau_luc_sumatra_chay_khong_phai_nen() {
    let po = PRINTER_STATUS_PAPER_OUT;
    let vongs = || vec![vong(po, vec![job(7, JOB_STATUS_PRINTING)]), vong(po, vec![]), vong(po, vec![]), vong(po, vec![])];
    let mut sp = SpoolerGia { vong: vongs(), ..Default::default() };
    let kq = chay_voi_nen(&mut sp, 30, TapMa::default()).0;
    assert!(matches!(kq, KetQuaIn::KhongRo(ref l) if l.loai == Some(MaSuCo::HetGiay)), "{:?}", kq);
    let mut sp = SpoolerGia { vong: vongs(), ..Default::default() };
    let nen_sai = chup_nen(&sp.vong[0]);
    assert_eq!(chay_voi_nen(&mut sp, 30, nen_sai).0, KetQuaIn::DaIn);
}

#[test]
fn t2_job_paused_printed_complete_retained_khong_phai_job_ket() {
    for them in [JOB_STATUS_PAUSED, JOB_STATUS_PRINTED, JOB_STATUS_COMPLETE, JOB_STATUS_RETAINED, JOB_STATUS_DELETING, JOB_STATUS_DELETED] {
        let j = JobHangDoi { status: JOB_STATUS_PAPEROUT | JOB_STATUS_ERROR | them, ..job_khac(9) };
        assert_eq!(ma_job_ket(&j), None, "0x{:X}", them);
        assert_eq!(kiem_hang_doi(Some(std::slice::from_ref(&j)), None), None, "0x{:X}", them);
        assert_eq!(tinh_trang_gop(&vong(0, vec![j])).map(|x| x.0), Some(MaSuCo::BinhThuong), "0x{:X}", them);
    }
    let j = JobHangDoi { status: JOB_STATUS_PAPEROUT, ..job_khac(9) };
    assert_eq!(ma_job_ket(&j), Some(MaSuCo::HetGiay));
}

#[test]
fn t5_kiem_truoc_khi_in_may_in_khong_ton_tai_va_backend_cu() {
    let khong_co = VongDoc { khong_tim_thay_may_in: true, ..VongDoc::default() };
    let KiemTruoc::TuChoi { ly_do, su_kien } = kiem_truoc_khi_in(&khong_co, "HP 4003", None, true) else { panic!() };
    assert_eq!(ly_do.loai, Some(MaSuCo::KhongTimThayMayIn));
    assert_eq!(ly_do.chu, "Không tìm thấy máy in \"HP 4003\" trong Windows (đã đổi tên/gỡ?) — chưa gửi hoá đơn này xuống máy in");
    assert_eq!(su_kien, "khong_in_khong_tim_thay_may_in");
    assert!(MaSuCo::KhongTimThayMayIn.khong_tieu_luot());
    assert_eq!(kiem_truoc_khi_in(&khong_co, "HP", None, false), KiemTruoc::In { nen: Some(TapMa::default()) });
    let ket = vong(0, vec![job(7, JOB_STATUS_PAPEROUT)]);
    assert!(matches!(kiem_truoc_khi_in(&ket, "HP", None, true), KiemTruoc::TuChoi { su_kien: "khong_in_hang_doi_ket", .. }));
    let khong_doc = VongDoc { co_may_in: Some(0), ..VongDoc::default() };
    assert!(matches!(kiem_truoc_khi_in(&khong_doc, "HP", Some(("INV_1".into(), MaSuCo::KetGiay)), true), KiemTruoc::TuChoi { .. }));
    assert_eq!(kiem_truoc_khi_in(&khong_doc, "HP", None, true), KiemTruoc::In { nen: Some(TapMa::default()) });
    let KiemTruoc::In { nen: Some(nen) } = kiem_truoc_khi_in(&vong(PRINTER_STATUS_ERROR, vec![]), "HP", None, true) else { panic!() };
    assert!(nen.co(MaSuCo::LoiMayIn));
}

#[test]
fn r_a_job_ta_xep_sau_job_ket_thi_khong_ro_mang_ma_job_ket() {
    let j1 = JobHangDoi { document: "AI-INV_1-K-1790000000000-1.pdf".into(), ..job(6, JOB_STATUS_PAPEROUT | JOB_STATUS_ERROR) };
    let mut sp = SpoolerGia {
        vong: vec![vong(0, vec![j1.clone(), job(7, 0)])],
        hang_doi: Some(vec![j1, job(7, 0)]),
        ..Default::default()
    };
    let (kq, bao) = chay(&mut sp, 30);
    assert!(matches!(kq, KetQuaIn::KhongRo(ref l) if l.loai == Some(MaSuCo::HetGiay)), "{:?}", kq);
    assert!(sp.lenh.is_empty());
    assert!(co_theo_doi_tiep(&bao));
    assert_eq!(so_su_co(&bao, MaSuCo::HetGiay), 0);
    assert!(bao.iter().any(|q| matches!(q, QuanSat::MayIn { ma: MaSuCo::HetGiay, .. })));
}

#[test]
fn r_j_cau_het_gio_theo_dung_quan_sat() {
    let chu = |vongs: Vec<VongDoc>| {
        let mut sp = SpoolerGia { vong: vongs, ..Default::default() };
        match chay(&mut sp, 5).0 {
            KetQuaIn::KhongRo(l) => l.chu,
            kq => panic!("{:?}", kq),
        }
    };
    assert!(chu(vec![vong(0, vec![job(7, 0)])]).starts_with("job van nam trong hang doi Windows, chua bat dau in"));
    assert!(chu(vec![vong(0, vec![job(7, 0)]), vong(0, vec![])]).starts_with("job roi hang doi Windows ma chua thay bat dau in"));
    assert!(chu(vec![vong(0, vec![])]).starts_with("khong thay job trong hang doi Windows"));
}

#[test]
fn r_k_sau_lenh_xoa_thay_job_dang_in_thi_khong_go_duoc() {
    let mut sp = SpoolerGia {
        hang_doi: Some(vec![job(7, JOB_STATUS_SPOOLING)]),
        sau_xoa_thay_in: true,
        ..Default::default()
    };
    let kq = go_job(&mut sp, ID, false);
    assert!(matches!(kq, KetQuaGoJob::KhongGoDuoc(ref e) if e.contains("bat dau in trong luc xoa")), "{:?}", kq);
    assert!(kq.job_con_trong_hang_doi());
    let kq = quyet_loi_truoc_khi_in(LyDo::co_loai("loi truoc khi in", MaSuCo::HetGiay), kq);
    assert!(matches!(kq, KetQuaIn::KhongRo(_)));
}

#[test]
fn r_k_cho_500ms_sau_tam_dung_roi_moi_doc_lai() {
    let mut sp = SpoolerGia {
        hang_doi: Some(vec![job(7, JOB_STATUS_SPOOLING)]),
        het_sau_so_lan_doc: Some(0),
        ..Default::default()
    };
    assert_eq!(go_job(&mut sp, ID, false), KetQuaGoJob::DaGoXong);
    let sk = sp.su_kien.borrow().clone();
    let cho = sk.iter().position(|e| e == "cho 500ms").unwrap();
    assert_eq!(sk[..cho].iter().filter(|e| *e == "doc_hang_doi").count(), 1);
    assert_eq!(sk.get(cho + 1).map(String::as_str), Some("doc_hang_doi"));
    assert!(CHO_SAU_TAM_DUNG_MS >= 500);
}


#[test]
fn r_a_s2_job_moi_xep_sau_job_ket_thi_khong_in() {
    let j1 = job(7, JOB_STATUS_PAPEROUT | JOB_STATUS_ERROR);
    let ly_do = kiem_hang_doi(Some(std::slice::from_ref(&j1)), None).unwrap();
    assert_eq!(ly_do.loai, Some(MaSuCo::HetGiay));
    assert_eq!(ly_do.chu, "Máy in đang kẹt hoá đơn INV_2026_030045 — chưa gửi hoá đơn này xuống máy in");
    let jam = JobHangDoi { mo_ta_driver: "Paper jam".into(), ..j1.clone() };
    assert_eq!(kiem_hang_doi(Some(&[jam]), None).unwrap().loai, Some(MaSuCo::KetGiay));
    let word = JobHangDoi { status: JOB_STATUS_OFFLINE, ..job_khac(9) };
    let ly_do = kiem_hang_doi(Some(&[job(8, 0), word]), None).unwrap();
    assert_eq!((ly_do.chu.as_str(), ly_do.loai), (CHU_KET_JOB_KHAC, Some(MaSuCo::Offline)));
    assert!(!ly_do.chu.contains("bao gia"));
    let ds = [JobHangDoi { status: JOB_STATUS_USER_INTERVENTION, ..job_khac(9) }, JobHangDoi { status: JOB_STATUS_PAPEROUT, ..job_khac(10) }];
    assert_eq!(kiem_hang_doi(Some(&ds), None).unwrap().loai, Some(MaSuCo::HetGiay));
}

#[test]
fn r_a_job_ket_chi_co_error_chung_chung_thi_tu_choi_bang_can_xu_ly_khong_tieu_luot() {
    let ket = job(7, JOB_STATUS_ERROR);
    let ly_do = kiem_hang_doi(Some(std::slice::from_ref(&ket)), None).unwrap();
    assert_eq!(ly_do.loai, Some(MaSuCo::CanXuLy));
    let tu_theo_doi = kiem_hang_doi(None, Some(("INV_1".into(), MaSuCo::LoiMayIn))).unwrap();
    assert_eq!(tu_theo_doi.loai, Some(MaSuCo::CanXuLy));
}

#[test]
fn r_a_ngoai_le_khong_chan() {
    for ds in [
        vec![],
        vec![job(7, JOB_STATUS_BLOCKED_DEVQ)],
        vec![job(7, JOB_STATUS_ERROR | JOB_STATUS_DELETING)],
        vec![JobHangDoi { status: JOB_STATUS_PAPEROUT | JOB_STATUS_DELETED, ..job_khac(9) }],
        vec![job(7, JOB_STATUS_PRINTING), job_khac(9)],
        vec![job(7, JOB_STATUS_PAUSED | JOB_STATUS_SPOOLING)],
    ] {
        assert_eq!(kiem_hang_doi(Some(&ds), Some(("INV_1".into(), MaSuCo::HetGiay))), None, "{:?}", ds);
    }
    let ly_do = kiem_hang_doi(None, Some(("INV_1".into(), MaSuCo::KetGiay))).unwrap();
    assert_eq!((ly_do.chu, ly_do.loai), (chu_ket_hoa_don("INV_1"), Some(MaSuCo::KetGiay)));
    assert_eq!(kiem_hang_doi(None, None), None);
}

#[test]
fn r_a_trang_thai_ranh_gop_co_job_ket() {
    let (ma, ct) = tinh_trang_gop(&vong(0, vec![job(7, JOB_STATUS_PAPEROUT | JOB_STATUS_ERROR)])).unwrap();
    assert_eq!(ma, MaSuCo::HetGiay);
    assert!(ct.as_deref().unwrap().contains("hoá đơn INV_2026_030045 kẹt"), "{:?}", ct);
    assert_eq!(tinh_trang_gop(&vong(PRINTER_STATUS_OFFLINE, vec![job(7, JOB_STATUS_ERROR)])).unwrap().0, MaSuCo::Offline);
    assert_eq!(tinh_trang_gop(&vong(PRINTER_STATUS_TONER_LOW, vec![job(7, JOB_STATUS_ERROR)])).unwrap().0, MaSuCo::LoiMayIn);
    let (_, ct) = tinh_trang_gop(&vong(0, vec![JobHangDoi { status: JOB_STATUS_OFFLINE, ..job_khac(9) }])).unwrap();
    assert!(ct.as_deref().unwrap().starts_with("job khác kẹt") && !ct.unwrap().contains("bao gia"));
    assert_eq!(tinh_trang_gop(&vong(0, vec![job(7, JOB_STATUS_BLOCKED_DEVQ)])), Some((MaSuCo::BinhThuong, None)));
    assert_eq!(tinh_trang_gop(&VongDoc::default()), None);
}

#[test]
fn r_e_tach_job_id_tu_ten_file() {
    let bang = [
        ("AI-INV_2026_030045-Anh_Loc-clx0abc12345678-1727170000000.pdf", Some("clx0abc12345678-1727170000000")),
        (
            "AI-INV_1-Anh_Loc-550e8400-e29b-41d4-a716-446655440000-1727170000000.pdf",
            Some("550e8400-e29b-41d4-a716-446655440000-1727170000000"),
        ),
        ("AI-INV_1-Khong_ro-1790251200000-7.pdf", Some("1790251200000-7")),
        ("AI-INV_1-Khach-1790251200000-7.PDF", Some("1790251200000-7")),
        (r"C:\Users\NV\AppData\Local\Temp\AI-INV_1-K-1790251200000-7.pdf", Some("1790251200000-7")),
        ("AI-INV_1-K-1790251200000-7", Some("1790251200000-7")),
        ("AI-INV_1-K-tokHN-1727170000000-3.pdf", Some("tokHN-1727170000000-3")),
        ("print-agent-1790251200000-7-18a2f.pdf", Some("1790251200000-7")),
        ("print-agent-clx0abc12345678-1727170000000-18a2f00ab.pdf", Some("clx0abc12345678-1727170000000")),
        ("print-agent-in-thu-18a.pdf", None),
        ("AI-Report-Q3-x.pdf", None),
        ("AI-Report-Q3-2024-final.pdf", None),
        ("AI-INV_1-K-12345-7.pdf", None),
        ("AI-INV_1-K-CLX0ABC12345678-1727170000000.pdf", None),
        ("AI-INV_1.pdf", None),
        ("AI-INV_1-Khach.pdf", None),
        ("AI--Khach-1-2.pdf", None),
        ("AI-INV_1-Khach-.pdf", None),
        ("AI-INV_1-Khach-a b.pdf", None),
        ("print-agent-1790251200000-7-xyz.pdf", None),
        ("print-agent-18a.pdf", None),
        ("Microsoft Word - AI-bao cao.docx", None),
    ];
    for (ten, mong) in bang {
        assert_eq!(tach_job_id_tu_ten(ten).as_deref(), mong, "{}", ten);
    }
    let j = job(7, 0);
    assert_eq!(tach_job_id_tu_ten(&j.document).as_deref(), Some(ID));
    assert!(la_cua_job(&j, &tach_job_id_tu_ten(&j.document).unwrap()));
    assert_eq!(so_hoa_don_cua(&j).as_deref(), Some("INV_2026_030045"));
}

#[test]
fn t8_la_id_backend() {
    for id in [
        "550e8400-e29b-41d4-a716-446655440000-1727170000000",
        "550E8400-E29B-41D4-A716-446655440000-1727170000000",
        "clx0abc12345678-1727170000000",
        "cmf1a2b3c4d5e6f7g8h9i0j1k-1790251200000",
        "1790251200000-7",
        "1790251200000-12345",
        "tokHN-1727170000000-3",
        "tok-co-gach-1727170000000-3",
    ] {
        assert!(la_id_backend(id), "{}", id);
    }
    for id in [
        "", "x", "in-thu", "1727-3", "179025120000-7", "1790251200000-", "-1790251200000-7",
        "550e8400-e29b-41d4-a716-44665544000-1727170000000", "clx0ab-1727170000000", "Q3-x",
        "abc def-1790251200000-3", "1790251200000-7a",
    ] {
        assert!(!la_id_backend(id), "{}", id);
    }
}

#[test]
fn t8_cung_may() {
    assert!(cung_may(r"\\PC-SHOP", "PC-SHOP"));
    assert!(cung_may(r"\\pc-shop", "PC-SHOP"));
    assert!(cung_may("PC-SHOP", "pc-shop"));
    assert!(cung_may(r"\\PC-SHOP.lan", "PC-SHOP"));
    assert!(!cung_may(r"\\PC-KHO", "PC-SHOP"));
    assert!(!cung_may("", "PC-SHOP"));
    assert!(!cung_may(r"\\PC-SHOP", ""));
    assert!(!cung_may(r"\\", ""));
}

#[test]
fn la_job_cua_app_theo_ten_file() {
    assert!(la_job_cua_app("AI-INV_2026_030045-Anh_Loc-1790251200000-7.pdf"));
    assert!(la_job_cua_app("print-agent-in-thu-18a.pdf"));
    assert!(la_job_cua_app(r"C:\Users\NV\AppData\Local\Temp\AI-INV_1-x-1790251200000-2.pdf"));
    assert!(!la_job_cua_app(r"C:\Users\NV\AppData\Local\Temp\AI-INV_1-x-1-2.pdf"));
    assert!(!la_job_cua_app("AI-Report-Q3-x.pdf"));
    assert!(!la_job_cua_app("Microsoft Word - AI-bao cao.docx"));
    assert!(!la_job_cua_app("bao-gia.pdf"));
}

#[test]
fn khoi_dong_cho_chay_tiep_job_cua_app_bi_dung_khong_dung_job_khac() {
    let mut sp = SpoolerGia {
        hang_doi: Some(vec![
            job(7, JOB_STATUS_PAUSED),
            job(8, 0),
            JobHangDoi { status: JOB_STATUS_PAUSED, ..job_khac(9) },
            JobHangDoi { document: "print-agent-in-thu-1.pdf".into(), ..job(10, JOB_STATUS_PAUSED | JOB_STATUS_SPOOLING) },
            JobHangDoi { may_tinh: r"\\PC-KHO".into(), ..job(11, JOB_STATUS_PAUSED) },
            JobHangDoi { may_tinh: String::new(), ..job(12, JOB_STATUS_PAUSED) },
            JobHangDoi { document: "AI-Report-Q3-x.pdf".into(), ..job(13, JOB_STATUS_PAUSED) },
        ]),
        ..Default::default()
    };
    let kq = tiep_tuc(&mut sp, MAY);
    assert_eq!(kq.iter().map(|(id, _, _)| *id).collect::<Vec<_>>(), vec![7, 10]);
    assert!(kq.iter().all(|(_, _, r)| r.is_ok()));
    assert_eq!(sp.lenh, vec![(7, LenhJob::TiepTuc), (10, LenhJob::TiepTuc)]);
    let mut sp = SpoolerGia::default();
    assert!(tiep_tuc(&mut sp, MAY).is_empty());
}


fn trong_may_in_usb(ds: &[QuanSat]) -> Option<bool> {
    ds.iter().find_map(|q| match q {
        QuanSat::TrongMayInUsb { da_thay_loi, .. } => Some(*da_thay_loi),
        _ => None,
    })
}

#[test]
fn u2_ca_that_hcm_het_giay_sau_khi_roi_hang_doi_la_khong_ro_trong_may_in() {
    let mut vongs = vec![vong(0, vec![job(7, JOB_STATUS_PRINTING)])];
    vongs.extend(std::iter::repeat_n(vong_usb(USB_DANG_IN), 2 + 5));
    vongs.push(vong_usb(USB_HET_GIAY));
    let mut sp = SpoolerGia { vong: vongs, ..Default::default() };
    let (kq, bao) = chay_su_co_moi(&mut sp, 30);
    let KetQuaIn::KhongRo(l) = kq else { panic!("{:?}", kq) };
    assert_eq!(l.loai, Some(MaSuCo::CanXuLy));
    assert!(l.chu.contains("bo nho may in") && l.chu.contains("tu in"), "{}", l.chu);
    assert_eq!(trong_may_in_usb(&bao), Some(true));
    assert!(!co_theo_doi_tiep(&bao));
    assert_eq!(so_su_co(&bao, MaSuCo::CanXuLy), 1);
}

#[test]
fn u2_usb_in_xong_busy_roi_idle_moi_la_da_in() {
    let mut vongs = vec![vong(0, vec![job(7, JOB_STATUS_PRINTING)])];
    vongs.extend(std::iter::repeat_n(vong_usb(USB_DANG_IN), 2 + 10));
    vongs.push(vong_usb(USB_RANH));
    let mut sp = SpoolerGia { vong: vongs, ..Default::default() };
    let (kq, bao) = chay_su_co_moi(&mut sp, 30);
    assert_eq!(kq, KetQuaIn::DaIn);
    assert_eq!(sp.so_vong_da_doc, 1 + 2 + 10 + 1);
    assert_eq!(trong_may_in_usb(&bao), None);
}

#[test]
fn u2_usb_idle_ma_chua_tung_busy_khong_bao_gio_da_in() {
    let mut sp = SpoolerGia {
        vong: vec![vong(0, vec![job(7, JOB_STATUS_PRINTING)]), vong_usb(USB_RANH)],
        ..Default::default()
    };
    let (kq, bao) = chay_su_co_moi(&mut sp, 30);
    assert!(matches!(kq, KetQuaIn::KhongRo(ref l) if l.loai == Some(MaSuCo::KhongXacNhan)), "{:?}", kq);
    assert_eq!(trong_may_in_usb(&bao), Some(false));
    assert_eq!(sp.so_vong_da_doc, 1 + SO_LAN_VANG_LA_XONG + SO_LAN_USB_TOI_DA);
    let mut vongs = vec![vong(0, vec![job(7, JOB_STATUS_PRINTING)])];
    vongs.extend(std::iter::repeat_n(vong_usb(USB_RANH), 2 + 20));
    vongs.extend(std::iter::repeat_n(vong_usb(USB_DANG_IN), 8));
    vongs.push(vong_usb(USB_RANH));
    let mut sp = SpoolerGia { vong: vongs, ..Default::default() };
    let (kq, _) = chay_su_co_moi(&mut sp, 30);
    assert_eq!(kq, KetQuaIn::DaIn);
    assert_eq!(sp.so_vong_da_doc, 1 + 2 + 20 + 8 + 1);
}

#[test]
fn u2_usb_ban_qua_han_la_khong_ro_va_theo_doi_usb() {
    let mut sp = SpoolerGia {
        vong: vec![vong(0, vec![job(7, JOB_STATUS_PRINTING)]), vong_usb(USB_DANG_IN)],
        ..Default::default()
    };
    let (kq, bao) = chay_su_co_moi(&mut sp, 30);
    let KetQuaIn::KhongRo(l) = kq else { panic!("{:?}", kq) };
    assert_eq!(l.loai, Some(MaSuCo::KhongXacNhan));
    assert_eq!(trong_may_in_usb(&bao), Some(false));
    assert_eq!(sp.so_vong_da_doc, 1 + SO_LAN_VANG_LA_XONG + SO_LAN_USB_TOI_DA);
    assert_eq!(so_su_co(&bao, MaSuCo::KhongXacNhan), 0);
}

#[test]
fn u2_khong_co_usb_giu_luat_cu() {
    let mut sp = SpoolerGia {
        vong: vec![vong(0, vec![job(7, JOB_STATUS_PRINTING)]), vong(0, vec![])],
        ..Default::default()
    };
    let (kq, bao) = chay_su_co_moi(&mut sp, 30);
    assert_eq!(kq, KetQuaIn::DaIn);
    assert_eq!(sp.so_vong_da_doc, 1 + SO_LAN_VANG_LA_XONG + SO_LAN_DOC_MAY_IN_SAU_KHI_ROI);
    assert_eq!(trong_may_in_usb(&bao), None);
}

#[test]
fn u2_bo_sau_khi_roi_thuan() {
    let mut bo = BoSauKhiRoi::default();
    assert_eq!(bo.them(Some(MaSuCo::CanXuLy), Some(TinhTrangUsb::Loi(MaSuCo::CanXuLy))), Some(SauKhiRoi::TrongMayInUsb(MaSuCo::CanXuLy)));
    let mut bo = BoSauKhiRoi::default();
    assert_eq!(bo.them(Some(MaSuCo::HetGiay), Some(TinhTrangUsb::DangIn)), Some(SauKhiRoi::TrongMayInUsb(MaSuCo::HetGiay)));
    let mut bo = BoSauKhiRoi::default();
    assert_eq!(bo.them(Some(MaSuCo::HetGiay), None), Some(SauKhiRoi::SuCo(MaSuCo::HetGiay)));
    let mut bo = BoSauKhiRoi::default();
    assert_eq!(bo.them(None, Some(TinhTrangUsb::DangIn)), None);
    for _ in 0..10 {
        assert_eq!(bo.them(None, None), None);
    }
    assert_eq!(bo.them(None, Some(TinhTrangUsb::Ranh)), Some(SauKhiRoi::Sach));
    let mut bo = BoSauKhiRoi::default();
    for _ in 0..SO_LAN_USB_KHONG_THAY_IN - 1 {
        assert_eq!(bo.them(None, Some(TinhTrangUsb::KhongLoi)), None);
    }
    assert_eq!(bo.them(None, Some(TinhTrangUsb::KhongLoi)), Some(SauKhiRoi::Sach));
    let mut bo = BoSauKhiRoi::default();
    assert_eq!(bo.them(None, Some(TinhTrangUsb::DangIn)), None);
    assert_eq!(bo.them(None, Some(TinhTrangUsb::Ranh)), Some(SauKhiRoi::Sach));
}

#[test]
fn u1_tinh_trang_gop_co_loi_usb() {
    let (ma, ct) = tinh_trang_gop(&vong_usb(USB_HET_GIAY)).unwrap();
    assert_eq!(ma, MaSuCo::CanXuLy);
    assert!(ct.as_deref().is_some_and(|c| c.contains("USB 0x90") && c.contains("hết giấy")), "{:?}", ct);
    assert_eq!(tinh_trang_gop(&vong_usb(USB_RANH)).unwrap().0, MaSuCo::BinhThuong);
    assert_eq!(tinh_trang_gop(&vong_usb(USB_DANG_IN)).unwrap().0, MaSuCo::BinhThuong);
    let v = VongDoc { co_may_in: Some(PRINTER_STATUS_PAPER_OUT), ..vong_usb(USB_HET_GIAY) };
    let (ma, ct) = tinh_trang_gop(&v).unwrap();
    assert_eq!(ma, MaSuCo::HetGiay);
    assert!(ct.as_deref().is_some_and(|c| c.contains("PAPER_OUT") && c.contains("USB 0x90")), "{:?}", ct);
}

#[test]
fn u1_loi_usb_khong_vao_nen() {
    assert!(chup_nen(&vong_usb(USB_HET_GIAY)).is_empty());
    assert!(tap_may_in(&vong_usb(USB_HET_GIAY)).is_some_and(|t| t.co(MaSuCo::CanXuLy)));
}


#[test]
fn g1_printed_tren_may_usb_van_phai_hoi_usb() {
    let mut sp = SpoolerGia {
        vong: vec![
            vong_may_usb(vec![job(7, JOB_STATUS_PRINTING)]),
            vong_may_usb(vec![job(7, JOB_STATUS_PRINTED)]),
            vong_usb(USB_DANG_IN),
            vong_usb(USB_HET_GIAY),
        ],
        ..Default::default()
    };
    let (kq, bao) = chay_su_co_moi(&mut sp, 30);
    assert!(matches!(kq, KetQuaIn::KhongRo(ref l) if l.loai == Some(MaSuCo::CanXuLy)), "{:?}", kq);
    assert_eq!(trong_may_in_usb(&bao), Some(true));
    let mut sp = SpoolerGia {
        vong: vec![vong(0, vec![job(7, JOB_STATUS_PRINTING)]), vong(0, vec![job(7, JOB_STATUS_PRINTED)])],
        ..Default::default()
    };
    let (kq, _) = chay_su_co_moi(&mut sp, 30);
    assert_eq!(kq, KetQuaIn::DaIn);
    assert_eq!(sp.so_vong_da_doc, 2);
}

#[test]
fn g3_gui_them_khi_may_dang_giu_to_truoc_la_trong_may_in_usb() {
    let mut sp = SpoolerGia {
        vong: vec![vong_may_usb(vec![job(7, JOB_STATUS_PRINTING)]), vong_usb(USB_HET_GIAY)],
        ..Default::default()
    };
    let (kq, bao) = chay_su_co_moi(&mut sp, 30);
    let KetQuaIn::KhongRo(l) = kq else { panic!("{:?}", kq) };
    assert_eq!(l.loai, Some(MaSuCo::CanXuLy));
    assert!(l.chu.contains("bo nho may in"), "{}", l.chu);
    assert_eq!(trong_may_in_usb(&bao), Some(true));
    let mut sp = SpoolerGia { vong: vec![vong_usb(USB_HET_GIAY)], ..Default::default() };
    let (kq, bao) = chay_su_co_moi(&mut sp, 3);
    assert!(!matches!(kq, KetQuaIn::DaIn), "{:?}", kq);
    assert_eq!(trong_may_in_usb(&bao), None);
}

#[test]
fn g5_status_thieu_sau_busy_khong_phai_in_xong() {
    let thieu = VongDoc { usb: Some(DocUsb { byte: 0x98, status: None }), ..vong_usb(USB_DANG_IN) };
    let mut vongs = vec![vong_may_usb(vec![job(7, JOB_STATUS_PRINTING)])];
    vongs.extend(std::iter::repeat_n(vong_usb(USB_DANG_IN), 3));
    vongs.push(thieu);
    vongs.push(vong_usb(USB_HET_GIAY));
    let mut sp = SpoolerGia { vong: vongs, ..Default::default() };
    let (kq, bao) = chay_su_co_moi(&mut sp, 30);
    assert!(matches!(kq, KetQuaIn::KhongRo(ref l) if l.loai == Some(MaSuCo::CanXuLy)), "{:?}", kq);
    assert_eq!(trong_may_in_usb(&bao), Some(true));
    let mut bo = BoSauKhiRoi::default();
    for _ in 0..SO_LAN_USB_KHONG_THAY_IN - 1 {
        assert_eq!(bo.them(None, Some(TinhTrangUsb::KhongLoi)), None);
    }
    assert_eq!(bo.them(None, Some(TinhTrangUsb::KhongLoi)), Some(SauKhiRoi::Sach));
}

#[test]
fn g_cong_hoi_usb_theo_hang_doi() {
    assert!(hang_doi_cho_doc_usb(&vec![]));
    assert!(hang_doi_cho_doc_usb(&vec![job(1, JOB_STATUS_PRINTED | JOB_STATUS_RETAINED), job(2, JOB_STATUS_COMPLETE)]));
    for st in [0, JOB_STATUS_SPOOLING, JOB_STATUS_PRINTING, JOB_STATUS_PAUSED, JOB_STATUS_ERROR | JOB_STATUS_PAPEROUT] {
        assert!(!hang_doi_cho_doc_usb(&vec![job(1, JOB_STATUS_RETAINED | JOB_STATUS_PRINTED), job(2, st)]), "{:#x}", st);
    }
}

#[test]
fn g7_het_gio_may_usb_la_chua_xong() {
    let mut bo = BoSauKhiRoi::default();
    assert_eq!(bo.them(None, Some(TinhTrangUsb::Ranh)), None);
    assert_eq!(bo.het_gio(), SauKhiRoi::UsbChuaXong);
    assert_eq!(BoSauKhiRoi::default().het_gio(), SauKhiRoi::Sach);
}

#[test]
fn mo_ta_mot_vong_doc() {
    assert_eq!(mo_ta_vong(&VongDoc::default(), ID), "hd=? may=? usb=khong_usb");
    let v = vong(0x10, vec![JobHangDoi { trang_da_in: 1, ..job(7, 0x2010) }, job_khac(9)]);
    assert_eq!(mo_ta_vong(&v, ID), "hd=[0x2010/p1] khac=1 may=0x10 usb=khong_usb");
    assert_eq!(mo_ta_vong(&vong_may_usb(vec![job(7, 0), job(8, 0x10)]), ID), "hd=[0x0/p0,0x10/p0] khac=0 may=0x0 usb=-");
    assert_eq!(mo_ta_vong(&vong_usb(USB_DANG_IN), ID), "hd=[vang] khac=0 may=0x0 usb=0x98/BUSY");
    let v = VongDoc { khong_tim_thay_may_in: true, la_may_usb: true, usb_khong_doc_duoc: true, ..VongDoc::default() };
    assert_eq!(mo_ta_vong(&v, ID), "hd=? may=khong_tim_thay usb=KHONG_DOC_DUOC");
}

#[test]
fn hai_job_cung_ten_khong_chon_job_nao() {
    let a = JobHangDoi { submitted_epoch_secs: 1_000, ..job(7, 0) };
    let b = JobHangDoi { submitted_epoch_secs: 1_005, ..job(8, 0) };
    assert_eq!(tim_job(&vec![a.clone(), b.clone()], ID, 1_000), None);
    assert_eq!(tim_job(&vec![b.clone(), a.clone()], ID, 1_000), None);
    assert_eq!(tim_job(&vec![a.clone(), JobHangDoi { id: 9, ..a.clone() }], ID, 1_000), None);
    assert_eq!(tim_job(&vec![a.clone(), b], ID, 1_005).map(|j| j.id), Some(8));
    assert_eq!(tim_job(&vec![a.clone()], ID, 1_002).map(|j| j.id), Some(7));
    assert_eq!(tim_job(&vec![a], ID, 1_003), None);
}

#[test]
fn id_chong_len_nhau_van_nhan_ra() {
    let ten = |s: &str| JobHangDoi { document: s.to_string(), ..job(7, 0) };
    assert!(la_cua_job(&ten("111x"), "11"));
    assert!(!la_cua_job(&ten("111"), "1x"));
    assert!(la_cua_job(&ten("1-1-1-10 1-1-1"), "1-1-1"));
    assert!(la_cua_job(&ten("1-1-10"), "1-1"));
    assert!(!la_cua_job(&ten("1-10"), "1-1"));
    assert!(!la_cua_job(&ten("bat ky"), ""));
    assert!(!la_cua_job(&ten(""), "1"));
}

#[test]
fn khong_ro_ten_may_khong_la_cung_may() {
    assert!(cung_may("\\\\PC-A.local", "pc-a"));
    assert!(!cung_may("", ""));
    assert!(!cung_may(" \\\\ ", ""));
    assert!(!cung_may(".local", ".local"));
    assert!(!cung_may("PC-A", ""));
    assert!(!ten_may_trung("", "", "", ""));
    assert!(!ten_may_trung("A", "", "", ""));
    assert!(ten_may_trung("A", "a", "a", "a"));
}

#[test]
fn nen_la_co_spooler_khong_co_thiet_bi() {
    let v = VongDoc { co_may_in: Some(PRINTER_STATUS_PAPER_OUT | PRINTER_STATUS_ERROR), ..vong_usb(USB_HET_GIAY) };
    let khong_usb = VongDoc { usb: None, la_may_usb: false, ..v.clone() };
    let mong = TapMa::tu_danh_sach(&vec![MaSuCo::HetGiay, MaSuCo::LoiMayIn]);
    assert_eq!(chup_nen(&v), mong);
    assert_eq!(chup_nen(&khong_usb), mong);
    assert_eq!(kiem_truoc_khi_in(&v, "HP", None, true), KiemTruoc::In { nen: Some(mong) });
    let tap = TapMa::tu_danh_sach(&vec![MaSuCo::HetGiay, MaSuCo::LoiMayIn, MaSuCo::CanXuLy]);
    assert_eq!(tap_may_in(&v), Some(tap));
    let khong_co = VongDoc { khong_tim_thay_may_in: true, ..v };
    assert_eq!(chup_nen(&khong_co), TapMa::default());
    assert_eq!(tap_may_in(&khong_co), Some(TapMa::tu_danh_sach(&vec![MaSuCo::KhongTimThayMayIn])));
    assert_eq!(chup_nen(&VongDoc::default()), TapMa::default());
    assert_eq!(tap_may_in(&VongDoc::default()), None);
}

#[test]
fn id_doc_lai_tu_ten_o_moi_thu_muc_va_duoi() {
    for id in ["1790251200000-7", "clx0abc12345678-1727170000000", "tok-co-gach-1727170000000-3"] {
        for dir in ["", "C:\\Temp\\", "/tmp/", "a-b/AI-x\\"] {
            for duoi in ["", ".pdf", ".PDF"] {
                let server = format!("{}AI-INV_1-Anh_Loc-{}{}", dir, id, duoi);
                assert_eq!(tach_job_id_tu_ten(&server).as_deref(), Some(id), "{}", server);
                let app = format!("{}print-agent-{}-18A2f{}", dir, id, duoi);
                assert_eq!(tach_job_id_tu_ten(&app).as_deref(), Some(id), "{}", app);
            }
        }
    }
}

#[test]
fn sau_khi_roi_tung_lan_doc() {
    let chay = |ds: &[(Option<MaSuCo>, Option<TinhTrangUsb>)]| -> Vec<Option<SauKhiRoi>> {
        let mut bo = BoSauKhiRoi::default();
        ds.iter().map(|(c, u)| bo.them(*c, *u)).collect()
    };
    let im = (None, None);
    let k = (None, Some(TinhTrangUsb::KhongLoi));
    let r = chay(&[im; SO_LAN_DOC_MAY_IN_SAU_KHI_ROI]);
    assert_eq!(r.last(), Some(&Some(SauKhiRoi::Sach)));
    assert!(r[..r.len() - 1].iter().all(Option::is_none));
    let r = chay(&[k; SO_LAN_USB_KHONG_THAY_IN]);
    assert_eq!(r.last(), Some(&Some(SauKhiRoi::Sach)));
    assert!(r[..r.len() - 1].iter().all(Option::is_none));
    let loi = (None, Some(TinhTrangUsb::Loi(MaSuCo::CanXuLy)));
    assert_eq!(chay(&[im, loi])[1], Some(SauKhiRoi::TrongMayInUsb(MaSuCo::CanXuLy)));
    let het = (Some(MaSuCo::HetGiay), None);
    assert_eq!(chay(&[im, het])[1], Some(SauKhiRoi::SuCo(MaSuCo::HetGiay)));
    assert_eq!(chay(&[k, het])[1], Some(SauKhiRoi::TrongMayInUsb(MaSuCo::HetGiay)));
    let ranh = (None, Some(TinhTrangUsb::Ranh));
    let mut ds = vec![ranh; SO_LAN_USB_TOI_DA];
    let r = chay(&ds);
    assert_eq!(r.last(), Some(&Some(SauKhiRoi::UsbChuaXong)));
    assert!(r[..r.len() - 1].iter().all(Option::is_none));
    ds[1] = (None, Some(TinhTrangUsb::DangIn));
    assert_eq!(chay(&ds)[2], Some(SauKhiRoi::Sach));
}

#[test]
fn cung_may_doi_xung_va_khong_ke_cach_viet() {
    let ten = ["PC-SHOP", "pc-shop", r"\\PC-SHOP", r"\\\\pc-Shop", "PC-SHOP.lan", " Pc-Shop.cua.hang. "];
    for a in ten {
        for b in ten {
            assert!(cung_may(a, b), "{} {}", a, b);
        }
        for b in ["PC-KHO", "", r"\\", ".lan", "PC-SHOP1"] {
            assert_eq!((cung_may(a, b), cung_may(b, a)), (false, false), "{} {}", a, b);
        }
    }
}
