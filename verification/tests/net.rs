use base64::engine::general_purpose::STANDARD;
use base64::Engine;
use print_agent::bao_cao::{self, HoTro, MucHangDoi, PHIEN_BAN};
use print_agent::config::Config;
use print_agent::gia_tri::GiaTri;
use print_agent::hang_doi::{KetCuc, LoaiViec};
use print_agent::hop_thu_di::{KetQuaGui, ThuDi};
use print_agent::job::{self, JobEnvelope, JobIn, KetQua, KetQuaIn, LenhIn, LyDo};
use print_agent::net::viec::{
    ghi_ket_qua_viec, xu_ly_viec_co_bao_cao, BaoCaoTrongLuc, HanhDong, KetThucViec, MoiTruongViec, ViecCoVet,
};
use print_agent::net::{
    cho_noi_lai, chu_het_han, chu_mat_dau, chu_payload, da_mo_ket_noi, da_nhan_cau_hinh, doc_ack_nhat_ky, ghi_ket_cuc,
    ghi_trang_thai_may_in, gia_tri_ack, loi_ket_noi, ly_do_tu_choi, ly_do_tu_choi_voi, nen_doc_may_in,
    nen_hoi_hang_doi, noi_that_bai, payload_dau, payload_nhat_ky, qua_lau_khong_noi, trang_thai_sau_cau_hinh,
    xu_ly_ket_luan_tiep, BoTheoDoiMayIn, BuocMayIn, CanhClient, LenhMayIn, LyDoThoat, NhipGuiNhatKy, NoiLai,
    SuKienMayIn, CHU_CHI_WEBSOCKET, DANG_IN_QUA_LAU_MS, LO_NHAT_KY, NGUONG_CHET_HAN_MS, NHIP_CANH_MS,
};
use print_agent::nhat_ky::DongGui;
use print_agent::printing::chu_thieu_ban;
use print_agent::spooler::kieu::{BangChungJob, JobHangDoi, QuanSat, VongDoc};
use print_agent::spooler::may_in::{chu_khong_tim_thay_may_in, kiem_truoc_khi_in, KiemTruoc};
use print_agent::state::{JobLog, LoaiDai, TrangThaiChung};
use print_agent::su_co::co::{JOB_STATUS_ERROR, JOB_STATUS_PAPEROUT, JOB_STATUS_PAUSED, PRINTER_STATUS_ERROR};
use print_agent::su_co::{MaSuCo, TapMa};
use print_agent::theo_doi_tiep::{JobTheoDoiTiep, KetLuanTiep};
use std::cell::Cell;

fn chu(s: &str) -> GiaTri {
    GiaTri::Chuoi(s.to_string())
}

fn dt(ds: Vec<(&str, GiaTri)>) -> GiaTri {
    GiaTri::DoiTuong(ds.into_iter().map(|(k, v)| (k.to_string(), v)).collect())
}

fn cfg() -> Config {
    Config {
        server_url: "u".into(),
        token: "t".into(),
        org_id: "o".into(),
        printer_name: "HP".into(),
        tray: "tray-1".into(),
        paper_size: "A5".into(),
    }
}

/// A message with a job, and the job read from it.
fn payload(id: &str, name: Option<String>) -> (GiaTri, JobEnvelope) {
    let pdf = STANDARD.encode(b"%PDF-1.4");
    let mut ds = vec![("id", chu(id)), ("pdfBase64", chu(&pdf)), ("paperSize", chu("A5")), ("tray", chu("tray-1"))];
    if let Some(n) = &name {
        ds.push(("name", chu(n)));
    }
    ds.push(("copies", GiaTri::So(1)));
    let job = JobIn {
        id: id.into(),
        name,
        pdf_base64: pdf,
        paper_size: Some("A5".into()),
        tray: Some("tray-1".into()),
        copies: Some(1),
    };
    (dt(vec![("loai", chu("in")), ("job", dt(ds))]), JobEnvelope { job })
}

fn ten_hoa_don(id: &str) -> Option<String> {
    Some(format!("AI-INV_2026_030045-Anh_Loc-{}.pdf", id))
}

fn du_ho_tro() -> HoTro {
    HoTro { khong_ro: true, su_co: true, trang_thai_may_in: true, nhat_ky_app: false, hang_doi: false }
}

fn kiem_in() -> KiemTruoc {
    KiemTruoc::In { nen: None }
}

/// Makes a report, if there is one, and tells what the first line of the screen then shows.
type Bao<'a> = dyn FnMut(Option<QuanSat>) -> String + 'a;

type HamIn = Box<dyn FnMut(&LenhIn, Option<TapMa>, &mut Bao<'_>) -> KetQuaIn>;

/// A server that understands `ho_tro`, a screen, a check and a printer.
struct Gia {
    tt: TrangThaiChung,
    ho_tro: HoTro,
    da_emit: Vec<(&'static str, GiaTri)>,
    da_chuyen: Vec<MaSuCo>,
    kiem: Box<dyn FnMut() -> KiemTruoc>,
    ham_in: Option<HamIn>,
    da_goi_in: bool,
    nen_nhan: Option<TapMa>,
}

fn gui_thu(ho_tro: HoTro, da_emit: &mut Vec<(&'static str, GiaTri)>, thu: ThuDi) -> KetQuaGui {
    if thu.can.duoc_gui(ho_tro) {
        da_emit.push((thu.su_kien, thu.gia_tri));
        KetQuaGui::Co
    } else {
        KetQuaGui::Bo
    }
}

impl MoiTruongViec for Gia {
    fn ghi_bat_dau(&mut self, job_id: &str, so_hoa_don: &str, khach: Option<String>) {
        self.tt.bat_dau_job(job_id, so_hoa_don, khach, "10:00:00".into());
    }

    fn kiem_truoc(&mut self) -> KiemTruoc {
        (self.kiem)()
    }

    fn in_that(&mut self, lenh: &LenhIn, nen: Option<TapMa>, bao_cao: &mut BaoCaoTrongLuc) -> KetQuaIn {
        self.da_goi_in = true;
        self.nen_nhan = nen;
        let mut ham = self.ham_in.take().unwrap();
        let (tt, da_emit, da_chuyen, ho_tro) = (&mut self.tt, &mut self.da_emit, &mut self.da_chuyen, self.ho_tro);
        ham(lenh, nen, &mut |qs| {
            if let Some(qs) = qs {
                match bao_cao.nhan(qs, tt, 1_000) {
                    HanhDong::KhongGi => {}
                    HanhDong::Gui(thu) => {
                        gui_thu(ho_tro, da_emit, thu);
                    }
                    HanhDong::ChuyenMayIn(ma, _) => da_chuyen.push(ma),
                }
            }
            tt.jobs[0].trang_thai.clone()
        })
    }

    fn gui(&mut self, thu: ThuDi) -> KetQuaGui {
        gui_thu(self.ho_tro, &mut self.da_emit, thu)
    }

    fn ghi_ket_qua(&mut self, job_id: &str, so_hoa_don: &str, khach: Option<String>, kq: &KetQua) {
        ghi_ket_qua_viec(&mut self.tt, job_id, so_hoa_don, khach, kq, "10:00:01".into());
    }

    fn bay_gio_ms(&mut self) -> u64 {
        2_000
    }
}

fn chay(
    ho_tro: HoTro,
    viec: (GiaTri, JobEnvelope),
    kiem: Box<dyn FnMut() -> KiemTruoc>,
    ham_in: HamIn,
) -> (Gia, KetThucViec, KetQua, KetQuaGui) {
    let gia = Gia {
        tt: TrangThaiChung::default(),
        ho_tro,
        da_emit: Vec::new(),
        da_chuyen: Vec::new(),
        kiem,
        ham_in: Some(ham_in),
        da_goi_in: false,
        nen_nhan: None,
    };
    let mut mt = ViecCoVet::moi(gia);
    let (xong, kq, gui) = xu_ly_viec_co_bao_cao(&mut mt, &viec.0, Ok(viec.1), &cfg());
    (mt.tra_lai(), xong, kq, gui)
}

fn in_ra(kq: KetQuaIn) -> HamIn {
    Box::new(move |_, _, _| kq.clone())
}

#[test]
fn xu_ly_mot_viec_in_duoc_thi_emit_ket_qua_va_ghi_trang_thai() {
    let (g, _, _, kq_gui) = chay(HoTro::default(), payload("j1", None), Box::new(kiem_in), in_ra(KetQuaIn::DaIn));
    assert_eq!(kq_gui, KetQuaGui::Co);
    assert_eq!(g.da_emit.len(), 1, "exactly one report");
    assert_eq!(g.da_emit[0].0, "ket-qua");
    assert_eq!(g.da_emit[0].1.chuoi("trangThai"), Some("da_in"));
    assert_eq!(g.tt.jobs.len(), 1);
    assert_eq!(g.tt.jobs[0].trang_thai, "da_in");
    assert_eq!(g.tt.jobs[0].so_hoa_don, "j1");
    assert_eq!(g.tt.jobs[0].job_id, "j1");
}

#[test]
#[allow(non_snake_case)]
fn xu_ly_mot_viec_khong_ro_thi_KHONG_emit_nhung_van_ghi_ui() {
    let (g, _, _, kq_gui) = chay(
        HoTro::default(),
        payload("j7", None),
        Box::new(kiem_in),
        in_ra(KetQuaIn::KhongRo(LyDo::chi_chu("mat dau trong spooler"))),
    );
    assert_eq!(kq_gui, KetQuaGui::Bo);
    assert!(g.da_emit.is_empty());
    assert_eq!(g.tt.jobs.len(), 1);
    assert_eq!(g.tt.jobs[0].trang_thai, "khong_ro");
    assert_eq!(g.tt.jobs[0].so_hoa_don, "j7");
}

#[test]
fn khong_ro_gui_khi_backend_ho_tro_kem_loai() {
    let (g, _, _, _) = chay(
        du_ho_tro(),
        payload("1790251200000-8", None),
        Box::new(kiem_in),
        in_ra(KetQuaIn::KhongRo(LyDo::co_loai("loi sau khi da bat dau in: Kẹt giấy", MaSuCo::KetGiay))),
    );
    let e = &g.da_emit;
    assert_eq!(e.len(), 1);
    assert_eq!(e[0].0, "ket-qua");
    assert_eq!(e[0].1.chuoi("trangThai"), Some("khong_ro"));
    assert_eq!(e[0].1.chuoi("loai"), Some("ket_giay"));
    assert_eq!(e[0].1.chuoi("jobId"), Some("1790251200000-8"));
}

#[test]
fn giao_dien_hien_so_hoa_don_nhan_loi_va_bat_canh_bao() {
    let id = "tokHN-1727170000000-3";
    let (g, _, _, _) = chay(
        HoTro::default(),
        payload(id, ten_hoa_don(id)),
        Box::new(kiem_in),
        in_ra(KetQuaIn::Loi(LyDo::co_loai("loi truoc khi in: Hết giấy", MaSuCo::HetGiay))),
    );
    let t = &g.tt;
    assert_eq!(t.jobs[0].so_hoa_don, "INV_2026_030045");
    assert_eq!(t.jobs[0].khach.as_deref(), Some("Anh_Loc"));
    assert_eq!(t.jobs[0].trang_thai, "loi");
    assert_eq!(t.jobs[0].loai, Some(MaSuCo::HetGiay));
    let dai = t.dai_moi_nhat().unwrap();
    assert_eq!(
        (dai.loai_dai, dai.ma, dai.so_hoa_don.as_str()),
        (LoaiDai::Loi, Some(MaSuCo::HetGiay), "INV_2026_030045")
    );
}

#[test]
fn khong_co_name_thi_hien_id_da_cat_token() {
    let (g, _, _, _) = chay(
        HoTro::default(),
        payload("tokHNbimat-1727170000000-3", None),
        Box::new(kiem_in),
        in_ra(KetQuaIn::DaIn),
    );
    assert_eq!(g.tt.jobs[0].so_hoa_don, "1727170000000-3");
    assert!(!g.tt.jobs[0].so_hoa_don.contains("tokHNbimat"));
}

/// Paper out is reported three times while printing, a jam once, then it fails.
fn in_gia_co_su_co() -> HamIn {
    Box::new(|_, _, bao| {
        for _ in 0..3 {
            bao(Some(QuanSat::MayIn { ma: MaSuCo::BinhThuong, chi_tiet: None }));
            bao(Some(QuanSat::SuCo {
                loai: MaSuCo::HetGiay,
                chi_tiet: "JOB_STATUS PAPEROUT (0x00000040)".into(),
            }));
        }
        bao(Some(QuanSat::MayIn { ma: MaSuCo::KetGiay, chi_tiet: Some("x".into()) }));
        bao(Some(QuanSat::SuCo { loai: MaSuCo::KetGiay, chi_tiet: String::new() }));
        KetQuaIn::Loi(LyDo::co_loai(
            "loi truoc khi in: Hết giấy (da xoa job khoi hang doi Windows)",
            MaSuCo::HetGiay,
        ))
    })
}

#[test]
fn su_co_gui_ngay_moi_loai_mot_lan_truoc_ket_qua() {
    let (g, xong, _, _) =
        chay(du_ho_tro(), payload("1790251200000-9", None), Box::new(kiem_in), in_gia_co_su_co());
    let e = &g.da_emit;
    let ten: Vec<&str> = e.iter().map(|(t, _)| *t).collect();
    assert_eq!(ten, vec!["su-co", "su-co", "ket-qua"], "each kind once, before the report");
    assert_eq!(e[0].1.chuoi("loai"), Some("het_giay"));
    assert_eq!(e[0].1.chuoi("jobId"), Some("1790251200000-9"));
    assert_eq!(e[0].1.chuoi("mayIn"), Some("HP"));
    assert_eq!(e[0].1.chuoi("chiTiet"), Some("JOB_STATUS PAPEROUT (0x00000040)"));
    assert!(e[0].1.chuoi("luc").unwrap().ends_with('Z'));
    assert_eq!(e[1].1.chuoi("loai"), Some("ket_giay"));
    assert!(e[1].1.truong("chiTiet").is_none());
    assert_eq!(e[2].1.chuoi("trangThai"), Some("loi"));
    assert_eq!(e[2].1.chuoi("loai"), Some("het_giay"));
    assert_eq!(g.da_chuyen, vec![MaSuCo::BinhThuong, MaSuCo::KetGiay], "only changes are passed on");
    assert!(xong.da_thay_su_co);
    assert!(xong.theo_doi_tiep.is_none());
}

#[test]
fn su_co_khong_gui_khi_backend_khong_ho_tro_nhung_van_bao_tren_may() {
    let (g, _, _, _) = chay(HoTro::default(), payload("j9", None), Box::new(kiem_in), in_gia_co_su_co());
    let ten: Vec<&str> = g.da_emit.iter().map(|(t, _)| *t).collect();
    assert_eq!(ten, vec!["ket-qua"]);
    assert!(g.tt.dai_moi_nhat().is_some());
}

#[test]
fn khong_ro_con_trong_hang_doi_thi_dua_vao_theo_doi_tiep() {
    let id = "1790251200000-7";
    let (_, xong, _, _) = chay(
        du_ho_tro(),
        payload(id, ten_hoa_don(id)),
        Box::new(kiem_in),
        Box::new(|_, _, bao| {
            bao(Some(QuanSat::SuCo { loai: MaSuCo::KetGiay, chi_tiet: String::new() }));
            bao(Some(QuanSat::ConTrongHangDoi(BangChungJob { da_thay_in: true, ..Default::default() })));
            KetQuaIn::KhongRo(LyDo::co_loai("loi sau khi da bat dau in: Kẹt giấy", MaSuCo::KetGiay))
        }),
    );
    let j = xong.theo_doi_tiep.unwrap();
    assert_eq!(j.job_id, id);
    assert_eq!(j.so_hoa_don, "INV_2026_030045");
    assert_eq!(j.loai, Some(MaSuCo::KetGiay));
    assert_eq!(j.may_in, "HP");
    assert_eq!(j.bang_chung, BangChungJob { da_thay_in: true, ..Default::default() });
    let (_, xong, _, _) = chay(
        du_ho_tro(),
        payload(id, None),
        Box::new(kiem_in),
        in_ra(KetQuaIn::KhongRo(LyDo::co_loai("x", MaSuCo::HetGiay))),
    );
    assert!(xong.theo_doi_tiep.is_none());
}

#[test]
fn theo_doi_tiep_da_in_gui_muon_theo_ho_tro_va_cap_nhat_giao_dien() {
    let id = "1790251200000-7";
    let lam = |ho_tro: HoTro| {
        let mut t = TrangThaiChung::default();
        t.them_job(JobLog {
            job_id: id.into(),
            trang_thai: "khong_ro".into(),
            loai: Some(MaSuCo::KetGiay),
            ..Default::default()
        });
        t.ghi_ket_qua_job(id, "INV_1", "khong_ro", Some(MaSuCo::KetGiay));
        let j = JobTheoDoiTiep::moi(id.into(), "INV_1".into(), Some(MaSuCo::KetGiay), BangChungJob::default(), 0);
        let thu = xu_ly_ket_luan_tiep(j, KetLuanTiep::DaIn, "HP", &mut t, 5_000);
        assert!(t.jobs[0].sau_khac_phuc && t.jobs[0].trang_thai == "da_in");
        assert!(t.dai_moi_nhat().is_none());
        let mut e = Vec::new();
        gui_thu(ho_tro, &mut e, thu);
        e
    };
    let da_gui = lam(du_ho_tro());
    assert_eq!(da_gui.len(), 1);
    assert_eq!(da_gui[0].1, dt(vec![("jobId", chu(id)), ("trangThai", chu("da_in"))]));
    assert!(lam(HoTro::default()).is_empty());
}

#[test]
fn r_c_theo_doi_tiep_mat_dau_het_han_bao_su_co() {
    for (kl, cau) in [
        (KetLuanTiep::Mat("job roi hang doi ma chua tung thay in".into()), chu_mat_dau("INV_1")),
        (KetLuanTiep::HetHan, chu_het_han("INV_1")),
    ] {
        let mut t = TrangThaiChung::default();
        t.them_job(JobLog {
            job_id: "j".into(),
            trang_thai: "khong_ro".into(),
            loai: Some(MaSuCo::HetGiay),
            ..Default::default()
        });
        t.ghi_ket_qua_job("j", "INV_1", "khong_ro", Some(MaSuCo::HetGiay));
        t.da_hieu();
        let j = JobTheoDoiTiep::moi("j".into(), "INV_1".into(), Some(MaSuCo::HetGiay), BangChungJob::default(), 0)
            .tren_may_in("HP cu");
        let thu = xu_ly_ket_luan_tiep(j, kl, "HP", &mut t, 0);
        let mut v = Vec::new();
        gui_thu(du_ho_tro(), &mut v, thu);
        assert_eq!(v.len(), 1);
        assert_eq!(v[0].0, "su-co");
        assert_eq!(v[0].1.chuoi("jobId"), Some("j"));
        assert_eq!(v[0].1.chuoi("loai"), Some("khong_xac_nhan"));
        assert_eq!(v[0].1.chuoi("chiTiet"), Some(cau.as_str()));
        assert_eq!(v[0].1.chuoi("mayIn"), Some("HP cu"), "the job's own printer");
        assert_eq!(t.jobs[0].loai, Some(MaSuCo::KhongXacNhan));
        assert_eq!(t.dai_moi_nhat().map(|d| d.ma), Some(Some(MaSuCo::KhongXacNhan)));
    }
    assert!(chu_mat_dau("INV_1")
        .starts_with("Hoá đơn INV_1 không còn trong hàng đợi Windows mà app không thấy in (bị xoá/huỷ?)"));
    let mut t = TrangThaiChung::default();
    let mut j = JobTheoDoiTiep::moi(
        "j".into(),
        "INV_1".into(),
        None,
        BangChungJob { da_thay_in: true, ..Default::default() },
        0,
    );
    j.su_co_luc_roi = Some(MaSuCo::HetGiay);
    let thu = xu_ly_ket_luan_tiep(j, KetLuanTiep::Mat("x".into()), "HP", &mut t, 0);
    assert_eq!(thu.gia_tri.chuoi("loai"), Some("khong_xac_nhan"));
    assert!(thu.gia_tri.chuoi("chiTiet").unwrap().contains("có thể đang nằm trong bộ nhớ máy in"));
    assert!(chu_het_han("INV_1").contains("theo dõi quá 12 giờ không thấy in"));
    let mut t = TrangThaiChung::default();
    let j = JobTheoDoiTiep::moi("j".into(), "INV_1".into(), None, BangChungJob::default(), 0);
    let thu = xu_ly_ket_luan_tiep(j, KetLuanTiep::Mat("x".into()), "HP", &mut t, 0);
    let mut e = Vec::new();
    gui_thu(HoTro { khong_ro: true, ..HoTro::default() }, &mut e, thu);
    assert!(e.is_empty());
    assert!(t.dai_moi_nhat().is_some());
}

#[test]
fn mat_dau_qua_usb_noi_may_usb() {
    let mut t = TrangThaiChung::default();
    let j = JobTheoDoiTiep::moi("j".into(), "INV_1".into(), None, BangChungJob::default(), 0).qua_usb(false, true);
    let thu = xu_ly_ket_luan_tiep(j, KetLuanTiep::Mat("x".into()), "HP", &mut t, 0);
    assert!(thu.gia_tri.chuoi("chiTiet").unwrap().contains("máy in USB"));
    assert_eq!(thu.gia_tri.chuoi("mayIn"), Some("HP"));
}

#[test]
fn trang_thai_may_in_tra_payload_khi_doi_hoac_ep() {
    let mut tt = TrangThaiChung::default();
    let v = ghi_trang_thai_may_in(&mut tt, "HP", MaSuCo::BinhThuong, None, false, true, 0).unwrap();
    assert_eq!(v.chuoi("trangThai"), Some("binh_thuong"));
    assert_eq!(v.chuoi("mayIn"), Some("HP"));
    assert!(ghi_trang_thai_may_in(&mut tt, "HP", MaSuCo::BinhThuong, None, false, true, 0).is_none());
    assert!(ghi_trang_thai_may_in(&mut tt, "HP", MaSuCo::BinhThuong, None, true, true, 0).is_some());
    let ct = Some("PRINTER_STATUS PAPER_OUT (0x00000010)".to_string());
    let v = ghi_trang_thai_may_in(&mut tt, "HP", MaSuCo::HetGiay, ct, false, true, 0).unwrap();
    assert_eq!(v.chuoi("trangThai"), Some("het_giay"));
    assert_eq!(v.chuoi("chiTiet"), Some("PRINTER_STATUS PAPER_OUT (0x00000010)"));
    assert_eq!(tt.may_in.as_ref().map(|(m, _)| *m), Some(MaSuCo::HetGiay));
}

#[test]
fn r6_sau_job_co_su_co_lan_ranh_toi_ep_gui_trang_thai() {
    let mut tt = TrangThaiChung::default();
    ghi_trang_thai_may_in(&mut tt, "HP", MaSuCo::BinhThuong, None, false, true, 0);
    let mut bo = BoTheoDoiMayIn::default();
    assert_eq!(bo.buoc(SuKienMayIn::Lenh(LenhMayIn::EpGuiLanRanhToi), true), BuocMayIn::KhongLamGi);
    assert_eq!(bo.buoc(SuKienMayIn::HetCho, false), BuocMayIn::KhongLamGi);
    let BuocMayIn::DocRanh { ep_gui } = bo.buoc(SuKienMayIn::HetCho, true) else { panic!() };
    assert!(ep_gui);
    assert!(ghi_trang_thai_may_in(&mut tt, "HP", MaSuCo::BinhThuong, None, ep_gui, true, 0).is_some());
    assert_eq!(bo.buoc(SuKienMayIn::HetCho, true), BuocMayIn::DocRanh { ep_gui: false });
    assert_eq!(bo.buoc(SuKienMayIn::Lenh(LenhMayIn::Dung), true), BuocMayIn::Thoat);
    assert_eq!(bo.buoc(SuKienMayIn::Lenh(LenhMayIn::CoCauHinh), false), BuocMayIn::SauCauHinh);
}

#[test]
fn khong_doc_duoc_thi_giu_loi_hua() {
    let mut bo = BoTheoDoiMayIn::default();
    bo.khong_doc_duoc(true);
    assert_eq!(bo.buoc(SuKienMayIn::HetCho, true), BuocMayIn::DocRanh { ep_gui: true });
    assert_eq!(bo.buoc(SuKienMayIn::DutKenh, true), BuocMayIn::Thoat);
    let ma = BuocMayIn::GhiTuWorker(MaSuCo::KetGiay, Some("x".into()));
    assert_eq!(bo.buoc(SuKienMayIn::Lenh(LenhMayIn::QuanSat(MaSuCo::KetGiay, Some("x".into()))), false), ma);
}

#[test]
fn sau_cau_hinh_gui_ban_doc_moi_hoac_ban_da_biet() {
    let mut tt = TrangThaiChung::default();
    assert_eq!(trang_thai_sau_cau_hinh(None, &tt), None);
    tt.ghi_may_in(MaSuCo::Offline, Some("x".into()), true);
    assert_eq!(trang_thai_sau_cau_hinh(None, &tt), Some((MaSuCo::Offline, Some("x".into()), false)));
    let doc = Some((MaSuCo::HetGiay, None));
    assert_eq!(trang_thai_sau_cau_hinh(doc, &tt), Some((MaSuCo::HetGiay, None, true)));
}

#[test]
fn r8_dang_in_qua_20_giay_van_doc_may_in() {
    let t0: u64 = 1_000_000;
    assert!(nen_doc_may_in(None, t0));
    assert!(!nen_doc_may_in(Some(t0), t0 + 19_000));
    assert!(nen_doc_may_in(Some(t0), t0 + DANG_IN_QUA_LAU_MS));
}

/// Watches a connection with a clock, flags and pauses of the test's own.
fn canh_client(
    dung: &Cell<bool>,
    da_noi: &dyn Fn() -> bool,
    chet: &dyn Fn() -> bool,
    moi_nhip: &mut dyn FnMut(),
    ngu: &mut dyn FnMut(u64),
    bay_gio: &dyn Fn() -> u64,
) -> LyDoThoat {
    let mut c = CanhClient::moi();
    loop {
        if !dung.get() {
            ngu(NHIP_CANH_MS);
        }
        let dung_roi = dung.get();
        if !dung_roi {
            moi_nhip();
        }
        if let Some(l) = c.mot_nhip(dung_roi, chet(), da_noi(), bay_gio()) {
            return l;
        }
    }
}

#[test]
fn r7_co_dung_lam_vong_canh_thoat() {
    let dung = Cell::new(false);
    let so_nhip = Cell::new(0);
    let ly_do = canh_client(
        &dung,
        &|| true,
        &|| false,
        &mut || {
            so_nhip.set(so_nhip.get() + 1);
            if so_nhip.get() == 3 {
                dung.set(true);
            }
        },
        &mut |_| {},
        &|| 0,
    );
    assert_eq!(ly_do, LyDoThoat::Dung);
    assert_eq!(so_nhip.get(), 3);
}

#[test]
fn r7_mat_ket_noi_lien_tuc_60s_thi_chet_han_con_chap_chon_thi_khong() {
    let t0: u64 = 1_000_000;
    let dong_ho = Cell::new(t0);
    let dung = Cell::new(false);
    let ly_do = canh_client(
        &dung,
        &|| false,
        &|| false,
        &mut || {},
        &mut |d| dong_ho.set(dong_ho.get() + d),
        &|| dong_ho.get(),
    );
    assert_eq!(ly_do, LyDoThoat::ChetHan);
    assert!(dong_ho.get() - t0 >= NGUONG_CHET_HAN_MS);
    let dong_ho = Cell::new(t0);
    let ly_do = canh_client(
        &dung,
        &|| ((dong_ho.get() - t0) / 1000) % 20 == 0,
        &|| false,
        &mut || {
            if dong_ho.get() - t0 > 300_000 {
                dung.set(true);
            }
        },
        &mut |d| dong_ho.set(dong_ho.get() + d),
        &|| dong_ho.get(),
    );
    assert_eq!(ly_do, LyDoThoat::Dung);
}

#[test]
fn r_h_client_chet_thi_vong_canh_thoat_ngay() {
    let dung = Cell::new(false);
    let so_nhip = Cell::new(0);
    let ly_do = canh_client(
        &dung,
        &|| false,
        &|| so_nhip.get() >= 2,
        &mut || so_nhip.set(so_nhip.get() + 1),
        &mut |_| {},
        &|| 0,
    );
    assert_eq!(ly_do, LyDoThoat::ClientChet);
    assert_eq!(so_nhip.get(), 2);
}

const ID: &str = "tokHN-1727170000000-3";

fn job_kt(status: u32) -> JobHangDoi {
    JobHangDoi {
        id: 7,
        document: format!("AI-INV_2026_030045-Anh_Loc-{}.pdf", ID),
        status,
        trang_da_in: 0,
        mo_ta_driver: String::new(),
        submitted_epoch_secs: 1_000,
        may_tinh: r"\\PC-SHOP".into(),
    }
}

fn job_khac(status: u32) -> JobHangDoi {
    JobHangDoi { document: "Microsoft Word - bao gia.docx".into(), ..job_kt(status) }
}

fn vong(co_may_in: u32, jobs: Vec<JobHangDoi>) -> VongDoc {
    VongDoc { co_may_in: Some(co_may_in), hang_doi: Some(jobs), ..VongDoc::default() }
}

#[test]
fn r_a_s2_hoa_don_moi_xep_sau_job_ket_bi_tu_choi_bang_loi() {
    let v = vong(0, vec![job_kt(JOB_STATUS_PAPEROUT | JOB_STATUS_ERROR)]);
    let id2 = "clx0abc12345678-1790000000000";
    let (g, xong, _, _) = chay(
        du_ho_tro(),
        payload(id2, Some(format!("AI-INV_2-Khach-{}.pdf", id2))),
        Box::new(move || kiem_truoc_khi_in(&v, "HP", None, true)),
        in_ra(KetQuaIn::DaIn),
    );
    assert!(!g.da_goi_in, "nothing goes to the printer");
    assert!(xong.theo_doi_tiep.is_none());
    let e = &g.da_emit;
    assert_eq!(e.len(), 1);
    assert_eq!(e[0].0, "ket-qua");
    assert_eq!(e[0].1.chuoi("trangThai"), Some("loi"));
    assert_eq!(e[0].1.chuoi("loai"), Some("het_giay"));
    assert_eq!(
        e[0].1.chuoi("loiCuoi"),
        Some("Máy in đang kẹt hoá đơn INV_2026_030045 — chưa gửi hoá đơn này xuống máy in")
    );
    assert_eq!(g.tt.jobs[0].trang_thai, "loi");
}

/// One invoice, checked against a reading of the spooler.
fn mot_hoa_don_kiem(v: VongDoc, backend_moi: bool) -> Gia {
    let id = "clx0abc12345678-1790000000000";
    chay(
        du_ho_tro(),
        payload(id, ten_hoa_don(id)),
        Box::new(move || kiem_truoc_khi_in(&v, "HP", None, backend_moi)),
        in_ra(KetQuaIn::DaIn),
    )
    .0
}

#[test]
fn t2_server_ban_cu_khong_tu_choi_in() {
    let g = mot_hoa_don_kiem(vong(0, vec![job_khac(JOB_STATUS_PAPEROUT)]), false);
    assert!(g.da_goi_in);
    assert_eq!(g.da_emit[0].1.chuoi("trangThai"), Some("da_in"));
    let g = mot_hoa_don_kiem(vong(0, vec![job_khac(JOB_STATUS_PAPEROUT)]), true);
    assert!(!g.da_goi_in);
    assert_eq!(
        (g.da_emit[0].1.chuoi("trangThai"), g.da_emit[0].1.chuoi("loai")),
        (Some("loi"), Some("het_giay"))
    );
    assert!(mot_hoa_don_kiem(vong(0, vec![job_khac(JOB_STATUS_PAPEROUT | JOB_STATUS_PAUSED)]), true).da_goi_in);
}

#[test]
fn t3_nen_chup_truoc_sumatra_di_xuong_ham_in() {
    let g = mot_hoa_don_kiem(vong(PRINTER_STATUS_ERROR, vec![]), true);
    assert!(g.da_goi_in);
    assert!(g.nen_nhan.unwrap().co(MaSuCo::LoiMayIn));
    let g = mot_hoa_don_kiem(vong(0, vec![]), true);
    assert_eq!(g.nen_nhan, Some(TapMa::default()));
    let g = mot_hoa_don_kiem(VongDoc { hang_doi: Some(vec![]), ..Default::default() }, true);
    assert_eq!(g.nen_nhan, Some(TapMa::default()));
}

#[test]
fn t5_may_in_khong_ton_tai_tu_choi_truoc_khi_in() {
    let v = VongDoc { khong_tim_thay_may_in: true, ..Default::default() };
    let g = mot_hoa_don_kiem(v.clone(), true);
    assert!(!g.da_goi_in);
    assert_eq!(g.da_emit.len(), 1);
    assert_eq!(g.da_emit[0].1.chuoi("trangThai"), Some("loi"));
    assert_eq!(g.da_emit[0].1.chuoi("loai"), Some("khong_tim_thay_may_in"));
    assert_eq!(g.da_emit[0].1.chuoi("loiCuoi"), Some(chu_khong_tim_thay_may_in("HP").as_str()));
    assert!(g.da_emit[0].1.truong("conTrongHangDoi").is_none());
    assert!(mot_hoa_don_kiem(v, false).da_goi_in);
}

#[test]
fn t9_in_thieu_ban_khong_ro_ngoai_hang_doi() {
    let id = "1790251200000-7";
    let (g, xong, _, _) = chay(
        du_ho_tro(),
        payload(id, ten_hoa_don(id)),
        Box::new(kiem_in),
        Box::new(|_, _, bao| {
            bao(Some(QuanSat::ConTrongHangDoi(BangChungJob::default())));
            let ly_do = LyDo::co_loai(&chu_thieu_ban(1, 2), MaSuCo::HetGiay);
            KetQuaIn::KhongRo(LyDo { ban_da_in: Some((1, 2)), ..ly_do })
        }),
    );
    let v = &g.da_emit[0].1;
    assert_eq!((v.chuoi("trangThai"), v.bool_cua("conTrongHangDoi")), (Some("khong_ro"), Some(false)));
    assert!(v.chuoi("loiCuoi").unwrap().starts_with("Đã in 1/2 bản — bản còn lại CHƯA in"));
    assert!(v.truong("banDaIn").is_none() && v.truong("ban_da_in").is_none());
    assert!(xong.theo_doi_tiep.is_none());
    assert_eq!(g.tt.jobs[0].ban_da_in, Some((1, 2)));
}

#[test]
fn t1_chi_dung_websocket() {
    assert!(CHU_CHI_WEBSOCKET.contains("websocket"));
}

#[test]
fn r_d_khong_ro_mang_con_trong_hang_doi() {
    let id = "1790251200000-7";
    let lam = |bao_con_trong: bool| {
        let (g, xong, _, _) = chay(
            du_ho_tro(),
            payload(id, ten_hoa_don(id)),
            Box::new(kiem_in),
            Box::new(move |_, _, bao| {
                if bao_con_trong {
                    bao(Some(QuanSat::ConTrongHangDoi(BangChungJob::default())));
                }
                KetQuaIn::KhongRo(LyDo::co_loai("x", MaSuCo::HetGiay))
            }),
        );
        let ngoai = g.tt.dai_moi_nhat().unwrap().ngoai_hang_doi;
        (g.da_emit[0].1.bool_cua("conTrongHangDoi"), ngoai, xong.theo_doi_tiep.is_some())
    };
    assert_eq!(lam(true), (Some(true), false, true));
    assert_eq!(lam(false), (Some(false), true, false));
    let (g, _, _, _) = chay(
        du_ho_tro(),
        payload("j1", None),
        Box::new(kiem_in),
        Box::new(|_, _, bao| {
            bao(Some(QuanSat::ConTrongHangDoi(BangChungJob::default())));
            KetQuaIn::DaIn
        }),
    );
    assert!(g.da_emit[0].1.truong("conTrongHangDoi").is_none());
}

#[test]
fn u2_trong_may_in_usb_thi_con_trong_hang_doi_va_theo_doi_usb() {
    let id = "1790251200000-7";
    let (g, xong, _, _) = chay(
        du_ho_tro(),
        payload(id, ten_hoa_don(id)),
        Box::new(kiem_in),
        Box::new(|_, _, bao| {
            bao(Some(QuanSat::SuCo { loai: MaSuCo::CanXuLy, chi_tiet: "USB 0x90 STATUS:BUSY".into() }));
            bao(Some(QuanSat::TrongMayInUsb {
                bang_chung: BangChungJob { da_thay_in: true, ..Default::default() },
                da_thay_loi: true,
                da_thay_in: false,
            }));
            KetQuaIn::KhongRo(LyDo::co_loai("may in bao loi qua USB", MaSuCo::CanXuLy))
        }),
    );
    let (_, v) = g.da_emit.iter().find(|(t, _)| *t == "ket-qua").unwrap();
    assert_eq!(v.chuoi("trangThai"), Some("khong_ro"));
    assert_eq!(v.chuoi("loai"), Some("can_xu_ly"));
    assert_eq!(v.bool_cua("conTrongHangDoi"), Some(true));
    let j = xong.theo_doi_tiep.unwrap();
    assert!(j.la_qua_usb());
    assert_eq!(j.usb, Some((true, false)));
}

#[test]
fn u3_het_han_usb_noi_bo_nho_may_in() {
    let mut tt = TrangThaiChung::default();
    let j = JobTheoDoiTiep::moi(
        "1790251200000-7".into(),
        "INV_1".into(),
        Some(MaSuCo::CanXuLy),
        BangChungJob::default(),
        0,
    )
    .qua_usb(true, false);
    let thu = xu_ly_ket_luan_tiep(j, KetLuanTiep::HetHan, "HP", &mut tt, 0);
    let ct = thu.gia_tri.chuoi("chiTiet").unwrap();
    assert!(ct.contains("bộ nhớ máy in") && !ct.contains("hàng đợi Windows"), "{}", ct);
}

#[test]
fn gia_tri_ack_boc_lop_mang_cua_rust_socketio() {
    let ok = || dt(vec![("ok", GiaTri::Bool(true)), ("soDong", GiaTri::So(5))]);
    assert_eq!(gia_tri_ack(vec![GiaTri::Mang(vec![ok()])]), ok());
    let loi = || dt(vec![("ok", GiaTri::Bool(false)), ("loi", chu("QUA_TAI"))]);
    assert_eq!(gia_tri_ack(vec![loi()]), loi());
    assert_eq!(gia_tri_ack(vec![]), GiaTri::Rong);
    assert_eq!(gia_tri_ack(vec![GiaTri::Mang(vec![])]), GiaTri::Mang(vec![]));
}

#[test]
fn nhat_ky_app_payload_dung_hop_dong() {
    let lo = vec![DongGui { luc: 1_790_331_966_328, su_kien: "vet_in".into(), noi_dung: "job=x t=1ms".into() }];
    let v = payload_nhat_ky(&lo, 3);
    let Some(GiaTri::Mang(dong)) = v.truong("dong") else { panic!("{:?}", v) };
    assert_eq!(dong.len(), 1);
    assert_eq!(dong[0].chuoi("luc"), Some("2026-09-25T10:26:06.328Z"));
    assert_eq!(dong[0].chuoi("suKien"), Some("vet_in"));
    assert_eq!(dong[0].chuoi("noiDung"), Some("job=x t=1ms"));
    assert_eq!(v.truong("boQua"), Some(&GiaTri::So(3)));
    assert_eq!(v.chuoi("phienBan"), Some(PHIEN_BAN));
}

#[test]
fn nhip_gui_nhat_ky_nghi_lau_dan() {
    let mut n = NhipGuiNhatKy::moi();
    let kq = n.sau_lo(Ok(()), 3);
    assert!(!kq.tra_lai && !kq.ghi);
    assert_eq!(kq.ngu_ms, 3_000);
    assert_eq!(n.sau_lo(Ok(()), LO_NHAT_KY).ngu_ms, 0, "more is waiting");
    let mut nghi = Vec::new();
    for i in 0..7 {
        let kq = n.sau_lo(Err("qua tai".into()), 1);
        assert!(kq.tra_lai);
        assert_eq!(kq.ghi, i == 0, "the same failure is noted once");
        nghi.push(kq.ngu_ms);
    }
    assert_eq!(nghi, vec![3_000, 6_000, 12_000, 24_000, 48_000, 60_000, 60_000]);
    assert!(n.sau_lo(Err("khac".into()), 1).ghi);
    assert!(n.sau_lo(Ok(()), 1).ghi, "that it works again is noted");
    assert_eq!(n.sau_lo(Err("x".into()), 1).ngu_ms, 3_000);
    assert_eq!(doc_ack_nhat_ky(&dt(vec![("ok", GiaTri::Bool(true))])), Ok(()));
    assert_eq!(
        doc_ack_nhat_ky(&dt(vec![("ok", GiaTri::Bool(false)), ("loi", chu("QUA_TAI"))])),
        Err("QUA_TAI".to_string())
    );
    assert_eq!(doc_ack_nhat_ky(&GiaTri::Rong), Err("ack khong ok".to_string()));
}

#[test]
fn hoi_hang_doi_khi_ket_noi_moi_hoac_den_gio() {
    assert!(nen_hoi_hang_doi(None, 1, 0, 0));
    assert!(nen_hoi_hang_doi(Some(1), 2, 0, 0));
    assert!(!nen_hoi_hang_doi(Some(2), 2, 0, 29_999));
    assert!(nen_hoi_hang_doi(Some(2), 2, 0, 30_000));
}

#[test]
fn in_gan_day_hien_tung_buoc_mot_dong() {
    let id = "1790251200000-7";
    let (g, _, _, _) = chay(
        du_ho_tro(),
        payload(id, ten_hoa_don(id)),
        Box::new(kiem_in),
        Box::new(|_, _, bao| {
            assert_eq!(bao(None), job::DANG_GUI);
            assert_eq!(bao(Some(QuanSat::DaRoiHangDoi)), job::CHO_MAY_IN);
            KetQuaIn::DaIn
        }),
    );
    assert_eq!(g.tt.jobs.len(), 1);
    assert_eq!(g.tt.jobs[0].trang_thai, job::DA_IN);
}

#[test]
fn r_h_backoff_1_toi_30_giay_co_jitter() {
    assert_eq!(cho_noi_lai(0, 0), 1_000);
    assert_eq!(cho_noi_lai(1, 0), 2_000);
    assert_eq!(cho_noi_lai(4, 0), 16_000);
    assert_eq!(cho_noi_lai(5, 0), 30_000);
    assert_eq!(cho_noi_lai(u32::MAX, 0), 30_000);
    for lan in 0..10 {
        for r in [1u64, 12_345, u64::MAX] {
            let d = cho_noi_lai(lan, r);
            let goc = cho_noi_lai(lan, 0);
            assert!(d >= goc && d <= goc + goc / 4, "lan {} r {}: {:?}", lan, r, d);
        }
    }
}

#[test]
fn noi_lai_dem_va_ghi_mot_lan() {
    let mut n = NoiLai::moi();
    assert!(n.that_bai("dns"));
    assert!(!n.that_bai("dns"));
    assert_eq!((n.cho_lan_toi(0), n.cho_lan_toi(0), n.cho_lan_toi(0)), (1_000, 2_000, 4_000));
    n.het_ket_noi(false);
    assert!(!n.that_bai("dns"));
    n.het_ket_noi(true);
    assert_eq!(n.cho_lan_toi(0), 1_000);
    assert!(n.that_bai("dns"));
}

#[test]
fn r_i_nhan_ra_server_tu_choi_ket_noi() {
    let cau = chu_payload(&vec!["Received an ConnectError frame: {\"message\":\"unauthorized\"}".to_string()]);
    assert_eq!(ly_do_tu_choi(&cau).as_deref(), Some("unauthorized"));
    assert_eq!(
        ly_do_tu_choi("Received an ConnectError frame: \"No error message provided\"").as_deref(),
        Some("No error message provided")
    );
    assert_eq!(ly_do_tu_choi("IncompleteResponseFromEngineIo(...)"), None);
    assert_eq!(ly_do_tu_choi("ConnectError frame: {\"message\": 3}").as_deref(), Some("{\"message\": 3}"));
    assert_eq!(ly_do_tu_choi_voi("ConnectError frame: x", Some("y".into())).as_deref(), Some("y"));
    assert_eq!(ly_do_tu_choi_voi("khac", Some("y".into())), None);
    assert_eq!(chu_payload(&vec!["a".into(), "b".into()]), "a b");
    assert_eq!(chu_payload(&vec![]), "");
}

#[test]
fn payload_dau_lay_doi_so_dau() {
    let ht = dt(vec![("hoTro", GiaTri::Mang(vec![chu("khong_ro")]))]);
    let v = payload_dau(vec![ht, GiaTri::So(1)]);
    assert_eq!(bao_cao::doc_cau_hinh(&v), HoTro { khong_ro: true, ..HoTro::default() });
    assert_eq!(payload_dau(vec![]), GiaTri::Rong);
}

#[test]
fn trang_thai_ket_noi_tren_man_hinh() {
    let mut t = TrangThaiChung::default();
    da_mo_ket_noi(&mut t);
    assert!(t.da_noi);
    t.server_ban_cu = true;
    da_nhan_cau_hinh(&mut t, HoTro { hang_doi: true, ..HoTro::default() });
    assert!(!t.server_ban_cu && t.hang_doi.ho_tro());
    let cau = "ConnectError frame: {\"message\":\"unauthorized\"}";
    assert_eq!(loi_ket_noi(&mut t, cau), (true, true));
    assert!(!t.da_noi);
    assert_eq!(t.tu_choi_ket_noi.as_deref(), Some("unauthorized"));
    assert_eq!(t.thong_bao_cuoi, Some(format!("lỗi socket: {}", cau)));
    assert_eq!(loi_ket_noi(&mut t, cau), (false, false), "each is noted once");
    qua_lau_khong_noi(&mut t);
    assert_eq!(t.thong_bao_cuoi.as_deref(), Some("mất kết nối >60s, đang nối lại..."));
    noi_that_bai(&mut t, "dns");
    assert_eq!(t.thong_bao_cuoi.as_deref(), Some("nối thất bại (chỉ websocket): dns"));
    da_mo_ket_noi(&mut t);
    assert_eq!((t.thong_bao_cuoi.as_deref(), t.tu_choi_ket_noi.as_deref()), (None, None));
}

#[test]
fn huy_duoc_moi_ghi_dong_da_huy() {
    let muc = MucHangDoi {
        id: "p1".into(),
        so_hoa_don: "INV/1".into(),
        ten_khach: None,
        trang_thai: "cho_in".into(),
        nhom: "cho_in".into(),
        ly_do: String::new(),
        tam_giu: true,
        tao: String::new(),
        huy: "chac_chan".into(),
    };
    let duoc = KetCuc::Duoc { cach: "chua_gui".into(), noi_dung: String::new() };
    let mut t = TrangThaiChung::default();
    ghi_ket_cuc(&mut t, &muc, LoaiViec::BoTheoDoi, &duoc, "18:50:00".into(), 0);
    ghi_ket_cuc(&mut t, &muc, LoaiViec::Huy, &KetCuc::ChuaRo { ly_do: "x".into() }, "18:50:00".into(), 0);
    assert!(t.jobs.is_empty());
    ghi_ket_cuc(&mut t, &muc, LoaiViec::Huy, &duoc, "18:50:00".into(), 0);
    assert_eq!((t.jobs[0].so_hoa_don.as_str(), t.jobs[0].trang_thai.as_str()), ("INV/1", job::DA_HUY));
}
