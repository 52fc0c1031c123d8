use base64::engine::general_purpose::STANDARD;
use base64::Engine;
use print_agent::bao_cao::HoTro;
use print_agent::config::Config;
use print_agent::gia_tri::GiaTri;
use print_agent::hop_thu_di::CanHoTro;
use print_agent::job::{
    boc_hoa_don, chuan_bi_job, ket_qua_cua, nhan_hien_thi, rut_gon_job_id, xu_ly_job, JobEnvelope, JobIn, KetQua,
    KetQuaIn, LenhIn, LyDo,
};
use print_agent::su_co::MaSuCo;
use std::sync::Mutex;

fn cfg() -> Config {
    Config {
        server_url: "u".into(),
        token: "t".into(),
        org_id: "o".into(),
        printer_name: "HP".into(),
        tray: "tray-1".into(),
        paper_size: "A5".into(),
    }
}

fn chu(s: &str) -> GiaTri {
    GiaTri::Chuoi(s.to_string())
}

/// A message and the job it holds.
fn viec(id: &str, name: Option<&str>, pdf_base64: &str) -> (GiaTri, JobEnvelope) {
    let job = JobIn {
        id: id.into(),
        name: name.map(|s| s.into()),
        pdf_base64: pdf_base64.into(),
        paper_size: None,
        tray: None,
        copies: None,
    };
    let mut ds = vec![("id".to_string(), chu(id)), ("pdfBase64".to_string(), chu(pdf_base64))];
    if let Some(n) = name {
        ds.push(("name".to_string(), chu(n)));
    }
    let g = GiaTri::DoiTuong(vec![
        ("loai".to_string(), chu("in")),
        ("job".to_string(), GiaTri::DoiTuong(ds)),
    ]);
    (g, JobEnvelope { job })
}

fn can_gui(kq: &KetQua, ho_tro: &HoTro) -> bool {
    CanHoTro::cua_ket_qua(kq).duoc_gui(*ho_tro)
}

#[test]
fn job_hop_le_in_thanh_cong_tra_da_in() {
    let (payload, mut env) = viec("j1", None, &STANDARD.encode(b"%PDF-1.4"));
    env.job.paper_size = Some("A5".into());
    env.job.tray = Some("tray-2".into());
    env.job.copies = Some(1);
    let in_fn = |l: &LenhIn| {
        assert_eq!(l.pdf, b"%PDF-1.4");
        assert_eq!(l.may_in, "HP");
        assert_eq!(l.kho_giay, "A5");
        assert_eq!(l.khay, "tray-2");
        assert_eq!(l.job_id, "j1");
        KetQuaIn::DaIn
    };
    let kq = xu_ly_job(&payload, Ok(env), &cfg(), in_fn);
    assert_eq!(kq, KetQua::da_in("j1".into()));
}

#[test]
fn name_server_gui_duoc_chuyen_nguyen_xuong_ham_in() {
    let pdf = STANDARD.encode(b"%PDF-1.4");
    let ten = "AI-INV_2026_030045-Anh_Loc_Beco-j5.pdf";
    let nhan = Mutex::new(Vec::<Option<String>>::new());
    let in_fn = |l: &LenhIn| {
        nhan.lock().unwrap().push(l.ten.clone());
        KetQuaIn::DaIn
    };
    let (p, e) = viec("j5", Some(ten), &pdf);
    assert_eq!(xu_ly_job(&p, Ok(e), &cfg(), &in_fn), KetQua::da_in("j5".into()));
    let (p, e) = viec("j6", None, &pdf);
    assert_eq!(xu_ly_job(&p, Ok(e), &cfg(), &in_fn), KetQua::da_in("j6".into()));
    assert_eq!(*nhan.lock().unwrap(), vec![Some(ten.to_string()), None]);
}

#[test]
fn in_loi_tra_ket_qua_loi_khong_panic() {
    let (p, e) = viec("j2", None, &STANDARD.encode(b"x"));
    let kq = xu_ly_job(&p, Ok(e), &cfg(), |_: &LenhIn| KetQuaIn::Loi("máy in offline".to_string().into()));
    assert!(can_gui(&kq, &HoTro::default()), "a failure is sent to any server");
    assert_eq!(kq.trang_thai, "loi");
    assert_eq!(kq.job_id, "j2");
    assert!(kq.loi_cuoi.unwrap().contains("offline"));
}

#[test]
fn khong_ro_khong_emit_khi_backend_khong_ho_tro() {
    let (p, e) = viec("j2b", None, &STANDARD.encode(b"x"));
    let kq = xu_ly_job(&p, Ok(e), &cfg(), |_: &LenhIn| {
        KetQuaIn::KhongRo("khong quan sat duoc spooler".to_string().into())
    });
    assert_eq!(kq.trang_thai, "khong_ro");
    assert!(!can_gui(&kq, &HoTro::default()), "an open outcome is not sent to an old server");
    let chi_su_co =
        HoTro { su_co: true, trang_thai_may_in: true, khong_ro: false, nhat_ky_app: false, hang_doi: false };
    assert!(!can_gui(&kq, &chi_su_co));
}

#[test]
fn khong_ro_gui_kem_loai_khi_backend_ho_tro() {
    let (p, e) = viec("j2c", None, &STANDARD.encode(b"x"));
    let kq = xu_ly_job(&p, Ok(e), &cfg(), |_: &LenhIn| {
        KetQuaIn::KhongRo(LyDo::co_loai("loi sau khi da bat dau in: Kẹt giấy", MaSuCo::KetGiay))
    });
    let ho_tro = HoTro { khong_ro: true, ..HoTro::default() };
    assert!(can_gui(&kq, &ho_tro));
    let v = kq.gia_tri();
    assert_eq!(v.chuoi("jobId"), Some("j2c"));
    assert_eq!(v.chuoi("trangThai"), Some("khong_ro"));
    assert_eq!(v.chuoi("loiCuoi"), Some("loi sau khi da bat dau in: Kẹt giấy"));
    assert_eq!(v.chuoi("loai"), Some("ket_giay"));
    match v {
        GiaTri::DoiTuong(ds) => assert_eq!(ds.len(), 4),
        _ => panic!("not an object"),
    }
}

#[test]
fn loi_kem_loai_serialize_loai() {
    let kq = ket_qua_cua("j".into(), KetQuaIn::Loi(LyDo::co_loai("loi truoc khi in", MaSuCo::HetGiay)));
    let v = kq.gia_tri();
    assert_eq!(v.chuoi("trangThai"), Some("loi"));
    assert_eq!(v.chuoi("loai"), Some("het_giay"));
    let kq = ket_qua_cua("j".into(), KetQuaIn::Loi("payload sai".to_string().into()));
    assert!(kq.gia_tri().truong("loai").is_none(), "an unknown code is left out");
}

#[test]
fn base64_hong_tra_loi_giu_dung_job_id() {
    let (p, e) = viec("j3", None, "!!!khong-phai-base64!!!");
    let kq = xu_ly_job(&p, Ok(e), &cfg(), |_: &LenhIn| KetQuaIn::DaIn);
    assert_eq!(kq.trang_thai, "loi", "nothing was printed");
    assert_eq!(kq.job_id, "j3");
    assert_eq!(kq.loai, Some(MaSuCo::LoiPdf));
}

#[test]
fn thieu_paper_tray_dung_mac_dinh_config() {
    let (p, e) = viec("j4", None, &STANDARD.encode(b"p"));
    let kq = xu_ly_job(&p, Ok(e), &cfg(), |l: &LenhIn| {
        assert_eq!(l.kho_giay, "A5");
        assert_eq!(l.khay, "tray-1");
        assert_eq!(l.so_ban, 1);
        KetQuaIn::DaIn
    });
    assert_eq!(kq.trang_thai, "da_in");
}

#[test]
fn ket_qua_da_in_serialize_dung_field() {
    let j = KetQua::da_in("j5".into()).gia_tri();
    assert_eq!(j.chuoi("jobId"), Some("j5"));
    assert_eq!(j.chuoi("trangThai"), Some("da_in"));
    assert!(j.truong("loiCuoi").is_none());
    assert!(j.truong("loai").is_none());
}

#[test]
fn payload_khong_doc_duoc_la_loi_kem_id_tho() {
    let (p, _) = viec("j7", None, "");
    let kq = xu_ly_job(&p, Err("missing field".into()), &cfg(), |_: &LenhIn| panic!("nothing to print"));
    assert_eq!(kq.trang_thai, "loi");
    assert_eq!(kq.job_id, "j7");
    assert_eq!(kq.loi_cuoi.as_deref(), Some("payload sai: missing field"));
    assert_eq!(kq.loai, None);
}

#[test]
fn base64_duoc_giai_ma_that() {
    let (p, e) = viec("j8", None, "JVBERi0=");
    let lenh = chuan_bi_job(&p, Ok(e), &cfg()).unwrap();
    assert_eq!(lenh.pdf, b"%PDF-");
}

#[test]
fn rut_gon_job_id_cat_token() {
    assert_eq!(rut_gon_job_id("tokHN8f2a-1727170000000-3"), "1727170000000-3");
    assert_eq!(rut_gon_job_id("tok-co-gach-1727-12"), "1727-12", "a token with '-' is cut from the right");
    for id in ["j1", "in-thu", "a-b-c", "tok-1727-", "-1727-3"] {
        assert_eq!(rut_gon_job_id(id), id, "any other id stays");
    }
}

#[test]
fn boc_hoa_don_tu_name_backend() {
    let id = "tokHN-1727170000000-3";
    let name = format!("AI-INV_2026_030045-Anh_Loc-{}.pdf", id);
    assert_eq!(boc_hoa_don(&name, id), Some(("INV_2026_030045".into(), Some("Anh_Loc".into()))));
    let name = format!("AI-INV_2026_030046-Chi-Muoi-{}.PDF", id);
    assert_eq!(boc_hoa_don(&name, id), Some(("INV_2026_030046".into(), Some("Chi-Muoi".into()))));
    let name = format!("AI-INV_2026_030047-Khong_ro-{}.pdf", id);
    assert_eq!(boc_hoa_don(&name, id), Some(("INV_2026_030047".into(), None)));
}

#[test]
fn boc_hoa_don_sai_mau_thi_none() {
    let id = "tok-1727-3";
    assert_eq!(boc_hoa_don("AI-INV_1-Khach-tok-9999-9.pdf", id), None, "does not end in the id");
    assert_eq!(boc_hoa_don(&format!("{}.pdf", id), id), None);
    assert_eq!(boc_hoa_don(&format!("AI--{}.pdf", id), id), None, "no number");
    assert_eq!(boc_hoa_don("x.pdf", ""), None);
    assert_eq!(boc_hoa_don("", id), None);
}

#[test]
fn nhan_hien_thi_uu_tien_name_roi_id_da_cat_token() {
    let id = "tokHN-1727170000000-3";
    let name = format!("AI-INV_2026_030045-Anh_Loc-{}.pdf", id);
    assert_eq!(nhan_hien_thi(id, Some(&name)), ("INV_2026_030045".into(), Some("Anh_Loc".into())));
    assert_eq!(nhan_hien_thi(id, None), ("1727170000000-3".into(), None));
    assert_eq!(nhan_hien_thi(id, Some("rac.pdf")), ("1727170000000-3".into(), None));
}

#[test]
fn ly_do_day_du_kem_so_ban() {
    let mut l = LyDo::chi_chu("het giay");
    assert_eq!(l.chu_day_du(), "het giay");
    l.ban_da_in = Some((1, 3));
    let kq = ket_qua_cua("j".into(), KetQuaIn::KhongRo(l));
    assert_eq!(kq.ban_da_in, Some((1, 3)));
}

#[test]
fn ly_do_tu_chu() {
    assert_eq!(LyDo::from("kẹt"), LyDo { chu: "kẹt".into(), loai: None, ban_da_in: None });
    assert_eq!(LyDo::from("kẹt"), LyDo::from("kẹt".to_string()));
    assert_eq!(LyDo::default(), LyDo { chu: String::new(), loai: None, ban_da_in: None });
}

#[test]
fn rut_gon_hai_lan_nhu_mot_lan() {
    for id in ["tokHN8f2a-1727170000000-3", "t-1-2-3", "1727-12", "a-b-c", "", "-", "--", "x-1727-"] {
        let mot = rut_gon_job_id(id);
        assert_eq!(rut_gon_job_id(&mot), mot, "{}", id);
    }
    assert_eq!(rut_gon_job_id("t-1-2-3"), "2-3");
}

#[test]
fn boc_hoa_don_moi_kieu_duoi_pdf() {
    for duoi in [".pdf", ".PDF", ".Pdf", ".pDF"] {
        let name = format!("AI-INV_1-Chi-Muoi-tok-1727-3{}", duoi);
        assert_eq!(boc_hoa_don(&name, "tok-1727-3"), Some(("INV_1".into(), Some("Chi-Muoi".into()))));
        assert_eq!(boc_hoa_don(&name, "tok-1727-4"), None);
        assert_eq!(boc_hoa_don(&name, ""), None);
    }
    assert_eq!(boc_hoa_don("AI-INV_1-K-tok-1727-3.txt", "tok-1727-3"), None);
}
