use print_agent::job;
use print_agent::state::{print_job_id, DaiHien, JobLog, LoaiDai, TrangThaiChung, MAX_JOB_LOG, SO_DAI_TOI_DA};
use print_agent::su_co::MaSuCo;

fn log(so: &str, trang_thai: &str, luc: &str) -> JobLog {
    JobLog { so_hoa_don: so.into(), trang_thai: trang_thai.into(), luc: luc.into(), ..Default::default() }
}

#[test]
fn them_job_moi_nhat_len_dau() {
    let mut t = TrangThaiChung::default();
    t.them_job(log("1", "da_in", "10:00:00"));
    t.them_job(log("2", "da_in", "10:00:01"));
    assert_eq!(t.jobs[0].so_hoa_don, "2");
    assert_eq!(t.jobs[1].so_hoa_don, "1");
}

#[test]
fn them_job_cat_bot_khi_vuot_gioi_han() {
    let mut t = TrangThaiChung::default();
    for i in 0..(MAX_JOB_LOG + 5) {
        t.them_job(log(&i.to_string(), "da_in", "x"));
    }
    assert_eq!(t.jobs.len(), MAX_JOB_LOG);
    assert_eq!(t.jobs[0].so_hoa_don, (MAX_JOB_LOG + 4).to_string());
}

#[test]
fn ghi_may_in_chi_bao_doi_khi_ma_doi() {
    let mut t = TrangThaiChung::default();
    assert!(t.ghi_may_in(MaSuCo::BinhThuong, None, true));
    assert!(!t.ghi_may_in(MaSuCo::BinhThuong, None, true));
    assert!(t.ghi_may_in(MaSuCo::HetGiay, Some("a".into()), true));
    assert!(!t.ghi_may_in(MaSuCo::HetGiay, Some("b".into()), true));
    assert_eq!(t.may_in, Some((MaSuCo::HetGiay, Some("b".into()))));
    assert!(t.ghi_may_in(MaSuCo::BinhThuong, None, true));
}

#[test]
fn pb4_dai_loi_tat_khi_doc_luc_ranh_thay_binh_thuong() {
    let mut t = TrangThaiChung::default();
    t.ghi_may_in(MaSuCo::BinhThuong, None, true);
    t.ghi_ket_qua_job("j1", "INV_1", "loi", Some(MaSuCo::HetGiay));
    t.ghi_may_in(MaSuCo::BinhThuong, None, false);
    assert!(t.dai_moi_nhat().is_some());
    t.ghi_may_in(MaSuCo::BinhThuong, None, true);
    assert_eq!(t.dai_moi_nhat(), None);
}

#[test]
fn pb4_dai_khong_ro_giu_qua_100_lan_binh_thuong_roi_tat_dung_cach() {
    let mut t = TrangThaiChung::default();
    t.ghi_ket_qua_job("j1", "INV_1", "khong_ro", Some(MaSuCo::HetGiay));
    for _ in 0..100 {
        t.ghi_may_in(MaSuCo::BinhThuong, None, true);
    }
    assert!(t.dai_moi_nhat().is_some());
    t.xac_nhan_in_sau("j-khac");
    assert!(t.dai_moi_nhat().is_some());
    t.xac_nhan_in_sau("j1");
    assert_eq!(t.dai_moi_nhat(), None);

    t.ghi_ket_qua_job("j2", "INV_2", "khong_ro", Some(MaSuCo::KetGiay));
    t.ghi_ket_qua_job("j3", "INV_3", "da_in", None);
    assert_eq!(t.dai_moi_nhat(), None);

    t.ghi_ket_qua_job("j4", "INV_4", "khong_ro", Some(MaSuCo::KhongXacNhan));
    t.da_hieu();
    assert_eq!(t.dai_moi_nhat(), None);
}

#[test]
fn da_hieu_an_su_co_may_in_toi_khi_ma_doi() {
    let mut t = TrangThaiChung::default();
    t.ghi_may_in(MaSuCo::HetGiay, None, true);
    t.da_hieu();
    assert_eq!(t.may_in_da_hieu, Some(MaSuCo::HetGiay));
    t.ghi_may_in(MaSuCo::HetGiay, None, true);
    assert_eq!(t.may_in_da_hieu, Some(MaSuCo::HetGiay));
    t.ghi_may_in(MaSuCo::BinhThuong, None, true);
    assert_eq!(t.may_in_da_hieu, None);
    t.da_hieu();
    assert_eq!(t.may_in_da_hieu, None);
}

#[test]
fn ket_qua_job_bat_tat_canh_bao() {
    let mut t = TrangThaiChung::default();
    t.ghi_su_co_dang_in(MaSuCo::HetGiay, "INV_1", "j1");
    assert_eq!(t.dai_moi_nhat().map(|d| d.loai_dai), Some(LoaiDai::DangTheoDoi));
    t.ghi_ket_qua_job("j1", "INV_1", "khong_ro", Some(MaSuCo::KetGiay));
    assert_eq!(t.dai_moi_nhat().map(|d| (d.loai_dai, d.ma)), Some((LoaiDai::KhongRo, Some(MaSuCo::KetGiay))));
    t.ghi_ket_qua_job("j2", "INV_2", "loi", None);
    assert_eq!(t.dai_moi_nhat().map(|d| (d.loai_dai, d.ma, d.so_hoa_don.as_str())), Some((LoaiDai::Loi, None, "INV_2")));
    t.ghi_ket_qua_job("j3", "INV_3", "da_in", None);
    assert_eq!(t.dai_moi_nhat(), None);
}

#[test]
fn r_m_job_sau_in_xong_khong_tat_dai_chua_xac_nhan_cua_job_khac() {
    for ma in [MaSuCo::KhongXacNhan, MaSuCo::LoiSumatra, MaSuCo::LoiPdf] {
        let mut t = TrangThaiChung::default();
        t.ghi_ket_qua_job("jA", "INV_A", "khong_ro", Some(ma));
        t.ghi_ket_qua_job("jB", "INV_B", "da_in", None);
        assert_eq!(t.dai_moi_nhat().map(|d| d.job_id.as_str()), Some("jA"));
        t.da_hieu();
        assert_eq!(t.dai_moi_nhat(), None);
    }
    for (tt, ma) in [("khong_ro", Some(MaSuCo::HetGiay)), ("loi", Some(MaSuCo::LoiPdf)), ("loi", None)] {
        let mut t = TrangThaiChung::default();
        t.ghi_ket_qua_job("jA", "INV_A", tt, ma);
        t.ghi_ket_qua_job("jB", "INV_B", "da_in", None);
        assert_eq!(t.dai_moi_nhat(), None, "{} {:?}", tt, ma);
    }
    let mut t = TrangThaiChung::default();
    t.ghi_ket_qua_job("jA", "INV_A", "khong_ro", Some(MaSuCo::KhongXacNhan));
    t.ghi_ket_qua_job("jA", "INV_A", "da_in", None);
    assert_eq!(t.dai_moi_nhat(), None);
}

#[test]
fn t6_nhieu_dai_moi_dai_tu_tat_theo_luat_cua_no() {
    let mut t = TrangThaiChung::default();
    t.ghi_ket_qua_job("jA", "INV_A", "khong_ro", Some(MaSuCo::KhongXacNhan));
    t.ghi_su_co_dang_in(MaSuCo::HetGiay, "INV_B", "jB");
    assert_eq!(t.dai_moi_nhat().map(|d| d.job_id.as_str()), Some("jB"));
    assert_eq!(t.so_canh_bao_khac(), 1);
    t.ghi_ket_qua_job("jB", "INV_B", "loi", Some(MaSuCo::HetGiay));
    assert_eq!(t.dai_jobs.len(), 2);
    t.ghi_ket_qua_job("jB", "INV_B", "da_in", None);
    assert_eq!(t.dai_moi_nhat().map(|d| d.job_id.as_str()), Some("jA"));
    t.ghi_ket_qua_job("jC", "INV_C", "loi", Some(MaSuCo::Offline));
    t.ghi_may_in(MaSuCo::BinhThuong, None, true);
    assert_eq!(t.dai_jobs.iter().map(|d| d.job_id.as_str()).collect::<Vec<_>>(), vec!["jA"]);
    t.ghi_ket_qua_job("jD", "INV_D", "khong_ro", Some(MaSuCo::KetGiay));
    t.da_hieu();
    assert_eq!(t.dai_moi_nhat().map(|d| d.job_id.as_str()), Some("jA"));
    t.da_hieu();
    assert_eq!(t.dai_moi_nhat(), None);
}

#[test]
fn kiem_cuoi_dai_gop_theo_so_hoa_don_luot_thu_lai_khong_day_mat_dai_khac() {
    let mut t = TrangThaiChung::default();
    t.ghi_ket_qua_job("jA", "INV_A", "khong_ro", Some(MaSuCo::KhongXacNhan));
    for i in 0..6 {
        t.ghi_ket_qua_job(&format!("j2-{i}"), "INV_2", "loi", Some(MaSuCo::HetGiay));
    }
    assert_eq!(t.dai_jobs.len(), 2);
    assert!(t.dai_jobs.iter().any(|d| d.so_hoa_don == "INV_A"));
    assert_eq!(t.so_canh_bao_khac(), 1);
}

#[test]
fn t6_tran_5_dai_bo_cu_nhat_va_dem_canh_bao_khac() {
    let mut t = TrangThaiChung::default();
    for i in 0..7 {
        t.ghi_ket_qua_job(&format!("j{}", i), &format!("INV_{}", i), "khong_ro", Some(MaSuCo::KhongXacNhan));
    }
    assert_eq!(t.dai_jobs.len(), SO_DAI_TOI_DA);
    assert_eq!(t.dai_jobs[0].job_id, "j2");
    assert_eq!(t.so_canh_bao_khac(), 4);
    t.ghi_may_in(MaSuCo::Offline, None, true);
    assert_eq!(t.so_canh_bao_khac(), 5);
    t.ghi_ket_qua_job("j9", "INV_9", "khong_ro", Some(MaSuCo::Offline));
    assert_eq!(t.so_canh_bao_khac(), 4);
    let mut t = TrangThaiChung::default();
    t.ghi_may_in(MaSuCo::HetGiay, None, true);
    assert_eq!(t.dai_hien(), DaiHien::MayIn(MaSuCo::HetGiay));
    t.da_hieu();
    assert_eq!(t.dai_hien(), DaiHien::KhongCo);
    let mut t = TrangThaiChung::default();
    t.ghi_ket_qua_job("j1", "INV_1", "khong_ro", Some(MaSuCo::HetMuc));
    t.ghi_may_in(MaSuCo::Offline, None, true);
    assert_eq!(t.dai_hien(), DaiHien::MayIn(MaSuCo::Offline));
    t.da_hieu();
    assert_eq!(t.dai_moi_nhat().map(|d| d.job_id.as_str()), Some("j1"));
}

#[test]
fn t9_dai_thieu_ban_khong_tat_khi_job_khac_in_xong() {
    let mut t = TrangThaiChung::default();
    t.ghi_ket_qua("jA", "INV_A", "khong_ro", Some(MaSuCo::HetGiay), true, Some((1, 2)));
    t.ghi_ket_qua_job("jB", "INV_B", "da_in", None);
    let d = t.dai_moi_nhat().unwrap();
    assert_eq!((d.job_id.as_str(), d.ban_da_in), ("jA", Some((1, 2))));
    t.ghi_may_in(MaSuCo::BinhThuong, None, true);
    assert!(t.dai_moi_nhat().is_some());
    t.ghi_ket_qua("jC", "INV_C", "loi", Some(MaSuCo::HetGiay), false, Some((1, 2)));
    assert_eq!(t.dai_moi_nhat().map(|d| d.ban_da_in), Some(None));
}

#[test]
fn t7_doi_cau_hinh_giu_job_va_dai_quen_ket_noi() {
    let mut t = TrangThaiChung {
        da_noi: true,
        server_ban_cu: true,
        tu_choi_ket_noi: Some("x".into()),
        thong_bao_cuoi: Some("y".into()),
        ..Default::default()
    };
    t.ghi_may_in(MaSuCo::HetGiay, None, true);
    t.da_hieu();
    t.them_job(log("1", "khong_ro", "10:00:00"));
    t.ghi_ket_qua_job("j1", "INV_1", "khong_ro", Some(MaSuCo::KetGiay));
    t.doi_cau_hinh();
    assert_eq!(t.jobs.len(), 1);
    assert_eq!(t.dai_jobs.len(), 1);
    assert!(!t.da_noi && !t.server_ban_cu && t.tu_choi_ket_noi.is_none() && t.thong_bao_cuoi.is_none());
    assert_eq!((t.may_in.clone(), t.may_in_da_hieu), (None, None));
}

#[test]
fn r_c_mat_dau_bat_lai_dai_chua_xac_nhan() {
    let mut t = TrangThaiChung::default();
    t.them_job(JobLog { job_id: "j1".into(), trang_thai: "khong_ro".into(), loai: Some(MaSuCo::HetGiay), ..Default::default() });
    t.ghi_ket_qua_job("j1", "INV_1", "khong_ro", Some(MaSuCo::HetGiay));
    t.da_hieu();
    t.mat_dau_job("j1", "INV_1");
    let d = t.dai_moi_nhat().unwrap();
    assert_eq!((d.loai_dai, d.ma, d.so_hoa_don.as_str()), (LoaiDai::KhongRo, Some(MaSuCo::KhongXacNhan), "INV_1"));
    assert_eq!(t.jobs[0].loai, Some(MaSuCo::KhongXacNhan));
}

#[test]
fn theo_doi_tiep_xac_nhan_va_mat_dau_cap_nhat_dong_in_gan_day() {
    let mut t = TrangThaiChung::default();
    t.them_job(JobLog { job_id: "j1".into(), trang_thai: "khong_ro".into(), loai: Some(MaSuCo::HetGiay), ..Default::default() });
    t.them_job(JobLog { job_id: "j2".into(), trang_thai: "khong_ro".into(), loai: Some(MaSuCo::KetGiay), ..Default::default() });
    t.ghi_ket_qua_job("j2", "INV_2", "khong_ro", Some(MaSuCo::KetGiay));
    t.xac_nhan_in_sau("j1");
    let j1 = t.jobs.iter().find(|j| j.job_id == "j1").unwrap();
    assert!(j1.trang_thai == "da_in" && j1.sau_khac_phuc);
    assert!(t.dai_moi_nhat().is_some());
    t.mat_dau_job("j2", "INV_2");
    let j2 = t.jobs.iter().find(|j| j.job_id == "j2").unwrap();
    assert_eq!((j2.trang_thai.as_str(), j2.loai), ("khong_ro", Some(MaSuCo::KhongXacNhan)));
    assert_eq!(t.dai_moi_nhat().map(|d| d.ma), Some(Some(MaSuCo::KhongXacNhan)));
}

#[test]
fn print_job_id_tu_job_id() {
    assert_eq!(print_job_id("cmg0abc123-1790000000123"), Some("cmg0abc123".to_string()));
    assert_eq!(print_job_id("a-b-1790000000123"), Some("a-b".to_string()));
    assert_eq!(print_job_id("token_INV_2026-17900"), None);
    assert_eq!(print_job_id("-1790000000123"), None);
    assert_eq!(print_job_id("abc"), None);
}

#[test]
fn ghi_da_huy_thay_dong_cu_cung_hoa_don() {
    let mut t = TrangThaiChung::default();
    t.them_job(JobLog { job_id: "p1-1790000000001".into(), so_hoa_don: "INV/1".into(), trang_thai: job::LOI.into(), ..Default::default() });
    t.them_job(JobLog { job_id: "p2-1790000000002".into(), so_hoa_don: "INV/2".into(), trang_thai: job::DA_IN.into(), ..Default::default() });
    t.ghi_da_huy("p1", "INV/1", None, "18:50:00".into());
    assert_eq!(t.jobs.len(), 2);
    assert_eq!((t.jobs[0].so_hoa_don.as_str(), t.jobs[0].trang_thai.as_str()), ("INV/1", job::DA_HUY));
    assert_eq!(t.jobs[1].so_hoa_don, "INV/2");
}

#[test]
fn tung_buoc_cua_mot_job_tren_mot_dong() {
    let mut t = TrangThaiChung::default();
    t.bat_dau_job("j1", "INV_1", Some("Anh_Loc".into()), "10:00:00".into());
    assert_eq!(t.jobs[0].trang_thai, job::DANG_GUI);
    t.doi_trang_thai_job("j1", job::CHO_MAY_IN);
    assert_eq!(t.jobs[0].trang_thai, job::CHO_MAY_IN);
    t.them_job(JobLog { job_id: "j1".into(), trang_thai: job::DA_IN.into(), ..Default::default() });
    assert_eq!(t.jobs.len(), 1, "the outcome takes the place of the steps");
    t.doi_trang_thai_job("j1", job::CHO_MAY_IN);
    assert_eq!(t.jobs[0].trang_thai, job::DA_IN, "an outcome is never taken back");
}

#[test]
fn da_hieu_du_lan_thi_khong_con_dai_nao() {
    let mut t = TrangThaiChung::default();
    t.them_job(log("1", "da_in", "x"));
    t.ghi_may_in(MaSuCo::HetGiay, None, true);
    t.ghi_ket_qua_job("j1", "INV_1", "khong_ro", Some(MaSuCo::KhongXacNhan));
    t.ghi_ket_qua_job("j2", "INV_2", "khong_ro", Some(MaSuCo::KhongXacNhan));
    let n = t.dai_jobs.len() + 1;
    let (jobs, may_in) = (t.jobs.len(), t.may_in.clone());
    assert_eq!(n, 3);
    let mut da_tat = 0;
    for _ in 0..n {
        if !matches!(t.dai_hien(), DaiHien::KhongCo) {
            da_tat += 1;
        }
        t.da_hieu();
    }
    assert_eq!(da_tat, 3);
    assert!(matches!(t.dai_hien(), DaiHien::KhongCo));
    assert_eq!(t.may_in_da_hieu, Some(MaSuCo::HetGiay));
    assert!(t.dai_jobs.is_empty());
    assert_eq!((t.jobs.len(), t.may_in.clone()), (jobs, may_in));
    t.da_hieu();
    assert!(matches!(t.dai_hien(), DaiHien::KhongCo));
}
