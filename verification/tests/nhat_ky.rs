use print_agent::nhat_ky::{
    che, don_file_cu_voi_tran, dong_nhat_ky, lam_sach_lo, ngay_cua_file, ten_file, BiMat, ChoGui, DongGui, GhiGi,
    MucThuMuc, TranNgay, XoaCoVet, XoaFile, MOI_NGAY_TOI_DA, SO_NGAY_GIU, TONG_TOI_DA,
};
use print_agent::thoi_gian;

/// 2026-09-24T12:00:00Z
const HOM_NAY: u64 = 1_790_251_200_000;

#[test]
fn moc_test_dung_ngay() {
    assert_eq!(thoi_gian::iso_utc(HOM_NAY), "2026-09-24T12:00:00.000Z");
}

#[test]
fn mot_su_kien_mot_dong_khong_tab_xuong_dong_trong_noi_dung() {
    let d = dong_nhat_ky(HOM_NAY, "ket_qua", "loi\r\ndong 2\tcot");
    assert_eq!(d, "2026-09-24T12:00:00.000Z\tket_qua\tloi  dong 2 cot\n");
}

#[test]
fn che_token_trong_noi_dung() {
    let bi_mat = vec!["tokHN123456".to_string()];
    let s = che(r"SumatraPDF lỗi: C:\Temp\AI-INV_1-Khach-tokHN123456-1727-3.pdf", &bi_mat);
    assert!(!s.contains("tokHN123456"));
    assert!(s.contains("AI-INV_1-Khach-***-1727-3.pdf"));
}

#[test]
fn bi_mat_ngan_va_trung_khong_ghi() {
    let mut b = BiMat::moi();
    b.che_bi_mat("abc");
    b.che_bi_mat("ạbcd");
    assert_eq!(b.che("abc ạbcd"), "abc ***", "six bytes are enough");
    b.che_bi_mat("token-dai");
    b.che_bi_mat("token-dai");
    assert_eq!(b.che("x token-dai y token-dai"), "x *** y ***");
}

#[test]
fn ghi_vao_file_theo_ngay_va_noi_tiep() {
    assert_eq!(ten_file(&thoi_gian::ngay_utc(HOM_NAY)), "print-agent-2026-09-24.txt");
    let hai = dong_nhat_ky(HOM_NAY, "ket_noi", "server=x") + &dong_nhat_ky(HOM_NAY + 1000, "ket_qua", "da_in");
    let dong: Vec<&str> = hai.lines().collect();
    assert_eq!(dong.len(), 2);
    assert!(dong[0].ends_with("\tket_noi\tserver=x"));
    assert!(dong[1].ends_with("\tket_qua\tda_in"));
}

#[test]
fn nhan_dung_mau_ten_file() {
    assert_eq!(ngay_cua_file("print-agent-2026-09-10.txt").as_deref(), Some("2026-09-10"));
    assert_eq!(ngay_cua_file("print-agent-2026-09-10.log").as_deref(), Some("2026-09-10"));
    for ten in [
        "print-agent-2026-9-10.log",
        "print-agent-2026-09-10.csv",
        "khac-2026-09-10.log",
        "print-agent-abcd-ef-gh.log",
        "print-agent-2026-09-100.log",
    ] {
        assert_eq!(ngay_cua_file(ten), None, "{}", ten);
    }
}

/// A directory in memory.
struct ThuMuc {
    con: Vec<(String, u64)>,
    hong: bool,
}

impl XoaFile for ThuMuc {
    fn xoa(&mut self, ten: &str) -> bool {
        if self.hong {
            return false;
        }
        self.con.retain(|(t, _)| t != ten);
        true
    }
}

fn thu_muc(ten: &[&str], dai: u64) -> ThuMuc {
    ThuMuc { con: ten.iter().map(|t| (t.to_string(), dai)).collect(), hong: false }
}

fn don(t: ThuMuc, tran: u64) -> ThuMuc {
    let ds: Vec<MucThuMuc> = t.con.iter().map(|(ten, dai)| MucThuMuc { ten: ten.clone(), dai: *dai }).collect();
    let mut x = XoaCoVet::moi(t);
    let moc = thoi_gian::ngay_utc_truoc(HOM_NAY, SO_NGAY_GIU);
    don_file_cu_voi_tran(&mut x, &ds, &moc, &thoi_gian::ngay_utc(HOM_NAY), tran);
    x.tra_lai()
}

fn con_lai(t: &ThuMuc) -> Vec<String> {
    let mut con: Vec<String> = t.con.iter().map(|(t, _)| t.clone()).collect();
    con.sort();
    con
}

#[test]
fn don_file_cu_giu_30_ngay_va_khong_dung_file_la() {
    let t = thu_muc(
        &[
            "print-agent-2026-08-24.log",
            "print-agent-2026-08-25.txt",
            "print-agent-2026-08-26.txt",
            "print-agent-2026-09-24.txt",
            "ghi-chu.txt",
            "print-agent-cu.log",
        ],
        1,
    );
    let t = don(t, TONG_TOI_DA);
    assert_eq!(
        con_lai(&t),
        vec!["ghi-chu.txt", "print-agent-2026-08-26.txt", "print-agent-2026-09-24.txt", "print-agent-cu.log"]
    );
}

#[test]
fn don_theo_tong_dung_luong_xoa_cu_nhat_truoc() {
    let t = thu_muc(
        &[
            "print-agent-2026-09-20.txt",
            "print-agent-2026-09-21.txt",
            "print-agent-2026-09-22.txt",
            "print-agent-2026-09-24.txt",
            "ghi-chu.txt",
        ],
        100,
    );
    let t = don(t, 250);
    assert_eq!(con_lai(&t), vec!["ghi-chu.txt", "print-agent-2026-09-22.txt", "print-agent-2026-09-24.txt"]);
    let t = don(t, 10);
    assert_eq!(con_lai(&t), vec!["ghi-chu.txt", "print-agent-2026-09-24.txt"]);
}

#[test]
fn file_khong_xoa_duoc_o_lai() {
    let mut t = thu_muc(&["print-agent-2026-08-01.txt", "print-agent-2026-09-20.txt"], 100);
    t.hong = true;
    assert_eq!(don(t, 10).con.len(), 2);
}

#[test]
fn tran_file_ngay() {
    let mut t = TranNgay::moi();
    assert!(t.sang_ngay("2026-09-24"));
    assert_eq!(t.xet("2026-09-24", 100, MOI_NGAY_TOI_DA - 150), GhiGi::Dong);
    assert!(!t.sang_ngay("2026-09-24"));
    assert_eq!(t.xet("2026-09-24", 100, 0), GhiGi::BaoDay);
    assert_eq!(t.xet("2026-09-24", 10, 0), GhiGi::Bo, "once said, even short lines are dropped");
    assert_eq!(t.xet("2026-09-25", 100, 0), GhiGi::Dong, "a new day");
}

fn d(i: u64) -> DongGui {
    DongGui { luc: i * 1000, su_kien: "e".into(), noi_dung: format!("n{}", i) }
}

fn noi_dung(lo: &[DongGui]) -> Vec<&str> {
    lo.iter().map(|x| x.noi_dung.as_str()).collect()
}

#[test]
fn cho_gui_thu_tu_tra_lai_va_tran() {
    let mut c = ChoGui::moi();
    for i in 0..5 {
        c.them(d(i), 4);
    }
    assert_eq!(c.bo_qua(), 1);
    let (lo, bo) = c.lay(2);
    assert_eq!((noi_dung(&lo), bo), (vec!["n1", "n2"], 1));
    assert_eq!(c.bo_qua(), 0, "the count goes with the batch");
    c.them(d(9), 4);
    c.tra_lai(lo, bo, 4);
    let (tat_ca, bo) = c.lay(10);
    assert_eq!(noi_dung(&tat_ca), vec!["n2", "n3", "n4", "n9"], "the oldest is dropped");
    assert_eq!(bo, 2);
}

#[test]
fn lay_roi_tra_lai_khong_doi_gi() {
    let mut c = ChoGui::moi();
    for i in 0..6 {
        c.them(d(i), 10);
    }
    let (lo, bo) = c.lay(4);
    c.tra_lai(lo, bo, 10);
    let (tat_ca, bo) = c.lay(10);
    assert_eq!(noi_dung(&tat_ca), vec!["n0", "n1", "n2", "n3", "n4", "n5"]);
    assert_eq!(bo, 0);
}

#[test]
fn lam_sach_lo_che_token_va_phang() {
    let lo = vec![DongGui { luc: 0, su_kien: "ket\tqua".into(), noi_dung: " a TOKEN123456 b\nc ".into() }];
    let mut bi_mat = BiMat::moi();
    bi_mat.che_bi_mat("TOKEN123456");
    let ra = lam_sach_lo(lo, &bi_mat);
    assert_eq!(ra[0].su_kien, "ket qua");
    assert_eq!(ra[0].noi_dung, "a *** b c");
}

#[test]
fn bi_mat_rong_dung_truoc_moi_ky_tu() {
    assert_eq!(che("ab", &vec![String::new()]), "***a***b***");
    assert_eq!(che("", &vec![String::new()]), "***");
    assert_eq!(che("xtok123", &vec!["tok123".to_string(), String::new()]), "***x***************");
}
