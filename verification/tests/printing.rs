use print_agent::job::{KetQuaIn, LyDo};
use print_agent::printing::in_thu::pdf_in_thu;
use print_agent::printing::{
    cho_co_han, chu_thieu_ban, in_va_xac_nhan, lenh_in, sanitize_job_id, sau_ban_da_in, ten_file_in, tray_sang_bin,
    KetQuaCho, KetThuc, LenhInFile, PhienCoVet, PhienIn, TienTrinh, CHU_KY_CHO_SUMATRA_MS, HAN_SUMATRA_MS,
    TEN_FILE_TOI_DA,
};
use print_agent::su_co::MaSuCo;

#[test]
fn tray2_sang_bin2() {
    assert_eq!(tray_sang_bin("tray-2"), "bin=Tray 2");
    assert_eq!(tray_sang_bin("tray-1"), "bin=Tray 1");
}

#[test]
fn lenh_in_a5_tray2_dung_argv() {
    let a = lenh_in("SumatraPDF.exe", "c:\\a.pdf", "HP LaserJet", "A5", "tray-2");
    assert_eq!(a[0], "SumatraPDF.exe");
    assert_eq!(a[1], "-print-to");
    assert_eq!(a[2], "HP LaserJet");
    assert_eq!(a[3], "-print-settings");
    assert_eq!(a[4], "paper=A5,bin=Tray 2");
    assert_eq!(a[5], "-silent");
    assert_eq!(a[6], "c:\\a.pdf");
}

#[test]
fn ten_file_in_dung_name_server_gui_neu_chua_job_id() {
    let id = "tokHN-1727170000000-3";
    let name = format!("AI-INV_2026_030045-Anh_Loc_Beco_Thanh_Hoa-{}.pdf", id);
    assert_eq!(ten_file_in(id, Some(&name), "18a2f"), name);
}

#[test]
fn ten_file_in_loc_ky_tu_cam_va_them_duoi_pdf() {
    let id = "j1";
    assert_eq!(ten_file_in(id, Some("AI-INV/2026:0*1-Lộc-j1"), "1"), "AI-INV_2026_0_1-L_c-j1.pdf");
    assert_eq!(ten_file_in(id, Some("..\\..\\x-j1.pdf"), "1"), "_.._x-j1.pdf");
}

#[test]
fn ten_file_in_roi_ve_ten_cu_khi_khong_co_hoac_khong_chua_job_id() {
    let id = "job-xyz";
    for ten in [None, Some(""), Some("AI-INV_1-Khach.pdf")] {
        let t = ten_file_in(id, ten, "18a2f");
        assert!(t.starts_with("print-agent-job-xyz-") && t.ends_with(".pdf"), "{:?} -> {}", ten, t);
        assert_eq!(t, "print-agent-job-xyz-18a2f.pdf");
    }
    let dai = format!("{}-{}.pdf", "A".repeat(TEN_FILE_TOI_DA), id);
    assert!(ten_file_in(id, Some(&dai), "1").starts_with("print-agent-"));
}

#[test]
fn sanitize_job_id_loai_ky_tu_la() {
    assert_eq!(sanitize_job_id("abc-123_XYZ"), "abc-123_XYZ");
    assert_eq!(sanitize_job_id("a/b c*d"), "a_b_c_d");
    assert_eq!(sanitize_job_id(""), "unknown");
}

/// A program that ends at look number `xong_o`, and a spooler that gives its answers in turn.
#[derive(Default)]
struct PhienGia {
    xong_o: Option<usize>,
    loi_hoi: bool,
    loi_mo: bool,
    ma_thoat: i32,
    so_lan_hoi: usize,
    da_giet: bool,
    da_ngu_ms: u64,
    spooler: Vec<KetQuaIn>,
    so_lan_spooler: usize,
    argv: Vec<Vec<String>>,
}

impl TienTrinh for PhienGia {
    fn thu_cho(&mut self) -> Result<Option<KetThuc>, String> {
        self.so_lan_hoi += 1;
        if self.loi_hoi {
            return Err("hong".into());
        }
        if Some(self.so_lan_hoi) == self.xong_o {
            self.so_lan_hoi = 0;
            return Ok(Some(KetThuc { thanh_cong: self.ma_thoat == 0, ma: Some(self.ma_thoat) }));
        }
        Ok(None)
    }

    fn giet(&mut self) {
        self.da_giet = true;
    }

    fn ngu(&mut self, ms: u64) {
        self.da_ngu_ms += ms;
    }
}

impl PhienIn for PhienGia {
    fn mo(&mut self, argv: &Vec<String>) -> Result<(), String> {
        if self.loi_mo {
            return Err("khong thay file".into());
        }
        self.argv.push(argv.clone());
        Ok(())
    }

    fn loi_ra(&mut self) -> String {
        "loi cua chuong trinh".into()
    }

    fn bay_gio_giay(&mut self) -> i64 {
        1_000
    }

    fn hoi_spooler(&mut self, printer: &str, job_id: &str, _sau: i64) -> KetQuaIn {
        assert_eq!((printer, job_id), ("HP", "job-c"));
        self.so_lan_spooler += 1;
        self.spooler.remove(0)
    }
}

fn in_file(p: PhienGia, copies: u32, han_ms: u64) -> (KetQuaIn, PhienGia) {
    let mut p = PhienCoVet::moi(p);
    let lenh = LenhInFile {
        sumatra: "SumatraPDF.exe",
        duong_dan: "c:\\a.pdf",
        printer: "HP",
        paper_size: "A5",
        tray: "tray-1",
        copies,
        job_id: "job-c",
        han_ms,
    };
    let kq = in_va_xac_nhan(&mut p, &lenh);
    (kq, p.tra_lai())
}

fn in_voi(ma_thoat: i32, copies: u32, spooler: Vec<KetQuaIn>) -> (KetQuaIn, usize) {
    let (kq, p) = in_file(PhienGia { xong_o: Some(1), ma_thoat, spooler, ..Default::default() }, copies, HAN_SUMATRA_MS);
    (kq, p.so_lan_spooler)
}

#[test]
fn sumatra_that_bai_nhung_spooler_khong_ro_thi_giu_khong_ro_khong_duoc_thanh_loi() {
    let (kq, _) = in_voi(
        1,
        1,
        vec![KetQuaIn::KhongRo(LyDo::chi_chu("da bat dau in nhung khong xac nhan duoc luc in xong"))],
    );
    assert!(matches!(kq, KetQuaIn::KhongRo(_)), "{:?}", kq);
}

#[test]
fn sumatra_that_bai_va_spooler_loi_ro_rang_thi_tra_loi() {
    let (kq, _) = in_voi(1, 1, vec![KetQuaIn::Loi(LyDo::chi_chu("may in offline tu truoc"))]);
    assert!(matches!(kq, KetQuaIn::Loi(_)), "{:?}", kq);
}

#[test]
fn sumatra_that_bai_nhung_spooler_thay_da_in_thi_tra_da_in() {
    let (kq, _) = in_voi(1, 1, vec![KetQuaIn::DaIn]);
    assert_eq!(kq, KetQuaIn::DaIn);
}

#[test]
fn ban_sau_loi_khi_ban_truoc_da_in_thi_khong_ro_khong_phai_loi() {
    let (kq, n) =
        in_voi(0, 2, vec![KetQuaIn::DaIn, KetQuaIn::Loi(LyDo::co_loai("loi truoc khi in", MaSuCo::HetGiay))]);
    assert_eq!(n, 2);
    assert!(matches!(kq, KetQuaIn::KhongRo(ref l) if l.loai == Some(MaSuCo::HetGiay)), "{:?}", kq);
}

#[test]
fn t9_ban_sau_bi_go_thi_noi_dung_so_ban_da_in() {
    let go = LyDo::co_loai("loi truoc khi in: Hết giấy (da xoa job khoi hang doi Windows)", MaSuCo::HetGiay);
    let (kq, n) = in_voi(0, 3, vec![KetQuaIn::DaIn, KetQuaIn::Loi(go)]);
    assert_eq!(n, 2);
    let KetQuaIn::KhongRo(l) = kq else { panic!("{:?}", kq) };
    assert!(l.chu.starts_with("Đã in 1/3 bản — bản còn lại CHƯA in (đã gỡ khỏi hàng đợi)"), "{}", l.chu);
    assert!(l.chu.starts_with(&chu_thieu_ban(1, 3)));
    assert_eq!((l.loai, l.ban_da_in), (Some(MaSuCo::HetGiay), Some((1, 3))));
    let KetQuaIn::KhongRo(l) = sau_ban_da_in(1, 2, KetQuaIn::Loi(LyDo::co_loai("x", MaSuCo::LoiSumatra))) else {
        panic!()
    };
    assert!(l.chu.starts_with("Đã in 1/2 bản — bản còn lại CHƯA in (chưa gửi xuống máy in)"), "{}", l.chu);
    assert_eq!(sau_ban_da_in(0, 2, KetQuaIn::Loi(LyDo::chi_chu("x"))), KetQuaIn::Loi(LyDo::chi_chu("x")));
    let kr = KetQuaIn::KhongRo(LyDo::co_loai("y", MaSuCo::KetGiay));
    assert_eq!(sau_ban_da_in(1, 2, kr.clone()), kr);
}

#[test]
fn ban_dau_loi_thi_van_loi() {
    let (kq, n) = in_voi(0, 2, vec![KetQuaIn::Loi(LyDo::co_loai("x", MaSuCo::HetGiay))]);
    assert_eq!(n, 1);
    assert!(matches!(kq, KetQuaIn::Loi(_)), "{:?}", kq);
}

#[test]
fn nhieu_ban_deu_in_duoc_thi_da_in() {
    let (kq, n) = in_voi(0, 3, vec![KetQuaIn::DaIn, KetQuaIn::DaIn, KetQuaIn::DaIn]);
    assert_eq!((kq, n), (KetQuaIn::DaIn, 3));
}

#[test]
fn khong_ban_nao_van_in_mot_ban() {
    let (kq, n) = in_voi(0, 0, vec![KetQuaIn::DaIn]);
    assert_eq!((kq, n), (KetQuaIn::DaIn, 1));
}

#[test]
fn sumatra_loi_gan_ma_loi_sumatra_khi_spooler_khong_biet_gi_hon() {
    let (kq, _) = in_voi(1, 1, vec![KetQuaIn::Loi(LyDo::chi_chu("khong co trong hang doi"))]);
    assert!(matches!(kq, KetQuaIn::Loi(ref l) if l.loai == Some(MaSuCo::LoiSumatra)), "{:?}", kq);
    let (kq, _) = in_voi(1, 1, vec![KetQuaIn::Loi(LyDo::co_loai("x", MaSuCo::Offline))]);
    assert!(matches!(kq, KetQuaIn::Loi(ref l) if l.loai == Some(MaSuCo::Offline)), "{:?}", kq);
    let (kq, _) = in_voi(1, 1, vec![KetQuaIn::KhongRo(LyDo::co_loai("het gio", MaSuCo::KhongXacNhan))]);
    assert!(matches!(kq, KetQuaIn::KhongRo(ref l) if l.loai == Some(MaSuCo::LoiSumatra)), "{:?}", kq);
}

#[test]
fn sumatra_khong_chay_duoc_la_loi_chua_gui_gi() {
    let (kq, p) = in_file(PhienGia { loi_mo: true, ..Default::default() }, 1, HAN_SUMATRA_MS);
    assert!(matches!(kq, KetQuaIn::Loi(ref l) if l.loai == Some(MaSuCo::LoiSumatra)), "{:?}", kq);
    assert_eq!(p.so_lan_spooler, 0);
}

#[test]
fn cho_co_han_xong_truoc_han_thi_khong_giet() {
    let mut p = PhienCoVet::moi(PhienGia { xong_o: Some(3), ..Default::default() });
    let kq = cho_co_han(&mut p, 60_000, 200);
    let p = p.tra_lai();
    assert_eq!(kq, KetQuaCho::Xong(KetThuc { thanh_cong: true, ma: Some(0) }));
    assert!(!p.da_giet);
    assert_eq!(p.da_ngu_ms, 400);
}

#[test]
fn cho_co_han_qua_han_thi_giet() {
    let mut p = PhienCoVet::moi(PhienGia::default());
    let kq = cho_co_han(&mut p, 60_000, 200);
    let p = p.tra_lai();
    assert_eq!(kq, KetQuaCho::QuaHan);
    assert!(p.da_giet);
    assert_eq!(p.da_ngu_ms, 60_000);
}

#[test]
fn cho_co_han_khong_hoi_duoc_thi_giet() {
    let mut p = PhienCoVet::moi(PhienGia { loi_hoi: true, ..Default::default() });
    assert!(matches!(cho_co_han(&mut p, HAN_SUMATRA_MS, CHU_KY_CHO_SUMATRA_MS), KetQuaCho::LoiCho(_)));
    assert!(p.tra_lai().da_giet);
}

#[test]
fn sumatra_qua_han_van_hoi_spooler_khong_tu_ket_luan_loi() {
    let spooler = vec![KetQuaIn::KhongRo(LyDo::co_loai("het gio", MaSuCo::KhongXacNhan))];
    let (kq, p) = in_file(PhienGia { spooler, ..Default::default() }, 1, 300);
    assert!(p.da_giet && p.da_ngu_ms < 5_000);
    assert_eq!(p.so_lan_spooler, 1);
    assert!(matches!(kq, KetQuaIn::KhongRo(ref l) if l.loai == Some(MaSuCo::LoiSumatra)), "{:?}", kq);
}

fn tim(hay: &[u8], kim: &[u8]) -> Option<usize> {
    hay.windows(kim.len()).position(|w| w == kim)
}

#[test]
fn pdf_in_thu_hop_le_xref_dung_offset() {
    let pdf = pdf_in_thu();
    assert!(pdf.starts_with(b"%PDF-1.4\n"));
    assert!(pdf.ends_with(b"%%EOF\n"));
    let chu = String::from_utf8(pdf.clone()).unwrap();
    let sx = chu.rfind("startxref\n").unwrap() + "startxref\n".len();
    let xref: usize = chu[sx..].lines().next().unwrap().parse().unwrap();
    assert!(chu[xref..].starts_with("xref\n0 6\n"));
    let dong: Vec<&str> = chu[xref..].lines().skip(2).take(6).collect();
    assert_eq!(dong[0], "0000000000 65535 f ");
    for (i, d) in dong.iter().enumerate().skip(1) {
        assert_eq!(d.len() + 1, 20, "{:?}", d);
        let off: usize = d[..10].parse().unwrap();
        assert!(chu[off..].starts_with(&format!("{} 0 obj\n", i)), "xref #{}: {}", i, off);
    }
    let bd = tim(&pdf, b"stream\n").unwrap() + b"stream\n".len();
    let kt = tim(&pdf, b"\nendstream").unwrap();
    let len_khai: usize = {
        let i = chu.find("/Length ").unwrap() + "/Length ".len();
        chu[i..].split_whitespace().next().unwrap().parse().unwrap()
    };
    assert_eq!(kt - bd, len_khai);
    assert!(chu.contains("/MediaBox [0 0 420 595]"));
}
