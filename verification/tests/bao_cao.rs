use print_agent::bao_cao::{
    doc_cau_hinh, doc_ket_qua_huy, su_co, thong_tin_app, trang_thai_may_in, BoLocSuCo, HoTro, KetQuaHuy, PHIEN_BAN,
};
use print_agent::config::Config;
use print_agent::gia_tri::GiaTri;
use print_agent::su_co::MaSuCo;

fn chu(s: &str) -> GiaTri {
    GiaTri::Chuoi(s.to_string())
}

fn doi_tuong(ds: Vec<(&str, GiaTri)>) -> GiaTri {
    GiaTri::DoiTuong(ds.into_iter().map(|(k, v)| (k.to_string(), v)).collect())
}

fn ho_tro(ds: Vec<GiaTri>) -> GiaTri {
    doi_tuong(vec![("hoTro", GiaTri::Mang(ds))])
}

/// The fields of an object in the order of their names.
fn cac_truong(g: &GiaTri) -> Vec<(String, String)> {
    match g {
        GiaTri::DoiTuong(v) => {
            let mut ds: Vec<(String, String)> = v
                .iter()
                .map(|(k, x)| match x {
                    GiaTri::Chuoi(s) => (k.clone(), s.clone()),
                    _ => panic!("not a text: {:?}", x),
                })
                .collect();
            ds.sort();
            ds
        }
        _ => panic!("not an object: {:?}", g),
    }
}

fn mong(ds: &[(&str, &str)]) -> Vec<(String, String)> {
    let mut v: Vec<(String, String)> = ds.iter().map(|(k, x)| (k.to_string(), x.to_string())).collect();
    v.sort();
    v
}

#[test]
fn cau_hinh_du_ba_tinh_nang() {
    assert!(doc_cau_hinh(&ho_tro(vec![chu("nhat_ky_app")])).nhat_ky_app);
    assert!(!doc_cau_hinh(&ho_tro(vec![chu("su_co")])).nhat_ky_app);
    let h = doc_cau_hinh(&ho_tro(vec![chu("khong_ro"), chu("su_co"), chu("trang_thai_may_in")]));
    assert_eq!(
        h,
        HoTro { khong_ro: true, su_co: true, trang_thai_may_in: true, nhat_ky_app: false, hang_doi: false }
    );
}

#[test]
fn cau_hinh_mot_phan_va_muc_la_bo_qua() {
    let h = doc_cau_hinh(&ho_tro(vec![chu("su_co"), chu("tinh_nang_tuong_lai"), GiaTri::So(42)]));
    assert_eq!(
        h,
        HoTro { khong_ro: false, su_co: true, trang_thai_may_in: false, nhat_ky_app: false, hang_doi: false }
    );
}

#[test]
fn cau_hinh_hong_thi_khong_ho_tro_gi() {
    for p in [
        GiaTri::Rong,
        doi_tuong(vec![]),
        doi_tuong(vec![("hoTro", chu("khong_ro"))]),
        GiaTri::Mang(vec![chu("khong_ro")]),
    ] {
        assert_eq!(doc_cau_hinh(&p), HoTro::default(), "{:?}", p);
    }
}

#[test]
fn cau_hinh_bao_hang_doi() {
    assert!(doc_cau_hinh(&ho_tro(vec![chu("hang_doi")])).hang_doi);
}

#[test]
fn payload_su_co_dung_hop_dong() {
    let luc = 1_727_170_000 * 1000;
    let v = su_co("tok-1-2", MaSuCo::HetGiay, Some("JOB_STATUS PAPEROUT (0x00000040)"), "HP 4003", luc);
    assert_eq!(
        cac_truong(&v),
        mong(&[
            ("jobId", "tok-1-2"),
            ("loai", "het_giay"),
            ("chiTiet", "JOB_STATUS PAPEROUT (0x00000040)"),
            ("mayIn", "HP 4003"),
            ("luc", "2024-09-24T09:26:40.000Z"),
        ])
    );
    let v = su_co("j", MaSuCo::Offline, None, "HP", luc);
    assert!(v.truong("chiTiet").is_none(), "chiTiet is left out where there is none");
}

#[test]
fn payload_trang_thai_may_in_dung_hop_dong() {
    let v = trang_thai_may_in(MaSuCo::BinhThuong, None, "HP", 0);
    assert_eq!(
        cac_truong(&v),
        mong(&[("trangThai", "binh_thuong"), ("mayIn", "HP"), ("luc", "1970-01-01T00:00:00.000Z")])
    );
}

#[test]
fn thong_tin_app_khong_co_token() {
    let cfg = Config {
        server_url: "u".into(),
        token: "BI-MAT-TOKEN".into(),
        org_id: "o".into(),
        printer_name: "HP 4003".into(),
        tray: "tray-2".into(),
        paper_size: "A5".into(),
    };
    let v = thong_tin_app(&cfg, "SHOP-HN");
    assert_eq!(v.chuoi("phienBan"), Some(PHIEN_BAN));
    assert_eq!(v.chuoi("phienBan"), Some("0.2.5"));
    assert_eq!(v.chuoi("mayIn"), Some("HP 4003"));
    assert_eq!(v.chuoi("khay"), Some("tray-2"));
    assert_eq!(v.chuoi("khoGiay"), Some("A5"));
    assert_eq!(v.chuoi("may"), Some("SHOP-HN"));
    assert!(!format!("{:?}", v).contains("BI-MAT-TOKEN"));
}

#[test]
fn bo_loc_su_co_moi_loai_mot_lan() {
    let mut b = BoLocSuCo::default();
    assert!(b.lan_dau(MaSuCo::HetGiay));
    assert!(!b.lan_dau(MaSuCo::HetGiay));
    assert!(b.lan_dau(MaSuCo::Offline), "another kind is still sent");
    assert!(!b.lan_dau(MaSuCo::HetGiay));
}

#[test]
fn ket_qua_huy_can_id_va_ok() {
    let du = doi_tuong(vec![
        ("id", chu("p1")),
        ("ok", GiaTri::Bool(true)),
        ("cach", chu("thu_hoi")),
        ("noiDung", chu("xong")),
    ]);
    assert_eq!(
        doc_ket_qua_huy(&du),
        Some(KetQuaHuy {
            id: "p1".into(),
            ok: true,
            cach: "thu_hoi".into(),
            loi: "".into(),
            noi_dung: "xong".into(),
        })
    );
    assert_eq!(doc_ket_qua_huy(&doi_tuong(vec![("ok", GiaTri::Bool(true))])), None);
    assert_eq!(doc_ket_qua_huy(&doi_tuong(vec![("id", chu("p1"))])), None);
    assert_eq!(doc_ket_qua_huy(&doi_tuong(vec![("id", chu("p1")), ("ok", chu("true"))])), None);
    assert_eq!(doc_ket_qua_huy(&GiaTri::Rong), None);
}
