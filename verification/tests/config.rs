use print_agent::config::{ghi_config, parse_config, parse_config_voi, Config, LoiCauHinh, TruongBatBuoc, AGENT_TOKEN};

const DU: &str = "[agent]\nserver_url = https://crm.example.com\ntoken = tok123\norg_id = org1\nprinter_name = HP LaserJet\n";

#[test]
fn parse_day_du_field() {
    let c = parse_config(DU).unwrap();
    assert_eq!(c.server_url, "https://crm.example.com");
    assert_eq!(c.token, "tok123");
    assert_eq!(c.org_id, "org1");
    assert_eq!(c.printer_name, "HP LaserJet");
    assert_eq!(c.tray, "tray-1");
    assert_eq!(c.paper_size, "A5");
}

#[test]
#[allow(non_snake_case)]
fn co_BOM_van_doc_duoc() {
    let voi_bom = format!("\u{feff}{}", DU);
    let c = parse_config(&voi_bom).unwrap();
    assert_eq!(c.token, "tok123");
}

#[test]
fn thieu_section_agent_bao_loi() {
    let e = parse_config("server_url = x\n").unwrap_err();
    assert!(e.chu().contains("[agent]"));
    assert_eq!(e, LoiCauHinh::ThieuSection);
}

#[test]
fn thieu_field_bat_buoc_bao_loi() {
    let e = parse_config("[agent]\ntoken = t\n").unwrap_err();
    assert!(e.chu().contains("server_url"));
    assert_eq!(e, LoiCauHinh::ThieuTruong(TruongBatBuoc::ServerUrl));
}

#[test]
fn tung_truong_bat_buoc_bao_dung_ten() {
    let e = parse_config("[agent]\nserver_url = u\nprinter_name = p\n").unwrap_err();
    assert_eq!(e, LoiCauHinh::ThieuTruong(TruongBatBuoc::OrgId));
    assert_eq!(e.chu(), "config.ini thiếu field bắt buộc: org_id");
    let e = parse_config("[agent]\nserver_url = u\norg_id = o\nprinter_name =  \n").unwrap_err();
    assert_eq!(e, LoiCauHinh::ThieuTruong(TruongBatBuoc::PrinterName));
}

#[test]
fn tray_paper_ghi_de_duoc() {
    let t = format!("{}tray = tray-2\npaper_size = A4\n", DU);
    let c = parse_config(&t).unwrap();
    assert_eq!(c.tray, "tray-2");
    assert_eq!(c.paper_size, "A4");
}

#[test]
fn bo_qua_comment_va_dong_trong() {
    let t = "; comment\n\n[agent]\n# ghi chu\nserver_url = u\ntoken = t\norg_id = o\nprinter_name = p\n";
    let c = parse_config(t).unwrap();
    assert_eq!(c.server_url, "u");
}

#[test]
fn khong_co_token_thi_dung_gia_tri_default() {
    let cfg_text = "[agent]\nserver_url = https://crm.example.com\norg_id = org1\nprinter_name = HP LaserJet\n";
    let c = parse_config(cfg_text).unwrap();
    assert_eq!(c.token, AGENT_TOKEN);
    assert_eq!(c.token, "");
}

#[test]
fn ghi_config_roi_doc_lai_ra_dung_gia_tri() {
    let c = parse_config(DU).unwrap();
    let text = ghi_config(&c);
    let c2 = parse_config(&text).unwrap();
    assert_eq!(c.server_url, c2.server_url);
    assert_eq!(c.org_id, c2.org_id);
    assert_eq!(c.printer_name, c2.printer_name);
    assert_eq!(c.tray, c2.tray);
    assert_eq!(c.paper_size, c2.paper_size);
}

#[test]
fn ghi_config_khong_ghi_token() {
    let c = Config {
        server_url: "u".into(),
        token: "BI-MAT".into(),
        org_id: "o".into(),
        printer_name: "Máy in 1".into(),
        tray: "tray-2".into(),
        paper_size: "A4".into(),
    };
    let text = ghi_config(&c);
    assert!(!text.contains("BI-MAT"));
    let lai = parse_config(&text).unwrap();
    assert_eq!(lai.printer_name, "Máy in 1");
    assert_eq!(lai.token, "");
}

#[test]
fn section_khac_khong_tinh() {
    let t = "[khac]\nserver_url = x\n[agent]\nserver_url = u\norg_id = o\nprinter_name = p\n";
    assert_eq!(parse_config(t).unwrap().server_url, "u");
}

#[test]
fn token_kem_ban_dung_chi_khi_file_khong_co() {
    let co = parse_config_voi(DU, "TOKEN-KEM").unwrap();
    assert_eq!(co.token, parse_config(DU).unwrap().token);
    assert_ne!(co.token, "TOKEN-KEM");
    let khong = "[agent]\nserver_url = u\norg_id = o\nprinter_name = p\n";
    assert_eq!(parse_config_voi(khong, "TOKEN-KEM").unwrap().token, "TOKEN-KEM");
    let rong = "[agent]\nserver_url = u\ntoken =  \norg_id = o\nprinter_name = p\n";
    assert_eq!(parse_config_voi(rong, "TOKEN-KEM").unwrap().token, "TOKEN-KEM");
    assert_eq!(parse_config_voi("x", "TOKEN-KEM").unwrap_err(), LoiCauHinh::ThieuSection);
    let lai = parse_config_voi(&ghi_config(&co), "TOKEN-KEM").unwrap();
    assert_eq!(lai.token, "TOKEN-KEM");
}
