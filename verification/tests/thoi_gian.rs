use print_agent::thoi_gian::{epoch_secs_utc, gio_trong_ngay, iso_utc, ngay_utc, ngay_utc_truoc};

#[test]
fn iso_va_ngay() {
    assert_eq!(iso_utc(0), "1970-01-01T00:00:00.000Z");
    assert_eq!(iso_utc(951_782_399_999), "2000-02-28T23:59:59.999Z");
    assert_eq!(iso_utc(951_782_400_000), "2000-02-29T00:00:00.000Z");
    assert_eq!(ngay_utc(951_868_800_000), "2000-03-01");
    assert_eq!(ngay_utc_truoc(951_868_800_000, 1), "2000-02-29");
    assert_eq!(ngay_utc_truoc(86_400_000, 30), "1970-01-01");
}

#[test]
fn gio_phut_giay() {
    assert_eq!(gio_trong_ngay(0), "00:00:00");
    assert_eq!(gio_trong_ngay(1_727_170_000), "09:26:40");
}

#[test]
fn giay_tu_ngay_gio() {
    assert_eq!(epoch_secs_utc(1970, 1, 1, 0, 0, 0), 0);
    assert_eq!(epoch_secs_utc(2024, 9, 24, 9, 26, 40), 1_727_170_000);
    assert_eq!(epoch_secs_utc(2000, 2, 29, 0, 0, 0), 951_782_400);
    assert_eq!(epoch_secs_utc(2000, 0, 1, 0, 0, 0), epoch_secs_utc(1999, 12, 1, 0, 0, 0));
    assert_eq!(epoch_secs_utc(2000, 13, 1, 0, 0, 0), epoch_secs_utc(2001, 1, 1, 0, 0, 0));
    assert_eq!(epoch_secs_utc(0, 0, 0, 0, 0, 0), (-719_468 - 92) * 86_400);
}
