//! Points in time as text.
use crate::chu;
use vstd::prelude::*;
use vstd::string::*;

pub mod luat;

verus! {

pub open spec fn nam_nhuan(nam: int) -> bool {
    nam % 4 == 0 && (nam % 100 != 0 || nam % 400 == 0)
}

pub open spec fn so_ngay_nam(nam: int) -> int {
    if nam_nhuan(nam) {
        366
    } else {
        365
    }
}

pub open spec fn so_ngay_thang(nam: int, thang: int) -> int {
    if thang == 2 {
        if nam_nhuan(nam) {
            29
        } else {
            28
        }
    } else if thang == 4 || thang == 6 || thang == 9 || thang == 11 {
        30
    } else {
        31
    }
}

/// The year in which day `ngay`, counted from the start of year `tu`, falls, and the day in that
/// year, counted from zero.
pub open spec fn nam_cua(ngay: int, tu: int) -> (int, int)
    decreases ngay,
{
    if ngay < so_ngay_nam(tu) {
        (tu, ngay)
    } else {
        nam_cua(ngay - so_ngay_nam(tu), tu + 1)
    }
}

/// The month in which day `ngay` of the year, counted from the start of month `tu`, falls, and the
/// day in that month, counted from zero.
pub open spec fn thang_cua(nam: int, ngay: int, tu: int) -> (int, int)
    decreases 12 - tu,
{
    if tu >= 12 || ngay < so_ngay_thang(nam, tu) {
        (tu, ngay)
    } else {
        thang_cua(nam, ngay - so_ngay_thang(nam, tu), tu + 1)
    }
}

fn nhuan(nam: u64) -> (r: bool)
    ensures
        r == nam_nhuan(nam as int),
{
    nam % 4 == 0 && (nam % 100 != 0 || nam % 400 == 0)
}

/// A year in at least four digits.
pub open spec fn chu_nam(nam: int) -> Seq<char> {
    if nam < 10000 {
        chu::chu_so_cuoi(nam as nat, 10, 4)
    } else {
        chu::thap_phan(nam as nat)
    }
}

/// The date of day `ngay`, counted from 1970-01-01, such as "2026-09-25".
pub open spec fn ngay_chu(ngay: int) -> Seq<char> {
    let n = nam_cua(ngay, 1970);
    let t = thang_cua(n.0, n.1, 1);
    chu_nam(n.0) + "-"@ + chu::chu_so_cuoi(t.0 as nat, 10, 2) + "-"@ + chu::chu_so_cuoi((t.1 + 1) as nat, 10, 2)
}

/// A point in time, given in milliseconds since 1970-01-01 00:00 UTC, in the form
/// "2026-09-25T10:26:06.328Z".
pub open spec fn iso_chu(ms: int) -> Seq<char> {
    let trong_ngay = ms % 86_400_000;
    ngay_chu(ms / 86_400_000) + "T"@ + chu::chu_so_cuoi((trong_ngay / 3_600_000) as nat, 10, 2) + ":"@
        + chu::chu_so_cuoi((trong_ngay / 60_000 % 60) as nat, 10, 2) + ":"@ + chu::chu_so_cuoi(
        (trong_ngay / 1000 % 60) as nat,
        10,
        2,
    ) + "."@ + chu::chu_so_cuoi((trong_ngay % 1000) as nat, 10, 3) + "Z"@
}

/// The day that holds a point in time given in milliseconds since 1970-01-01 00:00 UTC.
pub fn ngay_utc(ms: u64) -> (r: String)
    ensures
        r@ == ngay_chu(ms as int / 86_400_000),
{
    let ghost goc = ms as int / 86_400_000;
    let mut ngay: u64 = ms / 86_400_000;
    let mut nam: u64 = 1970;
    let tran: u64 = ngay + 1970;
    loop
        invariant
            1970 <= nam,
            nam + ngay <= tran,
            tran <= 300_000_000_000,
            nam_cua(goc, 1970) == nam_cua(ngay as int, nam as int),
        ensures
            nam_cua(goc, 1970) == (nam as int, ngay as int),
            ngay < 366,
        decreases ngay,
    {
        let dai: u64 = if nhuan(nam) {
            366
        } else {
            365
        };
        if ngay < dai {
            break;
        }
        ngay = ngay - dai;
        nam = nam + 1;
    }
    let ghost trong_nam = ngay as int;
    let mut thang: u64 = 1;
    loop
        invariant
            1 <= thang <= 12,
            ngay < 366,
            thang_cua(nam as int, trong_nam, 1) == thang_cua(nam as int, ngay as int, thang as int),
        ensures
            thang_cua(nam as int, trong_nam, 1) == (thang as int, ngay as int),
            ngay < 366,
        decreases 12 - thang,
    {
        let dai: u64 = if thang == 2 {
            if nhuan(nam) {
                29
            } else {
                28
            }
        } else if thang == 4 || thang == 6 || thang == 9 || thang == 11 {
            30
        } else {
            31
        };
        if thang >= 12 || ngay < dai {
            break;
        }
        ngay = ngay - dai;
        thang = thang + 1;
    }
    let mut s = if nam < 10000 {
        chu::so_co_dinh(nam, 10, 4)
    } else {
        chu::so_thap_phan(nam)
    };
    s.append("-");
    s.append(chu::so_co_dinh(thang, 10, 2).as_str());
    s.append("-");
    s.append(chu::so_co_dinh(ngay + 1, 10, 2).as_str());
    s
}

/// A point in time, given in milliseconds since 1970-01-01 00:00 UTC, in the form
/// "2026-09-25T10:26:06.328Z".
pub fn iso_utc(ms: u64) -> (r: String)
    ensures
        r@ == iso_chu(ms as int),
{
    let trong_ngay: u64 = ms % 86_400_000;
    let mut s = ngay_utc(ms);
    s.append("T");
    s.append(chu::so_co_dinh(trong_ngay / 3_600_000, 10, 2).as_str());
    s.append(":");
    s.append(chu::so_co_dinh(trong_ngay / 60_000 % 60, 10, 2).as_str());
    s.append(":");
    s.append(chu::so_co_dinh(trong_ngay / 1000 % 60, 10, 2).as_str());
    s.append(".");
    s.append(chu::so_co_dinh(trong_ngay % 1000, 10, 3).as_str());
    s.append("Z");
    s
}

/// Days from 1970-01-01 to the first of January of a year; negative before 1970.
pub open spec fn ngay_den_nam(nam: int) -> int
    decreases if nam >= 1970 { nam - 1970 } else { 1970 - nam },
{
    if nam == 1970 {
        0
    } else if nam > 1970 {
        ngay_den_nam(nam - 1) + so_ngay_nam(nam - 1)
    } else {
        ngay_den_nam(nam + 1) - so_ngay_nam(nam)
    }
}

/// Days from the first of January to the first of a month.
pub open spec fn ngay_den_thang(nam: int, thang: int) -> int
    decreases thang,
{
    if thang <= 1 {
        0
    } else {
        ngay_den_thang(nam, thang - 1) + so_ngay_thang(nam, thang - 1)
    }
}

/// The year and the month from 1 to 12 that a year and a month number stand for. Number 0 is December of
/// the year before and number 13 January of the next; higher numbers go round the months from March on.
pub open spec fn chuan_thang(nam: int, thang: int) -> (int, int) {
    let tu_thang_ba = (thang + 9) % 12;
    let nam_ba = if thang <= 2 {
        nam - 1
    } else {
        nam
    };
    if tu_thang_ba < 10 {
        (nam_ba, tu_thang_ba + 3)
    } else {
        (nam_ba + 1, tu_thang_ba - 9)
    }
}

/// A month from 1 to 12 stands for itself.
pub proof fn chuan_thang_la_chinh_no(nam: int, thang: int)
    requires
        1 <= thang <= 12,
    ensures
        chuan_thang(nam, thang) == (nam, thang),
{
}

/// Seconds from 1970-01-01 00:00 UTC to a date and time.
pub open spec fn giay_cua(nam: int, thang: int, ngay: int, gio: int, phut: int, giay: int) -> int {
    let c = chuan_thang(nam, thang);
    (ngay_den_nam(c.0) + ngay_den_thang(c.0, c.1) + ngay - 1) * 86400 + gio * 3600 + phut * 60 + giay
}

fn nhuan_i(nam: i64) -> (r: bool)
    requires
        -1 <= nam <= 65536,
    ensures
        r == nam_nhuan(nam as int),
{
    nhuan((nam + 400) as u64)
}

/// Seconds from 1970-01-01 00:00 UTC to a date and time in UTC, as the spooler gives them.
pub fn epoch_secs_utc(nam: u16, thang: u16, ngay: u16, gio: u16, phut: u16, giay: u16) -> (r: i64)
    ensures
        r as int == giay_cua(nam as int, thang as int, ngay as int, gio as int, phut as int, giay as int),
{
    let tu_thang_ba: u32 = (thang as u32 + 9) % 12;
    let nam_ba: i64 = if thang <= 2 {
        nam as i64 - 1
    } else {
        nam as i64
    };
    let (dich, thang_dich): (i64, u32) = if tu_thang_ba < 10 {
        (nam_ba, tu_thang_ba + 3)
    } else {
        (nam_ba + 1, tu_thang_ba - 9)
    };
    let mut ngay_nam: i64 = 0;
    let mut y: i64 = 1970;
    while y < dich
        invariant
            1970 <= y,
            dich <= 65536,
            y <= dich || y == 1970,
            ngay_nam == ngay_den_nam(y as int),
            0 <= ngay_nam <= (y - 1970) * 366,
        decreases dich - y,
    {
        ngay_nam = ngay_nam + if nhuan_i(y) {
            366
        } else {
            365
        };
        y = y + 1;
    }
    while y > dich
        invariant
            -1 <= dich <= y,
            y <= 65536,
            y <= 1970 || y == dich,
            ngay_nam == ngay_den_nam(y as int),
            -(65536 - y) * 366 <= ngay_nam <= (65536 - 1970) * 366,
        decreases y - dich,
    {
        y = y - 1;
        ngay_nam = ngay_nam - if nhuan_i(y) {
            366
        } else {
            365
        };
    }
    let mut ngay_thang: i64 = 0;
    let mut m: u32 = 1;
    while m < thang_dich
        invariant
            1 <= m <= thang_dich <= 12,
            -1 <= dich <= 65536,
            y == dich,
            ngay_thang == ngay_den_thang(dich as int, m as int),
            0 <= ngay_thang <= (m - 1) * 31,
        decreases thang_dich - m,
    {
        ngay_thang = ngay_thang + if m == 2 {
            if nhuan_i(y) {
                29
            } else {
                28
            }
        } else if m == 4 || m == 6 || m == 9 || m == 11 {
            30
        } else {
            31
        };
        m = m + 1;
    }
    (ngay_nam + ngay_thang + ngay as i64 - 1) * 86400 + gio as i64 * 3600 + phut as i64 * 60 + giay as i64
}

/// The day so many days before a point in time; the first day of 1970 where that lies further back.
pub fn ngay_utc_truoc(ms: u64, so_ngay: u64) -> (r: String)
    ensures
        r@ == ngay_chu(
            if ms as int / 86_400_000 >= so_ngay {
                ms as int / 86_400_000 - so_ngay
            } else {
                0
            },
        ),
{
    let ngay: u64 = ms / 86_400_000;
    if ngay >= so_ngay {
        let truoc: u64 = (ngay - so_ngay) * 86_400_000;
        assert(truoc as int / 86_400_000 == ngay - so_ngay) by (nonlinear_arith)
            requires
                truoc == (ngay - so_ngay) * 86_400_000,
        ;
        ngay_utc(truoc)
    } else {
        ngay_utc(0)
    }
}

/// The time of day as the screen shows it, such as "07:05:09".
pub open spec fn gio_chu(giay: int) -> Seq<char> {
    let t = giay % 86400;
    chu::chu_so_cuoi((t / 3600) as nat, 10, 2) + ":"@ + chu::chu_so_cuoi((t % 3600 / 60) as nat, 10, 2) + ":"@
        + chu::chu_so_cuoi((t % 60) as nat, 10, 2)
}

/// The time of day of a number of seconds since midnight of some day.
pub fn gio_trong_ngay(giay: u64) -> (r: String)
    ensures
        r@ == gio_chu(giay as int),
{
    let t: u64 = giay % 86400;
    let mut s = chu::so_co_dinh(t / 3600, 10, 2);
    s.append(":");
    s.append(chu::so_co_dinh(t % 3600 / 60, 10, 2).as_str());
    s.append(":");
    s.append(chu::so_co_dinh(t % 60, 10, 2).as_str());
    s
}

/// The year, month and day that a number of days since 1970-01-01 falls on are those whose distance from
/// 1970-01-01 is that number.
pub proof fn ngay_dung_lich(ngay: int)
    requires
        0 <= ngay,
    ensures
        ({
            let n = nam_cua(ngay, 1970);
            let t = thang_cua(n.0, n.1, 1);
            &&& n.0 >= 1970
            &&& 1 <= t.0 <= 12
            &&& 0 <= t.1 < so_ngay_thang(n.0, t.0)
            &&& ngay_den_nam(n.0) + ngay_den_thang(n.0, t.0) + t.1 == ngay
        }),
{
    nam_dung(ngay, 1970);
    let n = nam_cua(ngay, 1970);
    thang_dung(n.0, n.1, 1);
}

proof fn nam_dung(ngay: int, tu: int)
    requires
        0 <= ngay,
        tu >= 1970,
    ensures
        ({
            let n = nam_cua(ngay, tu);
            n.0 >= tu && 0 <= n.1 < so_ngay_nam(n.0) && ngay_den_nam(n.0) + n.1 == ngay_den_nam(tu) + ngay
        }),
    decreases ngay,
{
    if ngay >= so_ngay_nam(tu) {
        nam_dung(ngay - so_ngay_nam(tu), tu + 1);
    }
}

proof fn thang_dung(nam: int, ngay: int, tu: int)
    requires
        1 <= tu <= 12,
        0 <= ngay,
        ngay_den_thang(nam, tu) + ngay < so_ngay_nam(nam),
    ensures
        ({
            let t = thang_cua(nam, ngay, tu);
            tu <= t.0 <= 12 && 0 <= t.1 < so_ngay_thang(nam, t.0) && ngay_den_thang(nam, t.0) + t.1 == ngay_den_thang(
                nam,
                tu,
            ) + ngay
        }),
    decreases 12 - tu,
{
    reveal_with_fuel(ngay_den_thang, 13);
    if tu < 12 && ngay >= so_ngay_thang(nam, tu) {
        thang_dung(nam, ngay - so_ngay_thang(nam, tu), tu + 1);
    }
}

} // verus!
