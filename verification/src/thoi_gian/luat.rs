//! The calendar: a date that is written out is the date that was meant.
use crate::chu;
use crate::thoi_gian::{
    chu_nam, giay_cua, gio_chu, iso_chu, nam_cua, nam_nhuan, ngay_chu, ngay_den_nam, ngay_den_thang, so_ngay_nam, so_ngay_thang,
    thang_cua,
};
use vstd::prelude::*;
use vstd::string::*;

verus! {

/// The lengths of the months and years: 366 days exactly in years that four divides, but of those that a hundred
/// divides only the ones that four hundred divides; the months add up to the year.
pub proof fn lich_gregory(nam: int)
    ensures
        nam_nhuan(nam) <==> nam % 400 == 0 || (nam % 4 == 0 && nam % 100 != 0),
        so_ngay_nam(nam) == 366 <==> nam_nhuan(nam),
        so_ngay_nam(nam) == 365 <==> !nam_nhuan(nam),
        so_ngay_thang(nam, 1) == 31 && so_ngay_thang(nam, 3) == 31 && so_ngay_thang(nam, 5) == 31 && so_ngay_thang(nam, 7) == 31,
        so_ngay_thang(nam, 8) == 31 && so_ngay_thang(nam, 10) == 31 && so_ngay_thang(nam, 12) == 31,
        so_ngay_thang(nam, 4) == 30 && so_ngay_thang(nam, 6) == 30 && so_ngay_thang(nam, 9) == 30 && so_ngay_thang(nam, 11) == 30,
        so_ngay_thang(nam, 2) == so_ngay_nam(nam) - 337,
        ngay_den_thang(nam, 13) == so_ngay_nam(nam),
{
    reveal_with_fuel(ngay_den_thang, 14);
}

proof fn ngay_den_nam_tang(a: int, b: int)
    requires
        1970 <= a <= b,
    ensures
        ngay_den_nam(a) <= ngay_den_nam(b),
        a < b ==> ngay_den_nam(a) + so_ngay_nam(a) <= ngay_den_nam(b),
    decreases b - a,
{
    if a < b {
        ngay_den_nam_tang(a, b - 1);
    }
}

proof fn nam_cua_la(nam: int, r: int, tu: int)
    requires
        1970 <= tu <= nam,
        0 <= r < so_ngay_nam(nam),
    ensures
        nam_cua(ngay_den_nam(nam) - ngay_den_nam(tu) + r, tu) == (nam, r),
    decreases nam - tu,
{
    ngay_den_nam_tang(tu, nam);
    if tu < nam {
        nam_cua_la(nam, r, tu + 1);
    }
}

proof fn thang_cua_la(nam: int, thang: int, r: int, tu: int)
    requires
        1 <= tu <= thang <= 12,
        0 <= r < so_ngay_thang(nam, thang),
    ensures
        thang_cua(nam, ngay_den_thang(nam, thang) - ngay_den_thang(nam, tu) + r, tu) == (thang, r),
    decreases thang - tu,
{
    reveal_with_fuel(ngay_den_thang, 13);
    if tu < thang {
        thang_cua_la(nam, thang, r, tu + 1);
        assert(ngay_den_thang(nam, thang) - ngay_den_thang(nam, tu) >= so_ngay_thang(nam, tu));
    }
}

/// The day of a date, counted from 1970-01-01.
pub open spec fn so_ngay_den(nam: int, thang: int, ngay: int) -> int {
    ngay_den_nam(nam) + ngay_den_thang(nam, thang) + ngay - 1
}

/// The day of a date is written as that date.
pub proof fn ngay_viet_dung(nam: int, thang: int, ngay: int)
    requires
        1970 <= nam,
        1 <= thang <= 12,
        1 <= ngay <= so_ngay_thang(nam, thang),
    ensures
        ngay_chu(so_ngay_den(nam, thang, ngay)) == chu_nam(nam) + "-"@ + chu::chu_so_cuoi(thang as nat, 10, 2) + "-"@
            + chu::chu_so_cuoi(ngay as nat, 10, 2),
        nam <= 9999 ==> chu_nam(nam) == chu::chu_so_cuoi(nam as nat, 10, 4),
        nam > 9999 ==> chu_nam(nam) == chu::thap_phan(nam as nat),
{
    reveal_with_fuel(ngay_den_thang, 14);
    let r = ngay_den_thang(nam, thang) + ngay - 1;
    assert(0 <= r < so_ngay_nam(nam));
    nam_cua_la(nam, r, 1970);
    thang_cua_la(nam, thang, ngay - 1, 1);
}

/// A point in time is written as its date, hour, minute, second and millisecond in UTC.
pub proof fn iso_viet_dung(nam: int, thang: int, ngay: int, gio: int, phut: int, giay: int, ms: int)
    requires
        1970 <= nam,
        1 <= thang <= 12,
        1 <= ngay <= so_ngay_thang(nam, thang),
        0 <= gio < 24,
        0 <= phut < 60,
        0 <= giay < 60,
        0 <= ms < 1000,
    ensures
        iso_chu(giay_cua(nam, thang, ngay, gio, phut, giay) * 1000 + ms) == chu_nam(nam) + "-"@ + chu::chu_so_cuoi(
            thang as nat,
            10,
            2,
        ) + "-"@ + chu::chu_so_cuoi(ngay as nat, 10, 2) + "T"@ + chu::chu_so_cuoi(gio as nat, 10, 2) + ":"@ + chu::chu_so_cuoi(
            phut as nat,
            10,
            2,
        ) + ":"@ + chu::chu_so_cuoi(giay as nat, 10, 2) + "."@ + chu::chu_so_cuoi(ms as nat, 10, 3) + "Z"@,
{
    crate::thoi_gian::chuan_thang_la_chinh_no(nam, thang);
    ngay_viet_dung(nam, thang, ngay);
    let d = so_ngay_den(nam, thang, ngay);
    let t = gio * 3_600_000 + phut * 60_000 + giay * 1000 + ms;
    let x = giay_cua(nam, thang, ngay, gio, phut, giay) * 1000 + ms;
    assert(x == d * 86_400_000 + t);
    assert(0 <= t < 86_400_000);
    assert(x / 86_400_000 == d && x % 86_400_000 == t);
    assert(t / 3_600_000 == gio);
    assert(t / 60_000 == gio * 60 + phut);
    assert(t / 60_000 % 60 == phut);
    assert(t / 1000 == (gio * 60 + phut) * 60 + giay);
    assert(t / 1000 % 60 == giay);
    assert(t % 1000 == ms);
}

/// The time of day is written as its hour, minute and second, whatever the day.
pub proof fn gio_viet_dung(ngay: int, gio: int, phut: int, giay: int)
    requires
        0 <= ngay,
        0 <= gio < 24,
        0 <= phut < 60,
        0 <= giay < 60,
    ensures
        gio_chu(ngay * 86400 + gio * 3600 + phut * 60 + giay) == chu::chu_so_cuoi(gio as nat, 10, 2) + ":"@ + chu::chu_so_cuoi(
            phut as nat,
            10,
            2,
        ) + ":"@ + chu::chu_so_cuoi(giay as nat, 10, 2),
{
    let t = gio * 3600 + phut * 60 + giay;
    let x = ngay * 86400 + gio * 3600 + phut * 60 + giay;
    assert(x % 86400 == t);
    assert(t / 3600 == gio);
    assert(t % 3600 == phut * 60 + giay);
    assert((t % 3600) / 60 == phut);
    assert(t % 60 == giay);
}

} // verus!
