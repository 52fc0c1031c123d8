//! What an order of several copies comes to, told by what was exchanged alone.
use crate::job::KetQuaInV;
use crate::printing::{
    ban_cuoi, ca_lenh_in_dung, cho_dung, in_dung, ket_qua_ban, loi_sumatra, mot_ban_dung, so_ban, BuocIn,
    KetQuaChoV, LenhFileV, CHU_KY_CHO_SUMATRA_MS,
};
use crate::su_co::MaSuCo;
use vstd::prelude::*;

verus! {

/// How often the spooler was asked.
pub open spec fn so_lan_hoi(l: Seq<BuocIn>) -> nat
    decreases l.len(),
{
    if l.len() == 0 {
        0
    } else {
        so_lan_hoi(l.drop_last()) + (if l.last() is HoiSpooler {
            1nat
        } else {
            0nat
        })
    }
}

/// The program went wrong: it ended badly, or was killed.
pub open spec fn sumatra_hong(b: BuocIn) -> bool {
    b is Giet || (b matches BuocIn::ThuCho(r) && (r matches Ok(Some(k)) && !k.thanh_cong))
}

proof fn so_lan_hoi_noi(a: Seq<BuocIn>, b: Seq<BuocIn>)
    ensures
        so_lan_hoi(a + b) == so_lan_hoi(a) + so_lan_hoi(b),
    decreases b.len(),
{
    if b.len() == 0 {
        assert(a + b =~= a);
    } else {
        assert((a + b).drop_last() =~= a + b.drop_last());
        assert((a + b).last() == b.last());
        so_lan_hoi_noi(a, b.drop_last());
    }
}

proof fn khong_hoi(l: Seq<BuocIn>)
    requires
        forall|k: int| 0 <= k < l.len() ==> !(#[trigger] l[k] is HoiSpooler),
    ensures
        so_lan_hoi(l) == 0,
    decreases l.len(),
{
    if l.len() > 0 {
        assert(!(l[l.len() - 1] is HoiSpooler));
        let d = l.drop_last();
        assert forall|k: int| 0 <= k < d.len() implies !(#[trigger] d[k] is HoiSpooler) by {
            assert(d[k] == l[k]);
        }
        khong_hoi(d);
    }
}

/// Waiting for the program starts nothing and asks the spooler nothing; it ends well exactly where the
/// program ended well by itself and was not killed.
proof fn cho_nghia(da_cho: int, han: u64, chu_ky: u64, l: Seq<BuocIn>, kq: KetQuaChoV)
    requires
        cho_dung(da_cho, han, chu_ky, l, kq),
    ensures
        l.len() > 0,
        forall|k: int| 0 <= k < l.len() ==> !(#[trigger] l[k] is HoiSpooler) && !(l[k] is Mo),
        (kq matches KetQuaChoV::Xong(k) && k.thanh_cong) <==> forall|i: int|
            0 <= i < l.len() ==> !sumatra_hong(#[trigger] l[i]),
    decreases l.len(),
{
    if l[0] matches BuocIn::ThuCho(Ok(None)) && da_cho < han {
        let d = l.subrange(2, l.len() as int);
        cho_nghia(da_cho + chu_ky, han, chu_ky, d, kq);
        assert forall|k: int| 0 <= k < l.len() implies !(#[trigger] l[k] is HoiSpooler) && !(l[k] is Mo) by {
            if k >= 2 {
                assert(d[k - 2] == l[k]);
            }
        }
        if forall|i: int| 0 <= i < d.len() ==> !sumatra_hong(#[trigger] d[i]) {
            assert forall|i: int| 0 <= i < l.len() implies !sumatra_hong(#[trigger] l[i]) by {
                if i >= 2 {
                    assert(d[i - 2] == l[i]);
                }
            }
        } else {
            let i = choose|i: int| 0 <= i < d.len() && sumatra_hong(#[trigger] d[i]);
            assert(l[i + 2] == d[i]);
            assert(sumatra_hong(l[i + 2]));
        }
    } else {
        assert(l.len() == 1 || sumatra_hong(l[1]));
        assert(l.len() == 1 ==> sumatra_hong(l[0]) == (kq matches KetQuaChoV::Xong(k) && !k.thanh_cong));
    }
}

/// One copy whose program was started: the spooler is asked once, at the end, for this order's job on this
/// order's printer, and the program ended well exactly where nothing of it went wrong.
proof fn ban_nghia(c: LenhFileV, t0: i64, b: Seq<BuocIn>, m: int, cho: KetQuaChoV, loi_ra: Seq<char>, sp: KetQuaInV)
    requires
        mot_ban_dung(c, t0, b, m, cho, loi_ra, sp),
    ensures
        b.len() > 0,
        b.last() == BuocIn::HoiSpooler(c.printer, c.job_id, t0, sp),
        so_lan_hoi(b) == 1,
        forall|k: int| 0 <= k < b.len() - 1 ==> !(#[trigger] b[k] is HoiSpooler),
        forall|k: int| 0 <= k < b.len() ==> !(#[trigger] b[k] is Mo),
        loi_sumatra(cho, loi_ra, c.han_ms) is None <==> forall|i: int| 0 <= i < b.len() ==> !sumatra_hong(#[trigger] b[i]),
{
    let w = b.subrange(0, m);
    cho_nghia(0, c.han_ms, CHU_KY_CHO_SUMATRA_MS, w, cho);
    assert forall|k: int| 0 <= k < b.len() - 1 implies !(#[trigger] b[k] is HoiSpooler) && !(b[k] is Mo) by {
        if k < m {
            assert(w[k] == b[k]);
        }
    }
    let d = b.drop_last();
    assert forall|k: int| 0 <= k < d.len() implies !(#[trigger] d[k] is HoiSpooler) by {
        assert(d[k] == b[k]);
    }
    khong_hoi(d);
    if forall|i: int| 0 <= i < w.len() ==> !sumatra_hong(#[trigger] w[i]) {
        assert forall|i: int| 0 <= i < b.len() implies !sumatra_hong(#[trigger] b[i]) by {
            if i < m {
                assert(w[i] == b[i]);
            }
        }
    } else {
        let i = choose|i: int| 0 <= i < w.len() && sumatra_hong(#[trigger] w[i]);
        assert(sumatra_hong(b[i]));
    }
}

/// The exchanges from copy `lan` on, and what they come to:
/// - the spooler is asked of each copy in turn, of this order's job on this printer, and only after a copy
///   that it said was printed does another follow;
/// - the program is always started with the same arguments;
/// - printed is the outcome exactly where the spooler said so of the last copy that was tried, and that was
///   the last of the order unless the program went wrong on it;
/// - a copy that did not print after others did leaves the order open, with how many of how many came out;
/// - an open copy leaves the order open.
pub proof fn ket_qua_nhieu_ban(c: LenhFileV, t0: i64, lan: u32, l: Seq<BuocIn>, kq: KetQuaInV)
    requires
        in_dung(c, t0, lan, l, kq),
        lan < so_ban(c.copies),
    ensures
        l.len() > 0,
        forall|k: int| 0 <= k < l.len() - 1 ==> (#[trigger] l[k] matches BuocIn::HoiSpooler(p, j, t, r) ==> r is DaIn),
        forall|k: int|
            0 <= k < l.len() ==> (#[trigger] l[k] matches BuocIn::HoiSpooler(p, j, t, r) ==> p == c.printer && j == c.job_id && t
                == t0),
        forall|k: int| 0 <= k < l.len() ==> (#[trigger] l[k] matches BuocIn::Mo(a, r) ==> a == c.argv()),
        kq is DaIn <==> (l.last() matches BuocIn::HoiSpooler(p, j, t, r) && r is DaIn),
        kq is DaIn && (forall|k: int| 0 <= k < l.len() ==> !sumatra_hong(#[trigger] l[k])) ==> lan + so_lan_hoi(l)
            == so_ban(c.copies),
        lan + so_lan_hoi(l) <= so_ban(c.copies),
        l.last() matches BuocIn::HoiSpooler(p, j, t, KetQuaInV::Loi(x)) ==> {
            let da_in = lan + so_lan_hoi(l) - 1;
            &&& da_in > 0 ==> (kq matches KetQuaInV::KhongRo(y) && y.ban_da_in == Some((da_in as u32, so_ban(c.copies))))
            &&& da_in == 0 ==> (kq matches KetQuaInV::Loi(y))
            &&& x.loai is Some ==> (match kq {
                KetQuaInV::KhongRo(y) => y.loai == x.loai,
                KetQuaInV::Loi(y) => y.loai == x.loai,
                KetQuaInV::DaIn => false,
            })
        },
        l.last() matches BuocIn::Mo(a, Err(e)) ==> {
            let da_in = lan + so_lan_hoi(l);
            &&& da_in > 0 ==> (kq matches KetQuaInV::KhongRo(y) && y.ban_da_in == Some((da_in as u32, so_ban(c.copies)))
                && y.loai == Some(MaSuCo::LoiSumatra))
            &&& da_in == 0 ==> (kq matches KetQuaInV::Loi(y) && y.loai == Some(MaSuCo::LoiSumatra))
        },
        l.last() matches BuocIn::HoiSpooler(p, j, t, KetQuaInV::KhongRo(x)) ==> (kq matches KetQuaInV::KhongRo(y) && y.chu
            == x.chu && y.ban_da_in == x.ban_da_in && (x.loai != Some(MaSuCo::KhongXacNhan) ==> y.loai == x.loai)),
        (l.last() matches BuocIn::HoiSpooler(p, j, t, r)) || (l.last() matches BuocIn::Mo(a, Err(e))),
    decreases l.len(),
{
    let tong = so_ban(c.copies);
    if l[0] matches BuocIn::Mo(argv, Ok(_)) {
        let (k, m, cho, loi_ra, sp) = choose|k: int, m: int, cho: KetQuaChoV, loi_ra: Seq<char>, sp: KetQuaInV|
            1 <= k <= l.len() && #[trigger] mot_ban_dung(c, t0, l.subrange(1, k), m, cho, loi_ra, sp) && if ban_cuoi(
                c,
                lan,
                cho,
                loi_ra,
                sp,
            ) {
                k == l.len() && kq == ket_qua_ban(c, lan, cho, loi_ra, sp)
            } else {
                lan < u32::MAX && in_dung(c, t0, (lan + 1) as u32, l.subrange(k, l.len() as int), kq)
            };
        let b = l.subrange(1, k);
        let mo = l.subrange(0, 1);
        let con = l.subrange(k, l.len() as int);
        ban_nghia(c, t0, b, m, cho, loi_ra, sp);
        assert(l =~= mo + b + con);
        khong_hoi(mo);
        so_lan_hoi_noi(mo, b);
        so_lan_hoi_noi(mo + b, con);
        assert(forall|i: int| 1 <= i < k ==> #[trigger] l[i] == b[i - 1]);
        if ban_cuoi(c, lan, cho, loi_ra, sp) {
            assert(con =~= Seq::empty());
            assert(so_lan_hoi(con) == 0);
            assert(l.last() == b.last());
            assert forall|i: int| 0 <= i < l.len() - 1 implies !(#[trigger] l[i] is HoiSpooler) by {
                if i >= 1 {
                    assert(l[i] == b[i - 1]);
                }
            }
            assert forall|i: int| 0 <= i < l.len() implies (#[trigger] l[i] matches BuocIn::HoiSpooler(p, j, t, r) ==> p
                == c.printer && j == c.job_id && t == t0) by {
                if i == l.len() - 1 {
                    assert(l[i] == b.last());
                }
            }
            assert forall|i: int| 0 <= i < l.len() implies (#[trigger] l[i] matches BuocIn::Mo(a, r) ==> a == c.argv()) by {
                if i >= 1 {
                    assert(l[i] == b[i - 1]);
                }
            }
            if forall|i: int| 0 <= i < l.len() ==> !sumatra_hong(#[trigger] l[i]) {
                assert forall|i: int| 0 <= i < b.len() implies !sumatra_hong(#[trigger] b[i]) by {
                    assert(l[i + 1] == b[i]);
                }
            }
        } else {
            ket_qua_nhieu_ban(c, t0, (lan + 1) as u32, con, kq);
            assert(l.last() == con.last());
            assert(sp is DaIn);
            assert forall|i: int| 0 <= i < l.len() - 1 implies (#[trigger] l[i] matches BuocIn::HoiSpooler(p, j, t, r) ==> r is DaIn) by {
                if i >= k {
                    assert(l[i] == con[i - k]);
                } else if i >= 1 {
                    assert(l[i] == b[i - 1]);
                }
            }
            assert forall|i: int| 0 <= i < l.len() implies (#[trigger] l[i] matches BuocIn::HoiSpooler(p, j, t, r) ==> p
                == c.printer && j == c.job_id && t == t0) by {
                if i >= k {
                    assert(l[i] == con[i - k]);
                } else if i >= 1 {
                    assert(l[i] == b[i - 1]);
                }
            }
            assert forall|i: int| 0 <= i < l.len() implies (#[trigger] l[i] matches BuocIn::Mo(a, r) ==> a == c.argv()) by {
                if i >= k {
                    assert(l[i] == con[i - k]);
                } else if i >= 1 {
                    assert(l[i] == b[i - 1]);
                }
            }
            if forall|i: int| 0 <= i < l.len() ==> !sumatra_hong(#[trigger] l[i]) {
                assert forall|i: int| 0 <= i < con.len() implies !sumatra_hong(#[trigger] con[i]) by {
                    assert(l[i + k] == con[i]);
                }
            }
        }
    } else {
        assert(l =~= seq![l[0]]);
        khong_hoi(l);
    }
}

/// The order as a whole: the time from which a job counts as this order's is taken before the first copy is
/// started, and printed means that the spooler said so of every copy, as many as were ordered and one at
/// least.
pub proof fn ca_lenh_da_in_du_ban(c: LenhFileV, l: Seq<BuocIn>)
    requires
        ca_lenh_in_dung(c, l, KetQuaInV::DaIn),
    ensures
        l[0] is BayGio,
        forall|k: int|
            0 <= k < l.len() ==> (#[trigger] l[k] matches BuocIn::HoiSpooler(p, j, t, r) ==> r is DaIn && p == c.printer && j
                == c.job_id && l[0] == BuocIn::BayGio(t)),
        (forall|k: int| 0 <= k < l.len() ==> !sumatra_hong(#[trigger] l[k])) ==> so_lan_hoi(l) == (if c.copies == 0 {
            1
        } else {
            c.copies
        }),
{
    let d = l.subrange(1, l.len() as int);
    let t0 = l[0]->BayGio_0;
    ket_qua_nhieu_ban(c, t0, 0, d, KetQuaInV::DaIn);
    assert(l =~= seq![l[0]] + d);
    khong_hoi(seq![l[0]]);
    so_lan_hoi_noi(seq![l[0]], d);
    assert forall|k: int| 0 <= k < l.len() implies (#[trigger] l[k] matches BuocIn::HoiSpooler(p, j, t, r) ==> r is DaIn && p
        == c.printer && j == c.job_id && l[0] == BuocIn::BayGio(t)) by {
        if k >= 1 {
            assert(l[k] == d[k - 1]);
            if k == l.len() - 1 {
                assert(d.last() == l[k]);
            }
        }
    }
    if forall|k: int| 0 <= k < l.len() ==> !sumatra_hong(#[trigger] l[k]) {
        assert forall|k: int| 0 <= k < d.len() implies !sumatra_hong(#[trigger] d[k]) by {
            assert(l[k + 1] == d[k]);
        }
    }
}

} // verus!
