//! The withdrawal of everything that is held back takes just what was there when it was asked for.
use crate::bao_cao::{AnhV, MucV};
use crate::day::{giu, giu_cap, giu_dung, giu_het, vi_tri_la_dau};
use crate::hang_doi::luat::ids_rieng;
use crate::hang_doi::{
    cac_muc, cap_hop_le, con_huy_duoc, huy_duoc_cua, HdV, LoatV, MttV, CHONG_BAM_DUP_MS,
};
use vstd::prelude::*;

verus! {

/// There is one entry at most for each invoice.
spec fn mot_muc(v: Seq<MttV>) -> bool {
    forall|i: int, j: int| 0 <= i < j < v.len() ==> (#[trigger] v[i]).muc.id != (#[trigger] v[j]).muc.id
}

/// Something is under way with the invoice, or was just done.
spec fn co_ban(v: Seq<MttV>, id: Seq<char>) -> bool {
    exists|k: int| 0 <= k < v.len() && (#[trigger] v[k]).muc.id == id && v[k].tt.ban()
}

proof fn ban_la(s: HdV, id: Seq<char>)
    requires
        mot_muc(s.thao_tac),
    ensures
        s.dang_ban(id) == co_ban(s.thao_tac, id),
{
    vi_tri_la_dau(s.thao_tac, |m: MttV| m.muc.id == id, 0);
    if let Some(k) = s.dong_thao_tac(id) {
        assert(s.thao_tac[k].muc.id == id);
        if co_ban(s.thao_tac, id) {
            let j = choose|j: int| 0 <= j < s.thao_tac.len() && (#[trigger] s.thao_tac[j]).muc.id == id && s.thao_tac[j].tt.ban();
            if j < k {
                assert(s.thao_tac[j].muc.id != s.thao_tac[k].muc.id);
            } else if k < j {
                assert(s.thao_tac[k].muc.id != s.thao_tac[j].muc.id);
            }
        }
    } else {
        if co_ban(s.thao_tac, id) {
            let j = choose|j: int| 0 <= j < s.thao_tac.len() && (#[trigger] s.thao_tac[j]).muc.id == id && s.thao_tac[j].tt.ban();
            assert(!(|m: MttV| m.muc.id == id)(s.thao_tac[j]));
        }
    }
}

proof fn giu_mot_muc(v: Seq<MttV>, p: spec_fn(MttV) -> bool)
    requires
        mot_muc(v),
    ensures
        mot_muc(giu(v, p)),
        forall|id: Seq<char>| #[trigger] co_ban(giu(v, p), id) ==> co_ban(v, id),
{
    let q = |a: MttV, b: MttV| a.muc.id != b.muc.id;
    assert forall|i: int, j: int| 0 <= i < j < v.len() implies #[trigger] q(v[i], v[j]) by {
        assert(v[i].muc.id != v[j].muc.id);
    }
    giu_cap(v, p, q);
    giu_dung(v, p);
    let g = giu(v, p);
    assert forall|i: int, j: int| 0 <= i < j < g.len() implies (#[trigger] g[i]).muc.id != (#[trigger] g[j]).muc.id by {
        assert(q(g[i], g[j]));
    }
    assert forall|id: Seq<char>| #[trigger] co_ban(g, id) implies co_ban(v, id) by {
        let k = choose|k: int| 0 <= k < g.len() && (#[trigger] g[k]).muc.id == id && g[k].tt.ban();
        assert(v.contains(g[k]));
        let j = choose|j: int| 0 <= j < v.len() && v[j] == g[k];
        assert(v[j].muc.id == id);
    }
}

/// Without the entry for an invoice, all others are left.
proof fn bo_dong_dung(s: HdV, id: Seq<char>)
    requires
        mot_muc(s.thao_tac),
    ensures
        mot_muc(s.bo_dong(id)),
        forall|i: int|
            0 <= i < s.bo_dong(id).len() ==> (#[trigger] s.bo_dong(id)[i]).muc.id != id && s.thao_tac.contains(
                s.bo_dong(id)[i],
            ),
        forall|j: int|
            0 <= j < s.thao_tac.len() && (#[trigger] s.thao_tac[j]).muc.id != id ==> s.bo_dong(id).contains(
                s.thao_tac[j],
            ),
{
    let v = s.thao_tac;
    let v0 = s.bo_dong(id);
    vi_tri_la_dau(v, |m: MttV| m.muc.id == id, 0);
    let cho = match s.dong_thao_tac(id) {
        Some(k) => k,
        None => v.len() as int,
    };
    let cu = |i: int| if i >= cho { i + 1 } else { i };
    assert forall|i: int| 0 <= i < v0.len() implies (#[trigger] v0[i]).muc.id != id && v.contains(v0[i]) && v0[i] == v[cu(
        i,
    )] by {
        assert(v0[i] == v[cu(i)]);
        if cho < v.len() {
            assert(v[cho].muc.id == id);
            if i < cho {
                assert(v[i].muc.id != v[cho].muc.id);
            } else {
                assert(v[cho].muc.id != v[i + 1].muc.id);
            }
        } else {
            assert(!(|m: MttV| m.muc.id == id)(v[i]));
        }
    }
    assert forall|i: int, j: int| 0 <= i < j < v0.len() implies (#[trigger] v0[i]).muc.id != (#[trigger] v0[j]).muc.id by {
        assert(v[cu(i)].muc.id != v[cu(j)].muc.id);
    }
    assert forall|j: int| 0 <= j < v.len() && (#[trigger] v[j]).muc.id != id implies v0.contains(v[j]) by {
        let i = if j < cho {
            j
        } else {
            j - 1
        };
        assert(v0[i] == v[j]);
    }
}

/// One invoice of the batch taken under way: nothing changes for the others.
proof fn mot_trong_loat_dung(s: HdV, id: Seq<char>)
    requires
        mot_muc(s.thao_tac),
        s.vao_loat(id),
    ensures
        mot_muc(s.mot_trong_loat(id).thao_tac),
        s.mot_trong_loat(id).dang_yeu_cau(id),
        forall|x: Seq<char>| x != id ==> #[trigger] co_ban(s.mot_trong_loat(id).thao_tac, x) == co_ban(s.thao_tac, x),
        forall|x: Seq<char>| x != id && #[trigger] s.dang_yeu_cau(x) ==> s.mot_trong_loat(id).dang_yeu_cau(x),
{
    let v = s.thao_tac;
    let v0 = s.bo_dong(id);
    let w = s.mot_trong_loat(id).thao_tac;
    bo_dong_dung(s, id);
    vi_tri_la_dau(cac_muc(s.anh->0), |m: MucV| m.id == id, 0);
    assert(w[v0.len() as int].muc.id == id);
    assert forall|i: int, j: int| 0 <= i < j < w.len() implies (#[trigger] w[i]).muc.id != (#[trigger] w[j]).muc.id by {
        assert(w[i] == v0[i]);
        if j < v0.len() {
            assert(w[j] == v0[j]);
        }
    }
    assert forall|x: Seq<char>| x != id implies #[trigger] co_ban(w, x) == co_ban(v, x) by {
        if co_ban(w, x) {
            let i = choose|i: int| 0 <= i < w.len() && (#[trigger] w[i]).muc.id == x && w[i].tt.ban();
            assert(w[i] == v0[i]);
            let j = choose|j: int| 0 <= j < v.len() && v[j] == v0[i];
            assert(v[j].muc.id == x);
        }
        if co_ban(v, x) {
            let j = choose|j: int| 0 <= j < v.len() && (#[trigger] v[j]).muc.id == x && v[j].tt.ban();
            let i = choose|i: int| 0 <= i < v0.len() && v0[i] == v[j];
            assert(w[i] == v0[i]);
        }
    }
    assert forall|x: Seq<char>| x != id && #[trigger] s.dang_yeu_cau(x) implies s.mot_trong_loat(id).dang_yeu_cau(x) by {
        let j = choose|j: int| 0 <= j < v.len() && (#[trigger] v[j]).muc.id == x && v[j].tt is Dang;
        let i = choose|i: int| 0 <= i < v0.len() && v0[i] == v[j];
        assert(w[i] == v0[i]);
    }
}

/// The queue's entry of the invoice can be withdrawn.
spec fn huy_duoc_theo_id(s: HdV, id: Seq<char>) -> bool {
    s.muc_cua(id) matches Some(m) && huy_duoc_cua(m)
}

/// The batch run over ids of which none is busy and none comes twice.
proof fn chay_loat_dung(s: HdV, ids: Seq<Seq<char>>)
    requires
        mot_muc(s.thao_tac),
        forall|i: int, j: int| 0 <= i < j < ids.len() ==> #[trigger] ids[i] != #[trigger] ids[j],
        forall|i: int| 0 <= i < ids.len() ==> !co_ban(s.thao_tac, #[trigger] ids[i]),
    ensures
        ({
            let (s1, ra) = s.chay_loat(ids);
            &&& s1.anh == s.anh
            &&& mot_muc(s1.thao_tac)
            &&& ra.map_values(|m: MucV| m.id) == giu(ids, |id: Seq<char>| huy_duoc_theo_id(s, id))
            &&& forall|x: Seq<char>| !ids.contains(x) ==> #[trigger] co_ban(s1.thao_tac, x) == co_ban(s.thao_tac, x)
            &&& forall|i: int|
                0 <= i < ra.len() ==> s1.dang_yeu_cau((#[trigger] ra[i]).id) && ids.contains(ra[i].id) && s.muc_cua(
                    ra[i].id,
                ) == Some(ra[i])
        }),
    decreases ids.len(),
{
    let p = |id: Seq<char>| huy_duoc_theo_id(s, id);
    let f = |m: MucV| m.id;
    if ids.len() == 0 {
        assert(s.chay_loat(ids).1.map_values(f) =~= giu(ids, p));
    } else {
        let d = ids.drop_last();
        let id = ids.last();
        assert forall|i: int, j: int| 0 <= i < j < d.len() implies #[trigger] d[i] != #[trigger] d[j] by {
            assert(ids[i] != ids[j]);
        }
        assert forall|i: int| 0 <= i < d.len() implies !co_ban(s.thao_tac, #[trigger] d[i]) by {
            assert(!co_ban(s.thao_tac, ids[i]));
        }
        chay_loat_dung(s, d);
        let (s1, ra) = s.chay_loat(d);
        let (s2, rb) = s.chay_loat(ids);
        assert(!d.contains(id)) by {
            if d.contains(id) {
                let i = choose|i: int| 0 <= i < d.len() && d[i] == id;
                assert(ids[i] != ids[ids.len() - 1]);
            }
        }
        assert(!co_ban(s.thao_tac, ids[ids.len() - 1]));
        assert(!co_ban(s1.thao_tac, id));
        ban_la(s1, id);
        assert(s1.muc_cua(id) == s.muc_cua(id));
        assert forall|x: Seq<char>| d.contains(x) implies #[trigger] ids.contains(x) by {
            let i = choose|i: int| 0 <= i < d.len() && d[i] == x;
            assert(ids[i] == x);
        }
        assert(ids.contains(id)) by {
            assert(ids[ids.len() - 1] == id);
        }
        if s1.vao_loat(id) {
            let m = s1.muc_cua(id)->0;
            vi_tri_la_dau(cac_muc(s.anh->0), |m: MucV| m.id == id, 0);
            assert(m.id == id);
            mot_trong_loat_dung(s1, id);
            assert(rb.map_values(f) =~= ra.map_values(f).push(id));
            assert forall|i: int| 0 <= i < rb.len() implies s2.dang_yeu_cau((#[trigger] rb[i]).id) && ids.contains(rb[i].id)
                && s.muc_cua(rb[i].id) == Some(rb[i]) by {
                if i < ra.len() {
                    assert(rb[i] == ra[i]);
                    assert(d.contains(ra[i].id));
                    assert(s1.dang_yeu_cau(ra[i].id));
                } else {
                    assert(rb[i] == m);
                }
            }
        } else {
            assert forall|i: int| 0 <= i < rb.len() implies s2.dang_yeu_cau((#[trigger] rb[i]).id) && ids.contains(rb[i].id)
                && s.muc_cua(rb[i].id) == Some(rb[i]) by {
                assert(rb[i] == ra[i]);
                assert(d.contains(ra[i].id));
            }
        }
        assert forall|x: Seq<char>| !ids.contains(x) implies #[trigger] co_ban(s2.thao_tac, x) == co_ban(s.thao_tac, x) by {
            assert(!d.contains(x));
            assert(x != id);
            assert(co_ban(s1.thao_tac, x) == co_ban(s.thao_tac, x));
        }
    }
}

/// In a queue without two entries of one id, an invoice that can be withdrawn is found by its id.
proof fn con_huy_la_tim_thay(s: HdV, id: Seq<char>)
    requires
        s.anh is Some,
        ids_rieng(s.anh->0),
        con_huy_duoc(s.anh->0, id),
    ensures
        huy_duoc_theo_id(s, id),
{
    let a = s.anh->0;
    let tc = cac_muc(a);
    let i = choose|i: int| 0 <= i < a.cho_in.len() && (#[trigger] a.cho_in[i]).id == id && huy_duoc_cua(a.cho_in[i]);
    assert(tc[i] == a.cho_in[i]);
    vi_tri_la_dau(tc, |m: MucV| m.id == id, 0);
    if let Some(k) = s.dong_trong_anh(id) {
        if k < i {
            assert(tc[k].id != tc[i].id);
        } else if i < k {
            assert(tc[i].id != tc[k].id);
        }
    } else {
        assert(!(|m: MucV| m.id == id)(tc[i]));
    }
}

/// The ids pinned when the batch is asked for: each once, each of an entry that can be withdrawn and is not
/// busy.
proof fn ids_huy_ca_dung(s: HdV)
    requires
        mot_muc(s.thao_tac),
        s.anh is Some,
        ids_rieng(s.anh->0),
    ensures
        forall|i: int, j: int|
            0 <= i < j < s.ids_huy_ca().len() ==> #[trigger] s.ids_huy_ca()[i] != #[trigger] s.ids_huy_ca()[j],
        forall|i: int|
            0 <= i < s.ids_huy_ca().len() ==> con_huy_duoc(s.anh->0, #[trigger] s.ids_huy_ca()[i]) && !co_ban(
                s.thao_tac,
                s.ids_huy_ca()[i],
            ),
{
    let a = s.anh->0;
    let tc = cac_muc(a);
    let p = |m: MucV| m.tam_giu && huy_duoc_cua(m) && !s.dang_ban(m.id);
    let q = |x: MucV, y: MucV| x.id != y.id;
    let g = giu(a.cho_in, p);
    let ids = s.ids_huy_ca();
    assert forall|i: int, j: int| 0 <= i < j < a.cho_in.len() implies #[trigger] q(a.cho_in[i], a.cho_in[j]) by {
        assert(tc[i] == a.cho_in[i] && tc[j] == a.cho_in[j]);
    }
    giu_cap(a.cho_in, p, q);
    giu_dung(a.cho_in, p);
    assert forall|i: int, j: int| 0 <= i < j < ids.len() implies #[trigger] ids[i] != #[trigger] ids[j] by {
        assert(q(g[i], g[j]));
        assert(ids[i] == g[i].id && ids[j] == g[j].id);
    }
    assert forall|i: int| 0 <= i < ids.len() implies con_huy_duoc(a, #[trigger] ids[i]) && !co_ban(s.thao_tac, ids[i]) by {
        assert(ids[i] == g[i].id);
        assert(p(g[i]));
        let k = choose|k: int| 0 <= k < a.cho_in.len() && a.cho_in[k] == g[i];
        assert(a.cho_in[k].id == ids[i]);
        ban_la(s, ids[i]);
    }
}

/// The queue with the batch asked for, and then, where one came, with a new list from the server.
pub open spec fn sau_hoi(s: HdV, t0: u64, anh: Option<(AnhV, u64)>) -> HdV {
    let s1 = s.sau_huy_ca(true, t0).0;
    match anh {
        Some(x) => s1.sau_anh(x.0, x.1),
        None => s1,
    }
}

/// Confirming the batch withdraws, of the invoices that were pinned when it was asked for, those that the
/// present list still has as certain to be withdrawn, in their order, and no other: what came later is
/// never among them. A request is then under way for each. Confirmed too soon, nothing happens.
pub proof fn loat_dung_nhu_luc_hoi(s: HdV, t0: u64, anh: Option<(AnhV, u64)>, t: u64)
    requires
        s.hop_le(),
        s.sau_huy_ca(true, t0).1,
        s.anh is Some && ids_rieng(s.anh->0),
        anh matches Some(x) ==> ids_rieng(x.0),
    ensures
        ({
            let s2 = sau_hoi(s, t0, anh);
            let (s3, r) = s2.sau_bat_dau_loat(true, t);
            &&& t < t0 + CHONG_BAM_DUP_MS ==> r.len() == 0 && s3 == s2
            &&& t >= t0 + CHONG_BAM_DUP_MS ==> r.map_values(|m: MucV| m.id) == giu(
                s.ids_huy_ca(),
                |id: Seq<char>| con_huy_duoc(s2.anh->0, id),
            )
            &&& forall|i: int|
                0 <= i < r.len() ==> s.ids_huy_ca().contains((#[trigger] r[i]).id) && s2.muc_cua(r[i].id) == Some(r[i])
                    && s3.dang_yeu_cau(r[i].id)
        }),
{
    let ids = s.ids_huy_ca();
    let s1 = s.sau_huy_ca(true, t0).0;
    let s2 = sau_hoi(s, t0, anh);
    let hoi = |m: MttV| !m.tt.hop_thoai();
    let con = |id: Seq<char>| con_huy_duoc(s2.anh->0, id);
    assert(mot_muc(s.thao_tac)) by {
        assert forall|i: int, j: int| 0 <= i < j < s.thao_tac.len() implies (#[trigger] s.thao_tac[i]).muc.id != (
        #[trigger] s.thao_tac[j]).muc.id by {
            assert(cap_hop_le(s.thao_tac[i], s.thao_tac[j]));
        }
    }
    ids_huy_ca_dung(s);
    giu_mot_muc(s.thao_tac, hoi);
    assert forall|i: int| 0 <= i < ids.len() implies !co_ban(s1.thao_tac, #[trigger] ids[i]) by {
        assert(!co_ban(s.thao_tac, ids[i]));
    }
    let con_lai = match anh {
        Some(x) => giu(ids, con),
        None => ids,
    };
    match anh {
        Some(x) => {
            let s0 = HdV { anh: Some(x.0), luc_nhan: Some(x.1), cua_ket_noi_nay: true, ..s1 };
            giu_mot_muc(s1.thao_tac, |m: MttV| s0.con_ap_dung(m));
            let q = |a: Seq<char>, b: Seq<char>| a != b;
            assert forall|i: int, j: int| 0 <= i < j < ids.len() implies #[trigger] q(ids[i], ids[j]) by {
                assert(ids[i] != ids[j]);
            }
            giu_cap(ids, con, q);
            giu_dung(ids, con);
            assert forall|i: int, j: int| 0 <= i < j < con_lai.len() implies #[trigger] con_lai[i] != #[trigger] con_lai[j] by {
                assert(q(con_lai[i], con_lai[j]));
            }
        },
        None => {
            giu_het(ids, con);
            assert forall|i: int| 0 <= i < ids.len() implies ids.contains(#[trigger] ids[i]) by {}
        },
    }
    assert forall|i: int| 0 <= i < con_lai.len() implies ids.contains(#[trigger] con_lai[i]) && con(con_lai[i]) && !co_ban(
        s2.thao_tac,
        con_lai[i],
    ) by {
        let k = choose|k: int| 0 <= k < ids.len() && ids[k] == con_lai[i];
        assert(!co_ban(s1.thao_tac, ids[k]));
    }
    if con_lai.len() > 0 && t >= t0 + CHONG_BAM_DUP_MS {
        assert(s2.loat == Some(LoatV::XacNhan { ids: con_lai, luc: t0 }));
        let s4 = s2.dong_het();
        giu_mot_muc(s2.thao_tac, hoi);
        assert forall|i: int| 0 <= i < con_lai.len() implies !co_ban(s4.thao_tac, #[trigger] con_lai[i]) by {
            assert(!co_ban(s2.thao_tac, con_lai[i]));
        }
        chay_loat_dung(s4, con_lai);
        let p = |id: Seq<char>| huy_duoc_theo_id(s4, id);
        assert forall|i: int| 0 <= i < con_lai.len() implies p(#[trigger] con_lai[i]) by {
            assert(con(con_lai[i]));
            con_huy_la_tim_thay(s4, con_lai[i]);
        }
        giu_het(con_lai, p);
        let (s5, ra) = s4.chay_loat(con_lai);
        let (s3, r) = s2.sau_bat_dau_loat(true, t);
        assert forall|i: int| 0 <= i < r.len() implies ids.contains((#[trigger] r[i]).id) && s2.muc_cua(r[i].id) == Some(
            r[i],
        ) && s3.dang_yeu_cau(r[i].id) by {
            assert(r[i] == ra[i]);
            assert(con_lai.contains(ra[i].id));
            let k = choose|k: int| 0 <= k < con_lai.len() && con_lai[k] == ra[i].id;
            assert(ids.contains(con_lai[k]));
            assert(s5.dang_yeu_cau(ra[i].id));
            let j = choose|j: int|
                0 <= j < s5.thao_tac.len() && (#[trigger] s5.thao_tac[j]).muc.id == ra[i].id && s5.thao_tac[j].tt is Dang;
            assert(s3.thao_tac[j] == s5.thao_tac[j]);
        }
    }
}

} // verus!
