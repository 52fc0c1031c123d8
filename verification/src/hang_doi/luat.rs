//! What never happens to an invoice in the queue: "withdrawn" is said only where the server said so.
use crate::bao_cao::{AnhV, MucV};
use crate::day::{chen_khong_giu, dem, dem_khong_co, dem_khong_qua_mot, giu, giu_dung, giu_het, vi_tri_la_dau};
use crate::hang_doi::khoi::{chen, chen_dong, dong_theo, sap_theo_dong, CheDo, DongV};
use crate::hang_doi::{cac_muc, cap_hop_le, HdV, KetCucV, LoaiViec, LoatV, MttV, ThaoTacV};
use crate::su_co::MaSuCo;
use vstd::prelude::*;

verus! {

/// An entry that says that its invoice was withdrawn.
pub open spec fn noi_da_huy(m: MttV) -> bool {
    m.tt matches ThaoTacV::Xong { loai, luc, noi_dung } && loai == LoaiViec::Huy
}

/// The queue says of an invoice that it was withdrawn.
pub open spec fn da_huy(s: HdV, id: Seq<char>) -> bool {
    exists|i: int| 0 <= i < s.thao_tac.len() && (#[trigger] s.thao_tac[i]).muc.id == id && noi_da_huy(s.thao_tac[i])
}

/// Every entry of `t` that says "withdrawn" is one of `s`.
proof fn tu_cu(s: HdV, t: HdV, id: Seq<char>)
    requires
        forall|i: int|
            0 <= i < t.thao_tac.len() && noi_da_huy(#[trigger] t.thao_tac[i]) ==> s.thao_tac.contains(t.thao_tac[i]),
        da_huy(t, id),
    ensures
        da_huy(s, id),
{
    let i = choose|i: int| 0 <= i < t.thao_tac.len() && (#[trigger] t.thao_tac[i]).muc.id == id && noi_da_huy(t.thao_tac[i]);
    let x = t.thao_tac[i];
    let k = choose|k: int| 0 <= k < s.thao_tac.len() && s.thao_tac[k] == x;
    assert(s.thao_tac[k].muc.id == id);
}

proof fn giu_tu_cu(s: HdV, t: HdV, p: spec_fn(MttV) -> bool, id: Seq<char>)
    requires
        t.thao_tac == giu(s.thao_tac, p),
        da_huy(t, id),
    ensures
        da_huy(s, id),
{
    giu_dung(s.thao_tac, p);
    tu_cu(s, t, id);
}

proof fn bo_dong_tu_cu(s: HdV, x: Seq<char>, i: int)
    requires
        0 <= i < s.bo_dong(x).len(),
    ensures
        s.thao_tac.contains(s.bo_dong(x)[i]),
{
    vi_tri_la_dau(s.thao_tac, |m: MttV| m.muc.id == x, 0);
    if let Some(k) = s.dong_thao_tac(x) {
        let j = if i < k {
            i
        } else {
            i + 1
        };
        assert(s.thao_tac[j] == s.bo_dong(x)[i]);
    }
}

proof fn mo_tu_cu(s: HdV, x: Seq<char>, tt: ThaoTacV, id: Seq<char>)
    requires
        !(tt is Xong),
        da_huy(s.sau_mo(x, tt).0, id),
    ensures
        da_huy(s, id),
{
    if s.dong_trong_anh(x) is Some && !s.dang_ban(x) {
        let t = s.sau_mo(x, tt).0;
        let s1 = HdV { thao_tac: s.bo_dong(x), ..s };
        let d = s1.dong_het();
        giu_dung(s1.thao_tac, |m: MttV| !m.tt.hop_thoai());
        assert forall|i: int| 0 <= i < t.thao_tac.len() && noi_da_huy(#[trigger] t.thao_tac[i]) implies s.thao_tac.contains(
            t.thao_tac[i],
        ) by {
            assert(i < d.thao_tac.len());
            assert(s1.thao_tac.contains(d.thao_tac[i]));
            let k = choose|k: int| 0 <= k < s1.thao_tac.len() && s1.thao_tac[k] == d.thao_tac[i];
            bo_dong_tu_cu(s, x, k);
        }
        tu_cu(s, t, id);
    }
}

proof fn chay_loat_tu_cu(s: HdV, ids: Seq<Seq<char>>, id: Seq<char>)
    requires
        da_huy(s.chay_loat(ids).0, id),
    ensures
        da_huy(s, id),
    decreases ids.len(),
{
    if ids.len() > 0 {
        let (s1, ra) = s.chay_loat(ids.drop_last());
        let x = ids.last();
        if s1.vao_loat(x) {
            let t = s1.mot_trong_loat(x);
            assert forall|i: int|
                0 <= i < t.thao_tac.len() && noi_da_huy(#[trigger] t.thao_tac[i]) implies s1.thao_tac.contains(
                t.thao_tac[i],
            ) by {
                bo_dong_tu_cu(s1, x, i);
            }
            tu_cu(s1, t, id);
        }
        chay_loat_tu_cu(s, ids.drop_last(), id);
    }
}

/// Nothing that staff presses, and no message of the server but the answer to a request, makes the queue
/// say that an invoice was withdrawn.
pub proof fn bam_nut_khong_noi_da_huy(s: HdV, id: Seq<char>, x: Seq<char>, tt: ThaoTacV, ho_tro: bool, anh: AnhV, da_noi: bool, t: u64)
    requires
        !(tt is Xong),
        !da_huy(s, id),
    ensures
        !da_huy(s.sau_mo(x, tt).0, id),
        s.dong_thao_tac(x) matches Some(i) ==> !da_huy(s.doi_tt(i, tt), id),
        !da_huy(s.sau_huy_ca(da_noi, t).0, id),
        !da_huy(s.sau_bat_dau_loat(da_noi, t).0, id),
        !da_huy(s.sau_cau_hinh(ho_tro), id),
        !da_huy(s.sau_anh(anh, t), id),
        !da_huy(s.dong_het(), id),
        !da_huy(s.sau_don_dep(t), id),
        !da_huy(s.sau_dong(x), id),
{
    let giu_hoi = |m: MttV| !m.tt.hop_thoai();
    if da_huy(s.sau_mo(x, tt).0, id) {
        mo_tu_cu(s, x, tt, id);
    }
    if let Some(i) = s.dong_thao_tac(x) {
        vi_tri_la_dau(s.thao_tac, |m: MttV| m.muc.id == x, 0);
        let d = s.doi_tt(i, tt);
        if da_huy(d, id) {
            assert forall|k: int| 0 <= k < d.thao_tac.len() && noi_da_huy(#[trigger] d.thao_tac[k]) implies s.thao_tac.contains(
                d.thao_tac[k],
            ) by {
                assert(k != i);
                assert(s.thao_tac[k] == d.thao_tac[k]);
            }
            tu_cu(s, d, id);
        }
    }
    if da_huy(s.dong_het(), id) {
        giu_tu_cu(s, s.dong_het(), giu_hoi, id);
    }
    if da_huy(s.sau_huy_ca(da_noi, t).0, id) {
        giu_tu_cu(s, s.sau_huy_ca(da_noi, t).0, giu_hoi, id);
    }
    if da_huy(s.sau_bat_dau_loat(da_noi, t).0, id) {
        if let Some(LoatV::XacNhan { ids, luc }) = s.loat {
            let r = s.sau_bat_dau_loat(da_noi, t).0;
            let c = s.dong_het().chay_loat(ids).0;
            if r.thao_tac == c.thao_tac {
                let i = choose|i: int|
                    0 <= i < r.thao_tac.len() && (#[trigger] r.thao_tac[i]).muc.id == id && noi_da_huy(r.thao_tac[i]);
                assert(c.thao_tac[i].muc.id == id);
                chay_loat_tu_cu(s.dong_het(), ids, id);
                giu_tu_cu(s, s.dong_het(), giu_hoi, id);
            }
        }
    }
    if da_huy(s.sau_cau_hinh(ho_tro), id) {
        if !ho_tro {
            giu_tu_cu(s, s.sau_cau_hinh(ho_tro), |m: MttV| m.tt is Dang, id);
        }
    }
    if da_huy(s.sau_anh(anh, t), id) {
        let s1 = HdV { anh: Some(anh), luc_nhan: Some(t), cua_ket_noi_nay: true, ..s };
        giu_tu_cu(s, s.sau_anh(anh, t), |m: MttV| s1.con_ap_dung(m), id);
    }
    if da_huy(s.sau_don_dep(t), id) {
        giu_tu_cu(s, s.sau_don_dep(t), |m: MttV| HdV::con_hien(m, t), id);
    }
    if da_huy(s.sau_dong(x), id) {
        giu_tu_cu(s, s.sau_dong(x), |m: MttV| m.muc.id != x || m.tt.ban(), id);
    }
}

/// The end of a request makes the queue say that an invoice was withdrawn only where the request was to
/// withdraw this invoice and the server said yes.
pub proof fn da_huy_chi_khi_duoc(s: HdV, id: Seq<char>, x: Seq<char>, loai: LoaiViec, kc: KetCucV, t: u64)
    requires
        !da_huy(s, id),
        da_huy(s.sau_ket_thuc(x, loai, kc, t), id),
    ensures
        id == x,
        loai == LoaiViec::Huy,
        kc is Duoc,
{
    let r = s.sau_ket_thuc(x, loai, kc, t);
    vi_tri_la_dau(s.thao_tac, |m: MttV| m.muc.id == x, 0);
    let k = choose|k: int| 0 <= k < r.thao_tac.len() && (#[trigger] r.thao_tac[k]).muc.id == id && noi_da_huy(r.thao_tac[k]);
    if let Some(i) = s.dong_thao_tac(x) {
        if k != i || r.thao_tac[k] == s.thao_tac[k] {
            assert(s.thao_tac[k].muc.id == id);
        }
    }
}

/// Every line that shows "withdrawn" belongs to an invoice of which the queue says so.
proof fn chen_dong_tu_cu(s: HdV, dong: Seq<DongV>, ds: Seq<MttV>, bat: bool, k: int)
    requires
        forall|i: int| 0 <= i < dong.len() && (#[trigger] dong[i]).che_do == CheDo::DaHuy ==> da_huy(s, dong[i].id),
        forall|i: int| 0 <= i < ds.len() ==> s.thao_tac.contains(#[trigger] ds[i]),
        0 <= k < chen_dong(dong, ds, bat).len(),
        chen_dong(dong, ds, bat)[k].che_do == CheDo::DaHuy,
    ensures
        da_huy(s, chen_dong(dong, ds, bat)[k].id),
    decreases ds.len(),
{
    if ds.len() > 0 {
        let d = chen_dong(dong, ds.drop_last(), bat);
        let m = ds.last();
        let vt = if m.vi_tri <= d.len() {
            m.vi_tri as int
        } else {
            d.len() as int
        };
        assert forall|i: int| 0 <= i < ds.drop_last().len() implies s.thao_tac.contains(#[trigger] ds.drop_last()[i]) by {
            assert(ds.drop_last()[i] == ds[i]);
        }
        if k == vt {
            assert(s.thao_tac.contains(ds[ds.len() - 1]));
            let j = choose|j: int| 0 <= j < s.thao_tac.len() && s.thao_tac[j] == m;
            assert(s.thao_tac[j].muc.id == m.muc.id);
            assert(noi_da_huy(s.thao_tac[j]));
        } else {
            let j = if k < vt {
                k
            } else {
                k - 1
            };
            assert(d[j] == chen_dong(dong, ds, bat)[k]);
            chen_dong_tu_cu(s, dong, ds.drop_last(), bat, j);
        }
    }
}

proof fn chen_tu_cu(s: Seq<MttV>, x: MttV, i: int)
    requires
        0 <= i < chen(s, x).len(),
    ensures
        chen(s, x)[i] == x || s.contains(chen(s, x)[i]),
    decreases s.len(),
{
    if s.len() == 0 || s.last().vi_tri <= x.vi_tri {
        if i < s.len() {
            assert(s[i] == chen(s, x)[i]);
        }
    } else if i == chen(s.drop_last(), x).len() {
        assert(s[s.len() - 1] == chen(s, x)[i]);
    } else {
        chen_tu_cu(s.drop_last(), x, i);
        let y = chen(s.drop_last(), x)[i];
        assert(y == chen(s, x)[i]);
        if s.drop_last().contains(y) {
            let j = choose|j: int| 0 <= j < s.drop_last().len() && s.drop_last()[j] == y;
            assert(s[j] == y);
        }
    }
}

proof fn sap_tu_cu(s: Seq<MttV>, i: int)
    requires
        0 <= i < sap_theo_dong(s).len(),
    ensures
        s.contains(sap_theo_dong(s)[i]),
    decreases s.len(),
{
    if s.len() > 0 {
        let d = sap_theo_dong(s.drop_last());
        let y = sap_theo_dong(s)[i];
        chen_tu_cu(d, s.last(), i);
        if y == s.last() {
            assert(s[s.len() - 1] == y);
        } else {
            let j = choose|j: int| 0 <= j < d.len() && d[j] == y;
            sap_tu_cu(s.drop_last(), j);
            let k = choose|k: int| 0 <= k < s.drop_last().len() && s.drop_last()[k] == y;
            assert(s[k] == y);
        }
    }
}

/// A line of the screen shows "withdrawn" only for an invoice of which the queue says so.
pub proof fn dong_da_huy_la_that(s: HdV, da_noi: bool, ma: Option<MaSuCo>, t: u64, k: int)
    requires
        0 <= k < s.khoi_cua(da_noi, ma, t).dong.len(),
        s.khoi_cua(da_noi, ma, t).dong[k].che_do == CheDo::DaHuy,
    ensures
        da_huy(s, s.khoi_cua(da_noi, ma, t).dong[k].id),
{
    if s.anh is Some && s.ho_tro {
        let a = s.anh->0;
        let bat = s.bam_duoc(da_noi);
        let dong = s.dong_cua_anh(a, bat);
        assert forall|i: int| 0 <= i < dong.len() && (#[trigger] dong[i]).che_do == CheDo::DaHuy implies da_huy(
            s,
            dong[i].id,
        ) by {
            let m = cac_muc(a)[i];
            assert(dong[i] == dong_theo(m, s.tt_cua(m.id), true, bat));
            vi_tri_la_dau(s.thao_tac, |x: MttV| x.muc.id == m.id, 0);
            let j = s.dong_thao_tac(m.id)->0;
            assert(s.thao_tac[j].muc.id == m.id);
            assert(noi_da_huy(s.thao_tac[j]));
        }
        let con = s.con_lai();
        giu_dung(s.thao_tac, |m: MttV| !m.tt.hop_thoai() && s.dong_trong_anh(m.muc.id) is None);
        let ds = sap_theo_dong(con);
        assert forall|i: int| 0 <= i < ds.len() implies s.thao_tac.contains(#[trigger] ds[i]) by {
            sap_tu_cu(con, i);
            let j = choose|j: int| 0 <= j < con.len() && con[j] == ds[i];
            assert(s.thao_tac.contains(con[j]));
        }
        chen_dong_tu_cu(s, dong, ds, bat, k);
    }
}

/// No two entries of a queue have the same id.
pub open spec fn ids_rieng(a: AnhV) -> bool {
    forall|i: int, j: int|
        0 <= i < j < cac_muc(a).len() ==> (#[trigger] cac_muc(a)[i]).id != (#[trigger] cac_muc(a)[j]).id
}

/// A line's invoice is in the queue.
pub open spec fn dong_cua(a: AnhV, d: DongV) -> bool {
    exists|i: int| 0 <= i < cac_muc(a).len() && (#[trigger] cac_muc(a)[i]).id == d.id
}

/// A line shows a question or an explanation.
pub open spec fn dang_hoi(d: DongV) -> bool {
    d.che_do == CheDo::XacNhanHuy || d.che_do == CheDo::XacNhanBo || d.che_do == CheDo::ViSao
}

/// Putting back the entries that have left the queue changes nothing of the lines for which `p` holds,
/// where it holds for none of them.
pub(crate) proof fn chen_dong_khong_giu(dong: Seq<DongV>, ds: Seq<MttV>, bat: bool, p: spec_fn(DongV) -> bool)
    requires
        forall|i: int| 0 <= i < ds.len() ==> !p(dong_theo((#[trigger] ds[i]).muc, Some(ds[i].tt), false, bat)),
    ensures
        giu(chen_dong(dong, ds, bat), p) == giu(dong, p),
        dem(chen_dong(dong, ds, bat), p) == dem(dong, p),
    decreases ds.len(),
{
    if ds.len() > 0 {
        let t = ds.drop_last();
        assert forall|i: int| 0 <= i < t.len() implies !p(dong_theo((#[trigger] t[i]).muc, Some(t[i].tt), false, bat)) by {
            assert(t[i] == ds[i]);
        }
        chen_dong_khong_giu(dong, t, bat, p);
        let d = chen_dong(dong, t, bat);
        let m = ds[ds.len() - 1];
        let k = if m.vi_tri <= d.len() {
            m.vi_tri as int
        } else {
            d.len() as int
        };
        chen_khong_giu(d, k, dong_theo(m.muc, Some(m.tt), false, bat), p);
    }
}

/// The entries that have left the queue: none is a question, and none is in the queue.
pub(crate) proof fn con_lai_dung(s: HdV, i: int)
    requires
        0 <= i < sap_theo_dong(s.con_lai()).len(),
    ensures
        !sap_theo_dong(s.con_lai())[i].tt.hop_thoai(),
        s.dong_trong_anh(sap_theo_dong(s.con_lai())[i].muc.id) is None,
        s.thao_tac.contains(sap_theo_dong(s.con_lai())[i]),
{
    let con = s.con_lai();
    giu_dung(s.thao_tac, |m: MttV| !m.tt.hop_thoai() && s.dong_trong_anh(m.muc.id) is None);
    sap_tu_cu(con, i);
    let j = choose|j: int| 0 <= j < con.len() && con[j] == sap_theo_dong(con)[i];
    assert(s.thao_tac.contains(con[j]));
}

/// The lines of the invoices in the queue are, in order, the lines of the block whose invoice is in the
/// queue: every entry of the queue has its line, once, and they stand in the queue's order.
pub proof fn khoi_co_du_muc(s: HdV, da_noi: bool, ma: Option<MaSuCo>, t: u64)
    requires
        s.ho_tro,
        s.anh is Some,
    ensures
        giu(s.khoi_cua(da_noi, ma, t).dong, |d: DongV| dong_cua(s.anh->0, d)) == s.dong_cua_anh(
            s.anh->0,
            s.bam_duoc(da_noi),
        ),
        giu(s.khoi_cua(da_noi, ma, t).dong, |d: DongV| dong_cua(s.anh->0, d)).map_values(|d: DongV| d.id)
            == cac_muc(s.anh->0).map_values(|m: MucV| m.id),
{
    let a = s.anh->0;
    let bat = s.bam_duoc(da_noi);
    let dong = s.dong_cua_anh(a, bat);
    let ds = sap_theo_dong(s.con_lai());
    let p = |d: DongV| dong_cua(a, d);
    assert forall|i: int| 0 <= i < ds.len() implies !p(dong_theo((#[trigger] ds[i]).muc, Some(ds[i].tt), false, bat)) by {
        con_lai_dung(s, i);
        let id = ds[i].muc.id;
        vi_tri_la_dau(cac_muc(a), |m: MucV| m.id == id, 0);
        assert forall|k: int| 0 <= k < cac_muc(a).len() implies (#[trigger] cac_muc(a)[k]).id != id by {
            assert(!(|m: MucV| m.id == id)(cac_muc(a)[k]));
        }
    }
    chen_dong_khong_giu(dong, ds, bat, p);
    assert forall|i: int| 0 <= i < dong.len() implies p(#[trigger] dong[i]) by {
        assert(cac_muc(a)[i].id == dong[i].id);
    }
    giu_het(dong, p);
    assert(dong.map_values(|d: DongV| d.id) =~= cac_muc(a).map_values(|m: MucV| m.id));
}

/// At most one question or explanation is open on the screen, that of the batch included.
pub proof fn khoi_mot_hop_thoai(s: HdV, da_noi: bool, ma: Option<MaSuCo>, t: u64)
    requires
        s.hop_le(),
        s.anh matches Some(a) ==> ids_rieng(a),
    ensures
        dem(s.khoi_cua(da_noi, ma, t).dong, |d: DongV| dang_hoi(d)) + (if s.khoi_cua(da_noi, ma, t).loat_che_do == 1 {
            1nat
        } else {
            0nat
        }) <= 1,
{
    let p = |d: DongV| dang_hoi(d);
    if s.anh is Some && s.ho_tro {
        let a = s.anh->0;
        let bat = s.bam_duoc(da_noi);
        let dong = s.dong_cua_anh(a, bat);
        let ds = sap_theo_dong(s.con_lai());
        assert forall|i: int| 0 <= i < ds.len() implies !p(dong_theo((#[trigger] ds[i]).muc, Some(ds[i].tt), false, bat)) by {
            con_lai_dung(s, i);
        }
        chen_dong_khong_giu(dong, ds, bat, p);
        if s.khoi_cua(da_noi, ma, t).loat_che_do == 1 {
            assert forall|i: int| 0 <= i < dong.len() implies !p(#[trigger] dong[i]) by {
                dong_hoi_tu_thao_tac(s, a, bat, i);
            }
            dem_khong_co(dong, p);
        } else {
            assert forall|i: int, j: int| 0 <= i < j < dong.len() implies !(p(#[trigger] dong[i]) && p(
                #[trigger] dong[j],
            )) by {
                if p(dong[i]) && p(dong[j]) {
                    dong_hoi_tu_thao_tac(s, a, bat, i);
                    dong_hoi_tu_thao_tac(s, a, bat, j);
                    let x = choose|x: int|
                        0 <= x < s.thao_tac.len() && (#[trigger] s.thao_tac[x]).muc.id == cac_muc(a)[i].id
                            && s.thao_tac[x].tt.hop_thoai();
                    let y = choose|y: int|
                        0 <= y < s.thao_tac.len() && (#[trigger] s.thao_tac[y]).muc.id == cac_muc(a)[j].id
                            && s.thao_tac[y].tt.hop_thoai();
                    assert(cac_muc(a)[i].id != cac_muc(a)[j].id);
                    if x < y {
                        assert(cap_hop_le(s.thao_tac[x], s.thao_tac[y]));
                    } else {
                        assert(cap_hop_le(s.thao_tac[y], s.thao_tac[x]));
                    }
                }
            }
            dem_khong_qua_mot(dong, p);
        }
    } else {
        dem_khong_co(Seq::<DongV>::empty(), p);
    }
}

/// A line with a question open has an entry that says so.
pub(crate) proof fn dong_hoi_tu_thao_tac(s: HdV, a: AnhV, bat: bool, i: int)
    requires
        0 <= i < cac_muc(a).len(),
    ensures
        dang_hoi(s.dong_cua_anh(a, bat)[i]) ==> exists|x: int|
            0 <= x < s.thao_tac.len() && (#[trigger] s.thao_tac[x]).muc.id == cac_muc(a)[i].id
                && s.thao_tac[x].tt.hop_thoai(),
{
    let m = cac_muc(a)[i];
    assert(s.dong_cua_anh(a, bat)[i] == dong_theo(m, s.tt_cua(m.id), true, bat));
    vi_tri_la_dau(s.thao_tac, |x: MttV| x.muc.id == m.id, 0);
    if let Some(k) = s.dong_thao_tac(m.id) {
        assert(s.thao_tac[k].muc.id == m.id);
    }
}

/// What every line has to be where buttons do not work.
spec fn dong_tat(d: DongV) -> bool {
    !d.bat_nut && d.che_do != CheDo::XacNhanHuy && d.che_do != CheDo::XacNhanBo
}

proof fn chen_dong_tat(dong: Seq<DongV>, ds: Seq<MttV>, k: int)
    requires
        forall|i: int| 0 <= i < dong.len() ==> dong_tat(#[trigger] dong[i]),
        0 <= k < chen_dong(dong, ds, false).len(),
    ensures
        dong_tat(chen_dong(dong, ds, false)[k]),
    decreases ds.len(),
{
    if ds.len() > 0 {
        let d = chen_dong(dong, ds.drop_last(), false);
        let m = ds.last();
        let vt = if m.vi_tri <= d.len() {
            m.vi_tri as int
        } else {
            d.len() as int
        };
        if k < vt {
            chen_dong_tat(dong, ds.drop_last(), k);
        } else if k > vt {
            chen_dong_tat(dong, ds.drop_last(), k - 1);
        }
    }
}

/// Without a connection nothing can be withdrawn from the screen: no button works, no question is open, and
/// "withdraw all" offers nothing.
pub proof fn mat_ket_noi_khong_bam_duoc(s: HdV, ma: Option<MaSuCo>, t: u64)
    ensures
        s.khoi_cua(false, ma, t).so_huy_ca == 0,
        s.khoi_cua(false, ma, t).loat_che_do != 1,
        forall|i: int|
            0 <= i < s.khoi_cua(false, ma, t).dong.len() ==> !(#[trigger] s.khoi_cua(false, ma, t).dong[i]).bat_nut
                && s.khoi_cua(false, ma, t).dong[i].che_do != CheDo::XacNhanHuy && s.khoi_cua(false, ma, t).dong[i].che_do
                != CheDo::XacNhanBo,
{
    if s.anh is Some && s.ho_tro {
        let a = s.anh->0;
        let dong = s.dong_cua_anh(a, false);
        let ds = sap_theo_dong(s.con_lai());
        assert forall|i: int| 0 <= i < s.khoi_cua(false, ma, t).dong.len() implies dong_tat(
            #[trigger] s.khoi_cua(false, ma, t).dong[i],
        ) by {
            chen_dong_tat(dong, ds, i);
        }
    }
}

} // verus!
