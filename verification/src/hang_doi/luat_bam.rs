//! What pressing a button comes to: when its question opens, and what the screen then shows.
use crate::bao_cao::{AnhV, MucV};
use crate::chu;
use crate::day::{giu_dung, giu_het, vi_tri_la_dau};
use crate::hang_doi::khoi::{chen_dong, dong_theo, sap_theo_dong, CheDo, DongV, KhoiV};
use crate::hang_doi::luat::{chen_dong_khong_giu, con_lai_dung, dang_hoi, dong_hoi_tu_thao_tac};
use crate::hang_doi::{
    cac_muc, cap_hop_le, chua_xac_nhan_cua, da_qua, dong_het_hop_le, huy_duoc_cua, sau_mo_hop_le, HdV, LoaiViec, LoatV,
    MttV, ThaoTacV, CHONG_BAM_DUP_MS,
};
use crate::su_co::MaSuCo;
use vstd::prelude::*;

verus! {

/// A line that shows a request under way, or one just done.
pub open spec fn dong_ban(d: DongV) -> bool {
    d.che_do == CheDo::Dang || d.che_do == CheDo::DaHuy || d.che_do == CheDo::DaBo
}

/// Every line is that of an invoice in the queue, or that of an entry which has left it.
pub(crate) proof fn chen_dong_nguon(dong: Seq<DongV>, ds: Seq<MttV>, bat: bool, k: int)
    requires
        0 <= k < chen_dong(dong, ds, bat).len(),
    ensures
        (exists|i: int| 0 <= i < dong.len() && #[trigger] dong[i] == chen_dong(dong, ds, bat)[k]) || (exists|i: int|
            0 <= i < ds.len() && dong_theo((#[trigger] ds[i]).muc, Some(ds[i].tt), false, bat) == chen_dong(dong, ds, bat)[k]),
    decreases ds.len(),
{
    let r = chen_dong(dong, ds, bat)[k];
    if ds.len() == 0 {
        assert(dong[k] == r);
    } else {
        let truoc = ds.drop_last();
        let d = chen_dong(dong, truoc, bat);
        let m = ds[ds.len() - 1];
        let vt = if m.vi_tri <= d.len() {
            m.vi_tri as int
        } else {
            d.len() as int
        };
        if k == vt {
            assert(dong_theo(m.muc, Some(m.tt), false, bat) == r);
        } else {
            let j = if k < vt {
                k
            } else {
                k - 1
            };
            assert(d[j] == r);
            chen_dong_nguon(dong, truoc, bat, j);
            if exists|i: int| 0 <= i < truoc.len() && dong_theo((#[trigger] truoc[i]).muc, Some(truoc[i].tt), false, bat) == r {
                let i = choose|i: int|
                    0 <= i < truoc.len() && dong_theo((#[trigger] truoc[i]).muc, Some(truoc[i].tt), false, bat) == r;
                assert(ds[i] == truoc[i]);
            }
        }
    }
}

/// A line of an invoice that is in the queue shows what goes on with that invoice.
proof fn dong_cua_muc(s: HdV, da_noi: bool, ma: Option<MaSuCo>, t: u64, k: int)
    requires
        s.ho_tro,
        s.anh is Some,
        0 <= k < s.khoi_cua(da_noi, ma, t).dong.len(),
        s.dong_trong_anh(s.khoi_cua(da_noi, ma, t).dong[k].id) is Some,
    ensures
        exists|i: int|
            0 <= i < cac_muc(s.anh->0).len() && s.khoi_cua(da_noi, ma, t).dong[k] == dong_theo(
                #[trigger] cac_muc(s.anh->0)[i],
                s.tt_cua(cac_muc(s.anh->0)[i].id),
                true,
                s.bam_duoc(da_noi),
            ),
{
    let a = s.anh->0;
    let bat = s.bam_duoc(da_noi);
    let dong = s.dong_cua_anh(a, bat);
    let ds = sap_theo_dong(s.con_lai());
    let r = s.khoi_cua(da_noi, ma, t).dong[k];
    chen_dong_nguon(dong, ds, bat, k);
    if exists|i: int| 0 <= i < dong.len() && #[trigger] dong[i] == r {
        let i = choose|i: int| 0 <= i < dong.len() && #[trigger] dong[i] == r;
        let m = cac_muc(a)[i];
        assert(r == dong_theo(m, s.tt_cua(m.id), true, bat));
    } else {
        let i = choose|i: int| 0 <= i < ds.len() && dong_theo((#[trigger] ds[i]).muc, Some(ds[i].tt), false, bat) == r;
        con_lai_dung(s, i);
    }
}

/// Where no entry of `s` but that of `id` is a question, only lines of `id` show one.
proof fn dong_hoi_chi_cua(s: HdV, da_noi: bool, ma: Option<MaSuCo>, t: u64, id: Seq<char>, k: int)
    requires
        forall|i: int| 0 <= i < s.thao_tac.len() && (#[trigger] s.thao_tac[i]).tt.hop_thoai() ==> s.thao_tac[i].muc.id == id,
        0 <= k < s.khoi_cua(da_noi, ma, t).dong.len(),
        dang_hoi(s.khoi_cua(da_noi, ma, t).dong[k]),
    ensures
        s.khoi_cua(da_noi, ma, t).dong[k].id == id,
        exists|i: int| 0 <= i < s.thao_tac.len() && (#[trigger] s.thao_tac[i]).tt.hop_thoai(),
{
    let a = s.anh->0;
    let bat = s.bam_duoc(da_noi);
    let dong = s.dong_cua_anh(a, bat);
    let ds = sap_theo_dong(s.con_lai());
    let r = s.khoi_cua(da_noi, ma, t).dong[k];
    chen_dong_nguon(dong, ds, bat, k);
    if exists|i: int| 0 <= i < dong.len() && #[trigger] dong[i] == r {
        let i = choose|i: int| 0 <= i < dong.len() && #[trigger] dong[i] == r;
        dong_hoi_tu_thao_tac(s, a, bat, i);
    } else {
        let i = choose|i: int| 0 <= i < ds.len() && dong_theo((#[trigger] ds[i]).muc, Some(ds[i].tt), false, bat) == r;
        con_lai_dung(s, i);
    }
}

/// A line of an invoice in the queue shows a request under way, or one just done, exactly where the
/// invoice is busy.
pub proof fn dong_ban_la_dang_ban(s: HdV, da_noi: bool, ma: Option<MaSuCo>, t: u64, k: int)
    requires
        0 <= k < s.khoi_cua(da_noi, ma, t).dong.len(),
        s.dong_trong_anh(s.khoi_cua(da_noi, ma, t).dong[k].id) is Some,
    ensures
        dong_ban(s.khoi_cua(da_noi, ma, t).dong[k]) <==> s.dang_ban(s.khoi_cua(da_noi, ma, t).dong[k].id),
{
    dong_cua_muc(s, da_noi, ma, t, k);
}

/// The block shows `che_do` on the lines of the invoice, of which there is one, and no other line and no
/// batch shows a question or an explanation.
pub open spec fn chi_hoi(k: KhoiV, id: Seq<char>, che_do: CheDo) -> bool {
    &&& k.loat_che_do != 1
    &&& exists|i: int| 0 <= i < k.dong.len() && (#[trigger] k.dong[i]).id == id
    &&& forall|i: int| 0 <= i < k.dong.len() && (#[trigger] k.dong[i]).id == id ==> k.dong[i].che_do == che_do
    &&& forall|i: int| 0 <= i < k.dong.len() && dang_hoi(#[trigger] k.dong[i]) ==> k.dong[i].id == id
}

/// What the block shows of a question or an explanation that is open.
pub open spec fn che_do_hoi(tt: ThaoTacV) -> CheDo {
    match tt {
        ThaoTacV::XacNhanHuy { luc } => CheDo::XacNhanHuy,
        ThaoTacV::XacNhanBo { luc } => CheDo::XacNhanBo,
        _ => CheDo::ViSao,
    }
}

/// What was opened for an invoice is what goes on with it, and no other entry is a question.
proof fn mo_thi_la(s: HdV, id: Seq<char>, tt: ThaoTacV)
    requires
        s.hop_le(),
        tt.hop_thoai(),
        s.sau_mo(id, tt).1,
    ensures
        s.sau_mo(id, tt).0.tt_cua(id) == Some(tt),
        forall|i: int|
            0 <= i < s.sau_mo(id, tt).0.thao_tac.len() && (#[trigger] s.sau_mo(id, tt).0.thao_tac[i]).tt.hop_thoai()
                ==> s.sau_mo(id, tt).0.thao_tac[i].muc.id == id,
{
    let s1 = s.sau_mo(id, tt).0;
    sau_mo_hop_le(s, id, tt);
    vi_tri_la_dau(cac_muc(s.anh->0), |m: MucV| m.id == id, 0);
    let n = s1.thao_tac.len() - 1;
    assert(s1.thao_tac[n].muc.id == id && s1.thao_tac[n].tt == tt);
    vi_tri_la_dau(s1.thao_tac, |m: MttV| m.muc.id == id, 0);
    assert((|m: MttV| m.muc.id == id)(s1.thao_tac[n]));
    let x = s1.dong_thao_tac(id)->0;
    if x < n {
        assert(cap_hop_le(s1.thao_tac[x], s1.thao_tac[n]));
    }
    assert forall|i: int| 0 <= i < s1.thao_tac.len() && (#[trigger] s1.thao_tac[i]).tt.hop_thoai() implies s1.thao_tac[i].muc.id
        == id by {
        if i < n {
            assert(cap_hop_le(s1.thao_tac[i], s1.thao_tac[n]));
        }
    }
}

/// Opening a question or an explanation shows it on its line, and no other anywhere.
proof fn mo_thi_chi_hoi(s: HdV, id: Seq<char>, tt: ThaoTacV, da_noi: bool, ma: Option<MaSuCo>, t: u64)
    requires
        s.hop_le(),
        s.ho_tro,
        tt.hop_thoai(),
        tt is ViSao || s.bam_duoc(da_noi),
        s.sau_mo(id, tt).1,
    ensures
        chi_hoi(s.sau_mo(id, tt).0.khoi_cua(da_noi, ma, t), id, che_do_hoi(tt)),
{
    let s1 = s.sau_mo(id, tt).0;
    let a = s.anh->0;
    mo_thi_la(s, id, tt);
    vi_tri_la_dau(cac_muc(a), |m: MucV| m.id == id, 0);
    let v = s.dong_trong_anh(id)->0;
    let k = s1.khoi_cua(da_noi, ma, t);
    assert forall|i: int| 0 <= i < k.dong.len() && (#[trigger] k.dong[i]).id == id implies k.dong[i].che_do == che_do_hoi(
        tt,
    ) by {
        assert(s1.dong_trong_anh(id) is Some);
        dong_cua_muc(s1, da_noi, ma, t, i);
    }
    assert forall|i: int| 0 <= i < k.dong.len() && dang_hoi(#[trigger] k.dong[i]) implies k.dong[i].id == id by {
        dong_hoi_chi_cua(s1, da_noi, ma, t, id, i);
    }
    let bat = s1.bam_duoc(da_noi);
    let dong = s1.dong_cua_anh(a, bat);
    let ds = sap_theo_dong(s1.con_lai());
    let p = |d: DongV| d.id == id;
    assert forall|i: int| 0 <= i < ds.len() implies !p(dong_theo((#[trigger] ds[i]).muc, Some(ds[i].tt), false, bat)) by {
        con_lai_dung(s1, i);
    }
    chen_dong_khong_giu(dong, ds, bat, p);
    giu_dung(dong, p);
    giu_dung(k.dong, p);
    assert(dong[v].id == id);
    assert(p(dong[v]));
    let i = choose|i: int| 0 <= i < k.dong.len() && k.dong[i] == dong[v];
    assert(k.dong[i].id == id);
}

/// "Withdraw" on a line opens its question exactly where buttons work, the invoice can be withdrawn and
/// nothing is under way or just done with it; else nothing changes. The invoice then shows the question,
/// and no other line and no batch does.
pub proof fn bam_huy_mo_dung_mot_cau_hoi(s: HdV, id: Seq<char>, da_noi: bool, luc: u64, ma: Option<MaSuCo>, t: u64)
    requires
        s.hop_le(),
    ensures
        s.sau_bam_huy(id, da_noi, luc).1 <==> s.bam_duoc(da_noi) && (s.muc_cua(id) matches Some(m) && huy_duoc_cua(m))
            && !s.dang_ban(id),
        !s.sau_bam_huy(id, da_noi, luc).1 ==> s.sau_bam_huy(id, da_noi, luc).0 == s,
        s.sau_bam_huy(id, da_noi, luc).1 ==> chi_hoi(
            s.sau_bam_huy(id, da_noi, luc).0.khoi_cua(da_noi, ma, t),
            id,
            CheDo::XacNhanHuy,
        ),
{
    if s.sau_bam_huy(id, da_noi, luc).1 {
        mo_thi_chi_hoi(s, id, ThaoTacV::XacNhanHuy { luc }, da_noi, ma, t);
    }
}

/// "Take off the queue" opens its question exactly where buttons work, the invoice is one that was not
/// confirmed and nothing is under way or just done with it; else nothing changes. The invoice then shows
/// the question, and no other line and no batch does.
pub proof fn bam_bo_mo_dung_mot_cau_hoi(s: HdV, id: Seq<char>, da_noi: bool, luc: u64, ma: Option<MaSuCo>, t: u64)
    requires
        s.hop_le(),
    ensures
        s.sau_bam_bo(id, da_noi, luc).1 <==> s.bam_duoc(da_noi) && (s.muc_cua(id) matches Some(m) && chua_xac_nhan_cua(m))
            && !s.dang_ban(id),
        !s.sau_bam_bo(id, da_noi, luc).1 ==> s.sau_bam_bo(id, da_noi, luc).0 == s,
        s.sau_bam_bo(id, da_noi, luc).1 ==> chi_hoi(
            s.sau_bam_bo(id, da_noi, luc).0.khoi_cua(da_noi, ma, t),
            id,
            CheDo::XacNhanBo,
        ),
{
    if s.sau_bam_bo(id, da_noi, luc).1 {
        mo_thi_chi_hoi(s, id, ThaoTacV::XacNhanBo { luc }, da_noi, ma, t);
    }
}

/// "Why?" on a line opens the explanation, connected or not, exactly where the invoice cannot be withdrawn
/// and nothing is under way or just done with it; else nothing changes. The invoice then shows the
/// explanation, and no other line and no batch shows any.
pub proof fn bam_vi_sao_mo_giai_thich(s: HdV, id: Seq<char>, da_noi: bool, ma: Option<MaSuCo>, t: u64)
    requires
        s.hop_le(),
    ensures
        s.sau_bam_vi_sao(id).1 <==> (s.muc_cua(id) matches Some(m) && !huy_duoc_cua(m)) && !s.dang_ban(id),
        !s.sau_bam_vi_sao(id).1 ==> s.sau_bam_vi_sao(id).0 == s,
        s.sau_bam_vi_sao(id).1 && s.ho_tro ==> chi_hoi(
            s.sau_bam_vi_sao(id).0.khoi_cua(da_noi, ma, t),
            id,
            CheDo::ViSao,
        ),
{
    if s.sau_bam_vi_sao(id).1 && s.ho_tro {
        mo_thi_chi_hoi(s, id, ThaoTacV::ViSao, da_noi, ma, t);
    }
}

/// "Withdraw all" opens its question exactly where the screen offers it, that is where buttons work and
/// there is an invoice to withdraw, and no batch is under way; else nothing changes. The question then
/// names how many were offered, and no line shows another.
pub proof fn bam_huy_ca_mo_cau_hoi(s: HdV, da_noi: bool, luc: u64, ma: Option<MaSuCo>, t: u64)
    requires
        s.hop_le(),
    ensures
        s.sau_huy_ca(da_noi, luc).1 <==> s.bam_duoc(da_noi) && !(s.loat matches Some(LoatV::Dang { ids, xong, duoc }))
            && s.ids_huy_ca().len() > 0,
        s.sau_huy_ca(da_noi, luc).1 <==> s.khoi_cua(da_noi, ma, t).so_huy_ca > 0 && s.khoi_cua(da_noi, ma, t).loat_che_do
            != 2,
        !s.sau_huy_ca(da_noi, luc).1 ==> s.sau_huy_ca(da_noi, luc).0 == s,
        s.sau_huy_ca(da_noi, luc).1 ==> {
            let s1 = s.sau_huy_ca(da_noi, luc).0;
            let k = s1.khoi_cua(da_noi, ma, t);
            &&& s1.loat == Some(LoatV::XacNhan { ids: s.ids_huy_ca(), luc })
            &&& k.loat_che_do == 1
            &&& k.loat_nut == "Huỷ "@ + chu::thap_phan(s.khoi_cua(da_noi, ma, t).so_huy_ca) + " lệnh in"@
            &&& forall|i: int| 0 <= i < k.dong.len() ==> !dang_hoi(#[trigger] k.dong[i])
        },
{
    let (s1, duoc) = s.sau_huy_ca(da_noi, luc);
    if duoc {
        dong_het_hop_le(s);
        assert forall|i: int| 0 <= i < s1.thao_tac.len() implies !(#[trigger] s1.thao_tac[i]).tt.hop_thoai() by {
            assert(s.dong_het().thao_tac[i] == s1.thao_tac[i]);
        }
        let k = s1.khoi_cua(da_noi, ma, t);
        assert forall|i: int| 0 <= i < k.dong.len() implies !dang_hoi(#[trigger] k.dong[i]) by {
            if dang_hoi(k.dong[i]) {
                dong_hoi_chi_cua(s1, da_noi, ma, t, Seq::empty(), i);
            }
        }
    }
}

/// A second press right behind the first starts nothing: the question that "withdraw" opened can be answered
/// only once `CHONG_BAM_DUP_MS` has passed, and only with "withdraw". Once that was started, neither another
/// answer nor another "withdraw" does anything.
pub proof fn bam_dup_khong_bat_dau(s: HdV, id: Seq<char>, da_noi: bool, luc: u64, t: u64)
    requires
        s.hop_le(),
        s.sau_bam_huy(id, da_noi, luc).1,
    ensures
        ({
            let s1 = s.sau_bam_huy(id, da_noi, luc).0;
            let s2 = s1.doi_tt(s1.dong_thao_tac(id)->0, ThaoTacV::Dang { loai: LoaiViec::Huy, lan: 1, da_gui: 0 });
            &&& s1.duoc_bat_dau(id, LoaiViec::Huy, da_noi, t) <==> da_qua(luc, t) >= CHONG_BAM_DUP_MS
            &&& !s1.duoc_bat_dau(id, LoaiViec::BoTheoDoi, da_noi, t)
            &&& forall|loai: LoaiViec, noi: bool, sau: u64| !#[trigger] s2.duoc_bat_dau(id, loai, noi, sau)
            &&& forall|noi: bool, sau: u64| !(#[trigger] s2.sau_bam_huy(id, noi, sau)).1
        }),
{
    let tt = ThaoTacV::XacNhanHuy { luc };
    let s1 = s.sau_bam_huy(id, da_noi, luc).0;
    mo_thi_la(s, id, tt);
    let x = s1.dong_thao_tac(id)->0;
    let dang = ThaoTacV::Dang { loai: LoaiViec::Huy, lan: 1, da_gui: 0 };
    let s2 = s1.doi_tt(x, dang);
    let p = |m: MttV| m.muc.id == id;
    vi_tri_la_dau(s1.thao_tac, p, 0);
    vi_tri_la_dau(s2.thao_tac, p, 0);
    assert(p(s2.thao_tac[x]));
    let y = s2.dong_thao_tac(id)->0;
    assert(p(s2.thao_tac[y]));
    if y < x {
        assert(s2.thao_tac[y] == s1.thao_tac[y]);
        assert(!p(s1.thao_tac[y]));
    }
    assert(s2.tt_cua(id) == Some(dang));
}

/// On a new connection nothing can be pressed and no question is open, until the queue has come over it.
pub proof fn ket_noi_moi_cho_anh_moi(s: HdV, da_noi: bool, anh: AnhV, t: u64)
    requires
        s.hop_le(),
    ensures
        ({
            let s1 = HdV { cua_ket_noi_nay: false, ..s.dong_het() };
            &&& !s1.bam_duoc(da_noi)
            &&& !(s1.loat matches Some(LoatV::XacNhan { ids, luc }))
            &&& forall|i: int| 0 <= i < s1.thao_tac.len() ==> !(#[trigger] s1.thao_tac[i]).tt.hop_thoai()
            &&& s1.sau_anh(anh, t).bam_duoc(da_noi) <==> da_noi && s.ho_tro
        }),
{
    dong_het_hop_le(s);
    let s1 = HdV { cua_ket_noi_nay: false, ..s.dong_het() };
    assert forall|i: int| 0 <= i < s1.thao_tac.len() implies !(#[trigger] s1.thao_tac[i]).tt.hop_thoai() by {
        assert(s.dong_het().thao_tac[i] == s1.thao_tac[i]);
    }
}

/// Tidying up takes away just what was done and has been shown long enough; a failure and a request without a
/// reply stay until they are closed. Tidying up once more at the same time takes nothing more.
pub proof fn don_dep_chi_bo_viec_da_xong(s: HdV, t: u64)
    ensures
        forall|m: MttV| #[trigger]
            s.sau_don_dep(t).thao_tac.contains(m) <==> s.thao_tac.contains(m) && HdV::con_hien(m, t),
        forall|m: MttV| s.thao_tac.contains(m) && !(m.tt is Xong) ==> #[trigger] s.sau_don_dep(t).thao_tac.contains(m),
        s.loat matches Some(LoatV::Xong { tong, duoc, luc }) ==> duoc < tong ==> s.sau_don_dep(t).loat == s.loat,
        s.sau_don_dep(t).sau_don_dep(t) == s.sau_don_dep(t),
{
    let p = |m: MttV| HdV::con_hien(m, t);
    let s1 = s.sau_don_dep(t);
    giu_dung(s.thao_tac, p);
    assert forall|m: MttV| s.thao_tac.contains(m) && HdV::con_hien(m, t) implies #[trigger] s1.thao_tac.contains(m) by {
        let i = choose|i: int| 0 <= i < s.thao_tac.len() && s.thao_tac[i] == m;
        assert(p(s.thao_tac[i]));
    }
    assert forall|m: MttV| #[trigger] s1.thao_tac.contains(m) implies s.thao_tac.contains(m) && HdV::con_hien(m, t) by {
        let i = choose|i: int| 0 <= i < s1.thao_tac.len() && s1.thao_tac[i] == m;
        assert(p(s1.thao_tac[i]));
    }
    giu_het(s1.thao_tac, p);
}

/// Closing takes away what is shown of this invoice and of no other, and never what is under way or just done.
pub proof fn dong_chi_cua_hoa_don(s: HdV, id: Seq<char>)
    ensures
        s.sau_dong(id).loat == s.loat,
        forall|m: MttV| #[trigger]
            s.sau_dong(id).thao_tac.contains(m) <==> s.thao_tac.contains(m) && (m.muc.id != id || m.tt.ban()),
{
    let p = |m: MttV| m.muc.id != id || m.tt.ban();
    let s1 = s.sau_dong(id);
    giu_dung(s.thao_tac, p);
    assert forall|m: MttV| s.thao_tac.contains(m) && (m.muc.id != id || m.tt.ban()) implies #[trigger] s1.thao_tac.contains(
        m,
    ) by {
        let i = choose|i: int| 0 <= i < s.thao_tac.len() && s.thao_tac[i] == m;
        assert(p(s.thao_tac[i]));
    }
    assert forall|m: MttV| #[trigger] s1.thao_tac.contains(m) implies s.thao_tac.contains(m) && (m.muc.id != id
        || m.tt.ban()) by {
        let i = choose|i: int| 0 <= i < s1.thao_tac.len() && s1.thao_tac[i] == m;
        assert(p(s1.thao_tac[i]));
    }
}

} // verus!
