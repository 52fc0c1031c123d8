//! How the screen of the queue changes with the server's messages, with answers and with time.
use crate::bao_cao::{AnhV, MucV};
use crate::day::{giu, giu_dung, vi_tri_la_dau};
use crate::hang_doi::{
    cac_muc, chua_xac_nhan_cua, con_huy_duoc, da_qua, huy_duoc_cua, sau_ket_cuc, HdV, KetCucV, LoaiViec, LoatV, MttV, ThaoTacV,
};
use vstd::prelude::*;
use vstd::string::*;

verus! {

/// An invoice can be withdrawn exactly where it waits and the server is certain of it; it counts as not confirmed
/// where the server lists it so or its state is open.
pub proof fn huy_duoc_khi_nao(m: MucV)
    ensures
        huy_duoc_cua(m) <==> m.trang_thai == "cho_in"@ && m.huy == "chac_chan"@,
        chua_xac_nhan_cua(m) <==> m.trang_thai == "khong_ro"@ || m.nhom == "chua_xac_nhan"@,
        huy_duoc_cua(m) && m.nhom != "chua_xac_nhan"@ ==> !chua_xac_nhan_cua(m),
{
    reveal_strlit("cho_in");
    reveal_strlit("khong_ro");
    assert("cho_in"@.len() == 6 && "khong_ro"@.len() == 8);
}

/// Buttons work exactly where the app is connected, the server tells of the queue, and the queue came over this
/// connection.
pub proof fn bam_duoc_khi_nao(s: HdV, da_noi: bool)
    ensures
        s.bam_duoc(da_noi) <==> da_noi && s.ho_tro && s.cua_ket_noi_nay && s.anh is Some,
{
}

/// The time that has passed is what lies between the two, and none where the clock went back.
pub proof fn thoi_gian_da_qua(tu: u64, den: u64)
    ensures
        tu <= den ==> da_qua(tu, den) == den - tu,
        den < tu ==> da_qua(tu, den) == 0,
{
}

/// What was done is shown for a while and then goes away by itself: a withdrawal for five seconds, taking off the
/// queue for eight; whatever else goes on stays. A batch that succeeded is summed up for six seconds, one that did
/// not stays.
pub proof fn hien_bao_lau(s: HdV, m: MttV, t: u64)
    ensures
        m.tt matches ThaoTacV::Xong { loai, luc, noi_dung } ==> (HdV::con_hien(m, t) <==> t < luc + (if loai == LoaiViec::Huy {
            5_000int
        } else {
            8_000int
        })),
        !(m.tt is Xong) ==> HdV::con_hien(m, t),
        s.loat matches Some(LoatV::Xong { tong, duoc, luc }) ==> (s.sau_don_dep(t).loat is None <==> duoc == tong && t >= luc
            + 6_000),
        s.sau_don_dep(t).loat is Some ==> s.sau_don_dep(t).loat == s.loat,
        !(s.loat matches Some(LoatV::Xong { tong, duoc, luc })) ==> s.sau_don_dep(t).loat == s.loat,
        s.sau_don_dep(t).anh == s.anh,
{
}

/// A new queue takes the place of the old one and is of this connection. A question about an invoice stays only
/// while the new queue still has it as what the question is about; whatever is under way, done or failed stays.
pub proof fn anh_moi_giu_gi(s: HdV, anh: AnhV, t: u64, m: MttV)
    requires
        s.thao_tac.contains(m),
    ensures
        s.sau_anh(anh, t).anh == Some(anh) && s.sau_anh(anh, t).luc_nhan == Some(t) && s.sau_anh(anh, t).cua_ket_noi_nay,
        s.sau_anh(anh, t).ho_tro == s.ho_tro,
        !m.tt.hop_thoai() ==> s.sau_anh(anh, t).thao_tac.contains(m),
        m.tt is XacNhanHuy ==> (s.sau_anh(anh, t).thao_tac.contains(m) <==> (s.sau_anh(anh, t).muc_cua(m.muc.id) matches Some(x)
            && x.trang_thai == "cho_in"@ && x.huy == "chac_chan"@)),
        m.tt is XacNhanBo ==> (s.sau_anh(anh, t).thao_tac.contains(m) <==> (s.sau_anh(anh, t).muc_cua(m.muc.id) matches Some(x) && (
        x.trang_thai == "khong_ro"@ || x.nhom == "chua_xac_nhan"@))),
        m.tt is ViSao ==> (s.sau_anh(anh, t).thao_tac.contains(m) <==> (s.sau_anh(anh, t).muc_cua(m.muc.id) matches Some(x) && !(
        x.trang_thai == "cho_in"@ && x.huy == "chac_chan"@))),
{
    let s1 = HdV { anh: Some(anh), luc_nhan: Some(t), cua_ket_noi_nay: true, ..s };
    let p = |x: MttV| s1.con_ap_dung(x);
    giu_dung(s.thao_tac, p);
    let g = giu(s.thao_tac, p);
    assert(s.sau_anh(anh, t).thao_tac == g);
    assert(s.sau_anh(anh, t).muc_cua(m.muc.id) == s1.muc_cua(m.muc.id));
    let i = choose|i: int| 0 <= i < s.thao_tac.len() && s.thao_tac[i] == m;
    assert(p(s.thao_tac[i]) ==> g.contains(m));
    if g.contains(m) {
        let k = choose|k: int| 0 <= k < g.len() && g[k] == m;
        assert(p(g[k]));
    }
}

/// The question of a batch stays with those of its invoices that the new queue still has as certain to be
/// withdrawn, and closes where none is left; a batch under way, or summed up, stays.
pub proof fn anh_moi_va_loat(s: HdV, anh: AnhV, t: u64, id: Seq<char>)
    ensures
        s.loat matches Some(LoatV::XacNhan { ids, luc }) ==> (s.sau_anh(anh, t).loat matches Some(LoatV::XacNhan {
            ids: con,
            luc: luc1,
        }) ==> luc1 == luc && con.len() > 0 && (con.contains(id) <==> ids.contains(id) && con_huy_duoc(anh, id))),
        s.loat matches Some(LoatV::XacNhan { ids, luc }) ==> (s.sau_anh(anh, t).loat is None ==> !(ids.contains(id) && con_huy_duoc(
            anh,
            id,
        ))),
        s.loat is Some && s.sau_anh(anh, t).loat is Some ==> (s.loat->0 is XacNhan <==> s.sau_anh(anh, t).loat->0 is XacNhan),
        !(s.loat matches Some(LoatV::XacNhan { ids, luc })) ==> s.sau_anh(anh, t).loat == s.loat,
{
    if let Some(LoatV::XacNhan { ids, luc }) = s.loat {
        let p = |x: Seq<char>| con_huy_duoc(anh, x);
        giu_dung(ids, p);
        let g = giu(ids, p);
        if ids.contains(id) && con_huy_duoc(anh, id) {
            let i = choose|i: int| 0 <= i < ids.len() && ids[i] == id;
            assert(p(ids[i]));
            assert(g.contains(id));
        }
        if g.contains(id) {
            let i = choose|i: int| 0 <= i < g.len() && g[i] == id;
            assert(p(g[i]));
        }
    }
}

/// A server that does not tell of the queue leaves nothing to show but what is under way; one that does changes
/// nothing that is shown.
pub proof fn cau_hinh_doi_gi(s: HdV, m: MttV)
    ensures
        s.sau_cau_hinh(true) == (HdV { ho_tro: true, ..s }),
        !s.sau_cau_hinh(false).ho_tro && s.sau_cau_hinh(false).anh is None && s.sau_cau_hinh(false).loat is None,
        s.sau_cau_hinh(false).thao_tac.contains(m) <==> s.thao_tac.contains(m) && m.tt is Dang,
{
    let p = |x: MttV| x.tt is Dang;
    giu_dung(s.thao_tac, p);
    let g = giu(s.thao_tac, p);
    if s.thao_tac.contains(m) && m.tt is Dang {
        let i = choose|i: int| 0 <= i < s.thao_tac.len() && s.thao_tac[i] == m;
        assert(p(s.thao_tac[i]));
    }
    if g.contains(m) {
        let i = choose|i: int| 0 <= i < g.len() && g[i] == m;
        assert(p(g[i]));
    }
}

/// "Withdraw all" is about just the waiting invoices that are held back, can be withdrawn, and with which nothing
/// is under way or just done.
pub proof fn huy_ca_gom_gi(s: HdV, id: Seq<char>)
    ensures
        s.ids_huy_ca().contains(id) <==> (s.anh matches Some(a) && exists|i: int|
            0 <= i < a.cho_in.len() && (#[trigger] a.cho_in[i]).id == id && a.cho_in[i].tam_giu && a.cho_in[i].trang_thai == "cho_in"@
                && a.cho_in[i].huy == "chac_chan"@ && !s.dang_ban(id)),
{
    if let Some(a) = s.anh {
        let p = |m: MucV| m.tam_giu && huy_duoc_cua(m) && !s.dang_ban(m.id);
        giu_dung(a.cho_in, p);
        let g = giu(a.cho_in, p);
        let r = s.ids_huy_ca();
        assert(r == g.map_values(|m: MucV| m.id));
        if r.contains(id) {
            let k = choose|k: int| 0 <= k < r.len() && r[k] == id;
            assert(g[k].id == id);
            assert(p(g[k]));
            let i = choose|i: int| 0 <= i < a.cho_in.len() && a.cho_in[i] == g[k];
            assert(a.cho_in[i].id == id);
        }
        if exists|i: int|
            0 <= i < a.cho_in.len() && (#[trigger] a.cho_in[i]).id == id && a.cho_in[i].tam_giu && a.cho_in[i].trang_thai == "cho_in"@
                && a.cho_in[i].huy == "chac_chan"@ && !s.dang_ban(id) {
            let i = choose|i: int|
                0 <= i < a.cho_in.len() && (#[trigger] a.cho_in[i]).id == id && a.cho_in[i].tam_giu && a.cho_in[i].trang_thai
                    == "cho_in"@ && a.cho_in[i].huy == "chac_chan"@ && !s.dang_ban(id);
            assert(p(a.cho_in[i]));
            assert(g.contains(a.cho_in[i]));
            let k = choose|k: int| 0 <= k < g.len() && g[k] == a.cho_in[i];
            assert(r[k] == id);
        }
    }
}

/// The answer to a question counts exactly where buttons work, the question is open for this invoice and of this
/// kind, and half a second has passed since it was put.
pub proof fn tra_loi_cau_hoi_khi_nao(s: HdV, id: Seq<char>, da_noi: bool, t: u64)
    ensures
        s.duoc_bat_dau(id, LoaiViec::Huy, da_noi, t) <==> s.bam_duoc(da_noi) && (s.tt_cua(id) matches Some(ThaoTacV::XacNhanHuy {
            luc,
        }) && t >= luc + 500),
        s.duoc_bat_dau(id, LoaiViec::BoTheoDoi, da_noi, t) <==> s.bam_duoc(da_noi) && (s.tt_cua(id) matches Some(
            ThaoTacV::XacNhanBo { luc },
        ) && t >= luc + 500),
{
}

/// The end of a request changes just what is shown of its invoice, and only where a request for it was under way:
/// the queue, the other invoices and, but for a withdrawal, the batch stay.
pub proof fn ket_thuc_chi_doi_mot_dong(s: HdV, id: Seq<char>, loai: LoaiViec, kc: KetCucV, t: u64, k: int)
    requires
        0 <= k < s.thao_tac.len(),
    ensures
        s.sau_ket_thuc(id, loai, kc, t).anh == s.anh,
        s.sau_ket_thuc(id, loai, kc, t).thao_tac.len() == s.thao_tac.len(),
        s.sau_ket_thuc(id, loai, kc, t).thao_tac[k].muc == s.thao_tac[k].muc,
        s.thao_tac[k].muc.id != id ==> s.sau_ket_thuc(id, loai, kc, t).thao_tac[k] == s.thao_tac[k],
        !(s.tt_cua(id) matches Some(ThaoTacV::Dang { loai: l, lan, da_gui })) ==> s.sau_ket_thuc(id, loai, kc, t) == s,
        (s.tt_cua(id) matches Some(ThaoTacV::Dang { loai: l, lan, da_gui })) ==> s.sau_ket_thuc(id, loai, kc, t).thao_tac[
            s.dong_thao_tac(id)->0
        ].tt == sau_ket_cuc(loai, kc, t),
        loai == LoaiViec::BoTheoDoi ==> s.sau_ket_thuc(id, loai, kc, t).loat == s.loat,
{
    vi_tri_la_dau(s.thao_tac, |m: MttV| m.muc.id == id, 0);
}

/// A batch counts each of its invoices that came to an end, and as withdrawn just those the server withdrew; it is
/// over exactly with the last. An invoice that is not its own changes nothing.
pub proof fn loat_dem_dung(s: HdV, id: Seq<char>, duoc_huy: bool, t: u64)
    requires
        s.loat matches Some(LoatV::Dang { ids, xong, duoc }) && duoc <= xong && xong < ids.len() <= usize::MAX,
    ensures
        !s.loat->0->Dang_ids.contains(id) ==> s.loat_sau(id, duoc_huy, t) == s.loat,
        s.loat->0->Dang_ids.contains(id) ==> ({
            let ids = s.loat->0->Dang_ids;
            let xong = s.loat->0->Dang_xong + 1;
            let duoc = s.loat->0->Dang_duoc + (if duoc_huy {
                1int
            } else {
                0int
            });
            &&& xong < ids.len() ==> (s.loat_sau(id, duoc_huy, t) matches Some(LoatV::Dang { ids: i2, xong: x2, duoc: d2 }) && i2
                == ids && x2 == xong && d2 == duoc)
            &&& xong == ids.len() ==> (s.loat_sau(id, duoc_huy, t) matches Some(LoatV::Xong { tong, duoc: d2, luc }) && tong
                == ids.len() && d2 == duoc && luc == t)
        }),
{
}

/// Closing everything closes every question and explanation, that of the batch too, and nothing else.
pub proof fn dong_het_dong_gi(s: HdV, m: MttV)
    ensures
        s.dong_het().thao_tac.contains(m) <==> s.thao_tac.contains(m) && !(m.tt is XacNhanHuy) && !(m.tt is XacNhanBo) && !(
        m.tt is ViSao),
        (s.loat matches Some(LoatV::XacNhan { ids, luc })) ==> s.dong_het().loat is None,
        !(s.loat matches Some(LoatV::XacNhan { ids, luc })) ==> s.dong_het().loat == s.loat,
        s.dong_het().anh == s.anh && s.dong_het().ho_tro == s.ho_tro && s.dong_het().cua_ket_noi_nay == s.cua_ket_noi_nay,
{
    let p = |x: MttV| !x.tt.hop_thoai();
    giu_dung(s.thao_tac, p);
    let g = giu(s.thao_tac, p);
    if s.thao_tac.contains(m) && !m.tt.hop_thoai() {
        let i = choose|i: int| 0 <= i < s.thao_tac.len() && s.thao_tac[i] == m;
        assert(p(s.thao_tac[i]));
    }
    if g.contains(m) {
        let i = choose|i: int| 0 <= i < g.len() && g[i] == m;
        assert(p(g[i]));
    }
}

/// The entry of an invoice is the first with its id, those that wait before those not confirmed; there is one
/// exactly where the queue holds the id.
pub proof fn muc_cua_la_gi(s: HdV, id: Seq<char>, i: int)
    requires
        s.anh is Some,
        0 <= i < cac_muc(s.anh->0).len(),
    ensures
        s.muc_cua(id) matches Some(m) ==> m.id == id && cac_muc(s.anh->0).contains(m),
        cac_muc(s.anh->0)[i].id == id ==> s.muc_cua(id) is Some,
        cac_muc(s.anh->0) == s.anh->0.cho_in + s.anh->0.chua_xac_nhan,
{
    vi_tri_la_dau(cac_muc(s.anh->0), |m: MucV| m.id == id, 0);
    if let Some(k) = s.dong_trong_anh(id) {
        assert(cac_muc(s.anh->0)[k] == s.muc_cua(id)->0);
    }
}

} // verus!
