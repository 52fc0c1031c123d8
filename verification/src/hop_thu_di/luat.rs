//! Which letters go out, which wait and which are dropped.
use crate::bao_cao::HoTro;
use crate::day::{giu, giu_dung};
use crate::hop_thu_di::{cat_tran, la_trang_thai, quyet, them_thu, CanHoTro, DuongV, QuyetGui, ThuV};
use vstd::prelude::*;
use vstd::string::*;

verus! {

/// A server takes a kind of letter exactly where it said that it understands that kind; what every server
/// understands is always taken.
pub proof fn duoc_theo_tung_loai(h: HoTro)
    ensures
        CanHoTro::KhongCan.duoc(h),
        CanHoTro::KhongRo.duoc(h) <==> h.khong_ro,
        CanHoTro::SuCo.duoc(h) <==> h.su_co,
        CanHoTro::TrangThaiMayIn.duoc(h) <==> h.trang_thai_may_in,
        CanHoTro::NhatKyApp.duoc(h) <==> h.nhat_ky_app,
        CanHoTro::HangDoi.duoc(h) <==> h.hang_doi,
{
}

/// Without a connection every letter waits. With one whose server has not spoken yet only what every server
/// understands is sent and the rest waits; once it has spoken, what it understands is sent and the rest dropped.
pub proof fn quyet_khi_nao(co: bool, ho_tro: Option<HoTro>, can: CanHoTro)
    ensures
        !co ==> quyet(co, ho_tro, can) == QuyetGui::XepHang,
        quyet(co, ho_tro, can) == QuyetGui::GuiNgay <==> co && (can == CanHoTro::KhongCan || (ho_tro matches Some(h) && can.duoc(
            h,
        ))),
        quyet(co, ho_tro, can) == QuyetGui::Bo <==> co && (ho_tro matches Some(h) && !can.duoc(h)),
        quyet(co, ho_tro, can) == QuyetGui::XepHang <==> !co || (ho_tro is None && can != CanHoTro::KhongCan),
{
}

/// A new letter comes last in the box. Nothing else moves, but that a state of the printer takes the place of an
/// older one.
pub proof fn thu_moi_xep_cuoi(ds: Seq<ThuV>, thu: ThuV, x: ThuV)
    ensures
        them_thu(ds, thu).len() > 0,
        them_thu(ds, thu).last() == thu,
        thu.su_kien != "trang-thai-may-in"@ ==> them_thu(ds, thu).drop_last() == ds,
        thu.su_kien == "trang-thai-may-in"@ ==> (them_thu(ds, thu).drop_last().contains(x) <==> ds.contains(x) && x.su_kien
            != "trang-thai-may-in"@),
{
    let p = |t: ThuV| !la_trang_thai(t);
    giu_dung(ds, p);
    assert(ds.push(thu).drop_last() =~= ds);
    let g = giu(ds, p);
    assert(g.push(thu).drop_last() =~= g);
    if ds.contains(x) && x.su_kien != "trang-thai-may-in"@ {
        let i = choose|i: int| 0 <= i < ds.len() && ds[i] == x;
        assert(p(ds[i]));
    }
    if g.contains(x) {
        let i = choose|i: int| 0 <= i < g.len() && g[i] == x;
        assert(p(g[i]));
    }
}

/// The box holds two hundred letters: of more, the oldest go, and the rest keep their order.
pub proof fn hop_giu_thu_moi(ds: Seq<ThuV>, i: int)
    ensures
        cat_tran(ds).len() == (if ds.len() > 200 {
            200
        } else {
            ds.len()
        }),
        0 <= i < cat_tran(ds).len() ==> cat_tran(ds)[i] == ds[ds.len() - cat_tran(ds).len() + i],
{
}

/// The present connection can be asked exactly where there is one whose server understands; else it is told
/// which of the two is missing.
pub proof fn vi_sao_khong_hoi_duoc<C>(d: DuongV<C>, can: CanHoTro)
    ensures
        d.vi_sao_khong(can) is None <==> d.hieu(can),
        d.hieu(can) <==> d.cong is Some && (d.ho_tro matches Some(h) && can.duoc(h)),
        d.cong is None ==> d.vi_sao_khong(can) == Some("chua ket noi"@),
        d.cong is Some && !d.hieu(can) ==> d.vi_sao_khong(can) == Some("backend chua ho tro"@),
{
}

/// Handing a letter over writes it down with the connection's answer and changes nothing in the box; putting one
/// in the box hands nothing over.
pub proof fn gui_va_cat_khong_lan<C>(d: DuongV<C>, thu: ThuV, dap: Result<(), Seq<char>>)
    ensures
        d.da_gui(thu, dap).hop_thu == d.hop_thu,
        d.da_gui(thu, dap).vet.len() == d.vet.len() + 1,
        d.da_gui(thu, dap).vet.last().su_kien == thu.su_kien,
        d.da_gui(thu, dap).vet.last().gia_tri == thu.gia_tri,
        d.da_gui(thu, dap).vet.last().dap is Ok <==> dap is Ok,
        d.da_cat(thu).vet == d.vet,
        d.da_cat(thu).hop_thu.len() > 0,
        d.da_cat(thu).hop_thu.last() == thu,
        d.da_cat(thu).cong == d.cong && d.da_cat(thu).ho_tro == d.ho_tro,
{
    thu_moi_xep_cuoi(d.hop_thu, thu, thu);
    let x = them_thu(d.hop_thu, thu);
    hop_giu_thu_moi(x, cat_tran(x).len() - 1);
}

} // verus!
