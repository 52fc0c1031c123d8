//! What the printer shows once a job has left the queue decides what is reported of it, in every run.
use crate::job::KetQuaInV;
use crate::spooler::bo_suy::{BoSuy, KetLuanV};
use crate::spooler::go_job::{go_dung, kiem_doc_dung, kiem_dung, tam_dung_dung, xoa_dung};
use crate::spooler::kieu::{
    KetQuaGoJobV, SO_LAN_DOC_MAY_IN_SAU_KHI_ROI, SO_LAN_KIEM_SAU_XOA, SO_LAN_USB_KHONG_THAY_IN, TrangThaiJob, VongDoc,
};
use crate::spooler::may_in::{bao_may_in_cua, chan_moi_cua, may_bao};
use crate::spooler::moi_truong::{cac_buoc_bao, Buoc};
use crate::spooler::sau_khi_roi::{
    sau_cac_lan, sau_khi_roi_theo_lan_doc, so_khong_loi, tung_bao, tung_co_usb, BoSauKhiRoi, SauKhiRoi,
};
use crate::spooler::theo_doi::{
    ket_qua_sau_roi, ket_thuc_dung, qua_han_usb, sau_roi_dung, theo_doi_dung, usb_nghia, xoa_roi_bao, TheoDoi,
};
use crate::su_co::{hon, MaSuCo, TapMa};
use crate::usb_may_in::TinhTrangUsb;
use vstd::prelude::*;

verus! {

/// The reading shows trouble of the printer that keeps jobs from printing and was not there before the job.
pub open spec fn tro_ngai_moi(v: VongDoc, nen: TapMa, m: MaSuCo) -> bool {
    may_bao(v, m) && m.chan_cap_may() && !nen.chua(m)
}

/// The device itself reports an error: the bit for "no error" is down.
pub open spec fn thiet_bi_loi(v: VongDoc) -> bool {
    v.usb matches Some(u) && u.byte & 0x08 == 0
}

/// The reading shows nothing that keeps the job from coming out.
pub open spec fn may_sach(v: VongDoc, nen: TapMa) -> bool {
    !thiet_bi_loi(v) && forall|m: MaSuCo| !#[trigger] tro_ngai_moi(v, nen, m)
}

/// New trouble is one of those in the reading, and the one that goes first; where there is none the reading
/// shows none.
pub proof fn chan_moi_dung(v: VongDoc, nen: TapMa)
    ensures
        chan_moi_cua(v, nen) matches Some(m) ==> tro_ngai_moi(v, nen, m),
        forall|m: MaSuCo| #[trigger]
            tro_ngai_moi(v, nen, m) ==> (chan_moi_cua(v, nen) matches Some(c) && crate::su_co::hang(c)
                <= crate::su_co::hang(m)),
{
}

/// The readings in a stretch of a trace, as far as the printer goes.
pub open spec fn cac_lan_doc(l: Seq<Buoc>, nen: TapMa) -> Seq<(Option<MaSuCo>, Option<TinhTrangUsb>)>
    decreases l.len(),
{
    if l.len() == 0 {
        Seq::empty()
    } else {
        let sau = cac_lan_doc(l.subrange(1, l.len() as int), nen);
        match l[0] {
            Buoc::DocVong(v) => seq![(chan_moi_cua(v, nen), usb_nghia(v))] + sau,
            _ => sau,
        }
    }
}

proof fn khong_doc_thi_rong(l: Seq<Buoc>, nen: TapMa)
    requires
        forall|k: int| 0 <= k < l.len() ==> !(#[trigger] l[k] is DocVong),
    ensures
        cac_lan_doc(l, nen).len() == 0,
    decreases l.len(),
{
    if l.len() > 0 {
        let d = l.subrange(1, l.len() as int);
        assert forall|k: int| 0 <= k < d.len() implies !(#[trigger] d[k] is DocVong) by {
            assert(d[k] == l[k + 1]);
        }
        assert(!(l[0] is DocVong));
        khong_doc_thi_rong(d, nen);
    }
}

proof fn doc_noi(a: Seq<Buoc>, b: Seq<Buoc>, nen: TapMa)
    ensures
        cac_lan_doc(a + b, nen) == cac_lan_doc(a, nen) + cac_lan_doc(b, nen),
    decreases a.len(),
{
    if a.len() == 0 {
        assert(a + b =~= b);
        assert(cac_lan_doc(a, nen) + cac_lan_doc(b, nen) =~= cac_lan_doc(b, nen));
    } else {
        let d = a.subrange(1, a.len() as int);
        doc_noi(d, b, nen);
        assert((a + b).subrange(1, (a + b).len() as int) =~= d + b);
        assert(cac_lan_doc(a + b, nen) =~= cac_lan_doc(a, nen) + cac_lan_doc(b, nen));
    }
}

/// The first exchanges of a round after the job has left hold one reading.
proof fn doc_mot_vong(l: Seq<Buoc>, m: int, v: VongDoc, nen: TapMa)
    requires
        2 <= m <= l.len(),
        !(l[0] is DocVong),
        l[1] == Buoc::DocVong(v),
        forall|k: int| 2 <= k < m ==> !(#[trigger] l[k] is DocVong),
    ensures
        cac_lan_doc(l, nen) == seq![(chan_moi_cua(v, nen), usb_nghia(v))] + cac_lan_doc(
            l.subrange(m, l.len() as int),
            nen,
        ),
{
    let d1 = l.subrange(1, l.len() as int);
    let d2 = d1.subrange(1, d1.len() as int);
    let a = l.subrange(2, m);
    let b = l.subrange(m, l.len() as int);
    assert(d2 =~= a + b);
    assert forall|k: int| 0 <= k < a.len() implies !(#[trigger] a[k] is DocVong) by {
        assert(a[k] == l[k + 2]);
    }
    khong_doc_thi_rong(a, nen);
    doc_noi(a, b, nen);
    assert(cac_lan_doc(a, nen) + cac_lan_doc(b, nen) =~= cac_lan_doc(b, nen));
    assert(d1[0] == l[1]);
    assert(cac_lan_doc(l, nen) == cac_lan_doc(d1, nen));
    assert(cac_lan_doc(d1, nen) == seq![(chan_moi_cua(v, nen), usb_nghia(v))] + cac_lan_doc(d2, nen));
}

/// What the readings after the job has left amount to is what the outcome says.
proof fn sau_roi_theo_lan_doc(b: BoSauKhiRoi, t0: u64, bo: BoSuy, l: Seq<Buoc>, kq: KetQuaInV)
    requires
        sau_roi_dung(b, t0, bo, l, kq),
    ensures
        cac_lan_doc(l, bo.nen).len() > 0,
        sau_cac_lan(b, cac_lan_doc(l, bo.nen).drop_last()).1 is None,
        ({
            let (b1, k) = sau_cac_lan(b, cac_lan_doc(l, bo.nen));
            match k {
                Some(SauKhiRoi::Sach) => kq is DaIn,
                Some(SauKhiRoi::SuCo(m)) => kq matches KetQuaInV::KhongRo(ly) && ly.loai == Some(m) && ly.ban_da_in is None,
                Some(SauKhiRoi::TrongMayInUsb(m)) => kq matches KetQuaInV::KhongRo(ly) && ly.loai == Some(m)
                    && ly.ban_da_in is None,
                Some(SauKhiRoi::UsbChuaXong) => kq matches KetQuaInV::KhongRo(ly) && ly.loai == Some(MaSuCo::KhongXacNhan)
                    && ly.ban_da_in is None,
                None => if b1.da_thay_usb {
                    kq matches KetQuaInV::KhongRo(ly) && ly.loai == Some(MaSuCo::KhongXacNhan) && ly.ban_da_in is None
                } else {
                    kq is DaIn
                },
            }
        }),
    decreases l.len(),
{
    reveal(sau_roi_dung);
    reveal(ket_qua_sau_roi);
    let v = l[1]->DocVong_0;
    let bao = cac_buoc_bao(bao_may_in_cua(v, bo.nen));
    let m = 2 + bao.len() as int;
    let (b1, k) = b.sau(chan_moi_cua(v, bo.nen), usb_nghia(v));
    let ds = cac_lan_doc(l, bo.nen);
    assert forall|i: int| 2 <= i < m implies !(#[trigger] l[i] is DocVong) by {
        assert(l.subrange(2, m)[i - 2] == l[i]);
    }
    doc_mot_vong(l, m, v, bo.nen);
    let con = l.subrange(m, l.len() as int);
    let dau: (Option<MaSuCo>, Option<TinhTrangUsb>) = (chan_moi_cua(v, bo.nen), usb_nghia(v));
    assert(ds[0] == dau);
    let dcon = cac_lan_doc(con, bo.nen);
    assert(ds.subrange(1, ds.len() as int) =~= dcon);
    let e = Seq::<(Option<MaSuCo>, Option<TinhTrangUsb>)>::empty();
    if k is Some {
        khong_doc_thi_rong(con, bo.nen);
        assert(ds.drop_last() =~= e);
    } else {
        let t = l[m]->BayGio_0;
        let d = l.subrange(m + 1, l.len() as int);
        assert(con[0] == l[m]);
        assert(con.subrange(1, con.len() as int) =~= d);
        assert(dcon == cac_lan_doc(d, bo.nen));
        if qua_han_usb(t0, t) {
            khong_doc_thi_rong(d, bo.nen);
            assert(ds.drop_last() =~= e);
            assert(dcon =~= e);
        } else {
            sau_roi_theo_lan_doc(b1, t0, bo, d, kq);
            assert(ds.drop_last()[0] == dau);
            assert(ds.drop_last().subrange(1, ds.drop_last().len() as int) =~= dcon.drop_last());
        }
    }
}

/// Every reading of the stretch is among its readings, in order.
proof fn doc_co_trong(l: Seq<Buoc>, nen: TapMa, k: int, v: VongDoc)
    requires
        0 <= k < l.len(),
        l[k] == Buoc::DocVong(v),
    ensures
        cac_lan_doc(l, nen).contains((chan_moi_cua(v, nen), usb_nghia(v))),
    decreases l.len(),
{
    let ds = cac_lan_doc(l, nen);
    let x = (chan_moi_cua(v, nen), usb_nghia(v));
    if k == 0 {
        assert(ds[0] == x);
    } else {
        let d = l.subrange(1, l.len() as int);
        doc_co_trong(d, nen, k - 1, v);
        let i = choose|i: int| 0 <= i < cac_lan_doc(d, nen).len() && cac_lan_doc(d, nen)[i] == x;
        if l[0] is DocVong {
            assert(ds[i + 1] == x);
        } else {
            assert(ds[i] == x);
        }
    }
}

/// Readings that settle nothing show no trouble.
proof fn khong_ket_thi_sach(b: BoSauKhiRoi, ds: Seq<(Option<MaSuCo>, Option<TinhTrangUsb>)>, i: int)
    requires
        sau_cac_lan(b, ds).1 is None,
        0 <= i < ds.len(),
    ensures
        ds[i].0 is None,
        !(ds[i].1 matches Some(TinhTrangUsb::Loi(_))),
    decreases ds.len(),
{
    reveal(BoSauKhiRoi::sau);
    if i > 0 {
        let d = ds.subrange(1, ds.len() as int);
        khong_ket_thi_sach(b.sau(ds[0].0, ds[0].1).0, d, i - 1);
        assert(d[i - 1] == ds[i]);
    }
}

/// A device that was seen in readings that settle nothing is remembered.
proof fn nho_thiet_bi(b: BoSauKhiRoi, ds: Seq<(Option<MaSuCo>, Option<TinhTrangUsb>)>)
    ensures
        sau_cac_lan(b, ds).1 is None ==> sau_cac_lan(b, ds).0.da_thay_usb == (b.da_thay_usb || tung_co_usb(ds)),
    decreases ds.len(),
{
    reveal(BoSauKhiRoi::sau);
    if ds.len() > 0 && sau_cac_lan(b, ds).1 is None {
        let d = ds.subrange(1, ds.len() as int);
        let b1 = b.sau(ds[0].0, ds[0].1).0;
        nho_thiet_bi(b1, d);
        if tung_co_usb(d) {
            let i = choose|i: int| 0 <= i < d.len() && (#[trigger] d[i]).1 is Some;
            assert(ds[i + 1].1 is Some);
        }
        if ds[0].1 is Some {
            assert(tung_co_usb(ds));
        }
        if tung_co_usb(ds) && !(ds[0].1 is Some) {
            let i = choose|i: int| 0 <= i < ds.len() && (#[trigger] ds[i]).1 is Some;
            assert(d[i - 1].1 is Some);
        }
    }
}

/// Once the job has left the queue, what the printer then shows decides:
/// - new trouble in a reading makes the outcome open, with that trouble as its code; an error of the device
///   likewise, with whichever of the two goes first;
/// - printed is the outcome only where no reading shows trouble, and a device that answered went from busy
///   to idle, or told neither and reported no error often enough;
/// - it is never "did not print".
pub proof fn sau_roi_nghia(t0: u64, bo: BoSuy, l: Seq<Buoc>, kq: KetQuaInV)
    requires
        sau_roi_dung(BoSauKhiRoi::dau(), t0, bo, l, kq),
    ensures
        !(kq is Loi),
        kq is DaIn ==> forall|k: int|
            0 <= k < l.len() ==> (#[trigger] l[k] matches Buoc::DocVong(v) ==> may_sach(v, bo.nen)),
        forall|k: int|
            0 <= k < l.len() ==> (#[trigger] l[k] matches Buoc::DocVong(v) ==> {
                &&& chan_moi_cua(v, bo.nen) matches Some(c) ==> !thiet_bi_loi(v) ==> (kq matches KetQuaInV::KhongRo(ly)
                    && ly.loai == Some(c))
                &&& thiet_bi_loi(v) ==> (kq matches KetQuaInV::KhongRo(ly) && ly.loai == Some(
                    match chan_moi_cua(v, bo.nen) {
                        Some(c) => hon(c, MaSuCo::CanXuLy),
                        None => MaSuCo::CanXuLy,
                    },
                ))
            }),
        kq is DaIn ==> ({
            let ds = cac_lan_doc(l, bo.nen);
            ||| !tung_co_usb(ds) && ds.len() <= SO_LAN_DOC_MAY_IN_SAU_KHI_ROI
            ||| ds.last().1 == Some(TinhTrangUsb::Ranh) && tung_bao(ds.drop_last(), TinhTrangUsb::DangIn)
            ||| !tung_bao(ds, TinhTrangUsb::DangIn) && !tung_bao(ds, TinhTrangUsb::Ranh) && so_khong_loi(ds)
                == SO_LAN_USB_KHONG_THAY_IN
        }),
{
    let b = BoSauKhiRoi::dau();
    let ds = cac_lan_doc(l, bo.nen);
    sau_roi_theo_lan_doc(b, t0, bo, l, kq);
    sau_khi_roi_theo_lan_doc(ds);
    nho_thiet_bi(b, ds);
    let d = ds.drop_last();
    assert(d.push(ds.last()) =~= ds);
    assert forall|k: int| 0 <= k < l.len() && (#[trigger] l[k] is DocVong) implies ({
        let v = l[k]->DocVong_0;
        let x = (chan_moi_cua(v, bo.nen), usb_nghia(v));
        &&& x == ds.last() || (x.0 is None && !(x.1 matches Some(TinhTrangUsb::Loi(_))))
        &&& thiet_bi_loi(v) == (x.1 matches Some(TinhTrangUsb::Loi(_)))
        &&& thiet_bi_loi(v) ==> x.1 == Some(TinhTrangUsb::Loi(MaSuCo::CanXuLy))
    }) by {
        let v = l[k]->DocVong_0;
        let x = (chan_moi_cua(v, bo.nen), usb_nghia(v));
        doc_co_trong(l, bo.nen, k, v);
        let i = choose|i: int| 0 <= i < ds.len() && ds[i] == x;
        if i < ds.len() - 1 {
            assert(d[i] == x);
            khong_ket_thi_sach(b, d, i);
        }
    }
    cuoi_co_tro_ngai(b, ds);
    assert forall|k: int| 0 <= k < l.len() && kq is DaIn implies (#[trigger] l[k] matches Buoc::DocVong(v) ==> may_sach(
        v,
        bo.nen,
    )) by {
        if l[k] is DocVong {
            chan_moi_dung(l[k]->DocVong_0, bo.nen);
        }
    }
    if kq is DaIn && sau_cac_lan(b, ds).1 is None {
        it_lan_doc(ds);
    }
}

/// What the last reading of a run settles where it shows trouble.
proof fn cuoi_co_tro_ngai(b: BoSauKhiRoi, ds: Seq<(Option<MaSuCo>, Option<TinhTrangUsb>)>)
    requires
        ds.len() > 0,
        sau_cac_lan(b, ds.drop_last()).1 is None,
    ensures
        ({
            let k = sau_cac_lan(b, ds).1;
            let x = ds.last();
            &&& x.1 matches Some(TinhTrangUsb::Loi(ma)) ==> k == Some(
                SauKhiRoi::TrongMayInUsb(
                    match x.0 {
                        Some(m) => hon(m, ma),
                        None => ma,
                    },
                ),
            )
            &&& (x.0 is Some && !(x.1 matches Some(TinhTrangUsb::Loi(_)))) ==> k == Some(SauKhiRoi::SuCo(x.0->0)) || k == Some(
                SauKhiRoi::TrongMayInUsb(x.0->0),
            )
        }),
    decreases ds.len(),
{
    reveal(BoSauKhiRoi::sau);
    let d = ds.subrange(1, ds.len() as int);
    if ds.len() > 1 {
        let b1 = b.sau(ds[0].0, ds[0].1).0;
        assert(ds.drop_last()[0] == ds[0]);
        assert(ds.drop_last().subrange(1, ds.drop_last().len() as int) =~= d.drop_last());
        assert(b.sau(ds[0].0, ds[0].1).1 is None);
        cuoi_co_tro_ngai(b1, d);
        assert(d.last() == ds.last());
    } else {
        assert(ds[0] == ds.last());
        assert(d.len() == 0);
    }
}

/// Without a device, readings that settle nothing are fewer than those after which it is settled.
proof fn it_lan_doc(ds: Seq<(Option<MaSuCo>, Option<TinhTrangUsb>)>)
    requires
        sau_cac_lan(BoSauKhiRoi::dau(), ds).1 is None,
        !tung_co_usb(ds),
    ensures
        ds.len() < SO_LAN_DOC_MAY_IN_SAU_KHI_ROI,
{
    it_lan_doc_tu(BoSauKhiRoi::dau(), ds);
}

proof fn it_lan_doc_tu(b: BoSauKhiRoi, ds: Seq<(Option<MaSuCo>, Option<TinhTrangUsb>)>)
    requires
        sau_cac_lan(b, ds).1 is None,
        !tung_co_usb(ds),
        !b.da_thay_usb,
        b.so_lan < SO_LAN_DOC_MAY_IN_SAU_KHI_ROI,
    ensures
        b.so_lan + ds.len() < SO_LAN_DOC_MAY_IN_SAU_KHI_ROI,
    decreases ds.len(),
{
    reveal(BoSauKhiRoi::sau);
    if ds.len() > 0 {
        let d = ds.subrange(1, ds.len() as int);
        assert(!(ds[0].1 is Some));
        assert forall|i: int| 0 <= i < d.len() implies !((#[trigger] d[i]).1 is Some) by {
            assert(!(ds[i + 1].1 is Some));
        }
        it_lan_doc_tu(b.sau(ds[0].0, ds[0].1).0, d);
    }
}

/// The exchange asks the clock or reads the printer.
spec fn hoi_gio_hay_doc(b: Buoc) -> bool {
    b is BayGio || b is DocVong
}

proof fn kiem_khong_hoi_gio(ids: Seq<u32>, id: Seq<char>, lan: nat, l: Seq<Buoc>, kq: KetQuaGoJobV)
    requires
        kiem_dung(ids, id, lan, l, kq),
    ensures
        forall|k: int| 0 <= k < l.len() ==> !hoi_gio_hay_doc(#[trigger] l[k]),
    decreases SO_LAN_KIEM_SAU_XOA - lan, 1int,
{
    if lan < SO_LAN_KIEM_SAU_XOA {
        if lan > 0 {
            let sau = l.subrange(1, l.len() as int);
            kiem_doc_khong_hoi_gio(ids, id, lan, sau, kq);
            assert forall|k: int| 0 <= k < l.len() implies !hoi_gio_hay_doc(#[trigger] l[k]) by {
                if k > 0 {
                    assert(sau[k - 1] == l[k]);
                }
            }
        } else {
            kiem_doc_khong_hoi_gio(ids, id, lan, l, kq);
        }
    }
}

proof fn kiem_doc_khong_hoi_gio(ids: Seq<u32>, id: Seq<char>, lan: nat, l: Seq<Buoc>, kq: KetQuaGoJobV)
    requires
        lan < SO_LAN_KIEM_SAU_XOA,
        kiem_doc_dung(ids, id, lan, l, kq),
    ensures
        forall|k: int| 0 <= k < l.len() ==> !hoi_gio_hay_doc(#[trigger] l[k]),
    decreases SO_LAN_KIEM_SAU_XOA - lan, 0int,
{
    let sau = l.subrange(1, l.len() as int);
    if kiem_dung(ids, id, lan + 1, sau, kq) {
        kiem_khong_hoi_gio(ids, id, lan + 1, sau, kq);
    }
    assert forall|k: int| 0 <= k < l.len() implies !hoi_gio_hay_doc(#[trigger] l[k]) by {
        if k > 0 {
            assert(sau[k - 1] == l[k]);
        }
    }
}

proof fn xoa_khong_hoi_gio(ids: Seq<u32>, id: Seq<char>, i: int, l: Seq<Buoc>, kq: KetQuaGoJobV)
    requires
        0 <= i <= ids.len(),
        xoa_dung(ids, id, i, l, kq),
    ensures
        forall|k: int| 0 <= k < l.len() ==> !hoi_gio_hay_doc(#[trigger] l[k]),
    decreases ids.len() - i,
{
    if i >= ids.len() {
        kiem_khong_hoi_gio(ids, id, 0, l, kq);
    } else {
        let sau = l.subrange(1, l.len() as int);
        if l[0] matches Buoc::DieuKhien(x, lenh, r) && r is Ok {
            xoa_khong_hoi_gio(ids, id, i + 1, sau, kq);
        }
        assert forall|k: int| 0 <= k < l.len() implies !hoi_gio_hay_doc(#[trigger] l[k]) by {
            if k > 0 {
                assert(sau[k - 1] == l[k]);
            }
        }
    }
}

proof fn tam_dung_khong_hoi_gio(ids: Seq<u32>, id: Seq<char>, i: int, l: Seq<Buoc>, kq: KetQuaGoJobV)
    requires
        0 <= i <= ids.len(),
        tam_dung_dung(ids, id, i, l, kq),
    ensures
        forall|k: int| 0 <= k < l.len() ==> !hoi_gio_hay_doc(#[trigger] l[k]),
    decreases ids.len() - i,
{
    let sau = l.subrange(1, l.len() as int);
    if i >= ids.len() {
        let sau2 = sau.subrange(1, sau.len() as int);
        if xoa_dung(ids, id, 0, sau2, kq) {
            xoa_khong_hoi_gio(ids, id, 0, sau2, kq);
        }
        assert forall|k: int| 0 <= k < l.len() implies !hoi_gio_hay_doc(#[trigger] l[k]) by {
            if k > 1 {
                assert(sau2[k - 2] == l[k]);
            }
        }
    } else {
        if l[0] matches Buoc::DieuKhien(x, lenh, r) && r is Ok {
            tam_dung_khong_hoi_gio(ids, id, i + 1, sau, kq);
        }
        assert forall|k: int| 0 <= k < l.len() implies !hoi_gio_hay_doc(#[trigger] l[k]) by {
            if k > 0 {
                assert(sau[k - 1] == l[k]);
            }
        }
    }
}

proof fn go_khong_hoi_gio(id: Seq<char>, da_thay_in: bool, l: Seq<Buoc>, kq: KetQuaGoJobV)
    requires
        go_dung(id, da_thay_in, l, kq),
    ensures
        forall|k: int| 0 <= k < l.len() ==> !hoi_gio_hay_doc(#[trigger] l[k]),
{
    if !da_thay_in {
        let sau = l.subrange(1, l.len() as int);
        if sau.len() > 0 {
            let jobs = l[0]->DocHangDoi_0->0;
            tam_dung_khong_hoi_gio(crate::spooler::go_job::ids_cua_ta(jobs@, id), id, 0, sau, kq);
        }
        assert forall|k: int| 0 <= k < l.len() implies !hoi_gio_hay_doc(#[trigger] l[k]) by {
            if k > 0 {
                assert(sau[k - 1] == l[k]);
            }
        }
    }
}

/// The trouble from before the job stays what it was.
proof fn chuoi_giu_nen(bo: BoSuy, ts: Seq<TrangThaiJob>)
    ensures
        bo.sau_chuoi(ts).0.nen == bo.nen,
    decreases ts.len(),
{
    if ts.len() > 0 {
        let (b1, k) = bo.sau(ts[0]);
        if k is None {
            chuoi_giu_nen(b1, ts.subrange(1, ts.len() as int));
        }
    }
}

proof fn vong_giu_nen(s: TheoDoi, v: VongDoc, id: Seq<char>, sau: i64)
    ensures
        s.sau_vong(v, id, sau).0.bo.nen == s.bo.nen,
{
    reveal(TheoDoi::sau_vong);
    let (s1, ts, b) = s.truoc_suy(v, id, sau);
    chuoi_giu_nen(s1.bo, ts);
}

/// From the conclusion on, the clock is asked first of all, and only where the job has left the queue.
pub(crate) proof fn ket_thuc_hoi_gio(s: TheoDoi, id: Seq<char>, kl: KetLuanV, l: Seq<Buoc>, kq: KetQuaInV)
    requires
        ket_thuc_dung(s, id, kl, l, kq),
    ensures
        (exists|k: int| 0 <= k < l.len() && #[trigger] l[k] is BayGio) ==> kl is DaIn && l[0] is BayGio && sau_roi_dung(
            BoSauKhiRoi::dau(),
            l[0]->BayGio_0,
            s.bo,
            l.subrange(1, l.len() as int),
            kq,
        ),
        (forall|k: int| 0 <= k < l.len() ==> !(#[trigger] l[k] is BayGio)) ==> forall|k: int|
            0 <= k < l.len() ==> !(#[trigger] l[k] is DocVong),
        (forall|k: int| 0 <= k < l.len() ==> !(#[trigger] l[k] is BayGio)) && kq is DaIn ==> kl
            == (KetLuanV::DaIn { qua_vang: false }) && !s.usb.la_may_usb,
{
    reveal(ket_thuc_dung);
    if let KetLuanV::UngVienXoa(ly_do) = kl {
        let (l1, l2, go) = choose|l1: Seq<Buoc>, l2: Seq<Buoc>, go: KetQuaGoJobV|
            l == l1 + l2 && #[trigger] xoa_roi_bao(s, id, ly_do, l1, l2, go, kq);
        go_khong_hoi_gio(id, s.bo.da_thay_in || s.bo.da_thay_huy, l1, go);
        assert forall|k: int| 0 <= k < l.len() implies !hoi_gio_hay_doc(#[trigger] l[k]) by {
            if k < l1.len() {
                assert(l[k] == l1[k]);
            } else {
                assert(l[k] == l2[k - l1.len()]);
            }
        }
    }
}

/// Where the clock was asked, at `p` for the first time, the job had left the queue, and the rest of the
/// trace is what follows that.
proof fn phan_sau_roi(n: nat, s: TheoDoi, id: Seq<char>, sau: i64, l: Seq<Buoc>, kq: KetQuaInV, p: int) -> (bo: BoSuy)
    requires
        theo_doi_dung(n, s, id, sau, l, kq),
        0 <= p < l.len(),
        l[p] is BayGio,
        forall|k: int| 0 <= k < p ==> !(#[trigger] l[k] is BayGio),
    ensures
        bo.nen == s.bo.nen,
        sau_roi_dung(BoSauKhiRoi::dau(), l[p]->BayGio_0, bo, l.subrange(p + 1, l.len() as int), kq),
    decreases l.len(),
{
    reveal(theo_doi_dung);
    let v = l[0]->DocVong_0;
    let (s1, k, bao) = s.sau_vong(v, id, sau);
    let m = 1 + bao.len() as int;
    vong_giu_nen(s, v, id, sau);
    assert forall|i: int| 0 <= i < m implies !(#[trigger] l[i] is BayGio) by {
        if i >= 1 {
            assert(l.subrange(1, m)[i - 1] == l[i]);
        }
    }
    let q = if k is Some || n == 0 {
        m
    } else if !l[m]->ConThoiGian_0 {
        m + 1
    } else {
        m + 2
    };
    assert(q <= p);
    let d = l.subrange(q, l.len() as int);
    assert(d[p - q] == l[p]);
    assert(d[p - q] is BayGio);
    assert forall|i: int| 0 <= i < p - q implies !(#[trigger] d[i] is BayGio) by {
        assert(d[i] == l[i + q]);
    }
    assert(d.subrange(p - q + 1, d.len() as int) =~= l.subrange(p + 1, l.len() as int));
    if k is Some || n == 0 || !l[m]->ConThoiGian_0 {
        let kl = if k is Some {
            k->0
        } else {
            s1.bo.khi_het_gio()
        };
        ket_thuc_hoi_gio(s1, id, kl, d, kq);
        assert(d[0] is BayGio);
        assert(p == q);
        s1.bo
    } else {
        phan_sau_roi((n - 1) as nat, s1, id, sau, d, kq, p - q)
    }
}

/// In every watch: once the job has left the queue, which is where the clock is asked for the first time,
/// new trouble of the printer in any later reading makes the outcome open, with that trouble as its code,
/// and so does an error of the device. Only a printer without either lets the invoice count as printed, and
/// from there on the outcome is never "did not print".
pub proof fn tro_ngai_sau_khi_roi_thi_khong_ro(
    n: nat,
    s: TheoDoi,
    id: Seq<char>,
    sau: i64,
    l: Seq<Buoc>,
    kq: KetQuaInV,
    p: int,
)
    requires
        theo_doi_dung(n, s, id, sau, l, kq),
        0 <= p < l.len(),
        l[p] is BayGio,
        forall|k: int| 0 <= k < p ==> !(#[trigger] l[k] is BayGio),
    ensures
        !(kq is Loi),
        kq is DaIn ==> forall|k: int|
            p < k < l.len() ==> (#[trigger] l[k] matches Buoc::DocVong(v) ==> may_sach(v, s.bo.nen)),
        forall|k: int|
            p < k < l.len() ==> (#[trigger] l[k] matches Buoc::DocVong(v) ==> {
                &&& chan_moi_cua(v, s.bo.nen) matches Some(c) ==> !thiet_bi_loi(v) ==> (kq matches KetQuaInV::KhongRo(ly)
                    && ly.loai == Some(c))
                &&& thiet_bi_loi(v) ==> (kq matches KetQuaInV::KhongRo(ly) && ly.loai == Some(
                    match chan_moi_cua(v, s.bo.nen) {
                        Some(c) => hon(c, MaSuCo::CanXuLy),
                        None => MaSuCo::CanXuLy,
                    },
                ))
            }),
{
    let bo = phan_sau_roi(n, s, id, sau, l, kq, p);
    let d = l.subrange(p + 1, l.len() as int);
    sau_roi_nghia(l[p]->BayGio_0, bo, d, kq);
    assert forall|k: int| p < k < l.len() implies (#[trigger] l[k] matches Buoc::DocVong(v) ==> {
        &&& kq is DaIn ==> may_sach(v, s.bo.nen)
        &&& chan_moi_cua(v, s.bo.nen) matches Some(c) ==> !thiet_bi_loi(v) ==> (kq matches KetQuaInV::KhongRo(ly) && ly.loai
            == Some(c))
        &&& thiet_bi_loi(v) ==> (kq matches KetQuaInV::KhongRo(ly) && ly.loai == Some(
            match chan_moi_cua(v, s.bo.nen) {
                Some(c) => hon(c, MaSuCo::CanXuLy),
                None => MaSuCo::CanXuLy,
            },
        ))
    }) by {
        assert(l[k] == d[k - p - 1]);
    }
}

} // verus!
