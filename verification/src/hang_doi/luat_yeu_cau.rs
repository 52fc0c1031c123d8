//! What is asked of the server for an invoice, how often, and what the end of it says.
use crate::gia_tri::{vi_tri_truong, Gt};
use crate::hang_doi::yeu_cau::{da_roi_may, khong_tra_loi, phan_xu, yeu_cau_dung, BuocYc, PhanXu, TienDo};
use crate::hang_doi::{KetCucV, LoaiViec};
use crate::hop_thu_di::{CanHoTro, LoiGuiAckV};
use vstd::prelude::*;
use vstd::string::*;

verus! {

/// A reply settles a request exactly where it names the very invoice and says yes or no; any other reply, and a
/// failure after the request left, counts as having left; a failure before does not.
pub proof fn tra_loi_nao_dut_diem(g: Gt, id: Seq<char>, e: Seq<char>)
    ensures
        phan_xu(Ok(g), id) is Xong <==> g.truong("id"@) == Some(Gt::Chuoi(id)) && (g.truong("ok"@) matches Some(Gt::Bool(b))),
        phan_xu(Ok(g), id) matches PhanXu::Xong(k) ==> (k is Duoc <==> g.truong("ok"@) == Some(Gt::Bool(true))) && (k is KhongDuoc
            <==> g.truong("ok"@) == Some(Gt::Bool(false))),
        phan_xu(Ok(g), id) matches PhanXu::HoiLai { da_roi, ly_do } ==> da_roi,
        phan_xu(Err(LoiGuiAckV::ChuaGui(e)), id) == (PhanXu::HoiLai { da_roi: false, ly_do: e }),
        phan_xu(Err(LoiGuiAckV::SauKhiGui(e)), id) == (PhanXu::HoiLai { da_roi: true, ly_do: e }),
{
}

/// Without an answer the end is open exactly where a request has left, and else certain that nothing was done;
/// the latest reason is kept.
pub proof fn khong_tra_loi_la_gi(da_gui: nat, ly_do: Seq<char>)
    ensures
        da_gui > 0 ==> khong_tra_loi(da_gui, ly_do) == (KetCucV::ChuaRo { ly_do }),
        da_gui == 0 ==> khong_tra_loi(da_gui, ly_do) == (KetCucV::ChuaGui { ly_do }),
{
}

/// How many requests may have left the computer.
pub open spec fn so_da_roi(l: Seq<BuocYc>) -> nat
    decreases l.len(),
{
    if l.len() == 0 {
        0
    } else {
        (if da_roi_may(l[0]) {
            1nat
        } else {
            0nat
        }) + so_da_roi(l.subrange(1, l.len() as int))
    }
}

/// The exchange is a request whose reply says no for the very invoice.
pub open spec fn server_noi_khong(b: BuocYc, id: Seq<char>) -> bool {
    b matches BuocYc::Gui { su_kien, gia_tri, can, cho_ms, tra_loi } && (tra_loi matches Ok(g) && g.truong("id"@) == Some(
        Gt::Chuoi(id),
    ) && g.truong("ok"@) == Some(Gt::Bool(false)))
}

proof fn ten_khac_nhau()
    ensures
        "yeu-cau-huy"@ != "yeu-cau-bo-theo-doi"@,
{
    reveal_strlit("yeu-cau-huy");
    reveal_strlit("yeu-cau-bo-theo-doi");
    assert("yeu-cau-huy"@.len() == 11 && "yeu-cau-bo-theo-doi"@.len() == 19);
}

/// A request of either kind: every time it is the event of that kind that is sent, with the invoice's id, only to
/// a server that knows of the queue; no more than three leave the computer; "no" is told only where the server
/// said so for this invoice, and the end is open only where a request has left.
pub proof fn yeu_cau_gui_gi(loai: LoaiViec, id: Seq<char>, t0: u64, td: TienDo, l: Seq<BuocYc>, kc: KetCucV)
    requires
        yeu_cau_dung(loai, id, t0, td, l, kc),
        td.da_gui < 3,
    ensures
        forall|k: int|
            0 <= k < l.len() ==> (#[trigger] l[k] matches BuocYc::Gui { su_kien, gia_tri, can, cho_ms, tra_loi } ==> (su_kien
                == "yeu-cau-huy"@ <==> loai == LoaiViec::Huy) && (su_kien == "yeu-cau-bo-theo-doi"@ <==> loai
                == LoaiViec::BoTheoDoi) && gia_tri.truong("printJobId"@) == Some(Gt::Chuoi(id)) && can == CanHoTro::HangDoi),
        td.da_gui + so_da_roi(l) <= 3,
        kc is KhongDuoc ==> exists|k: int| 0 <= k < l.len() && server_noi_khong(#[trigger] l[k], id),
        kc is ChuaRo ==> td.da_gui + so_da_roi(l) > 0,
        kc is ChuaGui ==> td.da_gui + so_da_roi(l) == 0,
    decreases l.len(),
{
    reveal_with_fuel(so_da_roi, 6);
    reveal_with_fuel(vi_tri_truong, 2);
    ten_khac_nhau();
    let d1 = l.subrange(1, l.len() as int);
    if l.len() >= 3 {
        let d2 = l.subrange(2, l.len() as int);
        let d3 = l.subrange(3, l.len() as int);
        assert(d1.subrange(1, d1.len() as int) =~= d2);
        assert(d2.subrange(1, d2.len() as int) =~= d3);
        assert(d1[0] == l[1] && d2[0] == l[2]);
        assert(so_da_roi(l) == so_da_roi(d1));
        assert(so_da_roi(d1) == so_da_roi(d2));
        let tra_loi = l[2]->tra_loi;
        assert(so_da_roi(d2) == (if da_roi_may(l[2]) {
            1nat
        } else {
            0nat
        }) + so_da_roi(d3));
        match phan_xu(tra_loi, id) {
            PhanXu::Xong(k) => {
                assert(so_da_roi(d3) == 0);
                if kc is KhongDuoc {
                    assert(server_noi_khong(l[2], id));
                }
            },
            PhanXu::HoiLai { da_roi, ly_do } => {
                let moi = TienDo {
                    lan: td.lan + 1,
                    da_gui: td.da_gui + (if da_roi {
                        1nat
                    } else {
                        0nat
                    }),
                    ly_do,
                };
                assert(da_roi == da_roi_may(l[2]));
                if l.len() >= 5 {
                    let d4 = l.subrange(4, l.len() as int);
                    let sau = l.subrange(5, l.len() as int);
                    assert(d3.subrange(1, d3.len() as int) =~= d4);
                    assert(d4.subrange(1, d4.len() as int) =~= sau);
                    assert(d3[0] == l[3] && d4[0] == l[4]);
                    assert(so_da_roi(d3) == so_da_roi(d4));
                    assert(so_da_roi(d4) == so_da_roi(sau));
                    yeu_cau_gui_gi(loai, id, t0, moi, sau, kc);
                    assert forall|k: int| 0 <= k < l.len() implies (#[trigger] l[k] matches BuocYc::Gui {
                        su_kien,
                        gia_tri,
                        can,
                        cho_ms,
                        tra_loi,
                    } ==> (su_kien == "yeu-cau-huy"@ <==> loai == LoaiViec::Huy) && (su_kien == "yeu-cau-bo-theo-doi"@ <==> loai
                        == LoaiViec::BoTheoDoi) && gia_tri.truong("printJobId"@) == Some(Gt::Chuoi(id)) && can
                        == CanHoTro::HangDoi) by {
                        if k >= 5 {
                            assert(sau[k - 5] == l[k]);
                        }
                    }
                    if kc is KhongDuoc {
                        let k = choose|k: int| 0 <= k < sau.len() && server_noi_khong(#[trigger] sau[k], id);
                        assert(l[k + 5] == sau[k]);
                    }
                } else if l.len() == 4 {
                    assert(d3[0] == l[3]);
                    assert(d3.subrange(1, d3.len() as int).len() == 0);
                    assert(so_da_roi(d3) == 0);
                } else {
                    assert(so_da_roi(d3) == 0);
                }
            },
        }
    } else {
        assert(so_da_roi(l) == 0);
    }
}

/// How long a request is repeated: after a try that settled nothing it is asked again, three seconds later, exactly
/// while that still lies within a minute from the start; it ends without an answer only where it is no longer
/// wanted, where three requests have left, or where the minute is up.
pub proof fn yeu_cau_hoi_bao_lau(loai: LoaiViec, id: Seq<char>, t0: u64, td: TienDo, l: Seq<BuocYc>, kc: KetCucV)
    requires
        yeu_cau_dung(loai, id, t0, td, l, kc),
        td.da_gui < 3,
        td.lan + l.len() < u32::MAX,
    ensures
        l.len() > 0,
        forall|k: int| 0 <= k < l.len() - 1 ==> (#[trigger] l[k] matches BuocYc::BayGio(t) ==> t + 3_000 < t0 + 60_000),
        l.last() matches BuocYc::BayGio(t) ==> t + 3_000 >= t0 + 60_000,
        forall|k: int| 0 <= k < l.len() ==> (#[trigger] l[k] matches BuocYc::Ngu(n) ==> n == 3_000),
        forall|k: int|
            0 <= k < l.len() ==> (#[trigger] l[k] matches BuocYc::Gui { su_kien, gia_tri, can, cho_ms, tra_loi } ==> cho_ms
                == 20_000),
        kc is ChuaRo || kc is ChuaGui ==> l.last() == BuocYc::ConTiep(false) || l.last() is BayGio || td.da_gui + so_da_roi(l) == 3,
    decreases l.len(),
{
    yeu_cau_gui_gi(loai, id, t0, td, l, kc);
    if l.len() >= 3 {
        match phan_xu(l[2]->tra_loi, id) {
            PhanXu::Xong(k) => {},
            PhanXu::HoiLai { da_roi, ly_do } => {
                let moi = TienDo {
                    lan: td.lan + 1,
                    da_gui: td.da_gui + (if da_roi {
                        1nat
                    } else {
                        0nat
                    }),
                    ly_do,
                };
                dau_yeu_cau(l);
                if l.len() >= 5 {
                    let sau = l.subrange(5, l.len() as int);
                    yeu_cau_hoi_bao_lau(loai, id, t0, moi, sau, kc);
                    assert(l.last() == sau.last());
                    assert forall|k: int| 0 <= k < l.len() - 1 implies (#[trigger] l[k] matches BuocYc::BayGio(t) ==> t + 3_000
                        < t0 + 60_000) by {
                        if k >= 5 {
                            assert(sau[k - 5] == l[k]);
                        }
                    }
                    assert forall|k: int| 0 <= k < l.len() implies (#[trigger] l[k] matches BuocYc::Ngu(n) ==> n == 3_000) by {
                        if k >= 5 {
                            assert(sau[k - 5] == l[k]);
                        }
                    }
                    assert forall|k: int| 0 <= k < l.len() implies (#[trigger] l[k] matches BuocYc::Gui {
                        su_kien,
                        gia_tri,
                        can,
                        cho_ms,
                        tra_loi,
                    } ==> cho_ms == 20_000) by {
                        if k >= 5 {
                            assert(sau[k - 5] == l[k]);
                        }
                    }
                }
            },
        }
    }
}

/// What has left in the first try, and in the rest.
proof fn dau_yeu_cau(l: Seq<BuocYc>)
    requires
        l.len() >= 3,
        !da_roi_may(l[0]),
        !da_roi_may(l[1]),
        l.len() >= 4 ==> !da_roi_may(l[3]),
        l.len() >= 5 ==> !da_roi_may(l[4]),
    ensures
        so_da_roi(l) == (if da_roi_may(l[2]) {
            1nat
        } else {
            0nat
        }) + (if l.len() >= 5 {
            so_da_roi(l.subrange(5, l.len() as int))
        } else {
            0nat
        }),
{
    let d1 = l.subrange(1, l.len() as int);
    let d2 = l.subrange(2, l.len() as int);
    let d3 = l.subrange(3, l.len() as int);
    assert(d1.subrange(1, d1.len() as int) =~= d2);
    assert(d2.subrange(1, d2.len() as int) =~= d3);
    assert(d1[0] == l[1] && d2[0] == l[2]);
    assert(so_da_roi(l) == so_da_roi(d1));
    assert(so_da_roi(d1) == so_da_roi(d2));
    if l.len() >= 4 {
        let d4 = l.subrange(4, l.len() as int);
        assert(d3.subrange(1, d3.len() as int) =~= d4);
        assert(d3[0] == l[3]);
        assert(so_da_roi(d3) == so_da_roi(d4));
        if l.len() >= 5 {
            let d5 = l.subrange(5, l.len() as int);
            assert(d4.subrange(1, d4.len() as int) =~= d5);
            assert(d4[0] == l[4]);
            assert(so_da_roi(d4) == so_da_roi(d5));
        } else {
            assert(so_da_roi(d4) == 0);
        }
    } else {
        assert(so_da_roi(d3) == 0);
    }
}

} // verus!
