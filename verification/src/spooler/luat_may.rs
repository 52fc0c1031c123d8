//! What a job's numbers say of it, what holds up a queue, and when an invoice is not sent to the printer.
use crate::chu;
use crate::job::LyDoV;
use crate::spooler::kieu::{da_gui_het, JobHangDoi, QuanSatV, VongDoc};
use crate::spooler::may_in::{
    an_toan, bao_may_in_cua, chan_cua, chan_moi_cua, da_bat_dau, dang_ket, dang_ket_la_ma_job, gop_cua, ket_cua_job_khac, la_nen,
    loi_usb, ma_ket, may_bao, may_in_cua, mo_ta_job_cua, mo_ta_ket, nen_cua, nen_la, so_cua_job_app, tu_choi_cua,
};
use crate::spooler::ten_job::thuoc_ve;
use crate::su_co::{
    chi_tiet_tinh_trang, co_may_in_bao, hang, hon, ma_tinh_trang, mo_ta_cua, tinh_chinh, Bang, MaSuCo, TapMa,
};
use vstd::prelude::*;
use vstd::string::*;

verus! {

/// A job has started to print where a page came out, or where it is printing, printed, complete, retained or
/// restarted; it may be deleted exactly where no page came out and no bit is up but those of being spooled,
/// paused or held back by the driver.
pub proof fn bat_dau_va_an_toan_theo_bit(j: JobHangDoi)
    ensures
        da_bat_dau(j) <==> j.trang_da_in > 0 || j.status & 0x10 != 0 || j.status & 0x80 != 0 || j.status & 0x1000 != 0
            || j.status & 0x2000 != 0 || j.status & 0x800 != 0,
        an_toan(j) <==> j.trang_da_in == 0 && (j.status == 0 || j.status == 0x8 || j.status == 0x1 || j.status == 0x200
            || j.status == 0x9 || j.status == 0x208 || j.status == 0x201 || j.status == 0x209),
{
    let s = j.status;
    assert(s & 0x3890u32 != 0 <==> s & 0x10u32 != 0 || s & 0x80u32 != 0 || s & 0x1000u32 != 0 || s & 0x2000u32 != 0 || s
        & 0x800u32 != 0) by (bit_vector);
    assert(s & !0x209u32 == 0 <==> s == 0 || s == 0x8u32 || s == 0x1u32 || s == 0x200u32 || s == 0x9u32 || s == 0x208u32 || s
        == 0x201u32 || s == 0x209u32) by (bit_vector);
}

/// A job holds up the queue exactly where it is out of paper, in error, offline or in need of someone, and is
/// neither being deleted nor paused nor done. Its trouble is, in this order, the lack of paper, offline, the need
/// of someone, an error, made specific by the driver's words.
pub proof fn ket_theo_bit(j: JobHangDoi)
    ensures
        ({
            let s = j.status;
            let xong = s & 0x4 != 0 || s & 0x100 != 0 || s & 0x1 != 0 || s & 0x80 != 0 || s & 0x1000 != 0 || s & 0x2000 != 0;
            &&& ma_ket(j) is Some <==> !xong && (s & 0x40 != 0 || s & 0x2 != 0 || s & 0x20 != 0 || s & 0x400 != 0)
            &&& !xong && s & 0x40 != 0 ==> ma_ket(j) == Some(tinh_chinh(MaSuCo::HetGiay, j.mo_ta_driver@))
            &&& !xong && s & 0x40 == 0 && s & 0x20 != 0 ==> ma_ket(j) == Some(MaSuCo::Offline)
            &&& !xong && s & 0x40 == 0 && s & 0x20 == 0 && s & 0x400 != 0 ==> ma_ket(j) == Some(
                tinh_chinh(MaSuCo::CanXuLy, j.mo_ta_driver@),
            )
            &&& !xong && s & 0x40 == 0 && s & 0x20 == 0 && s & 0x400 == 0 && s & 0x2 != 0 ==> ma_ket(j) == Some(
                tinh_chinh(MaSuCo::LoiMayIn, j.mo_ta_driver@),
            )
        }),
{
    let s = j.status;
    let t = s & !0x200u32;
    assert(s & 0x3185u32 != 0 <==> s & 0x4u32 != 0 || s & 0x100u32 != 0 || s & 0x1u32 != 0 || s & 0x80u32 != 0 || s & 0x1000u32
        != 0 || s & 0x2000u32 != 0) by (bit_vector);
    assert(s & 0x462u32 != 0 <==> s & 0x40u32 != 0 || s & 0x2u32 != 0 || s & 0x20u32 != 0 || s & 0x400u32 != 0) by (bit_vector);
    assert(t & 0x40u32 == s & 0x40u32 && t & 0x20u32 == s & 0x20u32 && t & 0x400u32 == s & 0x400u32 && t & 0x2u32 == s & 0x2u32
        && t & 0x200u32 == 0) by (bit_vector)
        requires
            t == s & !0x200u32,
    ;
}

/// Of the jobs that hold up the queue the one is named whose trouble goes first, and of equals the one that came
/// first; none is named exactly where none holds it up.
pub proof fn ket_la_viec_truoc_nhat(jobs: Seq<JobHangDoi>)
    ensures
        dang_ket(jobs) is None <==> (forall|i: int| 0 <= i < jobs.len() ==> ma_ket(#[trigger] jobs[i]) is None),
        dang_ket(jobs) matches Some(k) ==> 0 <= k.0 < jobs.len() && ma_ket(jobs[k.0]) == Some(k.1),
        dang_ket(jobs) matches Some(k) ==> forall|i: int|
            0 <= i < jobs.len() ==> (ma_ket(#[trigger] jobs[i]) matches Some(m) ==> hang(k.1) <= hang(m) && (i < k.0 ==> hang(
                k.1,
            ) < hang(m))),
    decreases jobs.len(),
{
    dang_ket_la_ma_job(jobs);
    if jobs.len() > 0 {
        let d = jobs.drop_last();
        ket_la_viec_truoc_nhat(d);
        assert(forall|i: int| 0 <= i < d.len() ==> #[trigger] jobs[i] == d[i]);
        let l = jobs[jobs.len() - 1];
        if dang_ket(jobs) is None {
            assert forall|i: int| 0 <= i < jobs.len() implies ma_ket(#[trigger] jobs[i]) is None by {
                if i < d.len() {
                    assert(ma_ket(d[i]) is None);
                }
            }
        } else {
            let k = dang_ket(jobs)->0;
            assert(!(ma_ket(jobs[k.0]) is None));
            assert forall|i: int| 0 <= i < jobs.len() implies (ma_ket(#[trigger] jobs[i]) matches Some(m) ==> hang(k.1)
                <= hang(m) && (i < k.0 ==> hang(k.1) < hang(m))) by {
                if i < d.len() {
                    assert(jobs[i] == d[i]);
                    if ma_ket(jobs[i]) is Some {
                        assert(!(ma_ket(d[i]) is None));
                        assert(dang_ket(d) is Some);
                        let t = dang_ket(d)->0;
                        assert(hang(t.1) <= hang(ma_ket(d[i])->0));
                    }
                }
            }
        }
    }
}

/// The trouble for which jobs of others hold up the queue: none exactly where no such job does, and else one of
/// theirs that no other goes before. A job of the order itself never counts.
pub proof fn ket_chi_cua_job_khac(jobs: Seq<JobHangDoi>, id: Seq<char>)
    ensures
        ket_cua_job_khac(jobs, id) is None <==> (forall|i: int|
            0 <= i < jobs.len() && !thuoc_ve(#[trigger] jobs[i], id) ==> ma_ket(jobs[i]) is None),
        ket_cua_job_khac(jobs, id) matches Some(m) ==> exists|i: int|
            0 <= i < jobs.len() && !thuoc_ve(#[trigger] jobs[i], id) && ma_ket(jobs[i]) == Some(m),
        ket_cua_job_khac(jobs, id) matches Some(m) ==> forall|i: int|
            0 <= i < jobs.len() && !thuoc_ve(#[trigger] jobs[i], id) ==> (ma_ket(jobs[i]) matches Some(n) ==> hang(m) <= hang(n)),
    decreases jobs.len(),
{
    if jobs.len() > 0 {
        let d = jobs.drop_last();
        ket_chi_cua_job_khac(d, id);
        assert(forall|i: int| 0 <= i < d.len() ==> #[trigger] jobs[i] == d[i]);
        let n = jobs.len() - 1;
        let l = jobs[n];
        if ket_cua_job_khac(jobs, id) is None {
            assert forall|i: int| 0 <= i < jobs.len() && !thuoc_ve(#[trigger] jobs[i], id) implies ma_ket(jobs[i]) is None by {
                if i < d.len() {
                    assert(jobs[i] == d[i]);
                }
            }
        } else {
            let m = ket_cua_job_khac(jobs, id)->0;
            if !thuoc_ve(l, id) && ma_ket(l) == Some(m) {
                assert(!thuoc_ve(jobs[n], id) && ma_ket(jobs[n]) == Some(m));
            } else {
                assert(ket_cua_job_khac(d, id) == Some(m));
                let i = choose|i: int| 0 <= i < d.len() && !thuoc_ve(#[trigger] d[i], id) && ma_ket(d[i]) == Some(m);
                assert(jobs[i] == d[i]);
            }
            assert forall|i: int| 0 <= i < jobs.len() && !thuoc_ve(#[trigger] jobs[i], id) implies (ma_ket(jobs[i]) matches Some(
                x,
            ) ==> hang(m) <= hang(x)) by {
                if i < d.len() && ma_ket(jobs[i]) is Some {
                    assert(jobs[i] == d[i]);
                    assert(ket_cua_job_khac(d, id) is Some);
                }
            }
        }
    }
}

/// The printer in one reading: not there where it was not found; unknown where it could not be read; else the
/// code of its flags, or the need of someone where its USB device reports an error and that goes first, with both
/// details.
pub proof fn may_in_mot_lan_doc(v: VongDoc)
    ensures
        v.khong_tim_thay_may_in ==> may_in_cua(v) is Some && (may_in_cua(v)->0).0 == MaSuCo::KhongTimThayMayIn,
        !v.khong_tim_thay_may_in && v.co_may_in is None ==> may_in_cua(v) is None,
        !v.khong_tim_thay_may_in && v.co_may_in is Some ==> may_in_cua(v) is Some,
        !v.khong_tim_thay_may_in ==> (v.co_may_in matches Some(s) ==> (v.usb is None || v.usb->0.byte & 8 != 0
            ==> may_in_cua(v) == Some((ma_tinh_trang(s, v.thuoc_tinh_may_in), chi_tiet_tinh_trang(s, v.thuoc_tinh_may_in))))),
        !v.khong_tim_thay_may_in ==> (v.co_may_in matches Some(s) ==> (v.usb is Some && v.usb->0.byte & 8 == 0 ==> (may_in_cua(v)->0).0 == hon(ma_tinh_trang(s, v.thuoc_tinh_may_in), MaSuCo::CanXuLy))),
        !v.khong_tim_thay_may_in ==> (v.co_may_in matches Some(s) ==> (v.usb is Some && v.usb->0.byte & 8 == 0
            && ma_tinh_trang(s, v.thuoc_tinh_may_in) == MaSuCo::BinhThuong ==> may_in_cua(v) == Some(
            (MaSuCo::CanXuLy, Some(v.usb->0.mo_ta_chu())),
        ))),
{
}

/// The state that is shown: the printer's own, or the trouble of a job that holds up its queue where that goes
/// first; it is "all is well" exactly where neither reports anything, and unknown exactly where the printer
/// could not be read.
pub proof fn tinh_trang_gop_dung(v: VongDoc)
    ensures
        gop_cua(v) is None <==> may_in_cua(v) is None,
        v.hang_doi is None ==> gop_cua(v) == may_in_cua(v),
        v.hang_doi matches Some(jobs) ==> (dang_ket(jobs@) is None ==> gop_cua(v) == may_in_cua(v)),
        v.hang_doi matches Some(jobs) ==> (may_in_cua(v) is Some ==> (dang_ket(jobs@) matches Some(k) ==> (gop_cua(v)->0).0 == hon(
            (may_in_cua(v)->0).0,
            k.1,
        ) && (gop_cua(v)->0).1 is Some)),
        gop_cua(v) matches Some(g) ==> hang(g.0) <= hang((may_in_cua(v)->0).0),
{
}

/// What is told of a job that holds up the queue: the number of an invoice of the agent's, never the name of
/// another program's document; its flags, and the driver's words where it has any.
pub proof fn mo_ta_ket_khong_lo_ten(a: JobHangDoi, b: JobHangDoi)
    ensures
        so_cua_job_app(a) is None && so_cua_job_app(b) is None && a.status == b.status && a.mo_ta_driver@ == b.mo_ta_driver@
            ==> mo_ta_ket(a) == mo_ta_ket(b),
        so_cua_job_app(a) matches Some(so) ==> mo_ta_ket(a) == "hoá đơn "@ + so + " kẹt trong hàng đợi: "@ + mo_ta_job_cua(a),
        so_cua_job_app(a) is None ==> mo_ta_ket(a) == "job khác kẹt trong hàng đợi: "@ + mo_ta_job_cua(a),
        chu::bo_trang(a.mo_ta_driver@).len() == 0 ==> mo_ta_job_cua(a) == mo_ta_cua(Bang::Job, a.status),
        chu::bo_trang(a.mo_ta_driver@).len() > 0 ==> mo_ta_job_cua(a) == mo_ta_cua(Bang::Job, a.status) + "; driver: "@
            + chu::bo_trang(a.mo_ta_driver@),
{
}

/// When an invoice is refused: never by an old server's agent; else exactly where the printer is not there, or
/// some job holds up its queue, or, where the queue could not be read, an invoice is known to.
pub proof fn tu_choi_khi_nao(v: VongDoc, may_in: Seq<char>, ket: Option<(Seq<char>, MaSuCo)>, moi: bool)
    ensures
        !moi ==> tu_choi_cua(v, may_in, ket, moi) is None,
        moi && v.khong_tim_thay_may_in ==> tu_choi_cua(v, may_in, ket, moi) is Some,
        moi && !v.khong_tim_thay_may_in ==> (v.hang_doi matches Some(jobs) ==> (tu_choi_cua(v, may_in, ket, moi) is Some
            <==> exists|i: int| 0 <= i < jobs@.len() && ma_ket(#[trigger] jobs@[i]) is Some)),
        moi && !v.khong_tim_thay_may_in && v.hang_doi is None ==> (tu_choi_cua(v, may_in, ket, moi) is Some <==> ket is Some),
{
    if let Some(jobs) = v.hang_doi {
        ket_la_viec_truoc_nhat(jobs@);
    }
}

/// What a refusal says: which printer is not there; which invoice holds up the queue, or that it is no invoice;
/// the code is that of the trouble, but for a plain error, which is told as the need of someone.
pub proof fn tu_choi_noi_gi(v: VongDoc, may_in: Seq<char>, ket: Option<(Seq<char>, MaSuCo)>)
    ensures
        v.khong_tim_thay_may_in ==> tu_choi_cua(v, may_in, ket, true) == Some(
            (
                LyDoV {
                    chu: "Không tìm thấy máy in \""@ + may_in
                        + "\" trong Windows (đã đổi tên/gỡ?) — chưa gửi hoá đơn này xuống máy in"@,
                    loai: Some(MaSuCo::KhongTimThayMayIn),
                    ban_da_in: None,
                },
                "khong_in_khong_tim_thay_may_in"@,
            ),
        ),
        !v.khong_tim_thay_may_in && v.hang_doi is None ==> (ket matches Some(k) ==> (tu_choi_cua(v, may_in, ket, true) matches Some(
            t,
        ) && t.1 == "khong_in_hang_doi_ket"@ && t.0.chu == "Máy in đang kẹt hoá đơn "@ + k.0
            + " — chưa gửi hoá đơn này xuống máy in"@ && t.0.ban_da_in is None && (k.1 != MaSuCo::LoiMayIn ==> t.0.loai == Some(
            k.1,
        )) && (k.1 == MaSuCo::LoiMayIn ==> t.0.loai == Some(MaSuCo::CanXuLy)))),
        !v.khong_tim_thay_may_in ==> (v.hang_doi matches Some(jobs) ==> (dang_ket(jobs@) matches Some(k) ==> (tu_choi_cua(
            v,
            may_in,
            ket,
            true,
        ) matches Some(t) && t.1 == "khong_in_hang_doi_ket"@ && t.0.ban_da_in is None && (k.1 != MaSuCo::LoiMayIn ==> t.0.loai
            == Some(k.1)) && (k.1 == MaSuCo::LoiMayIn ==> t.0.loai == Some(MaSuCo::CanXuLy)) && (so_cua_job_app(jobs@[k.0]) is None
            ==> t.0.chu
            == "Hàng đợi máy in đang kẹt job khác (không phải hoá đơn) — chưa gửi hoá đơn này xuống máy in"@) && (so_cua_job_app(
            jobs@[k.0],
        ) matches Some(so) ==> t.0.chu == "Máy in đang kẹt hoá đơn "@ + so + " — chưa gửi hoá đơn này xuống máy in"@)))),
{
}

/// What was there before a job: just what the printer's flags and attributes report in the reading before it,
/// nothing where the printer was not there or could not be read.
pub proof fn nen_la_gi(v: VongDoc, m: MaSuCo)
    ensures
        v.khong_tim_thay_may_in || v.co_may_in is None ==> !nen_cua(v).chua(m),
        !v.khong_tim_thay_may_in ==> (v.co_may_in matches Some(s) ==> (nen_cua(v).chua(m) <==> co_may_in_bao(
            s,
            v.thuoc_tinh_may_in,
            m,
        ))),
        !nen_cua(v).chua(MaSuCo::KhongTimThayMayIn),
{
    nen_la(v);
    assert(nen_cua(v).chua(m) == la_nen(v, m));
    assert(nen_cua(v).chua(MaSuCo::KhongTimThayMayIn) == la_nen(v, MaSuCo::KhongTimThayMayIn));
}

/// What keeps jobs from printing in a reading: nothing exactly where neither the flags nor the device report
/// such trouble; low toner alone is none.
pub proof fn chan_khi_nao(v: VongDoc)
    ensures
        v.khong_tim_thay_may_in ==> chan_cua(v) == Some(MaSuCo::KhongTimThayMayIn),
        !v.khong_tim_thay_may_in && v.co_may_in is None ==> chan_cua(v) is None,
        chan_cua(v) matches Some(m) ==> may_bao(v, m) && m != MaSuCo::HetMuc && m != MaSuCo::BinhThuong,
        !v.khong_tim_thay_may_in ==> (v.co_may_in matches Some(s) ==> (chan_cua(v) is None <==> (ma_tinh_trang(
            s,
            v.thuoc_tinh_may_in,
        ) == MaSuCo::BinhThuong || ma_tinh_trang(s, v.thuoc_tinh_may_in) == MaSuCo::HetMuc) && loi_usb(v) is None)),
{
}

/// The device may be asked exactly where every job in the queue is printed, complete or retained.
pub proof fn hoi_usb_khi_nao(jobs: Seq<JobHangDoi>)
    ensures
        da_gui_het(jobs) <==> (forall|i: int|
            0 <= i < jobs.len() ==> (#[trigger] jobs[i]).status & 0x80 != 0 || jobs[i].status & 0x1000 != 0 || jobs[i].status
                & 0x2000 != 0),
{
    assert(forall|s: u32| #[trigger] (s & 0x3080u32) != 0 <==> s & 0x80u32 != 0 || s & 0x1000u32 != 0 || s & 0x2000u32 != 0)
        by (bit_vector);
    if da_gui_het(jobs) {
        assert forall|i: int| 0 <= i < jobs.len() implies (#[trigger] jobs[i]).status & 0x80 != 0 || jobs[i].status & 0x1000
            != 0 || jobs[i].status & 0x2000 != 0 by {
            assert(jobs[i].status & 0x3080u32 != 0);
        }
    }
}

/// What is reported in a reading: the printer's state exactly where it is known, and after it trouble exactly where
/// some is new since the job, with the printer's detail.
pub proof fn bao_gi_mot_lan_doc(v: VongDoc, nen: TapMa)
    ensures
        ({
            let l = bao_may_in_cua(v, nen);
            let a = if gop_cua(v) is Some {
                1int
            } else {
                0int
            };
            &&& l.len() == a + (if chan_moi_cua(v, nen) is Some {
                1int
            } else {
                0int
            })
            &&& gop_cua(v) matches Some(g) ==> l[0] == (QuanSatV::MayIn { ma: g.0, chi_tiet: g.1 })
            &&& chan_moi_cua(v, nen) matches Some(m) ==> (l[a] matches QuanSatV::SuCo { loai, chi_tiet } && loai == m && (
            may_in_cua(v) is Some && (may_in_cua(v)->0).1 is Some ==> chi_tiet == (may_in_cua(v)->0).1->0))
        }),
{
    reveal(bao_may_in_cua);
}

/// Where two things are wrong the detail tells both: the flags' and then the device's; the printer's and then that of
/// the job that holds up the queue.
pub proof fn chi_tiet_noi_ca_hai(v: VongDoc)
    ensures
        !v.khong_tim_thay_may_in ==> (v.co_may_in matches Some(s) ==> (v.usb is Some && v.usb->0.byte & 8 == 0 ==> (
        chi_tiet_tinh_trang(s, v.thuoc_tinh_may_in) matches Some(ct) ==> (may_in_cua(v)->0).1 == Some(
            ct + "; "@ + v.usb->0.mo_ta_chu(),
        )))),
        v.hang_doi matches Some(jobs) ==> (dang_ket(jobs@) matches Some(k) ==> (may_in_cua(v) matches Some(x) ==> (x.1 matches Some(
            ct,
        ) ==> (gop_cua(v)->0).1 == Some(ct + "; "@ + mo_ta_ket(jobs@[k.0]))) && (x.1 is None ==> (gop_cua(v)->0).1 == Some(
            mo_ta_ket(jobs@[k.0]),
        )))),
{
}

} // verus!
