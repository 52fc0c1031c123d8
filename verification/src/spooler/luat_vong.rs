//! What one reading makes of a job, told by the flags of the job, the queue and the printer alone.
use crate::job::KetQuaInV;
use crate::spooler::bo_suy::{quan_sat_cua, su_co_job, BoSuy, KetLuanV};
use crate::spooler::kieu::{JobHangDoi, KetQuaGoJobV, QuanSatV, TrangThaiJob, VongDoc};
use crate::spooler::may_in::{chan_cua, chan_moi_cua};
use crate::spooler::moi_truong::Buoc;
use crate::spooler::ten_job::vi_tri_job;
use crate::spooler::theo_doi::{ket_thuc_dung, theo_doi_dung, xoa_roi_bao, TheoDoi};
use crate::su_co::{co, tinh_chinh, MaSuCo};
use vstd::prelude::*;

verus! {

/// The job says that it was printed.
pub open spec fn job_da_in(j: JobHangDoi) -> bool {
    j.status & co::JOB_STATUS_PRINTED != 0
}

/// The job is on its way out of the printer, or a page of it is out.
pub open spec fn job_dang_in(j: JobHangDoi) -> bool {
    j.status & co::JOB_STATUS_PRINTING != 0 || j.status & co::JOB_STATUS_COMPLETE != 0 || j.status
        & co::JOB_STATUS_RETAINED != 0 || j.trang_da_in > 0
}

/// The job was withdrawn or restarted.
pub open spec fn job_bi_huy(j: JobHangDoi) -> bool {
    j.status & co::JOB_STATUS_DELETING != 0 || j.status & co::JOB_STATUS_DELETED != 0 || j.status
        & co::JOB_STATUS_RESTART != 0
}

/// The job itself reports an error.
pub open spec fn job_loi(j: JobHangDoi) -> bool {
    j.status & co::JOB_STATUS_PAPEROUT != 0 || j.status & co::JOB_STATUS_OFFLINE != 0 || j.status
        & co::JOB_STATUS_USER_INTERVENTION != 0 || j.status & co::JOB_STATUS_ERROR != 0
}

/// The code of that error, before the driver's words are looked at: paper goes before the connection, that
/// before a person's help, and the general error comes last.
pub open spec fn ma_job_loi(j: JobHangDoi) -> MaSuCo {
    if j.status & co::JOB_STATUS_PAPEROUT != 0 {
        MaSuCo::HetGiay
    } else if j.status & co::JOB_STATUS_OFFLINE != 0 {
        MaSuCo::Offline
    } else if j.status & co::JOB_STATUS_USER_INTERVENTION != 0 {
        MaSuCo::CanXuLy
    } else {
        MaSuCo::LoiMayIn
    }
}

/// The driver holds the job back.
pub open spec fn job_bi_chan(j: JobHangDoi) -> bool {
    j.status & co::JOB_STATUS_BLOCKED_DEVQ != 0
}

proof fn chuoi_1(s: BoSuy, a: TrangThaiJob)
    ensures
        s.sau_chuoi(seq![a]) == s.sau(a),
{
    let ts = seq![a];
    let (s1, k) = s.sau(a);
    let d = ts.subrange(1, 1);
    assert(s1.sau_chuoi(d) == (s1, None::<KetLuanV>));
}

proof fn chuoi_2(s: BoSuy, a: TrangThaiJob, b: TrangThaiJob)
    ensures
        s.sau_chuoi(seq![a, b]) == (if s.sau(a).1 is Some {
            s.sau(a)
        } else {
            s.sau(a).0.sau(b)
        }),
{
    let ts = seq![a, b];
    chuoi_1(s.sau(a).0, b);
    assert(ts.subrange(1, 2) =~= seq![b]);
}

proof fn chuoi_3(s: BoSuy, a: TrangThaiJob, b: TrangThaiJob, c: TrangThaiJob)
    ensures
        s.sau_chuoi(seq![a, b, c]) == (if s.sau(a).1 is Some {
            s.sau(a)
        } else if s.sau(a).0.sau(b).1 is Some {
            s.sau(a).0.sau(b)
        } else {
            s.sau(a).0.sau(b).0.sau(c)
        }),
{
    let ts = seq![a, b, c];
    chuoi_2(s.sau(a).0, b, c);
    assert(ts.subrange(1, 3) =~= seq![b, c]);
}

/// The flags of a job, one by one.
proof fn co_job(j: JobHangDoi)
    ensures
        (j.status & crate::spooler::kieu::CO_DANG_IN != 0 || j.trang_da_in > 0) == job_dang_in(j),
        (j.status & crate::spooler::kieu::CO_BI_HUY != 0) == job_bi_huy(j),
        crate::su_co::ma_uu_tien(j.status & !co::JOB_STATUS_BLOCKED_DEVQ, crate::su_co::Bang::Job) == (if job_loi(j) {
            Some(ma_job_loi(j))
        } else {
            None
        }),
{
    let s = j.status;
    assert((s & 0x3010u32 != 0) == (s & 0x10u32 != 0 || s & 0x1000u32 != 0 || s & 0x2000u32 != 0)) by (bit_vector);
    assert((s & 0x904u32 != 0) == (s & 0x4u32 != 0 || s & 0x100u32 != 0 || s & 0x800u32 != 0)) by (bit_vector);
    let t = s & !0x200u32;
    assert((s & !0x200u32) & 0x40u32 == s & 0x40u32 && (s & !0x200u32) & 0x20u32 == s & 0x20u32 && (s & !0x200u32) & 0x400u32 == s
        & 0x400u32 && (s & !0x200u32) & 0x2u32 == s & 0x2u32 && (s & !0x200u32) & 0x200u32 == 0) by (bit_vector);
}

/// What a reading of a job that is in the queue comes to.
/// - One that says that it was printed has printed, whatever else is up.
/// - One that reports an error leaves the outcome open at once, with its error refined by the driver's words.
/// - One that the driver holds back, or that waits untouched while the printer has new trouble, leaves the
///   outcome open where it was seen printing or withdrawn, and else may be taken out for that trouble.
/// - Any other settles nothing.
pub proof fn vong_co_job(s: TheoDoi, v: VongDoc, id: Seq<char>, sau: i64)
    requires
        v.hang_doi matches Some(jobs) && vi_tri_job(jobs@, id, sau) is Some,
    ensures
        ({
            let jobs = v.hang_doi->0@;
            let j = jobs[vi_tri_job(jobs, id, sau)->0];
            let (s1, k, bao) = s.sau_vong(v, id, sau);
            let tung_in = s.bo.da_thay_in || job_dang_in(j);
            let tung_huy = s.bo.da_thay_huy || job_bi_huy(j);
            let tro_ngai = if job_bi_chan(j) {
                Some(tinh_chinh(MaSuCo::LoiMayIn, j.mo_ta_driver@))
            } else if !job_dang_in(j) && !job_bi_huy(j) {
                chan_moi_cua(v, s.bo.nen)
            } else {
                None
            };
            &&& s1.con_trong_hang_doi
            &&& s1.bo.da_thay_job
            &&& s1.bo.nen == s.bo.nen
            &&& job_da_in(j) ==> k == Some(KetLuanV::DaIn { qua_vang: false })
            &&& !job_da_in(j) ==> s1.bo.da_thay_in == tung_in && s1.bo.da_thay_huy == tung_huy
            &&& !job_da_in(j) && job_loi(j) ==> (k matches Some(KetLuanV::KhongRo(ly)) && ly.loai == Some(
                tinh_chinh(ma_job_loi(j), j.mo_ta_driver@),
            ))
            &&& !job_da_in(j) && !job_loi(j) && tro_ngai is Some && (tung_in || tung_huy) ==> (k matches Some(
                KetLuanV::KhongRo(ly),
            ) && ly.loai == tro_ngai)
            &&& !job_da_in(j) && !job_loi(j) && tro_ngai is Some && !tung_in && !tung_huy ==> k is None
                && s1.bo.ung_vien_xoa == tro_ngai && s1.bo.ung_vien_cap_may == !job_bi_chan(j)
            &&& !job_da_in(j) && !job_loi(j) && tro_ngai is None ==> k is None && s1.bo.ung_vien_xoa is None
                && s1.bo.vang_lien_tiep == 0
        }),
{
    reveal(TheoDoi::sau_vong);
    let jobs = v.hang_doi->0@;
    let i = vi_tri_job(jobs, id, sau)->0;
    let j = jobs[i];
    let (s0, ts, b) = s.truoc_suy(v, id, sau);
    co_job(j);
    let qs = quan_sat_cua(j.status, j.trang_da_in, j.mo_ta_driver@);
    let bo = s0.bo;
    let e = Seq::<TrangThaiJob>::empty();
    if job_da_in(j) {
        assert(qs.len() == 1 && qs[0] == TrangThaiJob::DaInXong);
        assert(seq![TrangThaiJob::DangCho][0] == TrangThaiJob::DangCho);
        chuoi_1(bo, TrangThaiJob::DaInXong);
        assert(ts =~= seq![TrangThaiJob::DaInXong]);
    } else {
        let x = if job_loi(j) {
            seq![TrangThaiJob::LoiJob(tinh_chinh(ma_job_loi(j), j.mo_ta_driver@))]
        } else if job_bi_chan(j) {
            seq![TrangThaiJob::KetHangDoi(tinh_chinh(MaSuCo::LoiMayIn, j.mo_ta_driver@))]
        } else {
            e
        };
        assert(seq![TrangThaiJob::DangCho][0] == TrangThaiJob::DangCho);
        if job_dang_in(j) && job_bi_huy(j) {
            if x.len() == 0 {
                assert(qs =~= seq![TrangThaiJob::DangIn, TrangThaiJob::BiHuy]);
                chuoi_2(bo, TrangThaiJob::DangIn, TrangThaiJob::BiHuy);
            } else {
                assert(qs =~= seq![TrangThaiJob::DangIn, TrangThaiJob::BiHuy, x[0]]);
                chuoi_3(bo, TrangThaiJob::DangIn, TrangThaiJob::BiHuy, x[0]);
            }
            assert(qs[0] == TrangThaiJob::DangIn);
        } else if job_dang_in(j) {
            if x.len() == 0 {
                assert(qs =~= seq![TrangThaiJob::DangIn]);
                chuoi_1(bo, TrangThaiJob::DangIn);
            } else {
                assert(qs =~= seq![TrangThaiJob::DangIn, x[0]]);
                chuoi_2(bo, TrangThaiJob::DangIn, x[0]);
            }
            assert(qs[0] == TrangThaiJob::DangIn);
        } else if job_bi_huy(j) {
            if x.len() == 0 {
                assert(qs =~= seq![TrangThaiJob::BiHuy]);
                chuoi_1(bo, TrangThaiJob::BiHuy);
            } else {
                assert(qs =~= seq![TrangThaiJob::BiHuy, x[0]]);
                chuoi_2(bo, TrangThaiJob::BiHuy, x[0]);
            }
            assert(qs[0] == TrangThaiJob::BiHuy);
        } else if x.len() > 0 {
            assert(qs =~= x);
            assert(qs =~= seq![x[0]]);
            assert(qs[0] != TrangThaiJob::DangCho);
            chuoi_1(bo, x[0]);
        } else {
            assert(qs =~= seq![TrangThaiJob::DangCho]);
            match chan_moi_cua(v, s.bo.nen) {
                Some(m) => {
                    assert(ts =~= seq![TrangThaiJob::MayInLoi(m)]);
                    chuoi_1(bo, TrangThaiJob::MayInLoi(m));
                },
                None => {
                    chuoi_1(bo, TrangThaiJob::DangCho);
                },
            }
        }
    }
}

/// What a reading comes to in which the queue could be read and the job is not in it.
/// - New trouble of the printer leaves the outcome open where the job was seen printing or withdrawn, and
///   else makes it a candidate for that trouble.
/// - A second reading in a row without it settles it: open where the job was withdrawn, printed where it was
///   seen printing. A job of which neither was seen stays undecided.
pub proof fn vong_vang_job(s: TheoDoi, v: VongDoc, id: Seq<char>, sau: i64)
    requires
        v.hang_doi matches Some(jobs) && vi_tri_job(jobs@, id, sau) is None,
        s.bo.vang_lien_tiep < usize::MAX,
    ensures
        ({
            let (s1, k, bao) = s.sau_vong(v, id, sau);
            let hai_lan = s.bo.vang_lien_tiep >= 1;
            &&& !s1.con_trong_hang_doi
            &&& s1.bo.nen == s.bo.nen
            &&& s1.bo.da_thay_in == s.bo.da_thay_in
            &&& s1.bo.da_thay_huy == s.bo.da_thay_huy
            &&& match chan_moi_cua(v, s.bo.nen) {
                Some(m) => if s.bo.da_thay_in || s.bo.da_thay_huy {
                    k matches Some(KetLuanV::KhongRo(ly)) && ly.loai == Some(m)
                } else {
                    k is None && s1.bo.ung_vien_xoa == Some(m) && s1.bo.ung_vien_cap_may && s1.bo.vang_lien_tiep == 0
                },
                None => {
                    &&& s1.bo.ung_vien_xoa is None
                    &&& s1.bo.vang_lien_tiep == s.bo.vang_lien_tiep + 1
                    &&& hai_lan && s.bo.da_thay_huy ==> (k matches Some(KetLuanV::KhongRo(ly)) && ly.loai == Some(
                        MaSuCo::KhongXacNhan,
                    ))
                    &&& hai_lan && !s.bo.da_thay_huy && s.bo.da_thay_in ==> k == Some(KetLuanV::DaIn { qua_vang: true })
                    &&& (!hai_lan || (!s.bo.da_thay_huy && !s.bo.da_thay_in)) ==> k is None
                },
            }
        }),
{
    reveal(TheoDoi::sau_vong);
    let (s0, ts, b) = s.truoc_suy(v, id, sau);
    match chan_moi_cua(v, s.bo.nen) {
        Some(m) => {
            chuoi_1(s0.bo, TrangThaiJob::MayInLoi(m));
        },
        None => {
            chuoi_1(s0.bo, TrangThaiJob::KhongThay);
        },
    }
}

/// A reading in which the queue could not be read is evidence of nothing: it settles nothing, and what was
/// seen of the job stays; only the count of readings without it starts anew.
pub proof fn vong_khong_doc_duoc(s: TheoDoi, v: VongDoc, id: Seq<char>, sau: i64)
    requires
        v.hang_doi is None,
    ensures
        s.sau_vong(v, id, sau).1 is None,
        s.sau_vong(v, id, sau).0.bo == (BoSuy { vang_lien_tiep: 0, ..s.bo }),
        s.sau_vong(v, id, sau).0.con_trong_hang_doi == s.con_trong_hang_doi,
{
    reveal(TheoDoi::sau_vong);
    let (s0, ts, b) = s.truoc_suy(v, id, sau);
    chuoi_1(s0.bo, TrangThaiJob::LoiTruyVan);
}

/// The trouble that is remembered is the latest that was seen: that of the job itself before that of other
/// jobs that hold up the queue, and that before new trouble of the printer; what is reported of a job is its
/// own trouble.
pub proof fn vong_nho_su_co(s: TheoDoi, v: VongDoc, id: Seq<char>, sau: i64)
    ensures
        ({
            let s1 = s.sau_vong(v, id, sau).0;
            let cua_may = match chan_moi_cua(v, s.bo.nen) {
                Some(m) => Some(m),
                None => s.su_co_da_thay,
            };
            &&& s1.usb.la_may_usb == (s.usb.la_may_usb || v.la_may_usb)
            &&& v.usb matches Some(u) ==> s1.usb.loi_cuoi == (if u.byte & 0x08 == 0 {
                Some(MaSuCo::CanXuLy)
            } else {
                None
            })
            &&& v.usb is None ==> s1.usb.loi_cuoi == s.usb.loi_cuoi
            &&& match v.hang_doi {
                Some(jobs) => match vi_tri_job(jobs@, id, sau) {
                    Some(i) => s1.su_co_da_thay == (match su_co_job(jobs@[i]) {
                        Some(m) => Some(m),
                        None => match crate::spooler::may_in::ket_cua_job_khac(jobs@, id) {
                            Some(m) => Some(m),
                            None => cua_may,
                        },
                    }),
                    None => s1.su_co_da_thay == cua_may,
                },
                None => s1.su_co_da_thay == cua_may,
            }
        }),
{
    reveal(TheoDoi::sau_vong);
}

/// What it comes to once the time is up. Only a candidate may be taken out, for its trouble; else the outcome
/// is open. A job that waits untouched behind trouble from before it is open with that trouble, any other
/// without a cause.
pub proof fn het_gio_nghia(bo: BoSuy)
    ensures
        bo.ung_vien_xoa matches Some(m) ==> (bo.khi_het_gio() matches KetLuanV::UngVienXoa(ly) && ly.loai == Some(m)),
        bo.ung_vien_xoa is None ==> (bo.khi_het_gio() matches KetLuanV::KhongRo(ly) && ly.loai == Some(
            if bo.nen_chan is Some && !bo.da_thay_in && !bo.da_thay_huy && bo.da_thay_job && bo.con_thay_cuoi {
                bo.nen_chan->0
            } else {
                MaSuCo::KhongXacNhan
            },
        )),
{
}

/// A job seen untouched in the queue while the printer reports only trouble from before it is remembered as
/// waiting for that trouble.
pub proof fn vong_cho_sau_nen(s: TheoDoi, v: VongDoc, id: Seq<char>, sau: i64)
    requires
        v.hang_doi matches Some(jobs) && (vi_tri_job(jobs@, id, sau) matches Some(i) && jobs@[i].status == 0
            && jobs@[i].trang_da_in == 0),
        chan_moi_cua(v, s.bo.nen) is None,
        !s.bo.da_thay_in,
        !s.bo.da_thay_huy,
    ensures
        s.sau_vong(v, id, sau).1 is None,
        s.sau_vong(v, id, sau).0.bo.nen_chan == chan_cua(v),
        s.sau_vong(v, id, sau).0.bo.con_thay_cuoi,
{
    reveal(TheoDoi::sau_vong);
    let jobs = v.hang_doi->0@;
    let j = jobs[vi_tri_job(jobs, id, sau)->0];
    let (s0, ts, b) = s.truoc_suy(v, id, sau);
    assert(0u32 & 0x80u32 == 0 && 0u32 & 0x10u32 == 0 && 0u32 & 0x1000u32 == 0 && 0u32 & 0x2000u32 == 0 && 0u32 & 0x4u32 == 0
        && 0u32 & 0x100u32 == 0 && 0u32 & 0x800u32 == 0 && 0u32 & 0x40u32 == 0 && 0u32 & 0x20u32 == 0 && 0u32 & 0x400u32 == 0
        && 0u32 & 0x2u32 == 0 && 0u32 & 0x200u32 == 0) by (bit_vector);
    co_job(j);
    assert(quan_sat_cua(j.status, j.trang_da_in, j.mo_ta_driver@) =~= seq![TrangThaiJob::DangCho]);
    chuoi_1(s0.bo, TrangThaiJob::DangCho);
}

/// What the deletion of a candidate came to decides: "did not print" exactly where the agent deleted the job
/// and saw it gone; any other way the outcome is open. The cause stays what it was, but the printer's general
/// error is then reported as one that costs the invoice no try.
pub proof fn xoa_quyet_dinh(s: TheoDoi, id: Seq<char>, ly_do: crate::job::LyDoV, l1: Seq<Buoc>, l2: Seq<Buoc>, go: KetQuaGoJobV, kq: KetQuaInV)
    requires
        xoa_roi_bao(s, id, ly_do, l1, l2, go, kq),
    ensures
        kq is Loi <==> go is DaGoXong,
        kq is KhongRo <==> !(go is DaGoXong),
        kq matches KetQuaInV::Loi(ly) ==> ly.ban_da_in is None && ly.loai == (if s.bo.ung_vien_cap_may && ly_do.loai == Some(
            MaSuCo::LoiMayIn,
        ) {
            Some(MaSuCo::CanXuLy)
        } else {
            ly_do.loai
        }),
        kq matches KetQuaInV::KhongRo(ly) ==> ly.ban_da_in is None && ly.loai == ly_do.loai,
        go is KhongAnToanDeXoa || go is KhongGoDuoc ==> l2 == seq![
            Buoc::Bao(QuanSatV::ConTrongHangDoi(s.bo.bang_chung_cua())),
        ],
        go is KhongCoTrongHangDoi || go is DaGoXong ==> l2.len() == 0,
{
    if go is KhongAnToanDeXoa || go is KhongGoDuoc {
        assert(l2 =~= seq![Buoc::Bao(QuanSatV::ConTrongHangDoi(s.bo.bang_chung_cua()))]);
    }
}

/// An outcome that is open stays open: the job that is still in the queue is reported as such; one whose USB
/// device reports an error waits in the printer; the cause, where there was none, is the latest trouble that
/// was seen.
pub proof fn khong_ro_giu_khong_ro(s: TheoDoi, id: Seq<char>, ly_do: crate::job::LyDoV, l: Seq<Buoc>, kq: KetQuaInV)
    requires
        ket_thuc_dung(s, id, KetLuanV::KhongRo(ly_do), l, kq),
    ensures
        kq is KhongRo,
        s.con_trong_hang_doi ==> l == seq![Buoc::Bao(QuanSatV::ConTrongHangDoi(s.bo.bang_chung_cua()))],
        ({
            let trong_usb = !s.con_trong_hang_doi && s.usb.loi_cuoi is Some && s.bo.da_thay_job && !s.bo.da_thay_huy;
            &&& trong_usb ==> l == seq![
                Buoc::Bao(
                    QuanSatV::TrongMayInUsb {
                        bang_chung: s.bo.bang_chung_cua(),
                        da_thay_loi: true,
                        da_thay_in: false,
                    },
                ),
            ]
            &&& !s.con_trong_hang_doi && !trong_usb ==> l.len() == 0
            &&& !trong_usb ==> kq == KetQuaInV::KhongRo(
                crate::job::LyDoV {
                    loai: if ly_do.loai == Some(MaSuCo::KhongXacNhan) && s.su_co_da_thay is Some {
                        s.su_co_da_thay
                    } else {
                        ly_do.loai
                    },
                    ..ly_do
                },
            )
            &&& trong_usb ==> (kq matches KetQuaInV::KhongRo(ly) && ly.loai == Some(
                match ly_do.loai {
                    Some(m) => if m.o_may_in() {
                        crate::su_co::hon(m, s.usb.loi_cuoi->0)
                    } else {
                        s.usb.loi_cuoi->0
                    },
                    None => s.usb.loi_cuoi->0,
                },
            ))
        }),
{
    reveal(ket_thuc_dung);
    let bc = s.bo.bang_chung_cua();
    if s.con_trong_hang_doi {
        assert(l =~= seq![Buoc::Bao(QuanSatV::ConTrongHangDoi(bc))]);
    } else if s.usb.loi_cuoi is Some && s.bo.da_thay_job && !s.bo.da_thay_huy {
        assert(l =~= seq![
            Buoc::Bao(QuanSatV::TrongMayInUsb { bang_chung: bc, da_thay_loi: true, da_thay_in: false }),
        ]);
    }
}

/// The reading shows the order's job, and that it was printed.
pub open spec fn thay_da_in(v: VongDoc, id: Seq<char>, sau: i64) -> bool {
    v.hang_doi matches Some(jobs) && (vi_tri_job(jobs@, id, sau) matches Some(i) && job_da_in(jobs@[i]))
}

/// The reading shows the order's job, and that it was withdrawn or restarted.
pub open spec fn thay_bi_huy(v: VongDoc, id: Seq<char>, sau: i64) -> bool {
    v.hang_doi matches Some(jobs) && (vi_tri_job(jobs@, id, sau) matches Some(i) && job_bi_huy(jobs@[i]))
}

proof fn chuoi_huy(bo: BoSuy, ts: Seq<TrangThaiJob>)
    requires
        bo.da_thay_huy,
        forall|i: int| 0 <= i < ts.len() ==> #[trigger] ts[i] != TrangThaiJob::DaInXong,
    ensures
        bo.sau_chuoi(ts).0.da_thay_huy,
        !(bo.sau_chuoi(ts).1 matches Some(KetLuanV::DaIn { qua_vang: _ })),
    decreases ts.len(),
{
    if ts.len() > 0 {
        let (b1, k) = bo.sau(ts[0]);
        assert(ts[0] != TrangThaiJob::DaInXong);
        if k is None {
            let d = ts.subrange(1, ts.len() as int);
            assert forall|i: int| 0 <= i < d.len() implies #[trigger] d[i] != TrangThaiJob::DaInXong by {
                assert(d[i] == ts[i + 1]);
            }
            chuoi_huy(b1, d);
        }
    }
}

proof fn vong_huy(s: TheoDoi, v: VongDoc, id: Seq<char>, sau: i64)
    requires
        s.bo.da_thay_huy || thay_bi_huy(v, id, sau),
        !thay_da_in(v, id, sau),
    ensures
        !(s.sau_vong(v, id, sau).1 matches Some(KetLuanV::DaIn { qua_vang: _ })),
        s.sau_vong(v, id, sau).0.bo.da_thay_huy,
{
    if thay_bi_huy(v, id, sau) {
        vong_co_job(s, v, id, sau);
    } else {
        reveal(TheoDoi::sau_vong);
        let (s0, ts, b) = s.truoc_suy(v, id, sau);
        chuoi_huy(s0.bo, ts);
    }
}

/// Every watch reads at least once.
proof fn co_buoc_dau(n: nat, s: TheoDoi, id: Seq<char>, sau: i64, l: Seq<Buoc>, kq: KetQuaInV)
    requires
        theo_doi_dung(n, s, id, sau, l, kq),
    ensures
        l.len() > 0,
{
    reveal(theo_doi_dung);
}

/// A job that was withdrawn or restarted while it was watched never counts as printed by having vanished:
/// only its own flag for "printed" could say so.
pub proof fn bi_huy_thi_khong_da_in(n: nat, s: TheoDoi, id: Seq<char>, sau: i64, l: Seq<Buoc>, kq: KetQuaInV, x: int)
    requires
        theo_doi_dung(n, s, id, sau, l, kq),
        0 <= x < l.len(),
        s.bo.da_thay_huy || (l[x] matches Buoc::DocVong(v) && thay_bi_huy(v, id, sau)),
        forall|k: int| 0 <= k < x ==> !(#[trigger] l[k] is BayGio),
        forall|k: int| 0 <= k < l.len() ==> (#[trigger] l[k] matches Buoc::DocVong(v) ==> !thay_da_in(v, id, sau)),
    ensures
        !(kq is DaIn),
    decreases l.len(),
{
    reveal(theo_doi_dung);
    let v = l[0]->DocVong_0;
    assert(l[0] matches Buoc::DocVong(v) ==> !thay_da_in(v, id, sau));
    let (s1, k, bao) = s.sau_vong(v, id, sau);
    let m = 1 + bao.len() as int;
    assert forall|i: int| 1 <= i < m implies #[trigger] l[i] is Bao by {
        assert(l.subrange(1, m)[i - 1] == l[i]);
    }
    let q = if k is Some || n == 0 {
        m
    } else if !l[m]->ConThoiGian_0 {
        m + 1
    } else {
        m + 2
    };
    let d = l.subrange(q, l.len() as int);
    if s.bo.da_thay_huy || x == 0 {
        vong_huy(s, v, id, sau);
    }
    if k is Some || n == 0 || !l[m]->ConThoiGian_0 {
        let kl = if k is Some {
            k->0
        } else {
            s1.bo.khi_het_gio()
        };
        crate::spooler::luat::ket_thuc_loi(s1, id, kl, d, kq);
        crate::spooler::luat_sau_roi::ket_thuc_hoi_gio(s1, id, kl, d, kq);
        if !s1.bo.da_thay_huy && !s.bo.da_thay_huy {
            assert(x >= q);
            assert(d[x - q] == l[x]);
            assert(d[x - q] is DocVong);
            if exists|i: int| 0 <= i < d.len() && #[trigger] d[i] is BayGio {
                assert(d[0] == l[q]);
            }
        }
    } else {
        assert forall|i: int| 0 <= i < d.len() implies (#[trigger] d[i] matches Buoc::DocVong(v) ==> !thay_da_in(v, id, sau)) by {
            assert(d[i] == l[i + q]);
        }
        let y = if x >= q {
            x - q
        } else {
            0
        };
        assert forall|i: int| 0 <= i < y implies !(#[trigger] d[i] is BayGio) by {
            assert(d[i] == l[i + q]);
        }
        if x >= q {
            assert(d[y] == l[x]);
        }
        co_buoc_dau((n - 1) as nat, s1, id, sau, d, kq);
        bi_huy_thi_khong_da_in((n - 1) as nat, s1, id, sau, d, kq, y);
    }
}

/// Where the clock was never asked, an invoice counts as printed only by the job's own flag, in a reading
/// after which nothing more was read, and never on a USB printer.
pub proof fn da_in_ngay_chi_theo_co(n: nat, s: TheoDoi, id: Seq<char>, sau: i64, l: Seq<Buoc>)
    requires
        theo_doi_dung(n, s, id, sau, l, KetQuaInV::DaIn),
        forall|k: int| 0 <= k < l.len() ==> !(#[trigger] l[k] is BayGio),
    ensures
        exists|x: int|
            0 <= x < l.len() && (#[trigger] l[x] matches Buoc::DocVong(v) && thay_da_in(v, id, sau)) && forall|k: int|
                x < k < l.len() ==> !(#[trigger] l[k] is DocVong),
        forall|k: int| 0 <= k < l.len() ==> (#[trigger] l[k] matches Buoc::DocVong(v) ==> !v.la_may_usb),
    decreases l.len(),
{
    reveal(theo_doi_dung);
    let kq = KetQuaInV::DaIn;
    let v = l[0]->DocVong_0;
    let (s1, k, bao) = s.sau_vong(v, id, sau);
    let m = 1 + bao.len() as int;
    assert forall|i: int| 1 <= i < m implies #[trigger] l[i] is Bao by {
        assert(l.subrange(1, m)[i - 1] == l[i]);
    }
    vong_nho_su_co(s, v, id, sau);
    let q = if k is Some || n == 0 {
        m
    } else if !l[m]->ConThoiGian_0 {
        m + 1
    } else {
        m + 2
    };
    let d = l.subrange(q, l.len() as int);
    assert forall|i: int| 0 <= i < d.len() implies !(#[trigger] d[i] is BayGio) by {
        assert(d[i] == l[i + q]);
    }
    if k is Some || n == 0 || !l[m]->ConThoiGian_0 {
        let kl = if k is Some {
            k->0
        } else {
            s1.bo.khi_het_gio()
        };
        crate::spooler::luat::ket_thuc_loi(s1, id, kl, d, kq);
        crate::spooler::luat_sau_roi::ket_thuc_hoi_gio(s1, id, kl, d, kq);
        het_gio_nghia(s1.bo);
        vong_ngay(s, v, id, sau);
        assert forall|i: int| 0 < i < l.len() implies !(#[trigger] l[i] is DocVong) by {
            if i >= q {
                assert(d[i - q] == l[i]);
            }
        }
        assert(l[0] matches Buoc::DocVong(v) && thay_da_in(v, id, sau));
    } else {
        da_in_ngay_chi_theo_co((n - 1) as nat, s1, id, sau, d);
        let y = choose|y: int|
            0 <= y < d.len() && (#[trigger] d[y] matches Buoc::DocVong(v) && thay_da_in(v, id, sau)) && forall|k: int|
                y < k < d.len() ==> !(#[trigger] d[k] is DocVong);
        assert(l[y + q] == d[y]);
        assert forall|i: int| y + q < i < l.len() implies !(#[trigger] l[i] is DocVong) by {
            assert(d[i - q] == l[i]);
        }
        giu_usb((n - 1) as nat, s1, id, sau, d);
        assert forall|i: int| 0 <= i < l.len() implies (#[trigger] l[i] matches Buoc::DocVong(v) ==> !v.la_may_usb) by {
            if i >= q {
                assert(d[i - q] == l[i]);
            }
        }
    }
}

/// A conclusion "printed, by its flag" comes only of the flag.
proof fn vong_ngay(s: TheoDoi, v: VongDoc, id: Seq<char>, sau: i64)
    ensures
        s.sau_vong(v, id, sau).1 == Some(KetLuanV::DaIn { qua_vang: false }) ==> thay_da_in(v, id, sau),
{
    reveal(TheoDoi::sau_vong);
    let (s0, ts, b) = s.truoc_suy(v, id, sau);
    if v.hang_doi matches Some(jobs) && vi_tri_job(jobs@, id, sau) is Some {
        vong_co_job(s, v, id, sau);
    } else {
        chuoi_1(s0.bo, ts[0]);
        assert(ts =~= seq![ts[0]]);
    }
}

/// A watch that ends as printed without asking the clock was never on a USB printer.
proof fn giu_usb(n: nat, s: TheoDoi, id: Seq<char>, sau: i64, l: Seq<Buoc>)
    requires
        theo_doi_dung(n, s, id, sau, l, KetQuaInV::DaIn),
        forall|k: int| 0 <= k < l.len() ==> !(#[trigger] l[k] is BayGio),
    ensures
        !s.usb.la_may_usb,
    decreases l.len(),
{
    reveal(theo_doi_dung);
    let kq = KetQuaInV::DaIn;
    let v = l[0]->DocVong_0;
    let (s1, k, bao) = s.sau_vong(v, id, sau);
    let m = 1 + bao.len() as int;
    vong_nho_su_co(s, v, id, sau);
    let q = if k is Some || n == 0 {
        m
    } else if !l[m]->ConThoiGian_0 {
        m + 1
    } else {
        m + 2
    };
    let d = l.subrange(q, l.len() as int);
    assert forall|i: int| 0 <= i < d.len() implies !(#[trigger] d[i] is BayGio) by {
        assert(d[i] == l[i + q]);
    }
    if k is Some || n == 0 || !l[m]->ConThoiGian_0 {
        let kl = if k is Some {
            k->0
        } else {
            s1.bo.khi_het_gio()
        };
        crate::spooler::luat_sau_roi::ket_thuc_hoi_gio(s1, id, kl, d, kq);
    } else {
        giu_usb((n - 1) as nat, s1, id, sau, d);
    }
}

} // verus!
