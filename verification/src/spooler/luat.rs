//! What holds of every watch and every deletion, whatever the spooler replies.
use crate::job::KetQuaInV;
use crate::spooler::bo_suy::{BoSuy, KetLuanV};
use crate::spooler::go_job::{
    cung_ids, go_dung, het_sach, ids_cua_ta, khong_an_toan_tu, kiem_doc_dung, kiem_dung, tam_dung_dung, tiep_tuc_dung,
    xoa_dung,
};
use crate::spooler::kieu::{
    CHO_SAU_TAM_DUNG_MS, CO_DANG_IN, JobHangDoi, KetQuaGoJobV, LenhJob, SO_LAN_KIEM_SAU_XOA, TrangThaiJob, VongDoc,
};
use crate::spooler::may_in::{an_toan, chan_moi_cua};
use crate::spooler::moi_truong::{cac_buoc_bao, Buoc};
use crate::spooler::sau_khi_roi::BoSauKhiRoi;
use crate::spooler::ten_job::{thuoc_ve, vi_tri_job};
use crate::spooler::theo_doi::{
    ket_qua_sau_roi, TheoDoi, ket_thuc_dung, qua_han_usb, sau_roi_dung, theo_doi_dung, usb_nghia, xoa_roi_bao,
};
use crate::su_co::{co, TapMa};
use vstd::prelude::*;

verus! {

/// Every job of the order in the queue can be deleted safely.
pub open spec fn moi_job_sach(jobs: Seq<JobHangDoi>, id: Seq<char>) -> bool {
    forall|i: int| 0 <= i < jobs.len() && thuoc_ve(#[trigger] jobs[i], id) ==> an_toan(jobs[i])
}

pub open spec fn la_lenh(b: Buoc, lenh: LenhJob) -> bool {
    b matches Buoc::DieuKhien(_, l, _) && l == lenh
}

/// The exchange at `k` gives the order `lenh` for the job `x`.
pub open spec fn lenh_cho(b: Buoc, x: u32, lenh: LenhJob) -> bool {
    b matches Buoc::DieuKhien(y, l, _) && y == x && l == lenh
}

/// The order was given and carried out.
pub open spec fn lenh_duoc(b: Buoc, x: u32, lenh: LenhJob) -> bool {
    b matches Buoc::DieuKhien(y, l, r) && y == x && l == lenh && r is Ok
}

/// The exchange orders the spooler to do something.
pub open spec fn co_lenh(b: Buoc) -> bool {
    b is DieuKhien
}

/// A deletion as it must go: a reading in which the order's jobs are all clean, each of them held,
/// a pause, and a second reading with the same jobs, all still clean.
pub open spec fn da_dung_va_van_sach(id: Seq<char>, l: Seq<Buoc>) -> bool {
    l.len() >= 1 && match l[0] {
        Buoc::DocHangDoi(Some(j1)) => {
            let ids = ids_cua_ta(j1@, id);
            let n = ids.len() as int;
            &&& ids.len() > 0
            &&& moi_job_sach(j1@, id)
            &&& l.len() >= n + 3
            &&& forall|i: int| 0 <= i < n ==> lenh_duoc(#[trigger] l[1 + i], ids[i], LenhJob::TamDung)
            &&& l[n + 1] == Buoc::Cho(CHO_SAU_TAM_DUNG_MS)
            &&& match l[n + 2] {
                Buoc::DocHangDoi(Some(j2)) => moi_job_sach(j2@, id) && cung_ids(ids_cua_ta(j2@, id), ids),
                _ => false,
            }
        },
        _ => false,
    }
}

proof fn sach_khi_khong_thay_ban(jobs: Seq<JobHangDoi>, id: Seq<char>, tu: int)
    requires
        0 <= tu,
        khong_an_toan_tu(jobs, id, tu) is None,
    ensures
        forall|i: int| tu <= i < jobs.len() && thuoc_ve(#[trigger] jobs[i], id) ==> an_toan(jobs[i]),
    decreases jobs.len() - tu,
{
    if tu < jobs.len() {
        sach_khi_khong_thay_ban(jobs, id, tu + 1);
    }
}

/// No deletion is ordered while the queue is looked at again.
proof fn kiem_khong_ra_lenh(ids: Seq<u32>, id: Seq<char>, lan: nat, l: Seq<Buoc>, kq: KetQuaGoJobV)
    requires
        kiem_dung(ids, id, lan, l, kq),
    ensures
        forall|k: int| 0 <= k < l.len() ==> !co_lenh(#[trigger] l[k]),
        kq is DaGoXong ==> l.len() >= 1 && (l.last() matches Buoc::DocHangDoi(Some(j3)) && het_sach(j3@, ids, id)),
        kq is DaGoXong || kq is KhongGoDuoc,
    decreases SO_LAN_KIEM_SAU_XOA - lan, 1int,
{
    if lan < SO_LAN_KIEM_SAU_XOA {
        if lan > 0 {
            let sau = l.subrange(1, l.len() as int);
            kiem_doc_khong_ra_lenh(ids, id, lan, sau, kq);
            assert forall|k: int| 0 <= k < l.len() implies !co_lenh(#[trigger] l[k]) by {
                if k > 0 {
                    assert(sau[k - 1] == l[k]);
                }
            }
            if kq is DaGoXong {
                assert(sau.last() == l.last());
            }
        } else {
            kiem_doc_khong_ra_lenh(ids, id, lan, l, kq);
        }
    }
}

proof fn kiem_doc_khong_ra_lenh(ids: Seq<u32>, id: Seq<char>, lan: nat, l: Seq<Buoc>, kq: KetQuaGoJobV)
    requires
        lan < SO_LAN_KIEM_SAU_XOA,
        kiem_doc_dung(ids, id, lan, l, kq),
    ensures
        forall|k: int| 0 <= k < l.len() ==> !co_lenh(#[trigger] l[k]),
        kq is DaGoXong ==> l.len() >= 1 && (l.last() matches Buoc::DocHangDoi(Some(j3)) && het_sach(j3@, ids, id)),
        kq is DaGoXong || kq is KhongGoDuoc,
    decreases SO_LAN_KIEM_SAU_XOA - lan, 0int,
{
    let sau = l.subrange(1, l.len() as int);
    if sau.len() > 0 || !(kq is DaGoXong) {
        if kiem_dung(ids, id, lan + 1, sau, kq) {
            kiem_khong_ra_lenh(ids, id, lan + 1, sau, kq);
        }
    }
    assert forall|k: int| 0 <= k < l.len() implies !co_lenh(#[trigger] l[k]) by {
        if k > 0 {
            assert(sau[k - 1] == l[k]);
        }
    }
    if kq is DaGoXong && sau.len() > 0 {
        assert(sau.last() == l.last());
    }
}

/// From the `i`-th deletion on.
proof fn xoa_cau_truc(ids: Seq<u32>, id: Seq<char>, i: int, l: Seq<Buoc>, kq: KetQuaGoJobV)
    requires
        0 <= i <= ids.len(),
        xoa_dung(ids, id, i, l, kq),
    ensures
        kq is DaGoXong || kq is KhongGoDuoc,
        forall|k: int| 0 <= k < l.len() && #[trigger] la_lenh(l[k], LenhJob::Xoa) ==> exists|x: int|
            i <= x < ids.len() && lenh_cho(l[k], #[trigger] ids[x], LenhJob::Xoa),
        forall|k: int| 0 <= k < l.len() ==> !la_lenh(#[trigger] l[k], LenhJob::TamDung),
        kq is DaGoXong ==> {
            &&& l.len() >= ids.len() - i + 1
            &&& forall|t: int| 0 <= t < ids.len() - i ==> lenh_duoc(#[trigger] l[t], ids[i + t], LenhJob::Xoa)
            &&& l.last() matches Buoc::DocHangDoi(Some(j3)) && het_sach(j3@, ids, id)
        },
        forall|x: int|
            i <= x < ids.len() ==> exists|k: int|
                0 <= k < l.len() && (lenh_duoc(#[trigger] l[k], #[trigger] ids[x], LenhJob::Xoa) || lenh_cho(
                    l[k],
                    ids[x],
                    LenhJob::TiepTuc,
                )),
    decreases ids.len() - i,
{
    if i >= ids.len() {
        kiem_khong_ra_lenh(ids, id, 0, l, kq);
    } else {
        let sau = l.subrange(1, l.len() as int);
        if lenh_duoc(l[0], ids[i], LenhJob::Xoa) {
            xoa_cau_truc(ids, id, i + 1, sau, kq);
            assert forall|k: int| 0 <= k < l.len() && #[trigger] la_lenh(l[k], LenhJob::Xoa) implies exists|x: int|
                i <= x < ids.len() && lenh_cho(l[k], #[trigger] ids[x], LenhJob::Xoa) by {
                if k == 0 {
                    assert(lenh_cho(l[k], ids[i], LenhJob::Xoa));
                } else {
                    assert(sau[k - 1] == l[k]);
                    assert(la_lenh(sau[k - 1], LenhJob::Xoa));
                    let x = choose|x: int| i + 1 <= x < ids.len() && lenh_cho(sau[k - 1], #[trigger] ids[x], LenhJob::Xoa);
                    assert(lenh_cho(l[k], ids[x], LenhJob::Xoa));
                }
            }
            assert forall|k: int| 0 <= k < l.len() implies !la_lenh(#[trigger] l[k], LenhJob::TamDung) by {
                if k > 0 {
                    assert(sau[k - 1] == l[k]);
                }
            }
            assert forall|x: int| i <= x < ids.len() implies exists|k: int|
                0 <= k < l.len() && (lenh_duoc(#[trigger] l[k], #[trigger] ids[x], LenhJob::Xoa) || lenh_cho(
                    l[k],
                    ids[x],
                    LenhJob::TiepTuc,
                )) by {
                if x == i {
                    assert(lenh_duoc(l[0], ids[x], LenhJob::Xoa));
                } else {
                    let k = choose|k: int|
                        0 <= k < sau.len() && (lenh_duoc(#[trigger] sau[k], ids[x], LenhJob::Xoa) || lenh_cho(
                            sau[k],
                            ids[x],
                            LenhJob::TiepTuc,
                        ));
                    assert(l[k + 1] == sau[k]);
                }
            }
            if kq is DaGoXong {
                assert(sau.last() == l.last());
                assert forall|t: int| 0 <= t < ids.len() - i implies lenh_duoc(#[trigger] l[t], ids[i + t], LenhJob::Xoa) by {
                    if t > 0 {
                        assert(lenh_duoc(sau[t - 1], ids[i + 1 + (t - 1)], LenhJob::Xoa));
                    }
                }
            }
        } else {
            assert(tiep_tuc_dung(ids, sau));
            assert forall|k: int| 1 <= k < l.len() implies la_lenh(#[trigger] l[k], LenhJob::TiepTuc) by {
                assert(sau[k - 1] == l[k]);
            }
            assert forall|x: int| 0 <= x < ids.len() implies exists|k: int|
                0 <= k < l.len() && lenh_cho(#[trigger] l[k], #[trigger] ids[x], LenhJob::TiepTuc) by {
                assert(sau[x] == l[x + 1]);
                assert(lenh_cho(l[x + 1], ids[x], LenhJob::TiepTuc));
            }
            assert forall|k: int| 0 <= k < l.len() && #[trigger] la_lenh(l[k], LenhJob::Xoa) implies exists|x: int|
                i <= x < ids.len() && lenh_cho(l[k], #[trigger] ids[x], LenhJob::Xoa) by {
                assert(lenh_cho(l[0], ids[i], LenhJob::Xoa));
            }
        }
    }
}

/// From the `i`-th job to be held on.
proof fn tam_dung_cau_truc(ids: Seq<u32>, id: Seq<char>, i: int, l: Seq<Buoc>, kq: KetQuaGoJobV)
    requires
        0 <= i <= ids.len(),
        tam_dung_dung(ids, id, i, l, kq),
    ensures
        !(kq is KhongCoTrongHangDoi),
        (kq is DaGoXong || exists|k: int| 0 <= k < l.len() && la_lenh(#[trigger] l[k], LenhJob::Xoa)) ==> ({
            let n = ids.len() - i;
            &&& l.len() >= n + 2
            &&& forall|t: int| 0 <= t < n ==> lenh_duoc(#[trigger] l[t], ids[i + t], LenhJob::TamDung)
            &&& l[n] == Buoc::Cho(CHO_SAU_TAM_DUNG_MS)
            &&& l[n + 1] matches Buoc::DocHangDoi(Some(j2)) && moi_job_sach(j2@, id) && cung_ids(ids_cua_ta(j2@, id), ids)
            &&& xoa_dung(ids, id, 0, l.subrange(n + 2, l.len() as int), kq)
        }),
        forall|x: int|
            0 <= x < i ==> exists|k: int|
                0 <= k < l.len() && (lenh_duoc(#[trigger] l[k], #[trigger] ids[x], LenhJob::Xoa) || lenh_cho(
                    l[k],
                    ids[x],
                    LenhJob::TiepTuc,
                )),
        forall|j: int, x: u32|
            0 <= j < l.len() && #[trigger] lenh_duoc(l[j], x, LenhJob::TamDung) ==> exists|k: int|
                j < k < l.len() && (lenh_duoc(#[trigger] l[k], x, LenhJob::Xoa) || lenh_cho(l[k], x, LenhJob::TiepTuc)),
    decreases ids.len() - i,
{
    if i >= ids.len() {
        let l1 = l.subrange(1, l.len() as int);
        let sau = l1.subrange(1, l1.len() as int);
        assert(sau =~= l.subrange(2, l.len() as int));
        assert(forall|k: int| 2 <= k < l.len() ==> #[trigger] l[k] == sau[k - 2]);
        if l[1] matches Buoc::DocHangDoi(Some(j2)) && khong_an_toan_tu(j2@, id, 0) is None && cung_ids(
            ids_cua_ta(j2@, id),
            ids,
        ) {
            sach_khi_khong_thay_ban(l[1]->DocHangDoi_0->0@, id, 0);
            xoa_cau_truc(ids, id, 0, sau, kq);
            assert forall|x: int| 0 <= x < i implies exists|k: int|
                0 <= k < l.len() && (lenh_duoc(#[trigger] l[k], #[trigger] ids[x], LenhJob::Xoa) || lenh_cho(
                    l[k],
                    ids[x],
                    LenhJob::TiepTuc,
                )) by {
                let k = choose|k: int|
                    0 <= k < sau.len() && (lenh_duoc(#[trigger] sau[k], ids[x], LenhJob::Xoa) || lenh_cho(
                        sau[k],
                        ids[x],
                        LenhJob::TiepTuc,
                    ));
                assert(l[k + 2] == sau[k]);
            }
            assert forall|j: int, x: u32| 0 <= j < l.len() && #[trigger] lenh_duoc(l[j], x, LenhJob::TamDung) implies false by {
                if j >= 2 {
                    assert(l[j] == sau[j - 2]);
                    assert(!la_lenh(sau[j - 2], LenhJob::TamDung));
                }
            }
        } else {
            assert(tiep_tuc_dung(ids, sau));
            assert forall|k: int| 2 <= k < l.len() implies la_lenh(#[trigger] l[k], LenhJob::TiepTuc) by {
                assert(l[k] == sau[k - 2]);
            }
            assert forall|x: int| 0 <= x < i implies exists|k: int|
                0 <= k < l.len() && (lenh_duoc(#[trigger] l[k], #[trigger] ids[x], LenhJob::Xoa) || lenh_cho(
                    l[k],
                    ids[x],
                    LenhJob::TiepTuc,
                )) by {
                assert(l[x + 2] == sau[x]);
                assert(lenh_cho(l[x + 2], ids[x], LenhJob::TiepTuc));
            }
            assert forall|j: int, x: u32| 0 <= j < l.len() && #[trigger] lenh_duoc(l[j], x, LenhJob::TamDung) implies false by {
                if j >= 2 {
                    assert(la_lenh(l[j], LenhJob::TiepTuc));
                }
            }
        }
    } else {
        let sau = l.subrange(1, l.len() as int);
        assert(forall|k: int| 1 <= k < l.len() ==> #[trigger] l[k] == sau[k - 1]);
        if lenh_duoc(l[0], ids[i], LenhJob::TamDung) {
            tam_dung_cau_truc(ids, id, i + 1, sau, kq);
            if kq is DaGoXong || exists|k: int| 0 <= k < l.len() && la_lenh(#[trigger] l[k], LenhJob::Xoa) {
                if !(kq is DaGoXong) {
                    let k = choose|k: int| 0 <= k < l.len() && la_lenh(#[trigger] l[k], LenhJob::Xoa);
                    assert(l[k] == sau[k - 1]);
                    assert(la_lenh(sau[k - 1], LenhJob::Xoa));
                }
                let n = ids.len() - i;
                assert forall|t: int| 0 <= t < n implies lenh_duoc(#[trigger] l[t], ids[i + t], LenhJob::TamDung) by {
                    if t > 0 {
                        assert(l[t] == sau[t - 1]);
                        assert(lenh_duoc(sau[t - 1], ids[i + 1 + (t - 1)], LenhJob::TamDung));
                    }
                }
                assert(l[n] == sau[n - 1]);
                assert(l[n + 1] == sau[n]);
                assert(l.subrange(n + 2, l.len() as int) =~= sau.subrange(n + 1, sau.len() as int));
            }
            assert forall|x: int| 0 <= x < i implies exists|k: int|
                0 <= k < l.len() && (lenh_duoc(#[trigger] l[k], #[trigger] ids[x], LenhJob::Xoa) || lenh_cho(
                    l[k],
                    ids[x],
                    LenhJob::TiepTuc,
                )) by {
                let k = choose|k: int|
                    0 <= k < sau.len() && (lenh_duoc(#[trigger] sau[k], ids[x], LenhJob::Xoa) || lenh_cho(
                        sau[k],
                        ids[x],
                        LenhJob::TiepTuc,
                    ));
                assert(l[k + 1] == sau[k]);
            }
            assert forall|j: int, x: u32| 0 <= j < l.len() && #[trigger] lenh_duoc(l[j], x, LenhJob::TamDung) implies exists|
                k: int,
            | j < k < l.len() && (lenh_duoc(#[trigger] l[k], x, LenhJob::Xoa) || lenh_cho(l[k], x, LenhJob::TiepTuc)) by {
                if j == 0 {
                    assert(x == ids[i]);
                    let k = choose|k: int|
                        0 <= k < sau.len() && (lenh_duoc(#[trigger] sau[k], ids[i], LenhJob::Xoa) || lenh_cho(
                            sau[k],
                            ids[i],
                            LenhJob::TiepTuc,
                        ));
                    assert(l[k + 1] == sau[k]);
                } else {
                    assert(l[j] == sau[j - 1]);
                    assert(lenh_duoc(sau[j - 1], x, LenhJob::TamDung));
                    let k = choose|k: int|
                        j - 1 < k < sau.len() && (lenh_duoc(#[trigger] sau[k], x, LenhJob::Xoa) || lenh_cho(
                            sau[k],
                            x,
                            LenhJob::TiepTuc,
                        ));
                    assert(l[k + 1] == sau[k]);
                }
            }
        } else {
            let dau = ids.subrange(0, i);
            assert(tiep_tuc_dung(dau, sau));
            assert forall|k: int| 1 <= k < l.len() implies la_lenh(#[trigger] l[k], LenhJob::TiepTuc) by {
                assert(l[k] == sau[k - 1]);
            }
            assert forall|x: int| 0 <= x < i implies exists|k: int|
                0 <= k < l.len() && (lenh_duoc(#[trigger] l[k], #[trigger] ids[x], LenhJob::Xoa) || lenh_cho(
                    l[k],
                    ids[x],
                    LenhJob::TiepTuc,
                )) by {
                assert(l[x + 1] == sau[x]);
                assert(dau[x] == ids[x]);
                assert(lenh_cho(l[x + 1], ids[x], LenhJob::TiepTuc));
            }
            assert forall|j: int, x: u32| 0 <= j < l.len() && #[trigger] lenh_duoc(l[j], x, LenhJob::TamDung) implies false by {
                if j >= 1 {
                    assert(la_lenh(l[j], LenhJob::TiepTuc));
                }
            }
        }
    }
}

/// A job is deleted only after it was seen clean, held, and seen clean again, and never once the watch
/// had seen it print.
pub proof fn xoa_chi_khi_chac_chan(id: Seq<char>, da_thay_in: bool, l: Seq<Buoc>, kq: KetQuaGoJobV, k: int)
    requires
        go_dung(id, da_thay_in, l, kq),
        0 <= k < l.len(),
        la_lenh(l[k], LenhJob::Xoa),
    ensures
        !da_thay_in,
        da_dung_va_van_sach(id, l),
        l[0] matches Buoc::DocHangDoi(Some(j1)) && ids_cua_ta(j1@, id).len() + 2 < k && exists|x: int|
            0 <= x < ids_cua_ta(j1@, id).len() && lenh_cho(l[k], #[trigger] ids_cua_ta(j1@, id)[x], LenhJob::Xoa),
{
    let sau = l.subrange(1, l.len() as int);
    assert(forall|i: int| 1 <= i < l.len() ==> #[trigger] l[i] == sau[i - 1]);
    assert(k > 0);
    assert(la_lenh(sau[k - 1], LenhJob::Xoa));
    let j1 = l[0]->DocHangDoi_0->0;
    let ids = ids_cua_ta(j1@, id);
    let n = ids.len() as int;
    sach_khi_khong_thay_ban(j1@, id, 0);
    tam_dung_cau_truc(ids, id, 0, sau, kq);
    assert forall|i: int| 0 <= i < n implies lenh_duoc(#[trigger] l[1 + i], ids[i], LenhJob::TamDung) by {
        assert(lenh_duoc(sau[i], ids[0 + i], LenhJob::TamDung));
    }
    assert(l[n + 1] == sau[n]);
    assert(l[n + 2] == sau[n + 1]);
    let duoi = sau.subrange(n + 2, sau.len() as int);
    xoa_cau_truc(ids, id, 0, duoi, kq);
    if k - 1 < n {
        assert(lenh_duoc(sau[k - 1], ids[0 + (k - 1)], LenhJob::TamDung));
    }
    assert(k - 1 >= n + 2);
    assert(duoi[k - 1 - (n + 2)] == sau[k - 1]);
    assert(la_lenh(duoi[k - 1 - (n + 2)], LenhJob::Xoa));
    let x = choose|x: int| 0 <= x < ids.len() && lenh_cho(duoi[k - 1 - (n + 2)], #[trigger] ids[x], LenhJob::Xoa);
    assert(lenh_cho(l[k], ids_cua_ta(j1@, id)[x], LenhJob::Xoa));
}

/// "Taken out" means: seen clean twice with the jobs held in between, every deletion carried out, and
/// a last reading in which none of the jobs is left.
pub proof fn go_xong_la_da_het(id: Seq<char>, da_thay_in: bool, l: Seq<Buoc>)
    requires
        go_dung(id, da_thay_in, l, KetQuaGoJobV::DaGoXong),
    ensures
        !da_thay_in,
        da_dung_va_van_sach(id, l),
        l[0] matches Buoc::DocHangDoi(Some(j1)) && ({
            let ids = ids_cua_ta(j1@, id);
            let n = ids.len() as int;
            &&& l.len() >= 2 * n + 4
            &&& forall|i: int| 0 <= i < n ==> lenh_duoc(#[trigger] l[n + 3 + i], ids[i], LenhJob::Xoa)
            &&& l.last() matches Buoc::DocHangDoi(Some(j3)) && het_sach(j3@, ids, id)
        }),
{
    let kq = KetQuaGoJobV::DaGoXong;
    let sau = l.subrange(1, l.len() as int);
    assert(forall|i: int| 1 <= i < l.len() ==> #[trigger] l[i] == sau[i - 1]);
    let j1 = l[0]->DocHangDoi_0->0;
    let ids = ids_cua_ta(j1@, id);
    let n = ids.len() as int;
    sach_khi_khong_thay_ban(j1@, id, 0);
    tam_dung_cau_truc(ids, id, 0, sau, kq);
    assert forall|i: int| 0 <= i < n implies lenh_duoc(#[trigger] l[1 + i], ids[i], LenhJob::TamDung) by {
        assert(lenh_duoc(sau[i], ids[0 + i], LenhJob::TamDung));
    }
    assert(l[n + 1] == sau[n]);
    assert(l[n + 2] == sau[n + 1]);
    let duoi = sau.subrange(n + 2, sau.len() as int);
    xoa_cau_truc(ids, id, 0, duoi, kq);
    assert forall|i: int| 0 <= i < n implies lenh_duoc(#[trigger] l[n + 3 + i], ids[i], LenhJob::Xoa) by {
        assert(l[n + 3 + i] == duoi[i]);
        assert(lenh_duoc(duoi[i], ids[0 + i], LenhJob::Xoa));
    }
    assert(l.last() == duoi.last());
}

/// No job that was held is forgotten: later it is deleted, or released again.
pub proof fn khong_bo_quen_job_dang_dung(
    id: Seq<char>,
    da_thay_in: bool,
    l: Seq<Buoc>,
    kq: KetQuaGoJobV,
    j: int,
    x: u32,
)
    requires
        go_dung(id, da_thay_in, l, kq),
        0 <= j < l.len(),
        lenh_duoc(l[j], x, LenhJob::TamDung),
    ensures
        exists|k: int|
            j < k < l.len() && (lenh_duoc(#[trigger] l[k], x, LenhJob::Xoa) || lenh_cho(l[k], x, LenhJob::TiepTuc)),
{
    let sau = l.subrange(1, l.len() as int);
    assert(j > 0);
    assert(sau[j - 1] == l[j]);
    let j1 = l[0]->DocHangDoi_0->0;
    let ids = ids_cua_ta(j1@, id);
    tam_dung_cau_truc(ids, id, 0, sau, kq);
    assert(lenh_duoc(sau[j - 1], x, LenhJob::TamDung));
    let k = choose|k: int|
        j - 1 < k < sau.len() && (lenh_duoc(#[trigger] sau[k], x, LenhJob::Xoa) || lenh_cho(sau[k], x, LenhJob::TiepTuc));
    assert(l[k + 1] == sau[k]);
}

/// In the trace the job was taken out: held, seen clean, deleted, seen gone.
pub open spec fn co_lan_go_xong(l: Seq<Buoc>, id: Seq<char>) -> bool {
    exists|a: int, b: int|
        0 <= a <= b <= l.len() && #[trigger] go_dung(id, false, l.subrange(a, b), KetQuaGoJobV::DaGoXong)
}

proof fn go_xong_trong_duoi(l: Seq<Buoc>, id: Seq<char>, m: int)
    requires
        0 <= m <= l.len(),
        co_lan_go_xong(l.subrange(m, l.len() as int), id),
    ensures
        co_lan_go_xong(l, id),
{
    let d = l.subrange(m, l.len() as int);
    let (a, b) = choose|a: int, b: int|
        0 <= a <= b <= d.len() && #[trigger] go_dung(id, false, d.subrange(a, b), KetQuaGoJobV::DaGoXong);
    assert(d.subrange(a, b) =~= l.subrange(m + a, m + b));
    assert(go_dung(id, false, l.subrange(m + a, m + b), KetQuaGoJobV::DaGoXong));
}

proof fn sau_roi_khong_loi(b: BoSauKhiRoi, t0: u64, bo: BoSuy, l: Seq<Buoc>, kq: KetQuaInV)
    requires
        sau_roi_dung(b, t0, bo, l, kq),
    ensures
        !(kq is Loi),
        forall|k: int| 0 <= k < l.len() ==> !co_lenh(#[trigger] l[k]),
    decreases l.len(),
{
    reveal(sau_roi_dung);
    reveal(ket_qua_sau_roi);
    let v = l[1]->DocVong_0;
    let bao = cac_buoc_bao(crate::spooler::may_in::bao_may_in_cua(v, bo.nen));
    let m = 2 + bao.len() as int;
    let (b1, k) = b.sau(chan_moi_cua(v, bo.nen), usb_nghia(v));
    assert forall|i: int| 0 <= i < m implies !co_lenh(#[trigger] l[i]) by {
        if i >= 2 {
            assert(l.subrange(2, m)[i - 2] == l[i]);
        }
    }
    match k {
        Some(x) => {
            let (kq1, bao1) = ket_qua_sau_roi(x, b1.dang_in, bo.bang_chung_cua());
            assert(l.subrange(m, l.len() as int) == cac_buoc_bao(bao1));
            khong_lenh_ghep(l, m);
        },
        None => {
            let d = l.subrange(m + 1, l.len() as int);
            let t = l[m]->BayGio_0;
            if !qua_han_usb(t0, t) {
                sau_roi_khong_loi(b1, t0, bo, d, kq);
            } else {
                let (kq1, bao1) = ket_qua_sau_roi(b1.khi_het_gio(), b1.dang_in, bo.bang_chung_cua());
                assert(d == cac_buoc_bao(bao1));
            }
            assert(l[m] is BayGio);
            assert forall|i: int| 0 <= i < l.len() - (m + 1) implies !co_lenh(
                #[trigger] l.subrange(m + 1, l.len() as int)[i],
            ) by {
                assert(!co_lenh(d[i]));
            }
            assert forall|i: int| 0 <= i < m + 1 implies !co_lenh(#[trigger] l[i]) by {
                if i == m {
                    assert(l[i] is BayGio);
                }
            }
            khong_lenh_ghep(l, m + 1);
        },
    }
}

/// No order in the first part and none in the rest.
proof fn khong_lenh_ghep(l: Seq<Buoc>, m: int)
    requires
        0 <= m <= l.len(),
        forall|i: int| 0 <= i < m ==> !co_lenh(#[trigger] l[i]),
        forall|i: int|
            0 <= i < l.len() - m ==> !co_lenh(#[trigger] l.subrange(m, l.len() as int)[i]),
    ensures
        forall|i: int| 0 <= i < l.len() ==> !co_lenh(#[trigger] l[i]),
{
    assert forall|i: int| 0 <= i < l.len() implies !co_lenh(#[trigger] l[i]) by {
        if i >= m {
            assert(!co_lenh(l.subrange(m, l.len() as int)[i - m]));
        }
    }
}

pub(crate) proof fn ket_thuc_loi(s: TheoDoi, id: Seq<char>, kl: KetLuanV, l: Seq<Buoc>, kq: KetQuaInV)
    requires
        ket_thuc_dung(s, id, kl, l, kq),
    ensures
        kq is Loi ==> co_lan_go_xong(l, id),
        !(kl is UngVienXoa) ==> !(kq is Loi) && forall|k: int| 0 <= k < l.len() ==> !co_lenh(#[trigger] l[k]),
        kq is DaIn ==> kl is DaIn,
{
    reveal(ket_thuc_dung);
    match kl {
        KetLuanV::DaIn { qua_vang } => {
            if qua_vang || s.usb.la_may_usb {
                let d = l.subrange(1, l.len() as int);
                sau_roi_khong_loi(BoSauKhiRoi::dau(), l[0]->BayGio_0, s.bo, d, kq);
                assert forall|k: int| 0 <= k < l.len() implies !co_lenh(#[trigger] l[k]) by {
                    if k > 0 {
                        assert(d[k - 1] == l[k]);
                    }
                }
            }
        },
        KetLuanV::KhongRo(ly_do) => {},
        KetLuanV::UngVienXoa(ly_do) => {
            let (l1, l2, go) = choose|l1: Seq<Buoc>, l2: Seq<Buoc>, go: KetQuaGoJobV|
                l == l1 + l2 && #[trigger] xoa_roi_bao(s, id, ly_do, l1, l2, go, kq);
            if kq is Loi {
                assert(go is DaGoXong);
                assert(!(s.bo.da_thay_in || s.bo.da_thay_huy));
                assert(l.subrange(0, l1.len() as int) =~= l1);
                assert(go_dung(id, false, l.subrange(0, l1.len() as int), KetQuaGoJobV::DaGoXong));
            }
        },
    }
}

/// "Did not print", on which the server sends the invoice again, is only ever the outcome of a watch
/// that itself took the job out of the queue.
pub proof fn loi_chi_khi_da_go_xong(n: nat, s: TheoDoi, id: Seq<char>, sau: i64, l: Seq<Buoc>, kq: KetQuaInV)
    requires
        theo_doi_dung(n, s, id, sau, l, kq),
        kq is Loi,
    ensures
        co_lan_go_xong(l, id),
    decreases l.len(),
{
    reveal(theo_doi_dung);
    let v = l[0]->DocVong_0;
    let (s1, k, bao) = s.sau_vong(v, id, sau);
    let m = 1 + bao.len() as int;
    match k {
        Some(kl) => {
            ket_thuc_loi(s1, id, kl, l.subrange(m, l.len() as int), kq);
            go_xong_trong_duoi(l, id, m);
        },
        None => {
            if n == 0 {
                ket_thuc_loi(s1, id, s1.bo.khi_het_gio(), l.subrange(m, l.len() as int), kq);
                go_xong_trong_duoi(l, id, m);
            } else if !l[m]->ConThoiGian_0 {
                ket_thuc_loi(s1, id, s1.bo.khi_het_gio(), l.subrange(m + 1, l.len() as int), kq);
                go_xong_trong_duoi(l, id, m + 1);
            } else {
                loi_chi_khi_da_go_xong((n - 1) as nat, s1, id, sau, l.subrange(m + 2, l.len() as int), kq);
                go_xong_trong_duoi(l, id, m + 2);
            }
        },
    }
}

/// A reading shows the order's job printing, printed or past it.
pub open spec fn cho_thay_in(v: VongDoc, id: Seq<char>, sau: i64) -> bool {
    v.hang_doi matches Some(jobs) && vi_tri_job(jobs@, id, sau) matches Some(i) && (jobs@[i].status
        & co::JOB_STATUS_PRINTED != 0 || jobs@[i].status & CO_DANG_IN != 0 || jobs@[i].trang_da_in > 0)
}

/// Some reading in the trace shows the order's job printing, printed or past it.
pub open spec fn co_vong_thay_in(l: Seq<Buoc>, id: Seq<char>, sau: i64) -> bool {
    exists|k: int| 0 <= k < l.len() && (#[trigger] l[k] matches Buoc::DocVong(v) && cho_thay_in(v, id, sau))
}

/// One run of observations of a job, from a state in which it was not seen printing.
proof fn chuoi_khong_in(bo: BoSuy, ts: Seq<TrangThaiJob>)
    requires
        !bo.da_thay_in,
        forall|i: int| 0 <= i < ts.len() ==> (#[trigger] ts[i]) != TrangThaiJob::DangIn && ts[i] != TrangThaiJob::DaInXong,
    ensures
        !bo.sau_chuoi(ts).0.da_thay_in,
        !(bo.sau_chuoi(ts).1 matches Some(KetLuanV::DaIn { qua_vang: _ })),
    decreases ts.len(),
{
    if ts.len() > 0 {
        let (b1, k) = bo.sau(ts[0]);
        assert(ts[0] != TrangThaiJob::DangIn && ts[0] != TrangThaiJob::DaInXong);
        if k is None {
            let d = ts.subrange(1, ts.len() as int);
            assert forall|i: int| 0 <= i < d.len() implies (#[trigger] d[i]) != TrangThaiJob::DangIn && d[i]
                != TrangThaiJob::DaInXong by {
                assert(d[i] == ts[i + 1]);
            }
            chuoi_khong_in(b1, d);
        }
    }
}

/// A reading that shows nothing printing leaves a job that was not seen printing so.
proof fn vong_khong_in(s: TheoDoi, v: VongDoc, id: Seq<char>, sau: i64)
    requires
        !s.bo.da_thay_in,
        !cho_thay_in(v, id, sau),
    ensures
        !s.sau_vong(v, id, sau).0.bo.da_thay_in,
        !(s.sau_vong(v, id, sau).1 matches Some(KetLuanV::DaIn { qua_vang: _ })),
{
    reveal(TheoDoi::sau_vong);
    let (s1, ts, b) = s.truoc_suy(v, id, sau);
    assert(!s1.bo.da_thay_in);
    chuoi_khong_in(s1.bo, ts);
}

/// "Printed" is only ever the outcome of a watch in which some reading showed the job printing,
/// printed or past it: neither an absent job nor a queue that could not be read is enough.
pub proof fn da_in_chi_khi_thay_in(n: nat, s: TheoDoi, id: Seq<char>, sau: i64, l: Seq<Buoc>, kq: KetQuaInV)
    requires
        theo_doi_dung(n, s, id, sau, l, kq),
        kq is DaIn,
        !s.bo.da_thay_in,
    ensures
        co_vong_thay_in(l, id, sau),
    decreases l.len(),
{
    reveal(theo_doi_dung);
    let v = l[0]->DocVong_0;
    let (s1, k, bao) = s.sau_vong(v, id, sau);
    let m = 1 + bao.len() as int;
    if cho_thay_in(v, id, sau) {
        assert(l[0] matches Buoc::DocVong(v) && cho_thay_in(v, id, sau));
    } else {
        vong_khong_in(s, v, id, sau);
        match k {
            Some(kl) => {
                ket_thuc_loi(s1, id, kl, l.subrange(m, l.len() as int), kq);
            },
            None => {
                if n == 0 {
                    ket_thuc_loi(s1, id, s1.bo.khi_het_gio(), l.subrange(m, l.len() as int), kq);
                } else if !l[m]->ConThoiGian_0 {
                    ket_thuc_loi(s1, id, s1.bo.khi_het_gio(), l.subrange(m + 1, l.len() as int), kq);
                } else {
                    let d = l.subrange(m + 2, l.len() as int);
                    da_in_chi_khi_thay_in((n - 1) as nat, s1, id, sau, d, kq);
                    let j = choose|j: int|
                        0 <= j < d.len() && (#[trigger] d[j] matches Buoc::DocVong(v) && cho_thay_in(v, id, sau));
                    assert(l[j + m + 2] == d[j]);
                }
            },
        }
    }
}

/// The job was seen printing or withdrawn, and is no candidate for deletion.
pub open spec fn khong_con_xoa(bo: BoSuy) -> bool {
    (bo.da_thay_in || bo.da_thay_huy) && bo.ung_vien_xoa is None
}

proof fn vong_giu_khong_xoa(s: TheoDoi, v: VongDoc, id: Seq<char>, sau: i64)
    requires
        khong_con_xoa(s.bo),
    ensures
        khong_con_xoa(s.sau_vong(v, id, sau).0.bo),
        !(s.sau_vong(v, id, sau).1 matches Some(KetLuanV::UngVienXoa(_))),
        !(s.sau_vong(v, id, sau).0.bo.khi_het_gio() is UngVienXoa),
{
    reveal(TheoDoi::sau_vong);
    let (s1, ts, b) = s.truoc_suy(v, id, sau);
    assert(khong_con_xoa(s1.bo));
    crate::spooler::bo_suy::da_in_do_khong_bi_xoa(s1.bo, ts);
}

/// Once a job was seen printing or withdrawn, the watch gives the spooler no order any more: the job is
/// neither held nor deleted, whatever comes.
pub proof fn thay_in_thi_khong_dung_toi(n: nat, s: TheoDoi, id: Seq<char>, sau: i64, l: Seq<Buoc>, kq: KetQuaInV)
    requires
        theo_doi_dung(n, s, id, sau, l, kq),
        khong_con_xoa(s.bo),
    ensures
        forall|k: int| 0 <= k < l.len() ==> !co_lenh(#[trigger] l[k]),
        !(kq is Loi),
    decreases l.len(),
{
    reveal(theo_doi_dung);
    let v = l[0]->DocVong_0;
    let (s1, k, bao) = s.sau_vong(v, id, sau);
    let m = 1 + bao.len() as int;
    vong_giu_khong_xoa(s, v, id, sau);
    assert forall|i: int| 0 <= i < m implies !co_lenh(#[trigger] l[i]) by {
        if i >= 1 {
            assert(l.subrange(1, m)[i - 1] == l[i]);
        }
    }
    let p = if k is Some || n == 0 {
        m
    } else if !l[m]->ConThoiGian_0 {
        m + 1
    } else {
        m + 2
    };
    let d = l.subrange(p, l.len() as int);
    match k {
        Some(kl) => {
            ket_thuc_loi(s1, id, kl, d, kq);
        },
        None => {
            if n == 0 || !l[m]->ConThoiGian_0 {
                ket_thuc_loi(s1, id, s1.bo.khi_het_gio(), d, kq);
            } else {
                thay_in_thi_khong_dung_toi((n - 1) as nat, s1, id, sau, d, kq);
            }
        },
    }
    assert forall|i: int| m <= i < l.len() implies !co_lenh(#[trigger] l[i]) by {
        if i >= p {
            assert(d[i - p] == l[i]);
        }
    }
}

/// The reading shows neither new trouble of the printer nor a job that the driver holds back.
pub open spec fn chi_co_nen(v: VongDoc, nen: TapMa, id: Seq<char>, sau: i64) -> bool {
    chan_moi_cua(v, nen) is None && (v.hang_doi matches Some(jobs) && vi_tri_job(jobs@, id, sau) matches Some(i)
        ==> jobs@[i].status & co::JOB_STATUS_BLOCKED_DEVQ == 0)
}

proof fn chuoi_khong_ung_vien(bo: BoSuy, ts: Seq<TrangThaiJob>)
    requires
        bo.ung_vien_xoa is None,
        forall|i: int| 0 <= i < ts.len() ==> !((#[trigger] ts[i]) is MayInLoi) && !(ts[i] is KetHangDoi),
    ensures
        bo.sau_chuoi(ts).0.ung_vien_xoa is None,
        bo.sau_chuoi(ts).0.nen == bo.nen,
        !(bo.sau_chuoi(ts).1 matches Some(KetLuanV::UngVienXoa(_))),
    decreases ts.len(),
{
    if ts.len() > 0 {
        let (b1, k) = bo.sau(ts[0]);
        assert(!(ts[0] is MayInLoi) && !(ts[0] is KetHangDoi));
        if k is None {
            let d = ts.subrange(1, ts.len() as int);
            assert forall|i: int| 0 <= i < d.len() implies !((#[trigger] d[i]) is MayInLoi) && !(d[i] is KetHangDoi) by {
                assert(d[i] == ts[i + 1]);
            }
            chuoi_khong_ung_vien(b1, d);
        }
    }
}

proof fn vong_chi_nen(s: TheoDoi, v: VongDoc, id: Seq<char>, sau: i64)
    requires
        s.bo.ung_vien_xoa is None,
        chi_co_nen(v, s.bo.nen, id, sau),
    ensures
        s.sau_vong(v, id, sau).0.bo.ung_vien_xoa is None,
        s.sau_vong(v, id, sau).0.bo.nen == s.bo.nen,
        !(s.sau_vong(v, id, sau).1 matches Some(KetLuanV::UngVienXoa(_))),
{
    reveal(TheoDoi::sau_vong);
    let (s1, ts, b) = s.truoc_suy(v, id, sau);
    chuoi_khong_ung_vien(s1.bo, ts);
}

/// Troubles of the printer from before the job never cost the job its place: as long as no reading
/// shows new trouble or a job held back by its driver, the spooler is given no order.
pub proof fn nen_khong_bao_gio_xoa(n: nat, s: TheoDoi, id: Seq<char>, sau: i64, l: Seq<Buoc>, kq: KetQuaInV)
    requires
        theo_doi_dung(n, s, id, sau, l, kq),
        s.bo.ung_vien_xoa is None,
        forall|k: int| 0 <= k < l.len() ==> (#[trigger] l[k] matches Buoc::DocVong(v) ==> chi_co_nen(v, s.bo.nen, id, sau)),
    ensures
        forall|k: int| 0 <= k < l.len() ==> !co_lenh(#[trigger] l[k]),
        !(kq is Loi),
    decreases l.len(),
{
    reveal(theo_doi_dung);
    let v = l[0]->DocVong_0;
    assert(l[0] matches Buoc::DocVong(v) ==> chi_co_nen(v, s.bo.nen, id, sau));
    let (s1, k, bao) = s.sau_vong(v, id, sau);
    let m = 1 + bao.len() as int;
    vong_chi_nen(s, v, id, sau);
    assert forall|i: int| 0 <= i < m implies !co_lenh(#[trigger] l[i]) by {
        if i >= 1 {
            assert(l.subrange(1, m)[i - 1] == l[i]);
        }
    }
    let p = if k is Some || n == 0 {
        m
    } else if !l[m]->ConThoiGian_0 {
        m + 1
    } else {
        m + 2
    };
    let d = l.subrange(p, l.len() as int);
    match k {
        Some(kl) => {
            ket_thuc_loi(s1, id, kl, d, kq);
        },
        None => {
            if n == 0 || !l[m]->ConThoiGian_0 {
                ket_thuc_loi(s1, id, s1.bo.khi_het_gio(), d, kq);
            } else {
                assert forall|k: int| 0 <= k < d.len() implies (#[trigger] d[k] matches Buoc::DocVong(v) ==> chi_co_nen(
                    v,
                    s1.bo.nen,
                    id,
                    sau,
                )) by {
                    assert(d[k] == l[k + p]);
                }
                nen_khong_bao_gio_xoa((n - 1) as nat, s1, id, sau, d, kq);
            }
        },
    }
    assert forall|i: int| m <= i < l.len() implies !co_lenh(#[trigger] l[i]) by {
        if i >= p {
            assert(d[i - p] == l[i]);
        }
    }
}

} // verus!
