//! Taking a job out of the queue: the only way to an outcome on which the server may send again.
use crate::chu;
use crate::job::{KetQuaIn, KetQuaInV, LyDo, LyDoV};
use crate::spooler::kieu::{
    CHO_SAU_TAM_DUNG_MS, CHU_KY_KIEM_SAU_XOA_MS, JobHangDoi, KetQuaGoJob, KetQuaGoJobV, LenhJob, SO_LAN_KIEM_SAU_XOA,
};
use crate::spooler::may_in::{self, an_toan, da_bat_dau, ly_do_khong_an_toan_cua};
use crate::spooler::moi_truong::{
    duoi, mot_buoc_truoc, noi_tiep, noi_tiep_chinh_no, Buoc, DongHo, KenhBao, MoiTruong, Spooler,
};
use crate::spooler::ten_job::{self, cua_app, la_cung_may, thuoc_ve};
use crate::su_co::co;
use vstd::prelude::*;
use vstd::string::*;

verus! {

/// The ids of the order's jobs in the queue.
pub open spec fn ids_cua_ta(jobs: Seq<JobHangDoi>, id: Seq<char>) -> Seq<u32>
    decreases jobs.len(),
{
    if jobs.len() == 0 {
        Seq::empty()
    } else if thuoc_ve(jobs.last(), id) {
        ids_cua_ta(jobs.drop_last(), id).push(jobs.last().id)
    } else {
        ids_cua_ta(jobs.drop_last(), id)
    }
}

/// The first of the order's jobs, from `tu` on, that cannot be deleted safely.
pub open spec fn khong_an_toan_tu(jobs: Seq<JobHangDoi>, id: Seq<char>, tu: int) -> Option<int>
    decreases jobs.len() - tu,
{
    if tu < 0 || tu >= jobs.len() {
        None
    } else if thuoc_ve(jobs[tu], id) && !an_toan(jobs[tu]) {
        Some(tu)
    } else {
        khong_an_toan_tu(jobs, id, tu + 1)
    }
}

/// After the deletion, the job still counts as one of the order's.
pub open spec fn con_lai(j: JobHangDoi, ids: Seq<u32>, id: Seq<char>) -> bool {
    ids.contains(j.id) || thuoc_ve(j, id)
}

/// The first of the remaining jobs, from `tu` on, that has started printing.
pub open spec fn bat_dau_tu(jobs: Seq<JobHangDoi>, ids: Seq<u32>, id: Seq<char>, tu: int) -> Option<int>
    decreases jobs.len() - tu,
{
    if tu < 0 || tu >= jobs.len() {
        None
    } else if con_lai(jobs[tu], ids, id) && da_bat_dau(jobs[tu]) {
        Some(tu)
    } else {
        bat_dau_tu(jobs, ids, id, tu + 1)
    }
}

/// None of the order's jobs is left.
pub open spec fn het_sach(jobs: Seq<JobHangDoi>, ids: Seq<u32>, id: Seq<char>) -> bool {
    forall|i: int| 0 <= i < jobs.len() ==> !con_lai(#[trigger] jobs[i], ids, id)
}

/// The same jobs as before: as many, and each with an id from before.
pub open spec fn cung_ids(moi: Seq<u32>, ids: Seq<u32>) -> bool {
    moi.len() == ids.len() && forall|k: int| 0 <= k < moi.len() ==> ids.contains(#[trigger] moi[k])
}

/// The exchanges that release the jobs `ids`, one after the other, whatever comes back.
pub open spec fn tiep_tuc_dung(ids: Seq<u32>, l: Seq<Buoc>) -> bool {
    l.len() == ids.len() && forall|k: int|
        0 <= k < l.len() ==> (#[trigger] l[k] matches Buoc::DieuKhien(x, lenh, r) && x == ids[k] && lenh == LenhJob::TiepTuc)
}

/// The failures among them, joined.
pub open spec fn loi_tiep_tuc(l: Seq<Buoc>) -> Seq<char>
    decreases l.len(),
{
    if l.len() == 0 {
        Seq::empty()
    } else {
        let truoc = loi_tiep_tuc(l.drop_last());
        match l.last() {
            Buoc::DieuKhien(x, _, Err(e)) => (if truoc.len() == 0 {
                truoc
            } else {
                truoc + ", "@
            }) + "job "@ + chu::thap_phan(x as nat) + ": "@ + e@,
            _ => truoc,
        }
    }
}

/// The end of the message where jobs could not be released.
pub open spec fn duoi_loi(loi: Seq<char>) -> Seq<char> {
    if loi.len() == 0 {
        Seq::empty()
    } else {
        "; KHONG cho chay tiep duoc ("@ + loi + ") — job con bi tam dung trong hang doi"@
    }
}

pub open spec fn chu_bat_dau_in(j: JobHangDoi) -> Seq<char> {
    "job "@ + chu::thap_phan(j.id as nat) + " bat dau in trong luc xoa (status 0x"@ + chu::hex_8(j.status) + ", "@
        + chu::thap_phan(j.trang_da_in as nat) + " trang) — co the da co byte toi may in"@
}

/// Looks at the queue again, from look `lan` on, until the deleted jobs are gone.
pub open spec fn kiem_dung(ids: Seq<u32>, id: Seq<char>, lan: nat, l: Seq<Buoc>, kq: KetQuaGoJobV) -> bool
    decreases SO_LAN_KIEM_SAU_XOA - lan,
{
    if lan >= SO_LAN_KIEM_SAU_XOA {
        l.len() == 0 && kq == KetQuaGoJobV::KhongGoDuoc(
            "da lenh xoa nhung job van con trong hang doi sau "@ + chu::thap_phan(
                SO_LAN_KIEM_SAU_XOA as nat * CHU_KY_KIEM_SAU_XOA_MS as nat,
            ) + " ms"@,
        )
    } else if lan > 0 {
        l.len() >= 1 && l[0] == Buoc::Cho(CHU_KY_KIEM_SAU_XOA_MS) && kiem_doc_dung(
            ids,
            id,
            lan,
            l.subrange(1, l.len() as int),
            kq,
        )
    } else {
        kiem_doc_dung(ids, id, lan, l, kq)
    }
}

pub open spec fn kiem_doc_dung(ids: Seq<u32>, id: Seq<char>, lan: nat, l: Seq<Buoc>, kq: KetQuaGoJobV) -> bool
    decreases SO_LAN_KIEM_SAU_XOA - lan, 0int,
    when lan < SO_LAN_KIEM_SAU_XOA
{
    l.len() >= 1 && match l[0] {
        Buoc::DocHangDoi(o) => {
            let sau = l.subrange(1, l.len() as int);
            match o {
                Some(jobs) => match bat_dau_tu(jobs@, ids, id, 0) {
                    Some(i) => sau.len() == 0 && kq == KetQuaGoJobV::KhongGoDuoc(chu_bat_dau_in(jobs@[i])),
                    None => if het_sach(jobs@, ids, id) {
                        sau.len() == 0 && kq == KetQuaGoJobV::DaGoXong
                    } else {
                        kiem_dung(ids, id, lan + 1, sau, kq)
                    },
                },
                None => kiem_dung(ids, id, lan + 1, sau, kq),
            }
        },
        _ => false,
    }
}

/// Deletes the jobs from number `i` on; where one cannot be deleted, releases them all.
pub open spec fn xoa_dung(ids: Seq<u32>, id: Seq<char>, i: int, l: Seq<Buoc>, kq: KetQuaGoJobV) -> bool
    decreases ids.len() - i,
{
    if i < 0 || i >= ids.len() {
        kiem_dung(ids, id, 0, l, kq)
    } else {
        l.len() >= 1 && {
            let sau = l.subrange(1, l.len() as int);
            match l[0] {
                Buoc::DieuKhien(x, lenh, r) => x == ids[i] && lenh == LenhJob::Xoa && match r {
                    Ok(_) => xoa_dung(ids, id, i + 1, sau, kq),
                    Err(e) => tiep_tuc_dung(ids, sau) && kq == KetQuaGoJobV::KhongGoDuoc(
                        "khong xoa duoc job "@ + chu::thap_phan(x as nat) + ": "@ + e@ + duoi_loi(loi_tiep_tuc(sau)),
                    ),
                },
                _ => false,
            }
        }
    }
}

/// With the jobs held, reads the queue again: only the same jobs, all of them still clean, are deleted.
pub open spec fn doc_lai_dung(ids: Seq<u32>, id: Seq<char>, l: Seq<Buoc>, kq: KetQuaGoJobV) -> bool {
    l.len() >= 2 && l[0] == Buoc::Cho(CHO_SAU_TAM_DUNG_MS) && {
        let sau = l.subrange(1, l.len() as int).subrange(1, l.len() - 1);
        match l[1] {
            Buoc::DocHangDoi(o) => match o {
                None => tiep_tuc_dung(ids, sau) && kq == KetQuaGoJobV::KhongGoDuoc(
                    "khong doc lai duoc hang doi sau khi tam dung"@ + duoi_loi(loi_tiep_tuc(sau)),
                ),
                Some(jobs) => match khong_an_toan_tu(jobs@, id, 0) {
                    Some(k) => tiep_tuc_dung(ids, sau) && kq == KetQuaGoJobV::KhongAnToanDeXoa(
                        ly_do_khong_an_toan_cua(jobs@[k]) + " (sau khi tam dung)"@ + duoi_loi(loi_tiep_tuc(sau)),
                    ),
                    None => if cung_ids(ids_cua_ta(jobs@, id), ids) {
                        xoa_dung(ids, id, 0, sau, kq)
                    } else {
                        tiep_tuc_dung(ids, sau) && kq == KetQuaGoJobV::KhongGoDuoc(
                            "hang doi thay doi trong luc xoa"@ + duoi_loi(loi_tiep_tuc(sau)),
                        )
                    },
                },
            },
            _ => false,
        }
    }
}

/// Holds the jobs from number `i` on; where one cannot be held, releases those that were.
pub open spec fn tam_dung_dung(ids: Seq<u32>, id: Seq<char>, i: int, l: Seq<Buoc>, kq: KetQuaGoJobV) -> bool
    decreases ids.len() - i,
{
    if i < 0 || i >= ids.len() {
        doc_lai_dung(ids, id, l, kq)
    } else {
        l.len() >= 1 && {
            let sau = l.subrange(1, l.len() as int);
            match l[0] {
                Buoc::DieuKhien(x, lenh, r) => x == ids[i] && lenh == LenhJob::TamDung && match r {
                    Ok(_) => tam_dung_dung(ids, id, i + 1, sau, kq),
                    Err(e) => tiep_tuc_dung(ids.subrange(0, i), sau) && kq == KetQuaGoJobV::KhongGoDuoc(
                        "khong tam dung duoc job "@ + chu::thap_phan(x as nat) + ": "@ + e@ + duoi_loi(
                            loi_tiep_tuc(sau),
                        ),
                    ),
                },
                _ => false,
            }
        }
    }
}

/// The exchanges by which the jobs of an order are taken out of the queue, and what comes of it. Held
/// first, deleted second: between the reading and the deletion someone may have put in paper.
pub open spec fn go_dung(id: Seq<char>, da_thay_in: bool, l: Seq<Buoc>, kq: KetQuaGoJobV) -> bool {
    if da_thay_in {
        l.len() == 0 && kq == KetQuaGoJobV::KhongAnToanDeXoa("trong luc theo doi da thay job bat dau in / bi huy"@)
    } else {
        l.len() >= 1 && {
            let sau = l.subrange(1, l.len() as int);
            match l[0] {
                Buoc::DocHangDoi(o) => match o {
                    None => sau.len() == 0 && kq == KetQuaGoJobV::KhongGoDuoc("khong doc duoc hang doi Windows"@),
                    Some(jobs) => if ids_cua_ta(jobs@, id).len() == 0 {
                        sau.len() == 0 && kq == KetQuaGoJobV::KhongCoTrongHangDoi
                    } else {
                        match khong_an_toan_tu(jobs@, id, 0) {
                            Some(k) => sau.len() == 0 && kq == KetQuaGoJobV::KhongAnToanDeXoa(
                                ly_do_khong_an_toan_cua(jobs@[k]),
                            ),
                            None => tam_dung_dung(ids_cua_ta(jobs@, id), id, 0, sau, kq),
                        }
                    },
                },
                _ => false,
            }
        }
    }
}

fn cac_id(jobs: &Vec<JobHangDoi>, job_id: &str) -> (r: Vec<u32>)
    ensures
        r@ == ids_cua_ta(jobs@, job_id@),
{
    let mut ra: Vec<u32> = Vec::new();
    let mut i: usize = 0;
    while i < jobs.len()
        invariant
            i <= jobs@.len(),
            ra@ == ids_cua_ta(jobs@.subrange(0, i as int), job_id@),
        decreases jobs@.len() - i,
    {
        assert(jobs@.subrange(0, i + 1).drop_last() =~= jobs@.subrange(0, i as int));
        assert(jobs@.subrange(0, i + 1).last() == jobs@[i as int]);
        if ten_job::la_cua_job(&jobs[i], job_id) {
            ra.push(jobs[i].id);
        }
        i = i + 1;
    }
    assert(jobs@.subrange(0, jobs@.len() as int) =~= jobs@);
    ra
}

fn tim_khong_an_toan(jobs: &Vec<JobHangDoi>, job_id: &str) -> (r: Option<usize>)
    ensures
        r matches Some(i) ==> i < jobs@.len() && khong_an_toan_tu(jobs@, job_id@, 0) == Some(i as int),
        r is None ==> khong_an_toan_tu(jobs@, job_id@, 0) is None,
{
    let mut i: usize = 0;
    while i < jobs.len()
        invariant
            i <= jobs@.len(),
            khong_an_toan_tu(jobs@, job_id@, 0) == khong_an_toan_tu(jobs@, job_id@, i as int),
        decreases jobs@.len() - i,
    {
        if ten_job::la_cua_job(&jobs[i], job_id) && !may_in::xoa_an_toan(&jobs[i]) {
            return Some(i);
        }
        i = i + 1;
    }
    None
}

fn co_id(ids: &Vec<u32>, x: u32) -> (r: bool)
    ensures
        r == ids@.contains(x),
{
    let mut i: usize = 0;
    while i < ids.len()
        invariant
            i <= ids@.len(),
            forall|k: int| 0 <= k < i ==> ids@[k] != x,
        decreases ids@.len() - i,
    {
        if ids[i] == x {
            return true;
        }
        i = i + 1;
    }
    false
}

fn tim_bat_dau(jobs: &Vec<JobHangDoi>, ids: &Vec<u32>, job_id: &str) -> (r: Option<usize>)
    ensures
        r matches Some(i) ==> i < jobs@.len() && bat_dau_tu(jobs@, ids@, job_id@, 0) == Some(i as int),
        r is None ==> bat_dau_tu(jobs@, ids@, job_id@, 0) is None,
{
    let mut i: usize = 0;
    while i < jobs.len()
        invariant
            i <= jobs@.len(),
            bat_dau_tu(jobs@, ids@, job_id@, 0) == bat_dau_tu(jobs@, ids@, job_id@, i as int),
        decreases jobs@.len() - i,
    {
        if (co_id(ids, jobs[i].id) || ten_job::la_cua_job(&jobs[i], job_id)) && may_in::da_bat_dau_in(&jobs[i]) {
            return Some(i);
        }
        i = i + 1;
    }
    None
}

fn da_het(jobs: &Vec<JobHangDoi>, ids: &Vec<u32>, job_id: &str) -> (r: bool)
    ensures
        r == het_sach(jobs@, ids@, job_id@),
{
    let mut i: usize = 0;
    while i < jobs.len()
        invariant
            i <= jobs@.len(),
            forall|k: int| 0 <= k < i ==> !con_lai(#[trigger] jobs@[k], ids@, job_id@),
        decreases jobs@.len() - i,
    {
        if co_id(ids, jobs[i].id) || ten_job::la_cua_job(&jobs[i], job_id) {
            assert(con_lai(jobs@[i as int], ids@, job_id@));
            return false;
        }
        i = i + 1;
    }
    true
}

fn van_cung_ids(moi: &Vec<u32>, ids: &Vec<u32>) -> (r: bool)
    ensures
        r == cung_ids(moi@, ids@),
{
    if moi.len() != ids.len() {
        return false;
    }
    let mut i: usize = 0;
    while i < moi.len()
        invariant
            i <= moi@.len(),
            moi@.len() == ids@.len(),
            forall|k: int| 0 <= k < i ==> ids@.contains(#[trigger] moi@[k]),
        decreases moi@.len() - i,
    {
        if !co_id(ids, moi[i]) {
            assert(!ids@.contains(moi@[i as int]));
            return false;
        }
        i = i + 1;
    }
    true
}

/// Releases the first `n` of the jobs, whatever comes back: a job left on hold, of which the server
/// was told nothing, would never come out.
fn tiep_tuc_lai<S: Spooler, B: KenhBao, D: DongHo>(mt: &mut MoiTruong<S, B, D>, ids: &Vec<u32>, n: usize) -> (r: String)
    requires
        n <= ids@.len(),
    ensures
        noi_tiep(old(mt).vet(), final(mt).vet()),
        tiep_tuc_dung(ids@.subrange(0, n as int), duoi(old(mt).vet(), final(mt).vet())),
        r@ == duoi_loi(loi_tiep_tuc(duoi(old(mt).vet(), final(mt).vet()))),
{
    let ghost dau = mt.vet();
    let mut loi = String::new();
    let mut i: usize = 0;
    proof {
        noi_tiep_chinh_no(dau);
        assert(ids@.subrange(0, 0) =~= Seq::empty());
    }
    while i < n
        invariant
            dau == old(mt).vet(),
            i <= n <= ids@.len(),
            noi_tiep(dau, mt.vet()),
            tiep_tuc_dung(ids@.subrange(0, i as int), duoi(dau, mt.vet())),
            loi@ == loi_tiep_tuc(duoi(dau, mt.vet())),
        decreases n - i,
    {
        let ghost truoc = mt.vet();
        let x: u32 = ids[i];
        let r = mt.dieu_khien(x, LenhJob::TiepTuc);
        proof {
            let b = Buoc::DieuKhien(x, LenhJob::TiepTuc, r);
            assert(mt.vet().subrange(0, dau.len() as int) =~= truoc.subrange(0, dau.len() as int));
            assert(duoi(dau, mt.vet()) =~= duoi(dau, truoc).push(b));
            assert(duoi(dau, mt.vet()).drop_last() =~= duoi(dau, truoc));
            assert(ids@.subrange(0, i + 1) =~= ids@.subrange(0, i as int).push(x));
        }
        if let Err(e) = r {
            if !loi.as_str().is_empty() {
                loi.append(", ");
            }
            loi.append("job ");
            loi.append(chu::so_thap_phan(x as u64).as_str());
            loi.append(": ");
            loi.append(e.as_str());
        }
        i = i + 1;
    }
    ghep_loi_tiep_tuc(loi.as_str())
}

fn ghep_loi_tiep_tuc(loi: &str) -> (r: String)
    ensures
        r@ == duoi_loi(loi@),
{
    if loi.is_empty() {
        return String::new();
    }
    let mut s = "; KHONG cho chay tiep duoc (".to_owned();
    s.append(loi);
    s.append(") — job con bi tam dung trong hang doi");
    s
}

fn kiem_lai<S: Spooler, B: KenhBao, D: DongHo>(
    mt: &mut MoiTruong<S, B, D>,
    ids: &Vec<u32>,
    job_id: &str,
    lan: usize,
) -> (r: KetQuaGoJob)
    requires
        lan <= SO_LAN_KIEM_SAU_XOA,
    ensures
        noi_tiep(old(mt).vet(), final(mt).vet()),
        kiem_dung(ids@, job_id@, lan as nat, duoi(old(mt).vet(), final(mt).vet()), r@),
    decreases SO_LAN_KIEM_SAU_XOA - lan, 1int,
{
    if lan >= SO_LAN_KIEM_SAU_XOA {
        let mut s = "da lenh xoa nhung job van con trong hang doi sau ".to_owned();
        s.append(chu::so_thap_phan(SO_LAN_KIEM_SAU_XOA as u64 * CHU_KY_KIEM_SAU_XOA_MS).as_str());
        s.append(" ms");
        proof {
            noi_tiep_chinh_no(mt.vet());
        }
        return KetQuaGoJob::KhongGoDuoc(s);
    }
    let ghost a = mt.vet();
    if lan > 0 {
        mt.cho(CHU_KY_KIEM_SAU_XOA_MS);
        let r = kiem_lai_doc(mt, ids, job_id, lan);
        proof {
            mot_buoc_truoc(a, Buoc::Cho(CHU_KY_KIEM_SAU_XOA_MS), mt.vet());
        }
        return r;
    }
    kiem_lai_doc(mt, ids, job_id, lan)
}

fn kiem_lai_doc<S: Spooler, B: KenhBao, D: DongHo>(
    mt: &mut MoiTruong<S, B, D>,
    ids: &Vec<u32>,
    job_id: &str,
    lan: usize,
) -> (r: KetQuaGoJob)
    requires
        lan < SO_LAN_KIEM_SAU_XOA,
    ensures
        noi_tiep(old(mt).vet(), final(mt).vet()),
        kiem_doc_dung(ids@, job_id@, lan as nat, duoi(old(mt).vet(), final(mt).vet()), r@),
    decreases SO_LAN_KIEM_SAU_XOA - lan, 0int,
{
    let ghost a = mt.vet();
    let o = mt.doc_hang_doi();
    let ghost b = mt.vet();
    let ghost doc = Buoc::DocHangDoi(o);
    proof {
        noi_tiep_chinh_no(b);
        mot_buoc_truoc(a, doc, b);
    }
    if let Some(jobs) = &o {
        if let Some(i) = tim_bat_dau(jobs, ids, job_id) {
            let j = &jobs[i];
            let mut s = "job ".to_owned();
            s.append(chu::so_thap_phan(j.id as u64).as_str());
            s.append(" bat dau in trong luc xoa (status 0x");
            s.append(chu::hex8(j.status).as_str());
            s.append(", ");
            s.append(chu::so_thap_phan(j.trang_da_in as u64).as_str());
            s.append(" trang) — co the da co byte toi may in");
            return KetQuaGoJob::KhongGoDuoc(s);
        }
        if da_het(jobs, ids, job_id) {
            return KetQuaGoJob::DaGoXong;
        }
    }
    let r = kiem_lai(mt, ids, job_id, lan + 1);
    proof {
        mot_buoc_truoc(a, doc, mt.vet());
    }
    r
}

fn xoa_tu<S: Spooler, B: KenhBao, D: DongHo>(
    mt: &mut MoiTruong<S, B, D>,
    ids: &Vec<u32>,
    job_id: &str,
    i: usize,
) -> (r: KetQuaGoJob)
    requires
        i <= ids@.len(),
    ensures
        noi_tiep(old(mt).vet(), final(mt).vet()),
        xoa_dung(ids@, job_id@, i as int, duoi(old(mt).vet(), final(mt).vet()), r@),
    decreases ids@.len() - i,
{
    if i >= ids.len() {
        return kiem_lai(mt, ids, job_id, 0);
    }
    let ghost a = mt.vet();
    let x: u32 = ids[i];
    let kq = mt.dieu_khien(x, LenhJob::Xoa);
    let ghost buoc = Buoc::DieuKhien(x, LenhJob::Xoa, kq);
    match kq {
        Ok(_) => {
            let r = xoa_tu(mt, ids, job_id, i + 1);
            proof {
                mot_buoc_truoc(a, buoc, mt.vet());
            }
            r
        },
        Err(e) => {
            let loi = tiep_tuc_lai(mt, ids, ids.len());
            proof {
                assert(ids@.subrange(0, ids@.len() as int) =~= ids@);
                mot_buoc_truoc(a, buoc, mt.vet());
            }
            let mut s = "khong xoa duoc job ".to_owned();
            s.append(chu::so_thap_phan(x as u64).as_str());
            s.append(": ");
            s.append(e.as_str());
            s.append(loi.as_str());
            KetQuaGoJob::KhongGoDuoc(s)
        },
    }
}

fn doc_lai_roi_xoa<S: Spooler, B: KenhBao, D: DongHo>(
    mt: &mut MoiTruong<S, B, D>,
    ids: &Vec<u32>,
    job_id: &str,
) -> (r: KetQuaGoJob)
    ensures
        noi_tiep(old(mt).vet(), final(mt).vet()),
        doc_lai_dung(ids@, job_id@, duoi(old(mt).vet(), final(mt).vet()), r@),
{
    let ghost a = mt.vet();
    mt.cho(CHO_SAU_TAM_DUNG_MS);
    let ghost b = mt.vet();
    let o = mt.doc_hang_doi();
    let ghost doc = Buoc::DocHangDoi(o);
    proof {
        assert(ids@.subrange(0, ids@.len() as int) =~= ids@);
    }
    match &o {
        None => {
            let loi = tiep_tuc_lai(mt, ids, ids.len());
            proof {
                mot_buoc_truoc(b, doc, mt.vet());
                mot_buoc_truoc(a, Buoc::Cho(CHO_SAU_TAM_DUNG_MS), mt.vet());
            }
            let mut s = "khong doc lai duoc hang doi sau khi tam dung".to_owned();
            s.append(loi.as_str());
            KetQuaGoJob::KhongGoDuoc(s)
        },
        Some(jobs) => {
            if let Some(k) = tim_khong_an_toan(jobs, job_id) {
                let mut s = may_in::ly_do_khong_an_toan(&jobs[k]);
                let loi = tiep_tuc_lai(mt, ids, ids.len());
                proof {
                    mot_buoc_truoc(b, doc, mt.vet());
                    mot_buoc_truoc(a, Buoc::Cho(CHO_SAU_TAM_DUNG_MS), mt.vet());
                }
                s.append(" (sau khi tam dung)");
                s.append(loi.as_str());
                return KetQuaGoJob::KhongAnToanDeXoa(s);
            }
            let moi = cac_id(jobs, job_id);
            if van_cung_ids(&moi, ids) {
                let r = xoa_tu(mt, ids, job_id, 0);
                proof {
                    mot_buoc_truoc(b, doc, mt.vet());
                    mot_buoc_truoc(a, Buoc::Cho(CHO_SAU_TAM_DUNG_MS), mt.vet());
                }
                return r;
            }
            let loi = tiep_tuc_lai(mt, ids, ids.len());
            proof {
                mot_buoc_truoc(b, doc, mt.vet());
                mot_buoc_truoc(a, Buoc::Cho(CHO_SAU_TAM_DUNG_MS), mt.vet());
            }
            let mut s = "hang doi thay doi trong luc xoa".to_owned();
            s.append(loi.as_str());
            KetQuaGoJob::KhongGoDuoc(s)
        },
    }
}

fn tam_dung_tu<S: Spooler, B: KenhBao, D: DongHo>(
    mt: &mut MoiTruong<S, B, D>,
    ids: &Vec<u32>,
    job_id: &str,
    i: usize,
) -> (r: KetQuaGoJob)
    requires
        i <= ids@.len(),
    ensures
        noi_tiep(old(mt).vet(), final(mt).vet()),
        tam_dung_dung(ids@, job_id@, i as int, duoi(old(mt).vet(), final(mt).vet()), r@),
    decreases ids@.len() - i,
{
    if i >= ids.len() {
        return doc_lai_roi_xoa(mt, ids, job_id);
    }
    let ghost a = mt.vet();
    let x: u32 = ids[i];
    let kq = mt.dieu_khien(x, LenhJob::TamDung);
    let ghost buoc = Buoc::DieuKhien(x, LenhJob::TamDung, kq);
    match kq {
        Ok(_) => {
            let r = tam_dung_tu(mt, ids, job_id, i + 1);
            proof {
                mot_buoc_truoc(a, buoc, mt.vet());
            }
            r
        },
        Err(e) => {
            let loi = tiep_tuc_lai(mt, ids, i);
            proof {
                mot_buoc_truoc(a, buoc, mt.vet());
            }
            let mut s = "khong tam dung duoc job ".to_owned();
            s.append(chu::so_thap_phan(x as u64).as_str());
            s.append(": ");
            s.append(e.as_str());
            s.append(loi.as_str());
            KetQuaGoJob::KhongGoDuoc(s)
        },
    }
}

/// Takes the jobs of an order out of the queue.
pub fn go_job_khoi_hang_doi<S: Spooler, B: KenhBao, D: DongHo>(
    mt: &mut MoiTruong<S, B, D>,
    job_id: &str,
    da_thay_in: bool,
) -> (r: KetQuaGoJob)
    ensures
        noi_tiep(old(mt).vet(), final(mt).vet()),
        go_dung(job_id@, da_thay_in, duoi(old(mt).vet(), final(mt).vet()), r@),
{
    let ghost a = mt.vet();
    proof {
        noi_tiep_chinh_no(a);
    }
    if da_thay_in {
        return KetQuaGoJob::KhongAnToanDeXoa("trong luc theo doi da thay job bat dau in / bi huy".to_owned());
    }
    let o = mt.doc_hang_doi();
    let ghost b = mt.vet();
    let ghost doc = Buoc::DocHangDoi(o);
    proof {
        noi_tiep_chinh_no(b);
        mot_buoc_truoc(a, doc, b);
    }
    match &o {
        None => KetQuaGoJob::KhongGoDuoc("khong doc duoc hang doi Windows".to_owned()),
        Some(jobs) => {
            let ids = cac_id(jobs, job_id);
            if ids.len() == 0 {
                return KetQuaGoJob::KhongCoTrongHangDoi;
            }
            if let Some(k) = tim_khong_an_toan(jobs, job_id) {
                return KetQuaGoJob::KhongAnToanDeXoa(may_in::ly_do_khong_an_toan(&jobs[k]));
            }
            let r = tam_dung_tu(mt, &ids, job_id, 0);
            proof {
                mot_buoc_truoc(a, doc, mt.vet());
            }
            r
        },
    }
}

/// The outcome for a job that trouble kept from printing, given what came of taking it out. "Did not
/// print" only where the agent itself deleted it and saw it gone: a job that is simply absent may
/// already be in the printer's memory.
pub open spec fn quyet_loi(ly_do: LyDoV, go: KetQuaGoJobV) -> KetQuaInV {
    let voi = |chu: Seq<char>| LyDoV { chu, loai: ly_do.loai, ban_da_in: None };
    match go {
        KetQuaGoJobV::KhongCoTrongHangDoi => KetQuaInV::KhongRo(
            voi(ly_do.chu + " — job khong con trong hang doi Windows (co the da o bo nho may in), khong gui lai"@),
        ),
        KetQuaGoJobV::DaGoXong => KetQuaInV::Loi(voi(ly_do.chu + " (da xoa job khoi hang doi Windows)"@)),
        KetQuaGoJobV::KhongAnToanDeXoa(e) => KetQuaInV::KhongRo(voi(ly_do.chu + " — "@ + e)),
        KetQuaGoJobV::KhongGoDuoc(e) => KetQuaInV::KhongRo(
            voi(ly_do.chu + " — khong go duoc job khoi hang doi: "@ + e),
        ),
    }
}

pub fn quyet_loi_truoc_khi_in(ly_do: LyDo, go: KetQuaGoJob) -> (r: KetQuaIn)
    ensures
        r@ == quyet_loi(ly_do@, go@),
{
    let loai = ly_do.loai;
    let mut chu = ly_do.chu;
    match go {
        KetQuaGoJob::KhongCoTrongHangDoi => {
            chu.append(" — job khong con trong hang doi Windows (co the da o bo nho may in), khong gui lai");
            KetQuaIn::KhongRo(LyDo { chu, loai, ban_da_in: None })
        },
        KetQuaGoJob::DaGoXong => {
            chu.append(" (da xoa job khoi hang doi Windows)");
            KetQuaIn::Loi(LyDo { chu, loai, ban_da_in: None })
        },
        KetQuaGoJob::KhongAnToanDeXoa(e) => {
            chu.append(" — ");
            chu.append(e.as_str());
            KetQuaIn::KhongRo(LyDo { chu, loai, ban_da_in: None })
        },
        KetQuaGoJob::KhongGoDuoc(e) => {
            chu.append(" — khong go duoc job khoi hang doi: ");
            chu.append(e.as_str());
            KetQuaIn::KhongRo(LyDo { chu, loai, ban_da_in: None })
        },
    }
}

/// A job of the agent, submitted by this computer, that is on hold.
pub open spec fn bi_dung_cua_app(j: JobHangDoi, ten_may: Seq<char>) -> bool {
    cua_app(j.document@) && j.status & co::JOB_STATUS_PAUSED != 0 && la_cung_may(j.may_tinh@, ten_may)
}

/// The jobs of the agent, submitted by this computer, that are on hold.
pub open spec fn cac_job_bi_dung(jobs: Seq<JobHangDoi>, ten_may: Seq<char>) -> Seq<JobHangDoi>
    decreases jobs.len(),
{
    if jobs.len() == 0 {
        Seq::empty()
    } else if bi_dung_cua_app(jobs.last(), ten_may) {
        cac_job_bi_dung(jobs.drop_last(), ten_may).push(jobs.last())
    } else {
        cac_job_bi_dung(jobs.drop_last(), ten_may)
    }
}

/// The jobs `ds` released one after the other: the exchanges, and what is told of each.
pub open spec fn tha_dung(ds: Seq<JobHangDoi>, l: Seq<Buoc>, r: Seq<(u32, String, Result<(), String>)>) -> bool {
    &&& l.len() == ds.len()
    &&& r.len() == ds.len()
    &&& forall|k: int|
        0 <= k < ds.len() ==> #[trigger] r[k].0 == ds[k].id && r[k].1@ == ds[k].document@ && l[k] == Buoc::DieuKhien(
            ds[k].id,
            LenhJob::TiepTuc,
            r[k].2,
        )
}

/// The exchanges by which jobs left on hold are released when the agent starts.
pub open spec fn tha_job_dung(ten_may: Seq<char>, l: Seq<Buoc>, r: Seq<(u32, String, Result<(), String>)>) -> bool {
    l.len() >= 1 && match l[0] {
        Buoc::DocHangDoi(Some(jobs)) => tha_dung(
            cac_job_bi_dung(jobs@, ten_may),
            l.subrange(1, l.len() as int),
            r,
        ),
        Buoc::DocHangDoi(None) => l.len() == 1 && r.len() == 0,
        _ => false,
    }
}

/// Releases the agent's own jobs that were left on hold, as when it was shut down between holding a
/// job and deleting it. Jobs of other computers on a shared queue are left alone: theirs may be in
/// the middle of a deletion.
pub fn tiep_tuc_job_bi_dung_cua_app<S: Spooler, B: KenhBao, D: DongHo>(
    mt: &mut MoiTruong<S, B, D>,
    ten_may: &str,
) -> (r: Vec<(u32, String, Result<(), String>)>)
    ensures
        noi_tiep(old(mt).vet(), final(mt).vet()),
        tha_job_dung(ten_may@, duoi(old(mt).vet(), final(mt).vet()), r@),
{
    let ghost a = mt.vet();
    let o = mt.doc_hang_doi();
    let ghost b = mt.vet();
    let ghost doc = Buoc::DocHangDoi(o);
    let mut ra: Vec<(u32, String, Result<(), String>)> = Vec::new();
    proof {
        noi_tiep_chinh_no(b);
        mot_buoc_truoc(a, doc, b);
    }
    let jobs = match &o {
        Some(v) => v,
        None => {
            return ra;
        },
    };
    let mut i: usize = 0;
    while i < jobs.len()
        invariant
            a == old(mt).vet(),
            b == a.push(doc),
            doc == Buoc::DocHangDoi(o),
            o == Some(*jobs),
            i <= jobs@.len(),
            noi_tiep(b, mt.vet()),
            tha_dung(cac_job_bi_dung(jobs@.subrange(0, i as int), ten_may@), duoi(b, mt.vet()), ra@),
        decreases jobs@.len() - i,
    {
        assert(jobs@.subrange(0, i + 1).drop_last() =~= jobs@.subrange(0, i as int));
        assert(jobs@.subrange(0, i + 1).last() == jobs@[i as int]);
        let j = &jobs[i];
        if ten_job::la_job_cua_app(j.document.as_str()) && j.status & co::JOB_STATUS_PAUSED != 0 && ten_job::cung_may(
            j.may_tinh.as_str(),
            ten_may,
        ) {
            let ghost truoc = mt.vet();
            let ghost ra_truoc = ra@;
            let ghost ds = cac_job_bi_dung(jobs@.subrange(0, i as int), ten_may@);
            let kq = mt.dieu_khien(j.id, LenhJob::TiepTuc);
            let ghost buoc = Buoc::DieuKhien(j.id, LenhJob::TiepTuc, kq);
            ra.push((j.id, j.document.clone(), kq));
            proof {
                assert(mt.vet().subrange(0, b.len() as int) =~= truoc.subrange(0, b.len() as int));
                assert(duoi(b, mt.vet()) =~= duoi(b, truoc).push(buoc));
                let ds1 = cac_job_bi_dung(jobs@.subrange(0, i + 1), ten_may@);
                assert(ds1 == ds.push(*j));
                assert forall|k: int| 0 <= k < ds1.len() implies #[trigger] ra@[k].0 == ds1[k].id && ra@[k].1@
                    == ds1[k].document@ && duoi(b, mt.vet())[k] == Buoc::DieuKhien(
                    ds1[k].id,
                    LenhJob::TiepTuc,
                    ra@[k].2,
                ) by {
                    if k < ds.len() {
                        assert(ra@[k] == ra_truoc[k]);
                        assert(ra_truoc[k].0 == ds[k].id);
                    }
                }
            }
        }
        i = i + 1;
    }
    proof {
        assert(jobs@.subrange(0, jobs@.len() as int) =~= jobs@);
        mot_buoc_truoc(a, doc, mt.vet());
    }
    ra
}

} // verus!
