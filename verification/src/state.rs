//! What the screen shows: the latest jobs, the printer, and a strip for each invoice in trouble.
use crate::chu;
use crate::day::{self, giu, giu_cap, giu_dung, vi_tri, vi_tri_la_dau, xem};
use crate::gia_tri::chu_cua;
use crate::hang_doi::{HangDoiApp, HdV};
use crate::job::{CHO_MAY_IN, DANG_GUI, DA_HUY, DA_IN, KHONG_RO, LOI};
use crate::su_co::{MaSuCo, MucDo};
use vstd::prelude::*;
use vstd::string::*;

pub mod luat;

verus! {

/// One line of the latest jobs.
#[derive(Debug, Clone, Default, PartialEq, Eq)]
pub struct JobLog {
    /// Only to find the line again; never shown, as old servers put the token in it.
    pub job_id: String,
    pub so_hoa_don: String,
    pub khach: Option<String>,
    pub trang_thai: String,
    pub loai: Option<MaSuCo>,
    /// Confirmed only after it had been left open.
    pub sau_khac_phuc: bool,
    pub ban_da_in: Option<(u32, u32)>,
    pub luc: String,
}

pub ghost struct JobLogV {
    pub job_id: Seq<char>,
    pub so_hoa_don: Seq<char>,
    pub khach: Option<Seq<char>>,
    pub trang_thai: Seq<char>,
    pub loai: Option<MaSuCo>,
    pub sau_khac_phuc: bool,
    pub ban_da_in: Option<(u32, u32)>,
    pub luc: Seq<char>,
}

impl View for JobLog {
    type V = JobLogV;

    open spec fn view(&self) -> JobLogV {
        JobLogV {
            job_id: self.job_id@,
            so_hoa_don: self.so_hoa_don@,
            khach: chu_cua(self.khach),
            trang_thai: self.trang_thai@,
            loai: self.loai,
            sau_khac_phuc: self.sau_khac_phuc,
            ban_da_in: self.ban_da_in,
            luc: self.luc@,
        }
    }
}

/// The kind of a strip.
#[derive(Debug, Clone, Copy, PartialEq, Eq, Structural)]
pub enum LoaiDai {
    /// Trouble while the job is watched; no outcome yet.
    DangTheoDoi,
    /// Did not print: the server sends it again by itself.
    Loi,
    KhongRo,
}

/// A strip for one invoice.
#[derive(Debug, Clone, PartialEq, Eq)]
pub struct DaiJob {
    pub loai_dai: LoaiDai,
    pub ma: Option<MaSuCo>,
    pub so_hoa_don: String,
    pub job_id: String,
    /// The outcome is open and the job is no longer in the queue.
    pub ngoai_hang_doi: bool,
    pub ban_da_in: Option<(u32, u32)>,
}

pub ghost struct DaiV {
    pub loai_dai: LoaiDai,
    pub ma: Option<MaSuCo>,
    pub so_hoa_don: Seq<char>,
    pub job_id: Seq<char>,
    pub ngoai_hang_doi: bool,
    pub ban_da_in: Option<(u32, u32)>,
}

impl View for DaiJob {
    type V = DaiV;

    open spec fn view(&self) -> DaiV {
        DaiV {
            loai_dai: self.loai_dai,
            ma: self.ma,
            so_hoa_don: self.so_hoa_don@,
            job_id: self.job_id@,
            ngoai_hang_doi: self.ngoai_hang_doi,
            ban_da_in: self.ban_da_in,
        }
    }
}

impl DaiV {
    /// The strip is one of an error, not of a warning.
    pub open spec fn muc_loi(self) -> bool {
        self.ma matches Some(m) ==> m.muc_cua() == MucDo::Loi
    }

    /// What tells invoices apart: the number; every new try of the server has a new id.
    pub open spec fn khoa(self) -> Seq<char> {
        if self.so_hoa_don.len() == 0 {
            self.job_id
        } else {
            self.so_hoa_don
        }
    }
}

impl DaiJob {
    pub fn la_muc_loi(&self) -> (r: bool)
        ensures
            r == self@.muc_loi(),
    {
        match self.ma {
            Some(m) => m.muc() == MucDo::Loi,
            None => true,
        }
    }

    fn khoa(&self) -> (r: &str)
        ensures
            r@ == self@.khoa(),
    {
        if self.so_hoa_don.as_str().is_empty() {
            self.job_id.as_str()
        } else {
            self.so_hoa_don.as_str()
        }
    }
}

/// The strip that is shown.
#[derive(Debug, Clone, Copy, PartialEq, Eq)]
pub enum DaiHien<'a> {
    Job(&'a DaiJob),
    MayIn(MaSuCo),
    KhongCo,
}

pub ghost enum DaiHienV {
    Job(DaiV),
    MayIn(MaSuCo),
    KhongCo,
}

/// The view of the strip that is shown.
pub open spec fn hien_view(d: DaiHien<'_>) -> DaiHienV {
    match d {
        DaiHien::Job(j) => DaiHienV::Job(j@),
        DaiHien::MayIn(m) => DaiHienV::MayIn(m),
        DaiHien::KhongCo => DaiHienV::KhongCo,
    }
}

/// At most so many strips are kept.
pub const SO_DAI_TOI_DA: usize = 5;

/// At most so many of the latest jobs are kept.
pub const MAX_JOB_LOG: usize = 20;

/// Everything the screen shows; written by those who work, read by those who draw.
#[derive(Debug)]
pub struct TrangThaiChung {
    pub da_noi: bool,
    /// The latest jobs, newest first.
    pub jobs: Vec<JobLog>,
    pub thong_bao_cuoi: Option<String>,
    /// The printer's latest state; nothing until it was read once.
    pub may_in: Option<(MaSuCo, Option<String>)>,
    /// Strips that were not dealt with, oldest first.
    pub dai_jobs: Vec<DaiJob>,
    /// The printer's trouble whose strip was put away.
    pub may_in_da_hieu: Option<MaSuCo>,
    /// The server of the present connection is an old one.
    pub server_ban_cu: bool,
    /// Why the server refuses the connection.
    pub tu_choi_ket_noi: Option<String>,
    pub hang_doi: HangDoiApp,
}

pub ghost struct TtV {
    pub da_noi: bool,
    pub jobs: Seq<JobLogV>,
    pub thong_bao_cuoi: Option<Seq<char>>,
    pub may_in: Option<(MaSuCo, Option<Seq<char>>)>,
    pub dai_jobs: Seq<DaiV>,
    pub may_in_da_hieu: Option<MaSuCo>,
    pub server_ban_cu: bool,
    pub tu_choi_ket_noi: Option<Seq<char>>,
    pub hang_doi: HdV,
}

impl View for TrangThaiChung {
    type V = TtV;

    open spec fn view(&self) -> TtV {
        TtV {
            da_noi: self.da_noi,
            jobs: xem(self.jobs@),
            thong_bao_cuoi: chu_cua(self.thong_bao_cuoi),
            may_in: crate::spooler::may_in::tt_view(self.may_in),
            dai_jobs: xem(self.dai_jobs@),
            may_in_da_hieu: self.may_in_da_hieu,
            server_ban_cu: self.server_ban_cu,
            tu_choi_ket_noi: chu_cua(self.tu_choi_ket_noi),
            hang_doi: self.hang_doi@,
        }
    }
}

/// The id in the server's own list, in an id of the form `<id>-<thirteen digits>`.
pub open spec fn id_may_chu(job_id: Seq<char>) -> Option<Seq<char>> {
    match chu::vi_tri_cuoi(job_id, '-', job_id.len() as int) {
        Some(j) => if j > 0 && job_id.len() - j - 1 == 13 && chu::toan_chu_so(
            job_id.subrange(j + 1, job_id.len() as int),
        ) {
            Some(job_id.subrange(0, j))
        } else {
            None
        },
        None => None,
    }
}

pub fn print_job_id(job_id: &str) -> (r: Option<String>)
    ensures
        chu_cua(r) == id_may_chu(job_id@),
{
    let v = chu::ky_tu(job_id);
    let n: usize = v.len();
    match chu::tim_cuoi(&v, '-', n) {
        Some(j) => if j > 0 && n - j - 1 == 13 && chu::khoang_toan_chu_so(&v, j + 1, n) {
            Some(chu::tu_khoang(&v, 0, j))
        } else {
            None
        },
        None => None,
    }
}

/// The newest jobs, as many as are kept.
pub open spec fn cat_job(ds: Seq<JobLogV>) -> Seq<JobLogV> {
    if ds.len() > MAX_JOB_LOG {
        ds.subrange(0, MAX_JOB_LOG as int)
    } else {
        ds
    }
}

/// With a line on top; it takes the place of one with the same id.
pub open spec fn sau_them_job(ds: Seq<JobLogV>, log: JobLogV) -> Seq<JobLogV> {
    let con = if log.job_id.len() > 0 {
        giu(ds, |j: JobLogV| j.job_id != log.job_id)
    } else {
        ds
    };
    cat_job(seq![log] + con)
}

/// A line of a job of which nothing more is known.
pub open spec fn dong_moi(
    job_id: Seq<char>,
    so_hoa_don: Seq<char>,
    khach: Option<Seq<char>>,
    trang_thai: Seq<char>,
    luc: Seq<char>,
) -> JobLogV {
    JobLogV {
        job_id,
        so_hoa_don,
        khach,
        trang_thai,
        loai: None,
        sau_khac_phuc: false,
        ban_da_in: None,
        luc,
    }
}

/// The line once its job is in another state; a line that has its outcome is left alone.
pub open spec fn doi_trung_gian(j: JobLogV, job_id: Seq<char>, trang_thai: Seq<char>) -> JobLogV {
    if j.job_id == job_id && (j.trang_thai == DANG_GUI@ || j.trang_thai == CHO_MAY_IN@) {
        JobLogV { trang_thai, ..j }
    } else {
        j
    }
}

/// The line once its job was confirmed after all.
pub open spec fn doi_da_in(j: JobLogV, job_id: Seq<char>) -> JobLogV {
    if j.job_id == job_id {
        JobLogV { trang_thai: DA_IN@, loai: None, sau_khac_phuc: true, ..j }
    } else {
        j
    }
}

/// The line once all trace of its job was lost.
pub open spec fn doi_mat_dau(j: JobLogV, job_id: Seq<char>, ma: MaSuCo) -> JobLogV {
    if j.job_id == job_id && j.trang_thai == KHONG_RO@ {
        JobLogV { loai: Some(ma), ..j }
    } else {
        j
    }
}

/// With a strip that is the newest: it takes the place of one of the same invoice. Where they become too
/// many, the oldest of an invoice that the server sends again goes, else the oldest.
pub open spec fn sau_dat_dai(ds: Seq<DaiV>, d: DaiV) -> Seq<DaiV> {
    let moi = giu(ds, |x: DaiV| x.khoa() != d.khoa()).push(d);
    if moi.len() > SO_DAI_TOI_DA {
        match vi_tri(moi.drop_last(), |x: DaiV| x.loai_dai == LoaiDai::Loi, 0) {
            Some(i) => moi.remove(i),
            None => moi.remove(0),
        }
    } else {
        moi
    }
}

/// A printed sheet puts the strip away: that of its own job, and any that only waits for the printer.
/// A strip of which nothing was confirmed stays, and so does one of missing copies.
pub open spec fn tat_khi_in_xong(d: DaiV, job_id: Seq<char>) -> bool {
    d.job_id == job_id || (d.ban_da_in is None && (d.loai_dai == LoaiDai::Loi || (d.ma matches Some(m) && m.o_may_in())))
}

/// The strips after the outcome of a job.
pub open spec fn sau_ket_qua(
    ds: Seq<DaiV>,
    job_id: Seq<char>,
    so_hoa_don: Seq<char>,
    trang_thai: Seq<char>,
    loai: Option<MaSuCo>,
    ngoai_hang_doi: bool,
    ban_da_in: Option<(u32, u32)>,
) -> Seq<DaiV> {
    if trang_thai == DA_IN@ {
        giu(ds, |d: DaiV| !tat_khi_in_xong(d, job_id))
    } else {
        let khong_ro = trang_thai != LOI@;
        sau_dat_dai(
            ds,
            DaiV {
                loai_dai: if khong_ro {
                    LoaiDai::KhongRo
                } else {
                    LoaiDai::Loi
                },
                ma: loai,
                so_hoa_don,
                job_id,
                ngoai_hang_doi: ngoai_hang_doi && khong_ro,
                ban_da_in: if khong_ro {
                    ban_da_in
                } else {
                    None
                },
            },
        )
    }
}

impl TtV {
    pub open spec fn rong() -> TtV {
        TtV {
            da_noi: false,
            jobs: Seq::empty(),
            thong_bao_cuoi: None,
            may_in: None,
            dai_jobs: Seq::empty(),
            may_in_da_hieu: None,
            server_ban_cu: false,
            tu_choi_ket_noi: None,
            hang_doi: HdV::rong(),
        }
    }

    pub open spec fn them_job(self, log: JobLogV) -> TtV {
        TtV { jobs: sau_them_job(self.jobs, log), ..self }
    }

    /// After an invoice was withdrawn from the server's queue: its lines give way to one that says so.
    pub open spec fn sau_da_huy(self, id: Seq<char>, so_hoa_don: Seq<char>, khach: Option<Seq<char>>, luc: Seq<char>) -> TtV {
        (TtV { jobs: giu(self.jobs, |j: JobLogV| id_may_chu(j.job_id) != Some(id)), ..self }).them_job(
            dong_moi("huy:"@ + id, so_hoa_don, khach, DA_HUY@, luc),
        )
    }

    /// After a reading of the printer.
    pub open spec fn sau_may_in(self, ma: MaSuCo, chi_tiet: Option<Seq<char>>, luc_ranh: bool) -> TtV {
        TtV {
            may_in: Some((ma, chi_tiet)),
            dai_jobs: if luc_ranh && ma == MaSuCo::BinhThuong {
                giu(self.dai_jobs, |d: DaiV| d.loai_dai != LoaiDai::Loi)
            } else {
                self.dai_jobs
            },
            may_in_da_hieu: if self.may_in_da_hieu == Some(ma) {
                self.may_in_da_hieu
            } else {
                None
            },
            ..self
        }
    }

    /// The printer's latest code.
    pub open spec fn ma_may_in(self) -> Option<MaSuCo> {
        match self.may_in {
            Some(x) => Some(x.0),
            None => None,
        }
    }

    /// The printer's trouble for which a strip can be shown.
    pub open spec fn dai_may_in(self) -> Option<MaSuCo> {
        match self.may_in {
            Some(x) => if x.0 != MaSuCo::BinhThuong && self.may_in_da_hieu != Some(x.0) {
                Some(x.0)
            } else {
                None
            },
            None => None,
        }
    }

    /// The strip that is shown: the newest of an invoice, unless that is a mere warning while the printer
    /// reports an error.
    pub open spec fn hien(self) -> DaiHienV {
        if self.dai_jobs.len() > 0 {
            let j = self.dai_jobs.last();
            match self.dai_may_in() {
                Some(m) => if !j.muc_loi() && m.muc_cua() == MucDo::Loi {
                    DaiHienV::MayIn(m)
                } else {
                    DaiHienV::Job(j)
                },
                None => DaiHienV::Job(j),
            }
        } else {
            match self.dai_may_in() {
                Some(m) => DaiHienV::MayIn(m),
                None => DaiHienV::KhongCo,
            }
        }
    }

    /// How many more warnings there are than the one that is shown.
    pub open spec fn so_khac(self) -> int {
        match self.hien() {
            DaiHienV::KhongCo => 0,
            DaiHienV::MayIn(m) => self.dai_jobs.len() as int,
            DaiHienV::Job(j) => self.dai_jobs.len() - 1 + (if self.dai_may_in() matches Some(m) && j.ma != Some(m) {
                1int
            } else {
                0int
            }),
        }
    }

    /// After the strip that is shown was put away.
    pub open spec fn sau_da_hieu(self) -> TtV {
        match self.hien() {
            DaiHienV::Job(j) => TtV { dai_jobs: giu(self.dai_jobs, |d: DaiV| d.job_id != j.job_id), ..self },
            DaiHienV::MayIn(m) => TtV { may_in_da_hieu: Some(m), ..self },
            DaiHienV::KhongCo => self,
        }
    }

    /// After the strip that is shown was put away `n` times over.
    pub open spec fn sau_nhieu_da_hieu(self, n: nat) -> TtV
        decreases n,
    {
        if n == 0 {
            self
        } else {
            self.sau_da_hieu().sau_nhieu_da_hieu((n - 1) as nat)
        }
    }

    /// How often at most a strip can still be put away.
    pub open spec fn so_lan_con_hieu(self) -> nat {
        self.dai_jobs.len() + (if self.dai_may_in() is Some {
            1nat
        } else {
            0nat
        })
    }

    /// What always holds: not too many jobs and strips, and one strip for each invoice.
    pub open spec fn hop_le(self) -> bool {
        &&& self.jobs.len() <= MAX_JOB_LOG
        &&& self.dai_jobs.len() <= SO_DAI_TOI_DA
        &&& forall|i: int, j: int|
            0 <= i < j < self.dai_jobs.len() ==> #[trigger] khac_khoa(self.dai_jobs[i], self.dai_jobs[j])
        &&& self.hang_doi.hop_le()
    }
}

pub open spec fn khac_khoa(a: DaiV, b: DaiV) -> bool {
    a.khoa() != b.khoa()
}

proof fn giu_khac_khoa(s: Seq<DaiV>, p: spec_fn(DaiV) -> bool)
    requires
        forall|i: int, j: int| 0 <= i < j < s.len() ==> #[trigger] khac_khoa(s[i], s[j]),
    ensures
        giu(s, p).len() <= s.len(),
        forall|i: int, j: int| 0 <= i < j < giu(s, p).len() ==> #[trigger] khac_khoa(giu(s, p)[i], giu(s, p)[j]),
{
    let q = |a: DaiV, b: DaiV| khac_khoa(a, b);
    assert forall|i: int, j: int| 0 <= i < j < s.len() implies #[trigger] q(s[i], s[j]) by {
        assert(khac_khoa(s[i], s[j]));
    }
    giu_cap(s, p, q);
    giu_dung(s, p);
    assert forall|i: int, j: int| 0 <= i < j < giu(s, p).len() implies #[trigger] khac_khoa(giu(s, p)[i], giu(s, p)[j]) by {
        assert(q(giu(s, p)[i], giu(s, p)[j]));
    }
}

/// Putting a strip up keeps one for each invoice and no more than are kept, and the new one is the newest.
pub proof fn dat_dai_giu_luat(ds: Seq<DaiV>, d: DaiV)
    requires
        ds.len() <= SO_DAI_TOI_DA,
        forall|i: int, j: int| 0 <= i < j < ds.len() ==> #[trigger] khac_khoa(ds[i], ds[j]),
    ensures
        sau_dat_dai(ds, d).len() <= SO_DAI_TOI_DA,
        forall|i: int, j: int|
            0 <= i < j < sau_dat_dai(ds, d).len() ==> #[trigger] khac_khoa(sau_dat_dai(ds, d)[i], sau_dat_dai(ds, d)[j]),
        sau_dat_dai(ds, d).len() > 0 && sau_dat_dai(ds, d).last() == d,
{
    let p = |x: DaiV| x.khoa() != d.khoa();
    giu_khac_khoa(ds, p);
    giu_dung(ds, p);
    let g = giu(ds, p);
    let moi = g.push(d);
    assert forall|i: int, j: int| 0 <= i < j < moi.len() implies #[trigger] khac_khoa(moi[i], moi[j]) by {
        if j < g.len() {
            assert(khac_khoa(g[i], g[j]));
        } else {
            assert(p(g[i]));
        }
    }
    if moi.len() > SO_DAI_TOI_DA {
        let q = |x: DaiV| x.loai_dai == LoaiDai::Loi;
        vi_tri_la_dau(moi.drop_last(), q, 0);
        let k = match vi_tri(moi.drop_last(), q, 0) {
            Some(i) => i,
            None => 0,
        };
        let r = moi.remove(k);
        assert forall|i: int, j: int| 0 <= i < j < r.len() implies #[trigger] khac_khoa(r[i], r[j]) by {
            let a = if i < k {
                i
            } else {
                i + 1
            };
            let b = if j < k {
                j
            } else {
                j + 1
            };
            assert(khac_khoa(moi[a], moi[b]));
        }
    }
}

/// What always holds is kept by everything that happens.
pub proof fn moi_viec_giu_luat(
    s: TtV,
    log: JobLogV,
    d: DaiV,
    job_id: Seq<char>,
    ma: MaSuCo,
    chi_tiet: Option<Seq<char>>,
    luc_ranh: bool,
)
    requires
        s.hop_le(),
    ensures
        s.them_job(log).hop_le(),
        (TtV { dai_jobs: sau_dat_dai(s.dai_jobs, d), ..s }).hop_le(),
        (TtV { dai_jobs: giu(s.dai_jobs, |x: DaiV| !tat_khi_in_xong(x, job_id)), ..s }).hop_le(),
        (TtV { dai_jobs: giu(s.dai_jobs, |x: DaiV| x.job_id != job_id), ..s }).hop_le(),
        s.sau_may_in(ma, chi_tiet, luc_ranh).hop_le(),
        s.sau_da_hieu().hop_le(),
{
    dat_dai_giu_luat(s.dai_jobs, d);
    giu_khac_khoa(s.dai_jobs, |x: DaiV| !tat_khi_in_xong(x, job_id));
    giu_khac_khoa(s.dai_jobs, |x: DaiV| x.job_id != job_id);
    giu_khac_khoa(s.dai_jobs, |x: DaiV| x.loai_dai != LoaiDai::Loi);
    if let DaiHienV::Job(j) = s.hien() {
        giu_khac_khoa(s.dai_jobs, |x: DaiV| x.job_id != j.job_id);
    }
}

/// The outcome of another invoice never puts away a strip of which nothing was confirmed.
pub proof fn dai_chua_xac_nhan_o_lai(ds: Seq<DaiV>, job_id: Seq<char>, d: DaiV)
    requires
        ds.contains(d),
        d.job_id != job_id,
        d.loai_dai != LoaiDai::Loi,
        d.ma matches Some(m) ==> !m.o_may_in(),
    ensures
        giu(ds, |x: DaiV| !tat_khi_in_xong(x, job_id)).contains(d),
{
    let p = |x: DaiV| !tat_khi_in_xong(x, job_id);
    giu_dung(ds, p);
    let i = choose|i: int| 0 <= i < ds.len() && ds[i] == d;
    assert(p(ds[i]));
}

/// A job's line comes on top and is the only one with its id; the others stay lines from before, and there
/// are never more than `MAX_JOB_LOG`.
pub proof fn them_job_len_dau(s: TtV, log: JobLogV)
    ensures
        1 <= s.them_job(log).jobs.len() <= MAX_JOB_LOG,
        s.them_job(log).jobs[0] == log,
        forall|i: int|
            1 <= i < s.them_job(log).jobs.len() ==> s.jobs.contains(#[trigger] s.them_job(log).jobs[i]) && (
            log.job_id.len() > 0 ==> s.them_job(log).jobs[i].job_id != log.job_id),
{
    let p = |j: JobLogV| j.job_id != log.job_id;
    giu_dung(s.jobs, p);
    let con = if log.job_id.len() > 0 {
        giu(s.jobs, p)
    } else {
        s.jobs
    };
    let sau = s.them_job(log).jobs;
    assert forall|i: int| 1 <= i < sau.len() implies s.jobs.contains(#[trigger] sau[i]) && (log.job_id.len() > 0
        ==> sau[i].job_id != log.job_id) by {
        assert(sau[i] == con[i - 1]);
        if log.job_id.len() > 0 {
            assert(p(giu(s.jobs, p)[i - 1]));
        }
    }
}

/// An invoice that was withdrawn has one line, on top, that says so: none of its jobs has another.
pub proof fn da_huy_con_mot_dong(s: TtV, id: Seq<char>, so_hoa_don: Seq<char>, khach: Option<Seq<char>>, luc: Seq<char>)
    ensures
        s.sau_da_huy(id, so_hoa_don, khach, luc).jobs[0] == dong_moi("huy:"@ + id, so_hoa_don, khach, DA_HUY@, luc),
        forall|i: int|
            1 <= i < s.sau_da_huy(id, so_hoa_don, khach, luc).jobs.len() ==> {
                let j = #[trigger] s.sau_da_huy(id, so_hoa_don, khach, luc).jobs[i];
                s.jobs.contains(j) && id_may_chu(j.job_id) != Some(id) && j.job_id != "huy:"@ + id
            },
{
    reveal_strlit("huy:");
    let p = |j: JobLogV| id_may_chu(j.job_id) != Some(id);
    let s1 = TtV { jobs: giu(s.jobs, p), ..s };
    let log = dong_moi("huy:"@ + id, so_hoa_don, khach, DA_HUY@, luc);
    giu_dung(s.jobs, p);
    them_job_len_dau(s1, log);
    let sau = s.sau_da_huy(id, so_hoa_don, khach, luc).jobs;
    assert forall|i: int| 1 <= i < sau.len() implies s.jobs.contains((#[trigger] sau[i])) && id_may_chu(sau[i].job_id) != Some(
        id,
    ) by {
        assert(s1.jobs.contains(s1.them_job(log).jobs[i]));
        let k = choose|k: int| 0 <= k < s1.jobs.len() && s1.jobs[k] == sau[i];
        assert(p(giu(s.jobs, p)[k]));
    }
}

/// An id of the server's own list, with a dash and thirteen digits behind it, is read back.
pub proof fn id_may_chu_boc_lai(id: Seq<char>, ms: Seq<char>)
    requires
        id.len() > 0,
        ms.len() == 13,
        chu::toan_chu_so(ms),
    ensures
        id_may_chu(id + seq!['-'] + ms) == Some(id),
{
    let s = id + seq!['-'] + ms;
    let j = id.len() as int;
    assert forall|k: int| j < k < s.len() implies s[k] != '-' by {
        assert(s[k] == ms[k - j - 1]);
        assert(chu::la_chu_so(ms[k - j - 1]));
    }
    chu::vi_tri_cuoi_la(s, '-', s.len() as int, j);
    assert(s.subrange(j + 1, s.len() as int) =~= ms);
    assert(s.subrange(0, j) =~= id);
}

/// Putting a strip away takes that strip away and nothing else: those of the invoice that is shown, or
/// the printer's; the list of jobs and the printer's state stay.
pub proof fn da_hieu_chi_tat_dai_dang_hien(s: TtV)
    ensures
        s.sau_da_hieu().jobs == s.jobs,
        s.sau_da_hieu().may_in == s.may_in,
        s.hien() matches DaiHienV::Job(j) ==> {
            &&& s.dai_jobs.contains(j)
            &&& s.sau_da_hieu().may_in_da_hieu == s.may_in_da_hieu
            &&& forall|d: DaiV| #[trigger]
                s.sau_da_hieu().dai_jobs.contains(d) <==> s.dai_jobs.contains(d) && d.job_id != j.job_id
        },
        s.hien() matches DaiHienV::MayIn(m) ==> s.sau_da_hieu().may_in_da_hieu == Some(m) && s.sau_da_hieu().dai_jobs
            == s.dai_jobs && s.sau_da_hieu().dai_may_in() is None,
        s.hien() is KhongCo ==> s.sau_da_hieu() == s,
{
    if let DaiHienV::Job(j) = s.hien() {
        let p = |d: DaiV| d.job_id != j.job_id;
        giu_dung(s.dai_jobs, p);
        assert(s.dai_jobs[s.dai_jobs.len() - 1] == j);
        assert forall|d: DaiV| #[trigger] s.sau_da_hieu().dai_jobs.contains(d) <==> s.dai_jobs.contains(d)
            && d.job_id != j.job_id by {
            if s.dai_jobs.contains(d) && d.job_id != j.job_id {
                let i = choose|i: int| 0 <= i < s.dai_jobs.len() && s.dai_jobs[i] == d;
                assert(p(s.dai_jobs[i]));
            }
        }
    }
}

/// A strip that is shown goes away: each time there is one less to put away.
proof fn da_hieu_bot_mot(s: TtV)
    ensures
        s.hien() is KhongCo <==> s.so_lan_con_hieu() == 0,
        s.hien() !is KhongCo ==> s.sau_da_hieu().so_lan_con_hieu() < s.so_lan_con_hieu(),
{
    if let DaiHienV::Job(j) = s.hien() {
        let p = |d: DaiV| d.job_id != j.job_id;
        giu_dung(s.dai_jobs.drop_last(), p);
        assert(!p(s.dai_jobs.last()));
    }
}

/// Putting strips away comes to an end: after as many times as there are strips of invoices, and once
/// more for the printer's, none is shown.
pub proof fn da_hieu_het(s: TtV, n: nat)
    requires
        n >= s.dai_jobs.len() + 1,
    ensures
        s.sau_nhieu_da_hieu(n).hien() is KhongCo,
        s.sau_nhieu_da_hieu(n).jobs == s.jobs,
        s.sau_nhieu_da_hieu(n).may_in == s.may_in,
{
    da_hieu_het_dan(s, n);
}

proof fn da_hieu_het_dan(s: TtV, n: nat)
    requires
        n >= s.so_lan_con_hieu(),
    ensures
        s.sau_nhieu_da_hieu(n).hien() is KhongCo,
        s.sau_nhieu_da_hieu(n).jobs == s.jobs,
        s.sau_nhieu_da_hieu(n).may_in == s.may_in,
    decreases n,
{
    da_hieu_bot_mot(s);
    if n > 0 {
        da_hieu_het_dan(s.sau_da_hieu(), (n - 1) as nat);
    }
}

impl Default for TrangThaiChung {
    fn default() -> (r: TrangThaiChung)
        ensures
            r@ == TtV::rong(),
    {
        let r = TrangThaiChung {
            da_noi: false,
            jobs: Vec::new(),
            thong_bao_cuoi: None,
            may_in: None,
            dai_jobs: Vec::new(),
            may_in_da_hieu: None,
            server_ban_cu: false,
            tu_choi_ket_noi: None,
            hang_doi: HangDoiApp::default(),
        };
        assert(r@.jobs =~= Seq::empty());
        assert(r@.dai_jobs =~= Seq::empty());
        r
    }
}

impl TrangThaiChung {
    /// Puts a line on top; it takes the place of one with the same id.
    pub fn them_job(&mut self, log: JobLog)
        ensures
            final(self)@ == old(self)@.them_job(log@),
    {
        let ghost dau = self@;
        let ghost lv = log@;
        if !log.job_id.as_str().is_empty() {
            let mut b: Vec<bool> = Vec::new();
            let mut i: usize = 0;
            while i < self.jobs.len()
                invariant
                    i <= self.jobs@.len(),
                    b@.len() == i,
                    lv == log@,
                    forall|k: int| 0 <= k < i ==> #[trigger] b@[k] == (self.jobs@[k]@.job_id != lv.job_id),
                decreases self.jobs@.len() - i,
            {
                b.push(!chu::bang(self.jobs[i].job_id.as_str(), log.job_id.as_str()));
                i = i + 1;
            }
            day::giu_lai(&mut self.jobs, &b, Ghost(|j: JobLogV| j.job_id != lv.job_id));
        }
        let ghost con = self.jobs@;
        self.jobs.insert(0, log);
        assert(xem(self.jobs@) =~= seq![lv] + xem(con));
        let ghost day_du = self.jobs@;
        if self.jobs.len() > MAX_JOB_LOG {
            self.jobs.truncate(MAX_JOB_LOG);
        }
        assert(xem(self.jobs@) =~= cat_job(xem(day_du)));
    }

    /// A job has come in: its line is there at once.
    pub fn bat_dau_job(&mut self, job_id: &str, so_hoa_don: &str, khach: Option<String>, luc: String)
        ensures
            final(self)@ == old(self)@.them_job(
                dong_moi(job_id@, so_hoa_don@, chu_cua(khach), DANG_GUI@, luc@),
            ),
    {
        self.them_job(
            JobLog {
                job_id: job_id.to_owned(),
                so_hoa_don: so_hoa_don.to_owned(),
                khach,
                trang_thai: DANG_GUI.to_owned(),
                loai: None,
                sau_khac_phuc: false,
                ban_da_in: None,
                luc,
            },
        );
    }

    /// An invoice was withdrawn for certain: one line takes the place of all its lines.
    pub fn ghi_da_huy(&mut self, id_print_job: &str, so_hoa_don: &str, khach: Option<String>, luc: String)
        ensures
            final(self)@ == old(self)@.sau_da_huy(id_print_job@, so_hoa_don@, chu_cua(khach), luc@),
    {
        let ghost idv = id_print_job@;
        let mut b: Vec<bool> = Vec::new();
        let mut i: usize = 0;
        while i < self.jobs.len()
            invariant
                i <= self.jobs@.len(),
                b@.len() == i,
                idv == id_print_job@,
                forall|k: int| 0 <= k < i ==> #[trigger] b@[k] == (id_may_chu(self.jobs@[k]@.job_id) != Some(idv)),
            decreases self.jobs@.len() - i,
        {
            let khac = match print_job_id(self.jobs[i].job_id.as_str()) {
                Some(s) => !chu::bang(s.as_str(), id_print_job),
                None => true,
            };
            b.push(khac);
            i = i + 1;
        }
        day::giu_lai(&mut self.jobs, &b, Ghost(|j: JobLogV| id_may_chu(j.job_id) != Some(idv)));
        let mut ma = "huy:".to_owned();
        ma.append(id_print_job);
        self.them_job(
            JobLog {
                job_id: ma,
                so_hoa_don: so_hoa_don.to_owned(),
                khach,
                trang_thai: DA_HUY.to_owned(),
                loai: None,
                sau_khac_phuc: false,
                ban_da_in: None,
                luc,
            },
        );
    }

    /// A job is in another state on its way; a line that has its outcome is left alone.
    pub fn doi_trang_thai_job(&mut self, job_id: &str, trang_thai: &str)
        ensures
            final(self)@ == (TtV {
                jobs: old(self)@.jobs.map_values(|j: JobLogV| doi_trung_gian(j, job_id@, trang_thai@)),
                ..old(self)@
            }),
    {
        let ghost dau = self@;
        let ghost f = |j: JobLogV| doi_trung_gian(j, job_id@, trang_thai@);
        let n: usize = self.jobs.len();
        let mut i: usize = 0;
        while i < n
            invariant
                f == (|j: JobLogV| doi_trung_gian(j, job_id@, trang_thai@)),
                n == self.jobs@.len(),
                n == dau.jobs.len(),
                i <= n,
                self@ == (TtV { jobs: self@.jobs, ..dau }),
                forall|k: int| 0 <= k < i ==> #[trigger] self.jobs@[k]@ == f(dau.jobs[k]),
                forall|k: int| i <= k < n ==> #[trigger] self.jobs@[k]@ == dau.jobs[k],
            decreases n - i,
        {
            let ghost truoc = self.jobs@;
            assert(truoc[i as int]@ == dau.jobs[i as int]);
            if chu::bang(self.jobs[i].job_id.as_str(), job_id) && (chu::bang(self.jobs[i].trang_thai.as_str(), DANG_GUI)
                || chu::bang(self.jobs[i].trang_thai.as_str(), CHO_MAY_IN)) {
                self.jobs[i].trang_thai = trang_thai.to_owned();
            }
            assert(self.jobs@[i as int]@ == f(dau.jobs[i as int]));
            assert(forall|k: int| 0 <= k < n && k != i ==> #[trigger] self.jobs@[k] == truoc[k]);
            i = i + 1;
        }
        assert(self@.jobs =~= dau.jobs.map_values(f));
    }

    /// Takes down a reading of the printer; says whether its code has changed. A printer that is well
    /// while idle puts away the strips of invoices that the server sends again.
    pub fn ghi_may_in(&mut self, ma: MaSuCo, chi_tiet: Option<String>, luc_ranh: bool) -> (r: bool)
        ensures
            r == (old(self)@.ma_may_in() != Some(ma)),
            final(self)@ == old(self)@.sau_may_in(ma, chu_cua(chi_tiet), luc_ranh),
    {
        let ghost dau = self@;
        let doi = match &self.may_in {
            Some(x) => x.0 != ma,
            None => true,
        };
        if luc_ranh && ma == MaSuCo::BinhThuong {
            let mut b: Vec<bool> = Vec::new();
            let mut i: usize = 0;
            while i < self.dai_jobs.len()
                invariant
                    i <= self.dai_jobs@.len(),
                    b@.len() == i,
                    forall|k: int| 0 <= k < i ==> #[trigger] b@[k] == (self.dai_jobs@[k]@.loai_dai != LoaiDai::Loi),
                decreases self.dai_jobs@.len() - i,
            {
                b.push(self.dai_jobs[i].loai_dai != LoaiDai::Loi);
                i = i + 1;
            }
            day::giu_lai(&mut self.dai_jobs, &b, Ghost(|d: DaiV| d.loai_dai != LoaiDai::Loi));
        }
        let khac = match self.may_in_da_hieu {
            Some(m) => m != ma,
            None => false,
        };
        if khac {
            self.may_in_da_hieu = None;
        }
        self.may_in = Some((ma, chi_tiet));
        doi
    }

    fn dat_dai(&mut self, dai: DaiJob)
        ensures
            final(self)@ == (TtV { dai_jobs: sau_dat_dai(old(self)@.dai_jobs, dai@), ..old(self)@ }),
    {
        let ghost dau = self@;
        let ghost dv = dai@;
        let mut b: Vec<bool> = Vec::new();
        let mut i: usize = 0;
        while i < self.dai_jobs.len()
            invariant
                i <= self.dai_jobs@.len(),
                b@.len() == i,
                dv == dai@,
                forall|k: int| 0 <= k < i ==> #[trigger] b@[k] == (self.dai_jobs@[k]@.khoa() != dv.khoa()),
            decreases self.dai_jobs@.len() - i,
        {
            b.push(!chu::bang(self.dai_jobs[i].khoa(), dai.khoa()));
            i = i + 1;
        }
        day::giu_lai(&mut self.dai_jobs, &b, Ghost(|x: DaiV| x.khoa() != dv.khoa()));
        let ghost con = self.dai_jobs@;
        self.dai_jobs.push(dai);
        assert(xem(self.dai_jobs@) =~= xem(con).push(dv));
        if self.dai_jobs.len() > SO_DAI_TOI_DA {
            let cu: usize = self.dai_jobs.len() - 1;
            let ghost moi = xem(self.dai_jobs@);
            let ghost q = |x: DaiV| x.loai_dai == LoaiDai::Loi;
            let mut bo: usize = 0;
            let mut tim = false;
            let mut k: usize = 0;
            while k < cu && !tim
                invariant
                    moi == xem(self.dai_jobs@),
                    q == (|x: DaiV| x.loai_dai == LoaiDai::Loi),
                    cu == self.dai_jobs@.len() - 1,
                    k <= cu,
                    bo < self.dai_jobs@.len(),
                    tim ==> vi_tri(moi.drop_last(), q, 0) == Some(bo as int),
                    !tim ==> bo == 0 && vi_tri(moi.drop_last(), q, 0) == vi_tri(moi.drop_last(), q, k as int),
                decreases cu - k + (if tim { 0int } else { 1int }),
            {
                assert(moi.drop_last()[k as int] == self.dai_jobs@[k as int]@);
                if self.dai_jobs[k].loai_dai == LoaiDai::Loi {
                    bo = k;
                    tim = true;
                } else {
                    k = k + 1;
                }
            }
            let ghost truoc = self.dai_jobs@;
            let _ = self.dai_jobs.remove(bo);
            assert(xem(self.dai_jobs@) =~= moi.remove(bo as int));
        }
    }

    /// The newest strip of an invoice.
    pub fn dai_moi_nhat(&self) -> (r: Option<&DaiJob>)
        ensures
            r is Some <==> self@.dai_jobs.len() > 0,
            r matches Some(d) ==> d@ == self@.dai_jobs.last(),
    {
        let n: usize = self.dai_jobs.len();
        if n == 0 {
            None
        } else {
            assert(self@.dai_jobs[n - 1] == self.dai_jobs@[n - 1]@);
            Some(&self.dai_jobs[n - 1])
        }
    }

    /// The printer's trouble for which a strip can be shown.
    pub fn ma_dai_may_in(&self) -> (r: Option<MaSuCo>)
        ensures
            r == self@.dai_may_in(),
    {
        match &self.may_in {
            Some(x) => {
                let hieu = match self.may_in_da_hieu {
                    Some(m) => m == x.0,
                    None => false,
                };
                if x.0 != MaSuCo::BinhThuong && !hieu {
                    Some(x.0)
                } else {
                    None
                }
            },
            None => None,
        }
    }

    /// The strip that is shown.
    pub fn dai_hien(&self) -> (r: DaiHien<'_>)
        ensures
            hien_view(r) == self@.hien(),
    {
        match self.dai_moi_nhat() {
            Some(j) => match self.ma_dai_may_in() {
                Some(m) => if !j.la_muc_loi() && m.muc() == MucDo::Loi {
                    DaiHien::MayIn(m)
                } else {
                    DaiHien::Job(j)
                },
                None => DaiHien::Job(j),
            },
            None => match self.ma_dai_may_in() {
                Some(m) => DaiHien::MayIn(m),
                None => DaiHien::KhongCo,
            },
        }
    }

    /// How many more warnings there are than the one that is shown.
    pub fn so_canh_bao_khac(&self) -> (r: usize)
        ensures
            r == self@.so_khac(),
    {
        assert(self@.dai_jobs.len() == self.dai_jobs@.len());
        match self.dai_hien() {
            DaiHien::KhongCo => 0,
            DaiHien::MayIn(_) => self.dai_jobs.len(),
            DaiHien::Job(j) => {
                let them: usize = match self.ma_dai_may_in() {
                    Some(m) => {
                        let cung = match j.ma {
                            Some(x) => x == m,
                            None => false,
                        };
                        if cung {
                            0
                        } else {
                            1
                        }
                    },
                    None => 0,
                };
                self.dai_jobs.len() - 1 + them
            },
        }
    }

    /// Trouble seen while a job is watched.
    pub fn ghi_su_co_dang_in(&mut self, ma: MaSuCo, so_hoa_don: &str, job_id: &str)
        ensures
            final(self)@ == (TtV {
                dai_jobs: sau_dat_dai(
                    old(self)@.dai_jobs,
                    DaiV {
                        loai_dai: LoaiDai::DangTheoDoi,
                        ma: Some(ma),
                        so_hoa_don: so_hoa_don@,
                        job_id: job_id@,
                        ngoai_hang_doi: false,
                        ban_da_in: None,
                    },
                ),
                ..old(self)@
            }),
    {
        self.dat_dai(
            DaiJob {
                loai_dai: LoaiDai::DangTheoDoi,
                ma: Some(ma),
                so_hoa_don: so_hoa_don.to_owned(),
                job_id: job_id.to_owned(),
                ngoai_hang_doi: false,
                ban_da_in: None,
            },
        );
    }

    /// The outcome of a job of which no more is known than its state and code.
    pub fn ghi_ket_qua_job(&mut self, job_id: &str, so_hoa_don: &str, trang_thai: &str, loai: Option<MaSuCo>)
        ensures
            final(self)@ == (TtV {
                dai_jobs: sau_ket_qua(old(self)@.dai_jobs, job_id@, so_hoa_don@, trang_thai@, loai, false, None),
                ..old(self)@
            }),
    {
        self.ghi_ket_qua(job_id, so_hoa_don, trang_thai, loai, false, None);
    }

    /// The outcome of a job: a strip for its invoice, or the end of strips that a printed sheet settles.
    pub fn ghi_ket_qua(
        &mut self,
        job_id: &str,
        so_hoa_don: &str,
        trang_thai: &str,
        loai: Option<MaSuCo>,
        ngoai_hang_doi: bool,
        ban_da_in: Option<(u32, u32)>,
    )
        ensures
            final(self)@ == (TtV {
                dai_jobs: sau_ket_qua(
                    old(self)@.dai_jobs,
                    job_id@,
                    so_hoa_don@,
                    trang_thai@,
                    loai,
                    ngoai_hang_doi,
                    ban_da_in,
                ),
                ..old(self)@
            }),
    {
        if chu::bang(trang_thai, DA_IN) {
            let ghost jv = job_id@;
            let mut b: Vec<bool> = Vec::new();
            let mut i: usize = 0;
            while i < self.dai_jobs.len()
                invariant
                    i <= self.dai_jobs@.len(),
                    b@.len() == i,
                    jv == job_id@,
                    forall|k: int| 0 <= k < i ==> #[trigger] b@[k] == !tat_khi_in_xong(self.dai_jobs@[k]@, jv),
                decreases self.dai_jobs@.len() - i,
            {
                let d = &self.dai_jobs[i];
                let may = match d.ma {
                    Some(m) => m.la_su_co_may_in(),
                    None => false,
                };
                let tat = chu::bang(d.job_id.as_str(), job_id) || (d.ban_da_in.is_none() && (d.loai_dai == LoaiDai::Loi
                    || may));
                b.push(!tat);
                i = i + 1;
            }
            day::giu_lai(&mut self.dai_jobs, &b, Ghost(|d: DaiV| !tat_khi_in_xong(d, jv)));
            return ;
        }
        let khong_ro = !chu::bang(trang_thai, LOI);
        self.dat_dai(
            DaiJob {
                loai_dai: if khong_ro {
                    LoaiDai::KhongRo
                } else {
                    LoaiDai::Loi
                },
                ma: loai,
                so_hoa_don: so_hoa_don.to_owned(),
                job_id: job_id.to_owned(),
                ngoai_hang_doi: ngoai_hang_doi && khong_ro,
                ban_da_in: if khong_ro {
                    ban_da_in
                } else {
                    None
                },
            },
        );
    }

    /// A job left open was confirmed after all.
    pub fn xac_nhan_in_sau(&mut self, job_id: &str)
        ensures
            final(self)@ == (TtV {
                jobs: old(self)@.jobs.map_values(|j: JobLogV| doi_da_in(j, job_id@)),
                dai_jobs: giu(old(self)@.dai_jobs, |d: DaiV| d.job_id != job_id@),
                ..old(self)@
            }),
    {
        let ghost dau = self@;
        let ghost f = |j: JobLogV| doi_da_in(j, job_id@);
        let n: usize = self.jobs.len();
        let mut i: usize = 0;
        while i < n
            invariant
                f == (|j: JobLogV| doi_da_in(j, job_id@)),
                n == self.jobs@.len(),
                n == dau.jobs.len(),
                i <= n,
                self@ == (TtV { jobs: self@.jobs, ..dau }),
                forall|k: int| 0 <= k < i ==> #[trigger] self.jobs@[k]@ == f(dau.jobs[k]),
                forall|k: int| i <= k < n ==> #[trigger] self.jobs@[k]@ == dau.jobs[k],
            decreases n - i,
        {
            let ghost truoc = self.jobs@;
            assert(truoc[i as int]@ == dau.jobs[i as int]);
            if chu::bang(self.jobs[i].job_id.as_str(), job_id) {
                self.jobs[i].trang_thai = DA_IN.to_owned();
                self.jobs[i].loai = None;
                self.jobs[i].sau_khac_phuc = true;
            }
            assert(self.jobs@[i as int]@ == f(dau.jobs[i as int]));
            assert(forall|k: int| 0 <= k < n && k != i ==> #[trigger] self.jobs@[k] == truoc[k]);
            i = i + 1;
        }
        assert(self@.jobs =~= dau.jobs.map_values(f));
        self.tat_dai_cua(job_id);
    }

    fn tat_dai_cua(&mut self, job_id: &str)
        ensures
            final(self)@ == (TtV { dai_jobs: giu(old(self)@.dai_jobs, |d: DaiV| d.job_id != job_id@), ..old(self)@ }),
    {
        let ghost jv = job_id@;
        let mut b: Vec<bool> = Vec::new();
        let mut i: usize = 0;
        while i < self.dai_jobs.len()
            invariant
                i <= self.dai_jobs@.len(),
                b@.len() == i,
                jv == job_id@,
                forall|k: int| 0 <= k < i ==> #[trigger] b@[k] == (self.dai_jobs@[k]@.job_id != jv),
            decreases self.dai_jobs@.len() - i,
        {
            b.push(!chu::bang(self.dai_jobs[i].job_id.as_str(), job_id));
            i = i + 1;
        }
        day::giu_lai(&mut self.dai_jobs, &b, Ghost(|d: DaiV| d.job_id != jv));
    }

    /// All trace of a job left open was lost.
    pub fn mat_dau_job(&mut self, job_id: &str, so_hoa_don: &str)
        ensures
            final(self)@ == old(self)@.sau_mat_dau(job_id@, so_hoa_don@, None),
    {
        self.mat_dau_job_theo(job_id, so_hoa_don, None);
    }

    /// All trace of a job left open was lost; `co_the_trong_may_in` is the printer's trouble when it left
    /// the queue. The strip comes up again even if it was put away: this is news.
    pub fn mat_dau_job_theo(&mut self, job_id: &str, so_hoa_don: &str, co_the_trong_may_in: Option<MaSuCo>)
        ensures
            final(self)@ == old(self)@.sau_mat_dau(job_id@, so_hoa_don@, co_the_trong_may_in),
    {
        let ma = match co_the_trong_may_in {
            Some(m) => m,
            None => MaSuCo::KhongXacNhan,
        };
        let ghost dau = self@;
        let ghost f = |j: JobLogV| doi_mat_dau(j, job_id@, ma);
        let n: usize = self.jobs.len();
        let mut i: usize = 0;
        while i < n
            invariant
                f == (|j: JobLogV| doi_mat_dau(j, job_id@, ma)),
                n == self.jobs@.len(),
                n == dau.jobs.len(),
                i <= n,
                self@ == (TtV { jobs: self@.jobs, ..dau }),
                forall|k: int| 0 <= k < i ==> #[trigger] self.jobs@[k]@ == f(dau.jobs[k]),
                forall|k: int| i <= k < n ==> #[trigger] self.jobs@[k]@ == dau.jobs[k],
            decreases n - i,
        {
            let ghost truoc = self.jobs@;
            assert(truoc[i as int]@ == dau.jobs[i as int]);
            if chu::bang(self.jobs[i].job_id.as_str(), job_id) && chu::bang(self.jobs[i].trang_thai.as_str(), KHONG_RO) {
                self.jobs[i].loai = Some(ma);
            }
            assert(self.jobs@[i as int]@ == f(dau.jobs[i as int]));
            assert(forall|k: int| 0 <= k < n && k != i ==> #[trigger] self.jobs@[k] == truoc[k]);
            i = i + 1;
        }
        assert(self@.jobs =~= dau.jobs.map_values(f));
        self.dat_dai(
            DaiJob {
                loai_dai: LoaiDai::KhongRo,
                ma: Some(ma),
                so_hoa_don: so_hoa_don.to_owned(),
                job_id: job_id.to_owned(),
                ngoai_hang_doi: co_the_trong_may_in.is_some(),
                ban_da_in: None,
            },
        );
    }

    /// The strip that is shown was put away.
    pub fn da_hieu(&mut self)
        ensures
            final(self)@ == old(self)@.sau_da_hieu(),
    {
        let (id, may): (Option<String>, Option<MaSuCo>) = match self.dai_hien() {
            DaiHien::Job(j) => (Some(j.job_id.clone()), None),
            DaiHien::MayIn(m) => (None, Some(m)),
            DaiHien::KhongCo => (None, None),
        };
        if let Some(s) = id {
            self.tat_dai_cua(s.as_str());
        }
        if let Some(m) = may {
            self.may_in_da_hieu = Some(m);
        }
    }

    /// Other settings: what belongs to the old connection and the old printer is forgotten; the jobs and
    /// the strips stay.
    pub fn doi_cau_hinh(&mut self)
        ensures
            final(self)@ == (TtV { jobs: old(self)@.jobs, dai_jobs: old(self)@.dai_jobs, ..TtV::rong() }),
    {
        self.da_noi = false;
        self.thong_bao_cuoi = None;
        self.may_in = None;
        self.may_in_da_hieu = None;
        self.server_ban_cu = false;
        self.tu_choi_ket_noi = None;
        self.hang_doi = HangDoiApp::default();
    }
}

impl TtV {
    /// After all trace of a job left open was lost.
    pub open spec fn sau_mat_dau(self, job_id: Seq<char>, so_hoa_don: Seq<char>, trong_may: Option<MaSuCo>) -> TtV {
        let ma = match trong_may {
            Some(m) => m,
            None => MaSuCo::KhongXacNhan,
        };
        TtV {
            jobs: self.jobs.map_values(|j: JobLogV| doi_mat_dau(j, job_id, ma)),
            dai_jobs: sau_dat_dai(
                self.dai_jobs,
                DaiV {
                    loai_dai: LoaiDai::KhongRo,
                    ma: Some(ma),
                    so_hoa_don,
                    job_id,
                    ngoai_hang_doi: trong_may is Some,
                    ban_da_in: None,
                },
            ),
            ..self
        }
    }
}

} // verus!
