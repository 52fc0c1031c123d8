//! The world outside: the spooler, the listener, the clock, and a trace of every exchange with them.
use crate::spooler::kieu::{JobHangDoi, LenhJob, QuanSat, QuanSatV, VongDoc, cac_quan_sat};
use vstd::prelude::*;

verus! {

/// What watching a job and deleting it need of the spooler.
pub trait Spooler {
    /// One reading: the printer and its queue. A queue that cannot be read is not an empty one.
    fn doc_vong(&mut self) -> VongDoc;

    /// The queue alone.
    fn doc_hang_doi(&mut self) -> Option<Vec<JobHangDoi>>;

    /// Holds, releases or deletes a job.
    fn dieu_khien(&mut self, id: u32, lenh: LenhJob) -> Result<(), String>;

    /// Waits so many milliseconds.
    fn cho(&mut self, ms: u64);
}

/// Takes the reports made while a job is watched.
pub trait KenhBao {
    fn bao(&mut self, qs: QuanSat);
}

/// Tells the time.
pub trait DongHo {
    /// Whether the watch over the job goes on.
    fn con_thoi_gian(&mut self) -> bool;

    /// Milliseconds on a clock that never goes back.
    fn bay_gio_ms(&mut self) -> u64;
}

/// One exchange with the outside: what was asked, and the reply.
pub ghost enum Buoc {
    DocVong(VongDoc),
    DocHangDoi(Option<Vec<JobHangDoi>>),
    DieuKhien(u32, LenhJob, Result<(), String>),
    Cho(u64),
    ConThoiGian(bool),
    BayGio(u64),
    Bao(QuanSatV),
}

/// The outside, reached only through methods that write down every exchange.
pub struct MoiTruong<S, B, D> {
    sp: S,
    kenh: B,
    dong_ho: D,
    vet: Ghost<Seq<Buoc>>,
}

/// What was added to a trace.
pub open spec fn duoi(cu: Seq<Buoc>, moi: Seq<Buoc>) -> Seq<Buoc> {
    moi.subrange(cu.len() as int, moi.len() as int)
}

/// The trace `moi` continues `cu`.
pub open spec fn noi_tiep(cu: Seq<Buoc>, moi: Seq<Buoc>) -> bool {
    cu.len() <= moi.len() && moi.subrange(0, cu.len() as int) == cu
}

/// A trace continues itself, with nothing added.
pub proof fn noi_tiep_chinh_no(a: Seq<Buoc>)
    ensures
        noi_tiep(a, a),
        duoi(a, a) == Seq::<Buoc>::empty(),
{
    assert(a.subrange(0, a.len() as int) =~= a);
    assert(duoi(a, a) =~= Seq::<Buoc>::empty());
}

/// A trace that continues one with an exchange more begins, in what it adds, with that exchange.
pub proof fn mot_buoc_truoc(a: Seq<Buoc>, b: Buoc, c: Seq<Buoc>)
    requires
        noi_tiep(a.push(b), c),
    ensures
        noi_tiep(a, c),
        duoi(a, c) == seq![b] + duoi(a.push(b), c),
        duoi(a, c).len() >= 1,
        duoi(a, c)[0] == b,
        duoi(a, c).subrange(1, duoi(a, c).len() as int) == duoi(a.push(b), c),
{
    let d = a.push(b);
    assert(c.subrange(0, d.len() as int)[a.len() as int] == b);
    assert(c.subrange(0, a.len() as int) =~= a) by {
        assert forall|i: int| 0 <= i < a.len() implies c[i] == a[i] by {
            assert(c.subrange(0, d.len() as int)[i] == d[i]);
        }
    }
    assert(duoi(a, c) =~= seq![b] + duoi(d, c));
    assert(duoi(a, c).subrange(1, duoi(a, c).len() as int) =~= duoi(d, c));
}

/// Traces that continue one another, end to end.
pub proof fn noi_hai_doan(a: Seq<Buoc>, b: Seq<Buoc>, c: Seq<Buoc>)
    requires
        noi_tiep(a, b),
        noi_tiep(b, c),
    ensures
        noi_tiep(a, c),
        duoi(a, c) == duoi(a, b) + duoi(b, c),
        duoi(a, c).subrange(0, duoi(a, b).len() as int) == duoi(a, b),
        duoi(a, c).subrange(duoi(a, b).len() as int, duoi(a, c).len() as int) == duoi(b, c),
{
    assert forall|i: int| 0 <= i < b.len() implies c[i] == b[i] by {
        assert(c.subrange(0, b.len() as int)[i] == b[i]);
    }
    assert forall|i: int| 0 <= i < a.len() implies b[i] == a[i] by {
        assert(b.subrange(0, a.len() as int)[i] == a[i]);
    }
    assert(c.subrange(0, a.len() as int) =~= a);
    assert(duoi(a, c) =~= duoi(a, b) + duoi(b, c));
    assert(duoi(a, c).subrange(0, duoi(a, b).len() as int) =~= duoi(a, b));
    assert(duoi(a, c).subrange(duoi(a, b).len() as int, duoi(a, c).len() as int) =~= duoi(b, c));
}

impl<S: Spooler, B: KenhBao, D: DongHo> MoiTruong<S, B, D> {
    /// Every exchange so far.
    pub closed spec fn vet(&self) -> Seq<Buoc> {
        self.vet@
    }

    /// The parts of the outside.
    pub closed spec fn ngoai(&self) -> (S, B, D) {
        (self.sp, self.kenh, self.dong_ho)
    }

    pub fn moi(sp: S, kenh: B, dong_ho: D) -> (r: MoiTruong<S, B, D>)
        ensures
            r.ngoai() == (sp, kenh, dong_ho),
            r.vet() == Seq::<Buoc>::empty(),
    {
        MoiTruong { sp, kenh, dong_ho, vet: Ghost(Seq::empty()) }
    }

    /// Gives the parts back.
    pub fn tra_lai(self) -> (r: (S, B, D))
        ensures
            r == self.ngoai(),
    {
        (self.sp, self.kenh, self.dong_ho)
    }

    pub fn doc_vong(&mut self) -> (r: VongDoc)
        ensures
            final(self).vet() == old(self).vet().push(Buoc::DocVong(r)),
    {
        let r = self.sp.doc_vong();
        self.vet = Ghost(self.vet@.push(Buoc::DocVong(r)));
        r
    }

    pub fn doc_hang_doi(&mut self) -> (r: Option<Vec<JobHangDoi>>)
        ensures
            final(self).vet() == old(self).vet().push(Buoc::DocHangDoi(r)),
    {
        let r = self.sp.doc_hang_doi();
        self.vet = Ghost(self.vet@.push(Buoc::DocHangDoi(r)));
        r
    }

    pub fn dieu_khien(&mut self, id: u32, lenh: LenhJob) -> (r: Result<(), String>)
        ensures
            final(self).vet() == old(self).vet().push(Buoc::DieuKhien(id, lenh, r)),
    {
        let r = self.sp.dieu_khien(id, lenh);
        self.vet = Ghost(self.vet@.push(Buoc::DieuKhien(id, lenh, r)));
        r
    }

    pub fn cho(&mut self, ms: u64)
        ensures
            final(self).vet() == old(self).vet().push(Buoc::Cho(ms)),
    {
        self.sp.cho(ms);
        self.vet = Ghost(self.vet@.push(Buoc::Cho(ms)));
    }

    pub fn bao(&mut self, qs: QuanSat)
        ensures
            final(self).vet() == old(self).vet().push(Buoc::Bao(qs@)),
    {
        self.vet = Ghost(self.vet@.push(Buoc::Bao(qs@)));
        self.kenh.bao(qs);
    }

    pub fn con_thoi_gian(&mut self) -> (r: bool)
        ensures
            final(self).vet() == old(self).vet().push(Buoc::ConThoiGian(r)),
    {
        let r = self.dong_ho.con_thoi_gian();
        self.vet = Ghost(self.vet@.push(Buoc::ConThoiGian(r)));
        r
    }

    pub fn bay_gio_ms(&mut self) -> (r: u64)
        ensures
            final(self).vet() == old(self).vet().push(Buoc::BayGio(r)),
    {
        let r = self.dong_ho.bay_gio_ms();
        self.vet = Ghost(self.vet@.push(Buoc::BayGio(r)));
        r
    }

    /// Makes a list of reports, in order.
    pub fn bao_het(&mut self, ds: Vec<QuanSat>)
        ensures
            noi_tiep(old(self).vet(), final(self).vet()),
            duoi(old(self).vet(), final(self).vet()) == cac_buoc_bao(cac_quan_sat(ds@)),
    {
        let ghost dau = self.vet();
        let ghost tat_ca = cac_quan_sat(ds@);
        let mut con = ds;
        let mut i: usize = 0;
        let n: usize = con.len();
        proof {
            noi_tiep_chinh_no(dau);
            assert(cac_buoc_bao(Seq::<QuanSatV>::empty()) =~= Seq::empty());
            assert(tat_ca.subrange(0, 0) =~= Seq::empty());
        }
        while i < n
            invariant
                dau == old(self).vet(),
                n == tat_ca.len(),
                i <= n,
                con@.len() == n - i,
                forall|k: int| 0 <= k < con@.len() ==> (#[trigger] con@[k])@ == tat_ca[i + k],
                noi_tiep(dau, self.vet()),
                duoi(dau, self.vet()) == cac_buoc_bao(tat_ca.subrange(0, i as int)),
            decreases n - i,
        {
            let ghost truoc = self.vet();
            let qs = con.remove(0);
            assert(qs@ == tat_ca[i as int]);
            self.bao(qs);
            proof {
                assert(tat_ca.subrange(0, i + 1) =~= tat_ca.subrange(0, i as int).push(tat_ca[i as int]));
                assert(self.vet().subrange(0, dau.len() as int) =~= truoc.subrange(0, dau.len() as int));
                assert(duoi(dau, self.vet()) =~= duoi(dau, truoc).push(Buoc::Bao(qs@)));
                assert(cac_buoc_bao(tat_ca.subrange(0, i + 1)) =~= cac_buoc_bao(tat_ca.subrange(0, i as int)).push(
                    Buoc::Bao(qs@),
                ));
            }
            i = i + 1;
        }
        assert(tat_ca.subrange(0, n as int) =~= tat_ca);
    }
}

/// The exchanges by which a list of reports is made.
pub open spec fn cac_buoc_bao(ds: Seq<QuanSatV>) -> Seq<Buoc> {
    Seq::new(ds.len(), |i: int| Buoc::Bao(ds[i]))
}

} // verus!
