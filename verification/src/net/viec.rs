//! One print order from the server's message to the report.
use crate::bao_cao::{self, BoLocSuCo};
use crate::config::{CauHinh, Config};
use crate::gia_tri::{chu_cua, GiaTri, Gt};
use crate::hop_thu_di::{CanHoTro, KetQuaGui, ThuDi, ThuV};
use crate::job::{
    self, chuan_bi, chuan_bi_job, ket_qua_cua, JobEnvelope, KetQua, KetQuaIn, KetQuaInV, KetQuaV, LenhIn, LenhInV, LyDoV,
    CHO_MAY_IN, DA_IN, KHONG_RO, LOI,
};
use crate::spooler::kieu::{BangChungJob, QuanSat, QuanSatV};
use crate::spooler::may_in::KiemTruoc;
use crate::state::{doi_trung_gian, sau_dat_dai, sau_ket_qua, DaiV, JobLog, JobLogV, LoaiDai, TrangThaiChung, TtV};
use crate::su_co::{MaSuCo, TapMa};
use crate::theo_doi_tiep::{JobTheoDoiTiep, TiepV};
use vstd::prelude::*;
use vstd::string::*;

verus! {

/// What has been reported of one job while it is printed.
#[derive(Debug)]
pub struct BaoCaoTrongLuc {
    job_id: String,
    so_hoa_don: String,
    may_in: String,
    bo_loc: BoLocSuCo,
    may_in_da_chuyen: Option<MaSuCo>,
    da_thay_su_co: bool,
    con_trong_hang_doi: Option<BangChungJob>,
    trong_may_in_usb: Option<(bool, bool)>,
}

pub ghost struct BaoCaoV {
    pub job_id: Seq<char>,
    pub so_hoa_don: Seq<char>,
    pub may_in: Seq<char>,
    /// Kinds of trouble that were reported already.
    pub bo_loc: BoLocSuCo,
    pub may_in_da_chuyen: Option<MaSuCo>,
    pub da_thay_su_co: bool,
    pub con_trong_hang_doi: Option<BangChungJob>,
    pub trong_may_in_usb: Option<(bool, bool)>,
}

impl View for BaoCaoTrongLuc {
    type V = BaoCaoV;

    closed spec fn view(&self) -> BaoCaoV {
        BaoCaoV {
            job_id: self.job_id@,
            so_hoa_don: self.so_hoa_don@,
            may_in: self.may_in@,
            bo_loc: self.bo_loc,
            may_in_da_chuyen: self.may_in_da_chuyen,
            da_thay_su_co: self.da_thay_su_co,
            con_trong_hang_doi: self.con_trong_hang_doi,
            trong_may_in_usb: self.trong_may_in_usb,
        }
    }
}

/// What is to be done at once about something seen while a job is printed.
#[derive(Debug, PartialEq, Eq)]
pub enum HanhDong {
    KhongGi,
    /// Tell the server.
    Gui(ThuDi),
    /// Tell the one who watches the printer.
    ChuyenMayIn(MaSuCo, Option<String>),
}

pub ghost enum HanhDongV {
    KhongGi,
    Gui(ThuV),
    ChuyenMayIn(MaSuCo, Option<Seq<char>>),
}

impl View for HanhDong {
    type V = HanhDongV;

    open spec fn view(&self) -> HanhDongV {
        match self {
            HanhDong::KhongGi => HanhDongV::KhongGi,
            HanhDong::Gui(t) => HanhDongV::Gui(t@),
            HanhDong::ChuyenMayIn(m, c) => HanhDongV::ChuyenMayIn(*m, chu_cua(*c)),
        }
    }
}

impl BaoCaoV {
    /// The message of trouble with the job; an empty detail is left out.
    pub open spec fn thu_su_co(self, loai: MaSuCo, chi_tiet: Seq<char>, luc_ms: u64) -> ThuV {
        ThuV {
            su_kien: "su-co"@,
            gia_tri: bao_cao::su_co_cua(
                self.job_id,
                loai,
                if chi_tiet.len() == 0 {
                    None
                } else {
                    Some(chi_tiet)
                },
                self.may_in,
                luc_ms,
            ),
            can: CanHoTro::SuCo,
        }
    }

    /// What is to be done about something seen: each kind of trouble is told once, and the printer's state
    /// only when it changes.
    pub open spec fn viec_voi(self, qs: QuanSatV, luc_ms: u64) -> HanhDongV {
        match qs {
            QuanSatV::SuCo { loai, chi_tiet } => if self.bo_loc.da_bao(loai) {
                HanhDongV::KhongGi
            } else {
                HanhDongV::Gui(self.thu_su_co(loai, chi_tiet, luc_ms))
            },
            QuanSatV::MayIn { ma, chi_tiet } => if self.may_in_da_chuyen == Some(ma) {
                HanhDongV::KhongGi
            } else {
                HanhDongV::ChuyenMayIn(ma, chi_tiet)
            },
            _ => HanhDongV::KhongGi,
        }
    }

    /// The screen after something was seen.
    pub open spec fn tt_sau(self, tt: TtV, qs: QuanSatV) -> TtV {
        match qs {
            QuanSatV::SuCo { loai, chi_tiet } => if self.bo_loc.da_bao(loai) {
                tt
            } else {
                TtV {
                    dai_jobs: sau_dat_dai(
                        tt.dai_jobs,
                        DaiV {
                            loai_dai: LoaiDai::DangTheoDoi,
                            ma: Some(loai),
                            so_hoa_don: self.so_hoa_don,
                            job_id: self.job_id,
                            ngoai_hang_doi: false,
                            ban_da_in: None,
                        },
                    ),
                    ..tt
                }
            },
            QuanSatV::DaRoiHangDoi => TtV {
                jobs: tt.jobs.map_values(|j: JobLogV| doi_trung_gian(j, self.job_id, CHO_MAY_IN@)),
                ..tt
            },
            _ => tt,
        }
    }

    /// What is remembered after something was seen; `bo_loc` is what was reported by then.
    pub open spec fn sau(self, qs: QuanSatV, bo_loc: BoLocSuCo) -> BaoCaoV {
        match qs {
            QuanSatV::SuCo { loai, chi_tiet } => BaoCaoV { da_thay_su_co: true, bo_loc, ..self },
            QuanSatV::MayIn { ma, chi_tiet } => BaoCaoV { may_in_da_chuyen: Some(ma), ..self },
            QuanSatV::ConTrongHangDoi(bc) => BaoCaoV { con_trong_hang_doi: Some(bc), ..self },
            QuanSatV::TrongMayInUsb { bang_chung, da_thay_loi, da_thay_in } => BaoCaoV {
                con_trong_hang_doi: Some(bang_chung),
                trong_may_in_usb: Some((da_thay_loi, da_thay_in)),
                ..self
            },
            QuanSatV::DaRoiHangDoi => self,
        }
    }

    /// Seeing `qs` leads from here to `c`.
    pub open spec fn toi(self, qs: QuanSatV, c: BaoCaoV) -> bool {
        &&& c == self.sau(qs, c.bo_loc)
        &&& forall|m: MaSuCo| #[trigger]
            c.bo_loc.da_bao(m) == (self.bo_loc.da_bao(m) || (qs matches QuanSatV::SuCo { loai, chi_tiet } && m == loai))
    }
}

impl BaoCaoTrongLuc {
    pub fn moi(job_id: &str, so_hoa_don: &str, may_in: &str) -> (r: BaoCaoTrongLuc)
        ensures
            r@ == (BaoCaoV {
                job_id: job_id@,
                so_hoa_don: so_hoa_don@,
                may_in: may_in@,
                bo_loc: r@.bo_loc,
                may_in_da_chuyen: None,
                da_thay_su_co: false,
                con_trong_hang_doi: None,
                trong_may_in_usb: None,
            }),
            forall|m: MaSuCo| !r@.bo_loc.da_bao(m),
    {
        BaoCaoTrongLuc {
            job_id: job_id.to_owned(),
            so_hoa_don: so_hoa_don.to_owned(),
            may_in: may_in.to_owned(),
            bo_loc: BoLocSuCo::default(),
            may_in_da_chuyen: None,
            da_thay_su_co: false,
            con_trong_hang_doi: None,
            trong_may_in_usb: None,
        }
    }

    /// Takes in something seen while the job is printed: the screen shows it at once, and what is to be
    /// told is given back.
    pub fn nhan(&mut self, qs: QuanSat, tt: &mut TrangThaiChung, luc_ms: u64) -> (r: HanhDong)
        ensures
            r@ == old(self)@.viec_voi(qs@, luc_ms),
            final(tt)@ == old(self)@.tt_sau(old(tt)@, qs@),
            old(self)@.toi(qs@, final(self)@),
    {
        match qs {
            QuanSat::SuCo { loai, chi_tiet } => {
                self.da_thay_su_co = true;
                if !self.bo_loc.lan_dau(loai) {
                    return HanhDong::KhongGi;
                }
                tt.ghi_su_co_dang_in(loai, self.so_hoa_don.as_str(), self.job_id.as_str());
                let ct = if chi_tiet.as_str().is_empty() {
                    None
                } else {
                    Some(chi_tiet.as_str())
                };
                let gia_tri = bao_cao::su_co(self.job_id.as_str(), loai, ct, self.may_in.as_str(), luc_ms);
                HanhDong::Gui(ThuDi { su_kien: "su-co", gia_tri, can: CanHoTro::SuCo })
            },
            QuanSat::MayIn { ma, chi_tiet } => {
                let cung = match self.may_in_da_chuyen {
                    Some(m) => m == ma,
                    None => false,
                };
                if cung {
                    HanhDong::KhongGi
                } else {
                    self.may_in_da_chuyen = Some(ma);
                    HanhDong::ChuyenMayIn(ma, chi_tiet)
                }
            },
            QuanSat::ConTrongHangDoi(bc) => {
                self.con_trong_hang_doi = Some(bc);
                HanhDong::KhongGi
            },
            QuanSat::TrongMayInUsb { bang_chung, da_thay_loi, da_thay_in } => {
                self.con_trong_hang_doi = Some(bang_chung);
                self.trong_may_in_usb = Some((da_thay_loi, da_thay_in));
                HanhDong::KhongGi
            },
            QuanSat::DaRoiHangDoi => {
                tt.doi_trang_thai_job(self.job_id.as_str(), CHO_MAY_IN);
                HanhDong::KhongGi
            },
        }
    }

    /// Trouble was seen while the job was printed.
    pub fn da_thay_su_co(&self) -> (r: bool)
        ensures
            r == self@.da_thay_su_co,
    {
        self.da_thay_su_co
    }
}

proof fn da_bao_con_mai(bs: Seq<BaoCaoV>, qs: Seq<QuanSatV>, i: int, j: int, m: MaSuCo)
    requires
        bs.len() == qs.len() + 1,
        forall|k: int| 0 <= k < qs.len() ==> (#[trigger] bs[k]).toi(qs[k], bs[k + 1]),
        0 <= i <= j < bs.len(),
        bs[i].bo_loc.da_bao(m),
    ensures
        bs[j].bo_loc.da_bao(m),
    decreases j - i,
{
    if i < j {
        assert(bs[i].toi(qs[i], bs[i + 1]));
        da_bao_con_mai(bs, qs, i + 1, j, m);
    }
}

/// Over everything that is seen while a job is printed, each kind of trouble is told to the server once: a
/// second sight of a kind asks for nothing.
pub proof fn moi_su_co_bao_mot_lan(bs: Seq<BaoCaoV>, qs: Seq<QuanSatV>, i: int, j: int, luc_ms: u64)
    requires
        bs.len() == qs.len() + 1,
        forall|k: int| 0 <= k < qs.len() ==> (#[trigger] bs[k]).toi(qs[k], bs[k + 1]),
        0 <= i < j < qs.len(),
        qs[i] is SuCo,
        qs[j] is SuCo,
        qs[i]->SuCo_loai == qs[j]->SuCo_loai,
    ensures
        bs[j].viec_voi(qs[j], luc_ms) == HanhDongV::KhongGi,
{
    let m = qs[i]->SuCo_loai;
    assert(bs[i].toi(qs[i], bs[i + 1]));
    da_bao_con_mai(bs, qs, i + 1, j, m);
}

/// What follows a job.
#[derive(Debug)]
pub struct KetThucViec {
    /// Trouble was seen: the printer's next state is sent whatever it is.
    pub da_thay_su_co: bool,
    /// The job is watched further.
    pub theo_doi_tiep: Option<JobTheoDoiTiep>,
}

/// The report with what is known of where the job is: only an open outcome tells it, and never that a job
/// of which copies are missing is still in the queue.
pub open spec fn kem_vi_tri(kq: KetQuaV, con_trong: bool) -> KetQuaV {
    if kq.trang_thai == KHONG_RO@ {
        KetQuaV { con_trong_hang_doi: Some(kq.ban_da_in is None && con_trong), ..kq }
    } else {
        kq
    }
}

/// The letter of a report.
pub open spec fn thu_ket_qua(kq: KetQuaV) -> ThuV {
    ThuV { su_kien: "ket-qua"@, gia_tri: kq.gia_tri(), can: CanHoTro::can_cua(kq) }
}

/// The line of a report.
pub open spec fn dong_ket_qua(
    job_id: Seq<char>,
    nhan: (Seq<char>, Option<Seq<char>>),
    kq: KetQuaV,
    luc: Seq<char>,
) -> JobLogV {
    JobLogV {
        job_id,
        so_hoa_don: nhan.0,
        khach: nhan.1,
        trang_thai: kq.trang_thai,
        loai: kq.loai,
        sau_khac_phuc: false,
        ban_da_in: kq.ban_da_in,
        luc,
    }
}

/// The screen after a report.
pub open spec fn tt_sau_ket_qua(
    tt: TtV,
    job_id: Seq<char>,
    nhan: (Seq<char>, Option<Seq<char>>),
    kq: KetQuaV,
    luc: Seq<char>,
) -> TtV {
    let t = tt.them_job(dong_ket_qua(job_id, nhan, kq, luc));
    TtV {
        dai_jobs: sau_ket_qua(
            t.dai_jobs,
            job_id,
            nhan.0,
            kq.trang_thai,
            kq.loai,
            kq.con_trong_hang_doi == Some(false),
            kq.ban_da_in,
        ),
        ..t
    }
}

/// Takes a report down on the screen. `luc` is the time of day.
pub fn ghi_ket_qua_viec(
    tt: &mut TrangThaiChung,
    job_id: &str,
    so_hoa_don: &str,
    khach: Option<String>,
    kq: &KetQua,
    luc: String,
)
    ensures
        final(tt)@ == tt_sau_ket_qua(old(tt)@, job_id@, (so_hoa_don@, chu_cua(khach)), kq@, luc@),
{
    tt.them_job(
        JobLog {
            job_id: job_id.to_owned(),
            so_hoa_don: so_hoa_don.to_owned(),
            khach,
            trang_thai: kq.trang_thai.clone(),
            loai: kq.loai,
            sau_khac_phuc: false,
            ban_da_in: kq.ban_da_in,
            luc,
        },
    );
    let ngoai = match kq.con_trong_hang_doi {
        Some(b) => !b,
        None => false,
    };
    tt.ghi_ket_qua(job_id, so_hoa_don, kq.trang_thai.as_str(), kq.loai, ngoai, kq.ban_da_in);
}

/// The job is watched further: exactly where the server was told that it is still on its way.
pub open spec fn tiep_cua(
    job_id: Seq<char>,
    so_hoa_don: Seq<char>,
    may_in: Seq<char>,
    kq: KetQuaV,
    bc: BaoCaoV,
    luc_ms: u64,
) -> Option<TiepV> {
    if kq.trang_thai == KHONG_RO@ && kq.con_trong_hang_doi == Some(true) && bc.con_trong_hang_doi is Some {
        Some(
            TiepV {
                may_in,
                usb: bc.trong_may_in_usb,
                ..TiepV::moi(job_id, so_hoa_don, kq.loai, bc.con_trong_hang_doi->0, luc_ms)
            },
        )
    } else {
        None
    }
}

/// What handling an order needs of the outside.
pub trait MoiTruongViec {
    /// Shows the order on the screen.
    fn ghi_bat_dau(&mut self, job_id: &str, so_hoa_don: &str, khach: Option<String>);

    /// Whether the invoice may be sent to the printer now.
    fn kiem_truoc(&mut self) -> KiemTruoc;

    /// Prints; what is seen meanwhile goes to `bao_cao`, and what that asks for is done at once.
    fn in_that(&mut self, lenh: &LenhIn, nen: Option<TapMa>, bao_cao: &mut BaoCaoTrongLuc) -> KetQuaIn;

    /// Sends a letter to the server.
    fn gui(&mut self, thu: ThuDi) -> KetQuaGui;

    /// Shows the report on the screen.
    fn ghi_ket_qua(&mut self, job_id: &str, so_hoa_don: &str, khach: Option<String>, kq: &KetQua);

    /// The time, in milliseconds.
    fn bay_gio_ms(&mut self) -> u64;
}

/// One exchange with the outside.
pub ghost enum BuocViec {
    GhiBatDau(Seq<char>, Seq<char>, Option<Seq<char>>),
    /// The check: refused with a reason and the name of the log's line, or allowed with what the
    /// printer's trouble was before.
    Kiem(Result<Option<TapMa>, (LyDoV, Seq<char>)>),
    In { lenh: LenhInV, nen: Option<TapMa>, truoc: BaoCaoV, sau: BaoCaoV, kq: KetQuaInV },
    Gui(ThuV, KetQuaGui),
    GhiKetQua(Seq<char>, Seq<char>, Option<Seq<char>>, KetQuaV),
    BayGio(u64),
}

/// The outside, reached only through methods that write down every exchange.
pub struct ViecCoVet<E> {
    mt: E,
    vet: Ghost<Seq<BuocViec>>,
}

pub open spec fn kiem_view(k: KiemTruoc) -> Result<Option<TapMa>, (LyDoV, Seq<char>)> {
    match k {
        KiemTruoc::TuChoi { ly_do, su_kien } => Err((ly_do@, su_kien@)),
        KiemTruoc::In { nen } => Ok(nen),
    }
}

impl<E: MoiTruongViec> ViecCoVet<E> {
    /// Every exchange so far.
    pub closed spec fn vet(&self) -> Seq<BuocViec> {
        self.vet@
    }

    /// The outside itself.
    pub closed spec fn ngoai(&self) -> E {
        self.mt
    }

    pub fn moi(mt: E) -> (r: ViecCoVet<E>)
        ensures
            r.ngoai() == mt,
            r.vet() == Seq::<BuocViec>::empty(),
    {
        ViecCoVet { mt, vet: Ghost(Seq::empty()) }
    }

    /// Gives the outside back.
    pub fn tra_lai(self) -> (r: E)
        ensures
            r == self.ngoai(),
    {
        self.mt
    }

    fn ghi_bat_dau(&mut self, job_id: &str, so_hoa_don: &str, khach: Option<String>)
        ensures
            final(self).vet() == old(self).vet().push(BuocViec::GhiBatDau(job_id@, so_hoa_don@, chu_cua(khach))),
    {
        let ghost k = chu_cua(khach);
        self.mt.ghi_bat_dau(job_id, so_hoa_don, khach);
        self.vet = Ghost(self.vet@.push(BuocViec::GhiBatDau(job_id@, so_hoa_don@, k)));
    }

    fn kiem_truoc(&mut self) -> (r: KiemTruoc)
        ensures
            final(self).vet() == old(self).vet().push(BuocViec::Kiem(kiem_view(r))),
    {
        let r = self.mt.kiem_truoc();
        self.vet = Ghost(self.vet@.push(BuocViec::Kiem(kiem_view(r))));
        r
    }

    fn in_that(&mut self, lenh: &LenhIn, nen: Option<TapMa>, bc: &mut BaoCaoTrongLuc) -> (r: KetQuaIn)
        ensures
            final(self).vet() == old(self).vet().push(
                BuocViec::In { lenh: lenh@, nen, truoc: old(bc)@, sau: final(bc)@, kq: r@ },
            ),
    {
        let ghost truoc = bc@;
        let r = self.mt.in_that(lenh, nen, bc);
        self.vet = Ghost(self.vet@.push(BuocViec::In { lenh: lenh@, nen, truoc, sau: bc@, kq: r@ }));
        r
    }

    fn gui(&mut self, thu: ThuDi) -> (r: KetQuaGui)
        ensures
            final(self).vet() == old(self).vet().push(BuocViec::Gui(thu@, r)),
    {
        let ghost t = thu@;
        let r = self.mt.gui(thu);
        self.vet = Ghost(self.vet@.push(BuocViec::Gui(t, r)));
        r
    }

    fn ghi_ket_qua(&mut self, job_id: &str, so_hoa_don: &str, khach: Option<String>, kq: &KetQua)
        ensures
            final(self).vet() == old(self).vet().push(
                BuocViec::GhiKetQua(job_id@, so_hoa_don@, chu_cua(khach), kq@),
            ),
    {
        let ghost k = chu_cua(khach);
        self.mt.ghi_ket_qua(job_id, so_hoa_don, khach, kq);
        self.vet = Ghost(self.vet@.push(BuocViec::GhiKetQua(job_id@, so_hoa_don@, k, kq@)));
    }

    fn bay_gio_ms(&mut self) -> (r: u64)
        ensures
            final(self).vet() == old(self).vet().push(BuocViec::BayGio(r)),
    {
        let r = self.mt.bay_gio_ms();
        self.vet = Ghost(self.vet@.push(BuocViec::BayGio(r)));
        r
    }
}

/// Nothing seen yet of a job.
pub open spec fn bao_cao_dau(b: BaoCaoV, job_id: Seq<char>, so_hoa_don: Seq<char>, may_in: Seq<char>) -> bool {
    &&& b.job_id == job_id && b.so_hoa_don == so_hoa_don && b.may_in == may_in
    &&& b.may_in_da_chuyen is None && !b.da_thay_su_co
    &&& b.con_trong_hang_doi is None && b.trong_may_in_usb is None
    &&& forall|m: MaSuCo| !b.bo_loc.da_bao(m)
}

/// The exchanges by which an order is printed, if it is, and the report without where the job is. `b0` is
/// what was seen of the job before, `bc` what was by then.
pub open spec fn in_mot_viec_dung(
    cb: Result<LenhInV, KetQuaV>,
    b0: BaoCaoV,
    l: Seq<BuocViec>,
    bc: BaoCaoV,
    kq: KetQuaV,
) -> bool {
    match cb {
        Err(k) => l.len() == 0 && kq == k && bc == b0,
        Ok(lenh) => l.len() >= 1 && match l[0] {
            BuocViec::Kiem(Err(tu_choi)) => l.len() == 1 && kq == KetQuaV::loi(lenh.job_id, tu_choi.0) && bc == b0,
            BuocViec::Kiem(Ok(nen)) => l.len() == 2 && match l[1] {
                BuocViec::In { lenh: ln, nen: n, truoc, sau, kq: k } => {
                    &&& ln == lenh
                    &&& n == nen
                    &&& truoc == b0
                    &&& sau == bc
                    &&& kq == KetQuaV::cua(lenh.job_id, k)
                },
                _ => false,
            },
            _ => false,
        },
    }
}

/// The exchanges of one order: it is shown, printed if the check allows it, reported once, and shown with
/// its outcome. The report is exchange `m`; `kq` is the report without where the job is.
pub open spec fn mot_viec_dung(
    payload: Gt,
    doc: Result<JobEnvelope, String>,
    cfg: CauHinh,
    b0: BaoCaoV,
    l: Seq<BuocViec>,
    m: int,
    bc: BaoCaoV,
    kq: KetQuaV,
) -> bool {
    let id = job::id_tho(payload);
    let nhan = job::nhan_cua(id, job::ten_tho(payload));
    let xong = kem_vi_tri(kq, bc.con_trong_hang_doi is Some);
    &&& 1 <= m
    &&& l.len() == m + 2
    &&& l[0] == BuocViec::GhiBatDau(id, nhan.0, nhan.1)
    &&& in_mot_viec_dung(chuan_bi(payload, doc, cfg), b0, l.subrange(1, m), bc, kq)
    &&& l[m] matches BuocViec::Gui(thu, r) && thu == thu_ket_qua(xong)
    &&& l[m + 1] == BuocViec::GhiKetQua(id, nhan.0, nhan.1, xong)
}

/// The exchanges of a whole order, from nothing seen of the job to the time at which it is handed on.
pub open spec fn viec_dung(
    payload: Gt,
    doc: Result<JobEnvelope, String>,
    cfg: CauHinh,
    l: Seq<BuocViec>,
    m: int,
    bc: BaoCaoV,
    kq: KetQuaV,
    luc_ms: u64,
) -> bool {
    let id = job::id_tho(payload);
    &&& l.len() == m + 3
    &&& l[m + 2] == BuocViec::BayGio(luc_ms)
    &&& exists|b0: BaoCaoV|
        bao_cao_dau(b0, id, job::nhan_cua(id, job::ten_tho(payload)).0, cfg.printer_name) && #[trigger] mot_viec_dung(
            payload,
            doc,
            cfg,
            b0,
            l.subrange(0, m + 2),
            m,
            bc,
            kq,
        )
}

/// Handles one order from the server's message to the report. `doc` is the message read as a job, or why
/// it could not be; what is seen while it prints goes to `bc`. An open outcome tells whether the job is
/// still on its way.
pub fn xu_ly_mot_viec<E: MoiTruongViec>(
    mt: &mut ViecCoVet<E>,
    payload: &GiaTri,
    doc: Result<JobEnvelope, String>,
    cfg: &Config,
    bc: &mut BaoCaoTrongLuc,
) -> (r: (KetQua, KetQuaGui))
    ensures
        final(mt).vet().len() >= old(mt).vet().len() + 2,
        final(mt).vet().subrange(0, old(mt).vet().len() as int) == old(mt).vet(),
        exists|m: int, kq: KetQuaV| #[trigger]
            mot_viec_dung(
                payload@,
                doc,
                cfg@,
                old(bc)@,
                final(mt).vet().subrange(old(mt).vet().len() as int, final(mt).vet().len() as int),
                m,
                final(bc)@,
                kq,
            ) && r.0@ == kem_vi_tri(kq, final(bc)@.con_trong_hang_doi is Some),
        final(mt).vet()[final(mt).vet().len() - 2] == BuocViec::Gui(thu_ket_qua(r.0@), r.1),
{
    let ghost dau = mt.vet();
    let ghost b0 = bc@;
    let job_id = job::job_id_tho(payload);
    let (so_hoa_don, khach) = job::nhan_hien_thi(job_id.as_str(), job::name_tho(payload));
    let khach_sau = match &khach {
        Some(s) => Some(s.clone()),
        None => None,
    };
    let ghost id = job::id_tho(payload@);
    let ghost nhan = job::nhan_cua(id, job::ten_tho(payload@));
    mt.ghi_bat_dau(job_id.as_str(), so_hoa_don.as_str(), khach);
    let ghost g1 = mt.vet();
    let ghost cb = chuan_bi(payload@, doc, cfg@);
    let mut kq = match chuan_bi_job(payload, doc, cfg) {
        Err(k) => k,
        Ok(lenh) => match mt.kiem_truoc() {
            KiemTruoc::TuChoi { ly_do, su_kien: _ } => ket_qua_cua(lenh.job_id.clone(), KetQuaIn::Loi(ly_do)),
            KiemTruoc::In { nen } => {
                let k = mt.in_that(&lenh, nen, bc);
                ket_qua_cua(lenh.job_id.clone(), k)
            },
        },
    };
    let ghost kv = kq@;
    let ghost bv = bc@;
    let ghost g2 = mt.vet();
    let ghost l1 = g2.subrange(g1.len() as int, g2.len() as int);
    proof {
        assert(g2 =~= g1 + l1);
        assert(in_mot_viec_dung(cb, b0, l1, bv, kv));
    }
    if crate::chu::bang(kq.trang_thai.as_str(), KHONG_RO) {
        kq.con_trong_hang_doi = Some(kq.ban_da_in.is_none() && bc.con_trong_hang_doi.is_some());
    }
    assert(kq@ == kem_vi_tri(kv, bv.con_trong_hang_doi is Some));
    let thu = ThuDi { su_kien: "ket-qua", gia_tri: kq.gia_tri(), can: CanHoTro::cua_ket_qua(&kq) };
    let kqg = mt.gui(thu);
    mt.ghi_ket_qua(job_id.as_str(), so_hoa_don.as_str(), khach_sau, &kq);
    proof {
        let v = mt.vet();
        let l = v.subrange(dau.len() as int, v.len() as int);
        let m = 1 + l1.len() as int;
        assert(v.subrange(0, dau.len() as int) =~= dau);
        assert(l.subrange(1, m) =~= l1);
        assert(l[0] == BuocViec::GhiBatDau(id, nhan.0, nhan.1));
        assert(mot_viec_dung(payload@, doc, cfg@, b0, l, m, bv, kv));
    }
    (kq, kqg)
}

/// Handles one order, and says what follows it: the job is watched further exactly where the server was
/// told that it is still on its way.
pub fn xu_ly_viec_co_bao_cao<E: MoiTruongViec>(
    mt: &mut ViecCoVet<E>,
    payload: &GiaTri,
    doc: Result<JobEnvelope, String>,
    cfg: &Config,
) -> (r: (KetThucViec, KetQua, KetQuaGui))
    ensures
        final(mt).vet().len() >= old(mt).vet().len() + 3,
        final(mt).vet().subrange(0, old(mt).vet().len() as int) == old(mt).vet(),
        exists|m: int, bc: BaoCaoV, kq: KetQuaV, luc_ms: u64| #[trigger]
            viec_dung(
                payload@,
                doc,
                cfg@,
                final(mt).vet().subrange(old(mt).vet().len() as int, final(mt).vet().len() as int),
                m,
                bc,
                kq,
                luc_ms,
            ) && r.0.da_thay_su_co == bc.da_thay_su_co && r.1@ == kem_vi_tri(kq, bc.con_trong_hang_doi is Some)
                && crate::day::xem_co(r.0.theo_doi_tiep) == tiep_cua(
                job::id_tho(payload@),
                job::nhan_cua(job::id_tho(payload@), job::ten_tho(payload@)).0,
                cfg@.printer_name,
                r.1@,
                bc,
                luc_ms,
            ),
        final(mt).vet()[final(mt).vet().len() - 3] == BuocViec::Gui(thu_ket_qua(r.1@), r.2),
{
    let ghost dau = mt.vet();
    let job_id = job::job_id_tho(payload);
    let (so_hoa_don, _) = job::nhan_hien_thi(job_id.as_str(), job::name_tho(payload));
    let mut bc = BaoCaoTrongLuc::moi(job_id.as_str(), so_hoa_don.as_str(), cfg.printer_name.as_str());
    let ghost b0 = bc@;
    let (kq, kqg) = xu_ly_mot_viec(mt, payload, doc, cfg, &mut bc);
    let ghost g = mt.vet();
    let ghost l1 = g.subrange(dau.len() as int, g.len() as int);
    let luc_ms = mt.bay_gio_ms();
    let con_trong = match kq.con_trong_hang_doi {
        Some(b) => b,
        None => false,
    };
    let theo_doi_tiep = if crate::chu::bang(kq.trang_thai.as_str(), KHONG_RO) && con_trong {
        match bc.con_trong_hang_doi {
            Some(b) => {
                let j = JobTheoDoiTiep::moi(job_id, so_hoa_don, kq.loai, b, luc_ms).tren_may_in(
                    cfg.printer_name.as_str(),
                );
                Some(
                    match bc.trong_may_in_usb {
                        Some((da_thay_loi, da_thay_in)) => j.qua_usb(da_thay_loi, da_thay_in),
                        None => j,
                    },
                )
            },
            None => None,
        }
    } else {
        None
    };
    proof {
        let v = mt.vet();
        let l = v.subrange(dau.len() as int, v.len() as int);
        let (m, kv) = choose|m: int, kv: KetQuaV| #[trigger]
            mot_viec_dung(payload@, doc, cfg@, b0, l1, m, bc@, kv) && kq@ == kem_vi_tri(
                kv,
                bc@.con_trong_hang_doi is Some,
            );
        assert(v.subrange(0, dau.len() as int) =~= g.subrange(0, dau.len() as int));
        assert(l.subrange(0, m + 2) =~= l1);
        assert(viec_dung(payload@, doc, cfg@, l, m, bc@, kv, luc_ms));
    }
    (KetThucViec { da_thay_su_co: bc.da_thay_su_co, theo_doi_tiep }, kq, kqg)
}

/// The exchange is a report to the server.
pub open spec fn la_gui(b: BuocViec) -> bool {
    b is Gui
}

/// The printer is ordered to print.
pub open spec fn la_in(b: BuocViec) -> bool {
    b is In
}

/// However an order goes, the server gets exactly one report of it, and nothing is printed after that.
pub proof fn dung_mot_bao_cao(
    payload: Gt,
    doc: Result<JobEnvelope, String>,
    cfg: CauHinh,
    l: Seq<BuocViec>,
    m: int,
    bc: BaoCaoV,
    kq: KetQuaV,
    luc_ms: u64,
)
    requires
        viec_dung(payload, doc, cfg, l, m, bc, kq, luc_ms),
    ensures
        la_gui(l[m]),
        forall|i: int| 0 <= i < l.len() && i != m ==> !la_gui(#[trigger] l[i]),
        forall|i: int| m <= i < l.len() ==> !la_in(#[trigger] l[i]),
{
    let a = l.subrange(0, m + 2);
    let d = a.subrange(1, m);
    assert(a[m] == l[m] && a[m + 1] == l[m + 1] && a[0] == l[0]);
    assert forall|i: int| 0 <= i < l.len() && i != m implies !la_gui(#[trigger] l[i]) by {
        if 1 <= i < m {
            assert(d[i - 1] == l[i]);
        }
    }
}

/// Nothing is printed unless the check right before allowed it, and it is printed once at most.
pub proof fn chi_in_khi_duoc_phep(
    payload: Gt,
    doc: Result<JobEnvelope, String>,
    cfg: CauHinh,
    l: Seq<BuocViec>,
    m: int,
    bc: BaoCaoV,
    kq: KetQuaV,
    luc_ms: u64,
    i: int,
)
    requires
        viec_dung(payload, doc, cfg, l, m, bc, kq, luc_ms),
        0 <= i < l.len(),
        la_in(l[i]),
    ensures
        i == 2,
        l[1] matches BuocViec::Kiem(k) && k is Ok,
{
    let a = l.subrange(0, m + 2);
    let d = a.subrange(1, m);
    assert(a[m] == l[m] && a[m + 1] == l[m + 1] && a[0] == l[0]);
    if 1 <= i < m {
        assert(d[i - 1] == l[i]);
        assert(d[0] == l[1]);
    }
}

/// The server is told "printed" only where the order was printed and printing said so, and "did not print"
/// only where nothing went to the printer or printing said so.
pub proof fn bao_dung_dieu_da_thay(
    payload: Gt,
    doc: Result<JobEnvelope, String>,
    cfg: CauHinh,
    l: Seq<BuocViec>,
    m: int,
    bc: BaoCaoV,
    kq: KetQuaV,
    luc_ms: u64,
)
    requires
        viec_dung(payload, doc, cfg, l, m, bc, kq, luc_ms),
    ensures
        kq.trang_thai == DA_IN@ ==> l[2] is In && l[2]->In_kq is DaIn,
        kq.trang_thai == LOI@ ==> (l[2] is In && l[2]->In_kq is Loi) || forall|i: int| 0 <= i < l.len() ==> !la_in(#[trigger] l[i]),
{
    job::trang_thai_khac_nhau();
    let a = l.subrange(0, m + 2);
    let d = a.subrange(1, m);
    assert(a[m] == l[m] && a[m + 1] == l[m + 1] && a[0] == l[0]);
    assert forall|i: int| 0 <= i < l.len() && la_in(#[trigger] l[i]) implies i == 2 && m == 3 by {
        chi_in_khi_duoc_phep(payload, doc, cfg, l, m, bc, kq, luc_ms, i);
        if i < m {
            assert(d[i - 1] == l[i]);
        }
    }
    if m == 3 {
        assert(d[1] == l[2]);
        assert(d[0] == l[1]);
    }
}

} // verus!
