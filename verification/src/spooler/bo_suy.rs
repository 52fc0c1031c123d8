//! From what the readings show to what became of the job.
use crate::job::{KetQuaIn, KetQuaInV, LyDo, LyDoV};
use crate::spooler::kieu::{
    BangChungJob, CHU_BI_HUY, CO_BI_HUY, CO_DANG_IN, JobHangDoi, SO_LAN_VANG_LA_XONG, TrangThaiJob,
};
use crate::su_co::{self, bao, co, tinh_chinh, Bang, MaSuCo, TapMa};
use vstd::prelude::*;
use vstd::string::*;

verus! {

/// What the readings amount to.
#[derive(Debug)]
pub enum KetLuan {
    /// Printed: seen as such, or by having left the queue (`qua_vang`).
    DaIn { qua_vang: bool },
    KhongRo(LyDo),
    /// Trouble while the job is clean: it may be taken out of the queue, if that proves safe.
    UngVienXoa(LyDo),
}

pub ghost enum KetLuanV {
    DaIn { qua_vang: bool },
    KhongRo(LyDoV),
    UngVienXoa(LyDoV),
}

impl View for KetLuan {
    type V = KetLuanV;

    open spec fn view(&self) -> KetLuanV {
        match self {
            KetLuan::DaIn { qua_vang } => KetLuanV::DaIn { qua_vang: *qua_vang },
            KetLuan::KhongRo(l) => KetLuanV::KhongRo(l@),
            KetLuan::UngVienXoa(l) => KetLuanV::UngVienXoa(l@),
        }
    }
}

/// The view of a conclusion that may still be open.
pub open spec fn kl_view(o: Option<KetLuan>) -> Option<KetLuanV> {
    match o {
        Some(k) => Some(k@),
        None => None,
    }
}

/// What has been seen of a job so far.
#[derive(Debug, Clone, Copy, PartialEq, Eq, Structural)]
pub struct BoSuy {
    pub da_thay_in: bool,
    pub da_thay_huy: bool,
    /// Readings in a row without the job.
    pub vang_lien_tiep: usize,
    /// The trouble for which the job might be taken out, as of the latest reading.
    pub ung_vien_xoa: Option<MaSuCo>,
    /// That trouble is the printer's, not the job's own.
    pub ung_vien_cap_may: bool,
    pub da_thay_job: bool,
    pub con_thay_cuoi: bool,
    /// The printer's troubles from before the job.
    pub nen: TapMa,
    /// A clean job waits while the printer reports only troubles from before the job: it is never
    /// taken out for that.
    pub nen_chan: Option<MaSuCo>,
}

pub open spec fn chu_loi_sau_khi_in(ma: MaSuCo) -> Seq<char> {
    "loi sau khi da bat dau in: "@ + ma.nhan_cua()
}

pub open spec fn chu_job_bao_loi(ma: MaSuCo) -> Seq<char> {
    "job bao loi "@ + ma.nhan_cua()
        + " (co the da gui mot phan du lieu toi may in) — khong xoa, job nam lai hang doi va tu in khi het loi"@
}

pub open spec fn chu_loi_truoc_khi_in(ma: MaSuCo) -> Seq<char> {
    "loi truoc khi in: "@ + ma.nhan_cua()
}

pub open spec fn chu_nen_chan(ma: MaSuCo) -> Seq<char> {
    "job van nam trong hang doi Windows, chua bat dau in — may in bao "@ + ma.nhan_cua()
        + " tu truoc khi in (khong xoa: job tu in khi may het loi)"@
}

fn noi_nhan(dau: &str, ma: MaSuCo, cuoi: &str) -> (r: String)
    ensures
        r@ == dau@ + ma.nhan_cua() + cuoi@,
{
    let mut s = dau.to_owned();
    s.append(ma.nhan());
    s.append(cuoi);
    s
}

fn noi_nhan_dau(dau: &str, ma: MaSuCo) -> (r: String)
    ensures
        r@ == dau@ + ma.nhan_cua(),
{
    let mut s = dau.to_owned();
    s.append(ma.nhan());
    s
}

pub open spec fn cong_mot(n: usize) -> usize {
    if n < usize::MAX {
        (n + 1) as usize
    } else {
        n
    }
}

impl BoSuy {
    /// Nothing seen yet.
    pub open spec fn dau(nen: TapMa) -> BoSuy {
        BoSuy {
            da_thay_in: false,
            da_thay_huy: false,
            vang_lien_tiep: 0,
            ung_vien_xoa: None,
            ung_vien_cap_may: false,
            da_thay_job: false,
            con_thay_cuoi: false,
            nen,
            nen_chan: None,
        }
    }

    pub fn moi(nen: TapMa) -> (r: BoSuy)
        ensures
            r == BoSuy::dau(nen),
    {
        BoSuy {
            da_thay_in: false,
            da_thay_huy: false,
            vang_lien_tiep: 0,
            ung_vien_xoa: None,
            ung_vien_cap_may: false,
            da_thay_job: false,
            con_thay_cuoi: false,
            nen,
            nen_chan: None,
        }
    }

    /// A reading of the queue did, or did not, show the job.
    pub open spec fn sau_thay(self, thay: bool) -> BoSuy {
        BoSuy { da_thay_job: self.da_thay_job || thay, con_thay_cuoi: thay, ..self }
    }

    pub fn thay_job(&mut self, thay: bool)
        ensures
            *final(self) == old(self).sau_thay(thay),
    {
        self.da_thay_job = self.da_thay_job || thay;
        self.con_thay_cuoi = thay;
    }

    /// What is known after one more observation, and what it amounts to.
    /// - Printed, whenever it is seen, settles it.
    /// - An error on the job leaves it open at once; such a job is never deleted.
    /// - Trouble of the printer, or a job held back, makes a clean job a candidate for deletion, and
    ///   leaves a started one open.
    /// - A started job that is absent often enough in a row has printed, unless it was withdrawn.
    pub open spec fn sau(self, ts: TrangThaiJob) -> (BoSuy, Option<KetLuanV>) {
        match ts {
            TrangThaiJob::DaInXong => (self, Some(KetLuanV::DaIn { qua_vang: false })),
            TrangThaiJob::DangIn => (
                BoSuy { da_thay_in: true, vang_lien_tiep: 0, ung_vien_xoa: None, ..self },
                None,
            ),
            TrangThaiJob::BiHuy => (
                BoSuy { da_thay_huy: true, vang_lien_tiep: 0, ung_vien_xoa: None, ..self },
                None,
            ),
            TrangThaiJob::LoiJob(ma) => (
                self,
                Some(
                    KetLuanV::KhongRo(
                        LyDoV::co_loai(
                            if self.da_thay_in {
                                chu_loi_sau_khi_in(ma)
                            } else {
                                chu_job_bao_loi(ma)
                            },
                            ma,
                        ),
                    ),
                ),
            ),
            TrangThaiJob::KetHangDoi(ma) => self.sau_ung_vien(ma, false),
            TrangThaiJob::MayInLoi(ma) => self.sau_ung_vien(ma, true),
            TrangThaiJob::KhongThay => {
                let s = BoSuy { ung_vien_xoa: None, vang_lien_tiep: cong_mot(self.vang_lien_tiep), ..self };
                if s.vang_lien_tiep >= SO_LAN_VANG_LA_XONG && s.da_thay_huy {
                    (s, Some(KetLuanV::KhongRo(LyDoV::co_loai(CHU_BI_HUY@, MaSuCo::KhongXacNhan))))
                } else if s.vang_lien_tiep >= SO_LAN_VANG_LA_XONG && s.da_thay_in {
                    (s, Some(KetLuanV::DaIn { qua_vang: true }))
                } else {
                    (s, None)
                }
            },
            TrangThaiJob::DangCho => (BoSuy { vang_lien_tiep: 0, ung_vien_xoa: None, ..self }, None),
            TrangThaiJob::LoiTruyVan => (BoSuy { vang_lien_tiep: 0, ..self }, None),
        }
    }

    pub open spec fn sau_ung_vien(self, ma: MaSuCo, cap_may: bool) -> (BoSuy, Option<KetLuanV>) {
        if self.da_thay_in || self.da_thay_huy {
            (self, Some(KetLuanV::KhongRo(LyDoV::co_loai(chu_loi_sau_khi_in(ma), ma))))
        } else {
            (BoSuy { vang_lien_tiep: 0, ung_vien_xoa: Some(ma), ung_vien_cap_may: cap_may, ..self }, None)
        }
    }

    pub fn them(&mut self, ts: TrangThaiJob) -> (r: Option<KetLuan>)
        ensures
            (*final(self), kl_view(r)) == old(self).sau(ts),
    {
        match ts {
            TrangThaiJob::DaInXong => {
                return Some(KetLuan::DaIn { qua_vang: false });
            },
            TrangThaiJob::DangIn => {
                self.da_thay_in = true;
                self.vang_lien_tiep = 0;
                self.ung_vien_xoa = None;
            },
            TrangThaiJob::BiHuy => {
                self.da_thay_huy = true;
                self.vang_lien_tiep = 0;
                self.ung_vien_xoa = None;
            },
            TrangThaiJob::LoiJob(ma) => {
                let chu = if self.da_thay_in {
                    noi_nhan_dau("loi sau khi da bat dau in: ", ma)
                } else {
                    noi_nhan(
                        "job bao loi ",
                        ma,
                        " (co the da gui mot phan du lieu toi may in) — khong xoa, job nam lai hang doi va tu in khi het loi",
                    )
                };
                return Some(KetLuan::KhongRo(LyDo::co_loai(chu.as_str(), ma)));
            },
            TrangThaiJob::KetHangDoi(ma) => {
                return self.them_ung_vien(ma, false);
            },
            TrangThaiJob::MayInLoi(ma) => {
                return self.them_ung_vien(ma, true);
            },
            TrangThaiJob::KhongThay => {
                self.ung_vien_xoa = None;
                if self.vang_lien_tiep < usize::MAX {
                    self.vang_lien_tiep = self.vang_lien_tiep + 1;
                }
                if self.vang_lien_tiep >= SO_LAN_VANG_LA_XONG {
                    if self.da_thay_huy {
                        return Some(KetLuan::KhongRo(LyDo::co_loai(CHU_BI_HUY, MaSuCo::KhongXacNhan)));
                    }
                    if self.da_thay_in {
                        return Some(KetLuan::DaIn { qua_vang: true });
                    }
                }
            },
            TrangThaiJob::DangCho => {
                self.vang_lien_tiep = 0;
                self.ung_vien_xoa = None;
            },
            TrangThaiJob::LoiTruyVan => {
                self.vang_lien_tiep = 0;
            },
        }
        None
    }

    fn them_ung_vien(&mut self, ma: MaSuCo, cap_may: bool) -> (r: Option<KetLuan>)
        ensures
            (*final(self), kl_view(r)) == old(self).sau_ung_vien(ma, cap_may),
    {
        if self.da_thay_in || self.da_thay_huy {
            let chu = noi_nhan_dau("loi sau khi da bat dau in: ", ma);
            return Some(KetLuan::KhongRo(LyDo::co_loai(chu.as_str(), ma)));
        }
        self.vang_lien_tiep = 0;
        self.ung_vien_xoa = Some(ma);
        self.ung_vien_cap_may = cap_may;
        None
    }

    /// What it amounts to once the time is up.
    pub open spec fn khi_het_gio(self) -> KetLuanV {
        match self.ung_vien_xoa {
            Some(ma) => KetLuanV::UngVienXoa(LyDoV::co_loai(chu_loi_truoc_khi_in(ma), ma)),
            None => if self.nen_chan is Some && !self.da_thay_in && !self.da_thay_huy && self.da_thay_job
                && self.con_thay_cuoi {
                let ma = self.nen_chan->0;
                KetLuanV::KhongRo(LyDoV::co_loai(chu_nen_chan(ma), ma))
            } else {
                KetLuanV::KhongRo(
                    LyDoV::co_loai(
                        if self.da_thay_huy {
                            CHU_BI_HUY@
                        } else if self.da_thay_in {
                            "da bat dau in nhung khong xac nhan duoc luc in xong"@
                        } else if self.da_thay_job && self.con_thay_cuoi {
                            "job van nam trong hang doi Windows, chua bat dau in (het thoi gian theo doi)"@
                        } else if self.da_thay_job {
                            "job roi hang doi Windows ma chua thay bat dau in (co the in rat nhanh, hoac bi xoa) — khong xac nhan duoc"@
                        } else {
                            "khong thay job trong hang doi Windows (het thoi gian theo doi)"@
                        },
                        MaSuCo::KhongXacNhan,
                    ),
                )
            },
        }
    }

    pub fn het_gio(&self) -> (r: KetLuan)
        ensures
            r@ == self.khi_het_gio(),
    {
        if let Some(ma) = self.ung_vien_xoa {
            let chu = noi_nhan_dau("loi truoc khi in: ", ma);
            return KetLuan::UngVienXoa(LyDo::co_loai(chu.as_str(), ma));
        }
        if let Some(ma) = self.nen_chan {
            if !self.da_thay_in && !self.da_thay_huy && self.da_thay_job && self.con_thay_cuoi {
                let chu = noi_nhan(
                    "job van nam trong hang doi Windows, chua bat dau in — may in bao ",
                    ma,
                    " tu truoc khi in (khong xoa: job tu in khi may het loi)",
                );
                return KetLuan::KhongRo(LyDo::co_loai(chu.as_str(), ma));
            }
        }
        let chu = if self.da_thay_huy {
            CHU_BI_HUY
        } else if self.da_thay_in {
            "da bat dau in nhung khong xac nhan duoc luc in xong"
        } else if self.da_thay_job && self.con_thay_cuoi {
            "job van nam trong hang doi Windows, chua bat dau in (het thoi gian theo doi)"
        } else if self.da_thay_job {
            "job roi hang doi Windows ma chua thay bat dau in (co the in rat nhanh, hoac bi xoa) — khong xac nhan duoc"
        } else {
            "khong thay job trong hang doi Windows (het thoi gian theo doi)"
        };
        KetLuan::KhongRo(LyDo::co_loai(chu, MaSuCo::KhongXacNhan))
    }

    pub open spec fn bang_chung_cua(self) -> BangChungJob {
        BangChungJob { da_thay_in: self.da_thay_in, da_thay_huy: self.da_thay_huy, nen: self.nen }
    }

    pub fn bang_chung(&self) -> (r: BangChungJob)
        ensures
            r == self.bang_chung_cua(),
    {
        BangChungJob { da_thay_in: self.da_thay_in, da_thay_huy: self.da_thay_huy, nen: self.nen }
    }

    /// What is known after a run of observations, up to the first that settles it.
    pub open spec fn sau_chuoi(self, ts: Seq<TrangThaiJob>) -> (BoSuy, Option<KetLuanV>)
        decreases ts.len(),
    {
        if ts.len() == 0 {
            (self, None)
        } else {
            let (s, k) = self.sau(ts[0]);
            if k is Some {
                (s, k)
            } else {
                s.sau_chuoi(ts.subrange(1, ts.len() as int))
            }
        }
    }

    /// Adds a run of observations, up to the first that settles it.
    pub fn them_chuoi(&mut self, ts: &Vec<TrangThaiJob>) -> (r: Option<KetLuan>)
        ensures
            (*final(self), kl_view(r)) == old(self).sau_chuoi(ts@),
    {
        let ghost dau = *self;
        let mut i: usize = 0;
        assert(ts@.subrange(0, ts@.len() as int) =~= ts@);
        while i < ts.len()
            invariant
                i <= ts@.len(),
                dau == *old(self),
                dau.sau_chuoi(ts@) == self.sau_chuoi(ts@.subrange(i as int, ts@.len() as int)),
            decreases ts@.len() - i,
        {
            let ghost con = ts@.subrange(i as int, ts@.len() as int);
            assert(con.subrange(1, con.len() as int) =~= ts@.subrange(i + 1, ts@.len() as int));
            let k = self.them(ts[i]);
            if k.is_some() {
                return k;
            }
            i = i + 1;
        }
        None
    }
}

/// The outcome that a whole run of observations would have: a candidate for deletion reads as
/// "did not print", before the deletion itself is tried.
pub open spec fn ket_qua_chuoi(ts: Seq<TrangThaiJob>, nen: TapMa) -> KetQuaInV {
    let (s, k) = BoSuy::dau(nen).sau_chuoi(ts);
    match (match k {
        Some(x) => x,
        None => s.khi_het_gio(),
    }) {
        KetLuanV::DaIn { qua_vang } => KetQuaInV::DaIn,
        KetLuanV::KhongRo(l) => KetQuaInV::KhongRo(l),
        KetLuanV::UngVienXoa(l) => KetQuaInV::Loi(l),
    }
}

pub fn suy_ket_qua(quan_sat: &Vec<TrangThaiJob>) -> (r: KetQuaIn)
    ensures
        r@ == ket_qua_chuoi(quan_sat@, TapMa::trong()),
{
    let nen = TapMa::rong();
    let mut bo = BoSuy::moi(nen);
    let k = match bo.them_chuoi(quan_sat) {
        Some(k) => k,
        None => bo.het_gio(),
    };
    match k {
        KetLuan::DaIn { qua_vang: _ } => KetQuaIn::DaIn,
        KetLuan::KhongRo(l) => KetQuaIn::KhongRo(l),
        KetLuan::UngVienXoa(l) => KetQuaIn::Loi(l),
    }
}

/// What a job's flags, its pages and its driver's words show. A job that prints and reports an
/// error at once shows both, in that order.
pub open spec fn quan_sat_cua(status: u32, trang_da_in: u32, chu_driver: Seq<char>) -> Seq<TrangThaiJob> {
    if status & co::JOB_STATUS_PRINTED != 0 {
        seq![TrangThaiJob::DaInXong]
    } else {
        let a = if status & CO_DANG_IN != 0 || trang_da_in > 0 {
            seq![TrangThaiJob::DangIn]
        } else {
            Seq::empty()
        };
        let b = if status & CO_BI_HUY != 0 {
            seq![TrangThaiJob::BiHuy]
        } else {
            Seq::empty()
        };
        let c = match su_co::ma_uu_tien(status & !co::JOB_STATUS_BLOCKED_DEVQ, Bang::Job) {
            Some(ma) => seq![TrangThaiJob::LoiJob(tinh_chinh(ma, chu_driver))],
            None => if status & co::JOB_STATUS_BLOCKED_DEVQ != 0 {
                seq![TrangThaiJob::KetHangDoi(tinh_chinh(MaSuCo::LoiMayIn, chu_driver))]
            } else {
                Seq::empty()
            },
        };
        let tat_ca = a + b + c;
        if tat_ca.len() == 0 {
            seq![TrangThaiJob::DangCho]
        } else {
            tat_ca
        }
    }
}

pub fn quan_sat_theo(status: u32, trang_da_in: u32, chu_driver: &str) -> (r: Vec<TrangThaiJob>)
    ensures
        r@ == quan_sat_cua(status, trang_da_in, chu_driver@),
{
    let mut v: Vec<TrangThaiJob> = Vec::new();
    if status & co::JOB_STATUS_PRINTED != 0 {
        v.push(TrangThaiJob::DaInXong);
        assert(v@ =~= quan_sat_cua(status, trang_da_in, chu_driver@));
        return v;
    }
    if status & CO_DANG_IN != 0 || trang_da_in > 0 {
        v.push(TrangThaiJob::DangIn);
    }
    if status & CO_BI_HUY != 0 {
        v.push(TrangThaiJob::BiHuy);
    }
    match su_co::ma_tu_co_job(status & !co::JOB_STATUS_BLOCKED_DEVQ) {
        Some(ma) => {
            v.push(TrangThaiJob::LoiJob(su_co::tinh_chinh_theo_chu(ma, chu_driver)));
        },
        None => {
            if status & co::JOB_STATUS_BLOCKED_DEVQ != 0 {
                v.push(TrangThaiJob::KetHangDoi(su_co::tinh_chinh_theo_chu(MaSuCo::LoiMayIn, chu_driver)));
            }
        },
    }
    if v.len() == 0 {
        v.push(TrangThaiJob::DangCho);
    }
    assert(v@ =~= quan_sat_cua(status, trang_da_in, chu_driver@));
    v
}

/// What a job's flags alone show.
pub fn quan_sat_job(status: u32) -> (r: Vec<TrangThaiJob>)
    ensures
        r@ == quan_sat_cua(status, 0, Seq::empty()),
{
    proof {
        reveal_strlit("");
        assert(""@ =~= Seq::<char>::empty());
    }
    quan_sat_theo(status, 0, "")
}

/// The trouble a job reports.
pub open spec fn su_co_job(j: JobHangDoi) -> Option<MaSuCo> {
    match su_co::ma_uu_tien(j.status, Bang::Job) {
        Some(ma) => Some(tinh_chinh(ma, j.mo_ta_driver@)),
        None => None,
    }
}

pub fn ma_su_co_job(j: &JobHangDoi) -> (r: Option<MaSuCo>)
    ensures
        r == su_co_job(*j),
{
    match su_co::ma_tu_co_job(j.status) {
        Some(ma) => Some(su_co::tinh_chinh_theo_chu(ma, j.mo_ta_driver.as_str())),
        None => None,
    }
}

/// An outcome left open for want of confirmation takes over the trouble seen meanwhile.
pub open spec fn bo_sung(kq: KetQuaInV, su_co_da_thay: Option<MaSuCo>) -> KetQuaInV {
    match kq {
        KetQuaInV::KhongRo(l) => if su_co_da_thay is Some && l.loai == Some(MaSuCo::KhongXacNhan) {
            KetQuaInV::KhongRo(LyDoV { loai: su_co_da_thay, ..l })
        } else {
            kq
        },
        _ => kq,
    }
}

pub fn bo_sung_loai(kq: KetQuaIn, su_co_da_thay: Option<MaSuCo>) -> (r: KetQuaIn)
    ensures
        r@ == bo_sung(kq@, su_co_da_thay),
{
    match kq {
        KetQuaIn::KhongRo(l) => {
            let chua = match l.loai {
                Some(m) => m == MaSuCo::KhongXacNhan,
                None => false,
            };
            if su_co_da_thay.is_some() && chua {
                KetQuaIn::KhongRo(LyDo { chu: l.chu, loai: su_co_da_thay, ban_da_in: l.ban_da_in })
            } else {
                KetQuaIn::KhongRo(l)
            }
        },
        k => k,
    }
}

/// One reading of the printer (status and attributes) as a code with its detail.
pub fn tinh_trang_tu_co(status: u32, thuoc_tinh: u32) -> (r: (MaSuCo, Option<String>))
    ensures
        r.0 == su_co::ma_tinh_trang(status, thuoc_tinh),
        crate::gia_tri::chu_cua(r.1) == su_co::chi_tiet_tinh_trang(status, thuoc_tinh),
{
    su_co::tinh_trang_may_in(status, thuoc_tinh)
}

/// The observations end with the job absent from so many readings in a row.
pub open spec fn vang_cuoi(ts: Seq<TrangThaiJob>, n: int) -> bool {
    n <= ts.len() && forall|i: int| ts.len() - n <= i < ts.len() ==> ts[i] == TrangThaiJob::KhongThay
}

/// "Printed" is only ever concluded from the flag itself, or from a job that was seen printing, never
/// withdrawn, and then absent from two successful readings in a row.
pub proof fn da_in_phai_co_bang_chung(ts: Seq<TrangThaiJob>, nen: TapMa)
    requires
        ket_qua_chuoi(ts, nen) is DaIn,
    ensures
        ts.contains(TrangThaiJob::DaInXong) || (ts.contains(TrangThaiJob::DangIn) && exists|i: int|
            0 <= i && i + 1 < ts.len() && ts[i] == TrangThaiJob::KhongThay && #[trigger] ts[i + 1]
                == TrangThaiJob::KhongThay && !ts.subrange(0, i + 1).contains(TrangThaiJob::BiHuy)),
{
    let s0 = BoSuy::dau(nen);
    assert(Seq::<TrangThaiJob>::empty() + ts =~= ts);
    chuoi_co_bang_chung(Seq::empty(), ts, s0);
}

/// The state after `truoc` mirrors what `truoc` holds.
spec fn khop_lich_su(truoc: Seq<TrangThaiJob>, s: BoSuy) -> bool {
    &&& s.da_thay_in ==> truoc.contains(TrangThaiJob::DangIn)
    &&& truoc.contains(TrangThaiJob::BiHuy) ==> s.da_thay_huy
    &&& s.vang_lien_tiep <= truoc.len()
    &&& vang_cuoi(truoc, s.vang_lien_tiep as int)
}

proof fn chuoi_co_bang_chung(truoc: Seq<TrangThaiJob>, sau: Seq<TrangThaiJob>, s: BoSuy)
    requires
        khop_lich_su(truoc, s),
        ({
            let (s2, k) = s.sau_chuoi(sau);
            (match k {
                Some(x) => x,
                None => s2.khi_het_gio(),
            }) is DaIn
        }),
    ensures
        ({
            let ts = truoc + sau;
            ts.contains(TrangThaiJob::DaInXong) || (ts.contains(TrangThaiJob::DangIn) && exists|i: int|
                0 <= i && i + 1 < ts.len() && ts[i] == TrangThaiJob::KhongThay && #[trigger] ts[i + 1]
                    == TrangThaiJob::KhongThay && !ts.subrange(0, i + 1).contains(TrangThaiJob::BiHuy))
        }),
    decreases sau.len(),
{
    let ts = truoc + sau;
    if sau.len() > 0 {
        let (s1, k) = s.sau(sau[0]);
        let n = truoc.len() as int;
        assert(ts[n] == sau[0]);
        let truoc1 = truoc.push(sau[0]);
        let sau1 = sau.subrange(1, sau.len() as int);
        assert(truoc1 + sau1 =~= ts);
        if k is Some {
            if sau[0] == TrangThaiJob::DaInXong {
                assert(ts.contains(TrangThaiJob::DaInXong));
            } else {
                assert(sau[0] == TrangThaiJob::KhongThay);
                assert(s.da_thay_in && !s.da_thay_huy && s.vang_lien_tiep >= 1);
                let d = choose|d: int| 0 <= d < truoc.len() && truoc[d] == TrangThaiJob::DangIn;
                assert(ts[d] == TrangThaiJob::DangIn);
                let i = n - 1;
                assert(truoc[i] == TrangThaiJob::KhongThay);
                assert(ts[i] == TrangThaiJob::KhongThay && ts[i + 1] == TrangThaiJob::KhongThay);
                assert(ts.subrange(0, i + 1) =~= truoc);
            }
        } else {
            assert(khop_lich_su(truoc1, s1)) by {
                if s.da_thay_in {
                    let d = choose|d: int| 0 <= d < truoc.len() && truoc[d] == TrangThaiJob::DangIn;
                    assert(truoc1[d] == TrangThaiJob::DangIn);
                }
                assert(truoc1[n] == sau[0]);
                if truoc1.contains(TrangThaiJob::BiHuy) && sau[0] != TrangThaiJob::BiHuy {
                    let d = choose|d: int| 0 <= d < truoc1.len() && truoc1[d] == TrangThaiJob::BiHuy;
                    assert(truoc[d] == TrangThaiJob::BiHuy);
                }
                assert forall|i: int| truoc1.len() - s1.vang_lien_tiep <= i < truoc1.len() implies truoc1[i]
                    == TrangThaiJob::KhongThay by {
                    if i < n {
                        assert(truoc1[i] == truoc[i]);
                    }
                }
            }
            chuoi_co_bang_chung(truoc1, sau1, s1);
        }
    } else {
        assert(s.khi_het_gio() is DaIn ==> false);
    }
}

/// A job that was seen printing or withdrawn never becomes a candidate for deletion again.
pub proof fn da_in_do_khong_bi_xoa(s: BoSuy, ts: Seq<TrangThaiJob>)
    requires
        s.da_thay_in || s.da_thay_huy,
        s.ung_vien_xoa is None,
    ensures
        ({
            let (s2, k) = s.sau_chuoi(ts);
            &&& s2.da_thay_in || s2.da_thay_huy
            &&& s2.ung_vien_xoa is None
            &&& !(k matches Some(KetLuanV::UngVienXoa(_)))
            &&& !(s2.khi_het_gio() is UngVienXoa)
        }),
    decreases ts.len(),
{
    if ts.len() > 0 {
        let (s1, k) = s.sau(ts[0]);
        if k is None {
            da_in_do_khong_bi_xoa(s1, ts.subrange(1, ts.len() as int));
        }
    }
}

} // verus!
