//! Jobs that are watched further after their outcome was left open.
use crate::gia_tri::chu_cua;
use crate::spooler::kieu::BangChungJob;
use crate::su_co::MaSuCo;
use vstd::prelude::*;

verus! {

/// A job that is watched further.
#[derive(Debug, Clone, PartialEq, Eq)]
pub struct JobTheoDoiTiep {
    pub job_id: String,
    pub so_hoa_don: String,
    pub loai: Option<MaSuCo>,
    pub bang_chung: BangChungJob,
    /// When it was handed over, in milliseconds.
    pub luc: u64,
    /// Its printer; empty where that is the configured one.
    pub may_in: String,
    /// It is in the memory of a USB printer: whether that reported an error, and whether it was busy.
    pub usb: Option<(bool, bool)>,
    /// The printer's trouble at the moment the job left the queue after it was seen printing.
    pub su_co_luc_roi: Option<MaSuCo>,
    /// What is told with a late confirmation.
    pub ghi_chu: Option<String>,
}

pub ghost struct TiepV {
    pub job_id: Seq<char>,
    pub so_hoa_don: Seq<char>,
    pub loai: Option<MaSuCo>,
    pub bang_chung: BangChungJob,
    pub luc: u64,
    pub may_in: Seq<char>,
    pub usb: Option<(bool, bool)>,
    pub su_co_luc_roi: Option<MaSuCo>,
    pub ghi_chu: Option<Seq<char>>,
}

impl View for JobTheoDoiTiep {
    type V = TiepV;

    open spec fn view(&self) -> TiepV {
        TiepV {
            job_id: self.job_id@,
            so_hoa_don: self.so_hoa_don@,
            loai: self.loai,
            bang_chung: self.bang_chung,
            luc: self.luc,
            may_in: self.may_in@,
            usb: self.usb,
            su_co_luc_roi: self.su_co_luc_roi,
            ghi_chu: chu_cua(self.ghi_chu),
        }
    }
}

impl TiepV {
    pub open spec fn moi(
        job_id: Seq<char>,
        so_hoa_don: Seq<char>,
        loai: Option<MaSuCo>,
        bang_chung: BangChungJob,
        luc: u64,
    ) -> TiepV {
        TiepV {
            job_id,
            so_hoa_don,
            loai,
            bang_chung,
            luc,
            may_in: Seq::empty(),
            usb: None,
            su_co_luc_roi: None,
            ghi_chu: None,
        }
    }
}

impl JobTheoDoiTiep {
    pub fn moi(job_id: String, so_hoa_don: String, loai: Option<MaSuCo>, bang_chung: BangChungJob, luc: u64) -> (r: JobTheoDoiTiep)
        ensures
            r@ == TiepV::moi(job_id@, so_hoa_don@, loai, bang_chung, luc),
    {
        JobTheoDoiTiep {
            job_id,
            so_hoa_don,
            loai,
            bang_chung,
            luc,
            may_in: String::new(),
            usb: None,
            su_co_luc_roi: None,
            ghi_chu: None,
        }
    }

    pub fn tren_may_in(self, may_in: &str) -> (r: JobTheoDoiTiep)
        ensures
            r@ == (TiepV { may_in: may_in@, ..self@ }),
    {
        let mut j = self;
        j.may_in = may_in.to_owned();
        j
    }

    pub fn qua_usb(self, da_thay_loi: bool, da_thay_in: bool) -> (r: JobTheoDoiTiep)
        ensures
            r@ == (TiepV { usb: Some((da_thay_loi, da_thay_in)), ..self@ }),
    {
        let mut j = self;
        j.usb = Some((da_thay_loi, da_thay_in));
        j
    }

    pub fn la_qua_usb(&self) -> (r: bool)
        ensures
            r == self@.usb is Some,
    {
        self.usb.is_some()
    }
}

/// What watching a job further came to.
#[derive(Debug, Clone, PartialEq, Eq)]
pub enum KetLuanTiep {
    DaIn,
    /// Gone without evidence that it printed.
    Mat(String),
    /// Watched for too long.
    HetHan,
}

} // verus!
