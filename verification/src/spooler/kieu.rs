//! What the spooler shows and what can be asked of it.
use crate::gia_tri::chu_cua;
use crate::su_co::{co, MaSuCo, TapMa};
use crate::usb_may_in::DocUsb;
use vstd::prelude::*;

verus! {

/// Pause between two readings while a job is watched, in milliseconds.
pub const POLL_INTERVAL_MS: u64 = 500;

/// How long a job is watched, in milliseconds.
pub const POLL_TIMEOUT_MS: u64 = 15_000;

/// So many readings in a row without the job, once it was seen printing, mean that it has left the
/// queue for good. A single one may be the spooler updating its list.
pub const SO_LAN_VANG_LA_XONG: usize = 2;

/// So many readings of the printer follow once a job has left the queue: a network printer takes
/// the whole job into its memory and only then runs out of paper.
pub const SO_LAN_DOC_MAY_IN_SAU_KHI_ROI: usize = 4;

/// At most so many readings of a USB printer once the job has left the queue.
pub const SO_LAN_USB_TOI_DA: usize = 60;

/// A USB printer that never says whether it is busy counts as done after so many readings in a row
/// without an error.
pub const SO_LAN_USB_KHONG_THAY_IN: usize = 12;

/// And no longer than this, in milliseconds, whatever the number of readings.
pub const THOI_GIAN_USB_TOI_DA_MS: u64 = 30_000;

/// Pause between two looks at the queue after a deletion, in milliseconds.
pub const CHU_KY_KIEM_SAU_XOA_MS: u64 = 250;

/// So many looks at the queue after a deletion.
pub const SO_LAN_KIEM_SAU_XOA: usize = 20;

/// Pause between holding a job and looking at it again, in milliseconds.
pub const CHO_SAU_TAM_DUNG_MS: u64 = 500;

/// Flags of a job that holds up the whole queue: paper out, error, offline, user intervention.
pub const CO_JOB_KET: u32 = 0x0000_0462;

/// The only flags a job may carry when it is deleted: spooling, paused, blocked by the driver.
pub const CO_CHO_PHEP_XOA: u32 = 0x0000_0209;

/// Flags of a job that holds nothing up, whatever else it carries: deleting, deleted, paused,
/// printed, complete, retained.
pub const CO_JOB_KHONG_CHAN: u32 = 0x0000_3185;

/// Flags that show a job on its way out of the printer: printing, complete, retained.
pub const CO_DANG_IN: u32 = 0x0000_3010;

/// Flags that show bytes on their way to the printer: printing, printed, complete, retained,
/// restarted.
pub const CO_DA_BAT_DAU: u32 = 0x0000_3890;

/// Flags of a job that was withdrawn or restarted: deleting, deleted, restarted.
pub const CO_BI_HUY: u32 = 0x0000_0904;

/// Flags of a job whose bytes have all gone out: printed, complete, retained.
pub const CO_GUI_XONG: u32 = 0x0000_3080;

/// The combined flags are made of the single ones they name.
pub proof fn co_gop_dung()
    ensures
        CO_JOB_KET == co::JOB_STATUS_PAPEROUT | co::JOB_STATUS_ERROR | co::JOB_STATUS_OFFLINE
            | co::JOB_STATUS_USER_INTERVENTION,
        CO_CHO_PHEP_XOA == co::JOB_STATUS_SPOOLING | co::JOB_STATUS_PAUSED | co::JOB_STATUS_BLOCKED_DEVQ,
        CO_JOB_KHONG_CHAN == co::JOB_STATUS_DELETING | co::JOB_STATUS_DELETED | co::JOB_STATUS_PAUSED
            | co::JOB_STATUS_PRINTED | co::JOB_STATUS_COMPLETE | co::JOB_STATUS_RETAINED,
        CO_DANG_IN == co::JOB_STATUS_PRINTING | co::JOB_STATUS_COMPLETE | co::JOB_STATUS_RETAINED,
        CO_DA_BAT_DAU == co::JOB_STATUS_PRINTING | co::JOB_STATUS_PRINTED | co::JOB_STATUS_COMPLETE
            | co::JOB_STATUS_RETAINED | co::JOB_STATUS_RESTART,
        CO_BI_HUY == co::JOB_STATUS_DELETING | co::JOB_STATUS_DELETED | co::JOB_STATUS_RESTART,
        CO_GUI_XONG == co::JOB_STATUS_PRINTED | co::JOB_STATUS_COMPLETE | co::JOB_STATUS_RETAINED,
{
    assert(0x462u32 == 0x40u32 | 0x2u32 | 0x20u32 | 0x400u32) by (bit_vector);
    assert(0x209u32 == 0x8u32 | 0x1u32 | 0x200u32) by (bit_vector);
    assert(0x3185u32 == 0x4u32 | 0x100u32 | 0x1u32 | 0x80u32 | 0x1000u32 | 0x2000u32) by (bit_vector);
    assert(0x3010u32 == 0x10u32 | 0x1000u32 | 0x2000u32) by (bit_vector);
    assert(0x3890u32 == 0x10u32 | 0x80u32 | 0x1000u32 | 0x2000u32 | 0x800u32) by (bit_vector);
    assert(0x904u32 == 0x4u32 | 0x100u32 | 0x800u32) by (bit_vector);
    assert(0x3080u32 == 0x80u32 | 0x1000u32 | 0x2000u32) by (bit_vector);
}

/// The words for a job that was withdrawn or restarted and then left the queue.
pub const CHU_BI_HUY: &'static str = "job bị huỷ/khởi động lại trong hàng đợi — biến mất không tính là đã in";

/// What one reading shows of the watched job.
#[derive(Debug, Clone, Copy, PartialEq, Eq, Structural)]
pub enum TrangThaiJob {
    /// In the queue, not started.
    DangCho,
    /// Printing.
    DangIn,
    /// Printed: the strongest evidence.
    DaInXong,
    /// An error flag on the job itself, raised while bytes are sent: never deleted.
    LoiJob(MaSuCo),
    /// Held back because the driver cannot print it, with no other error flag.
    KetHangDoi(MaSuCo),
    /// Withdrawn or restarted: that it vanishes no longer means that it printed.
    BiHuy,
    /// Not in the queue.
    KhongThay,
    /// The printer reports trouble while the job is absent, or present and clean.
    MayInLoi(MaSuCo),
    /// The queue could not be read: evidence of nothing.
    LoiTruyVan,
}

/// What is known of a job when it is handed on to be watched further.
#[derive(Debug, Clone, Copy, Default, PartialEq, Eq, Structural)]
pub struct BangChungJob {
    pub da_thay_in: bool,
    pub da_thay_huy: bool,
    /// The printer's troubles from before the job: they never count against it.
    pub nen: TapMa,
}

/// What is reported while a job is watched, as soon as it is seen.
#[derive(Debug, Clone, PartialEq, Eq)]
pub enum QuanSat {
    /// Trouble that keeps the job from printing, on the printer or on the job.
    SuCo { loai: MaSuCo, chi_tiet: String },
    /// The printer's state.
    MayIn { ma: MaSuCo, chi_tiet: Option<String> },
    /// The outcome is open and the job is still in the queue.
    ConTrongHangDoi(BangChungJob),
    /// The job has left the queue for the memory of a USB printer and is not out yet.
    TrongMayInUsb { bang_chung: BangChungJob, da_thay_loi: bool, da_thay_in: bool },
    /// The job has left the queue; the printer is still to confirm it.
    DaRoiHangDoi,
}

pub ghost enum QuanSatV {
    SuCo { loai: MaSuCo, chi_tiet: Seq<char> },
    MayIn { ma: MaSuCo, chi_tiet: Option<Seq<char>> },
    ConTrongHangDoi(BangChungJob),
    TrongMayInUsb { bang_chung: BangChungJob, da_thay_loi: bool, da_thay_in: bool },
    DaRoiHangDoi,
}

impl View for QuanSat {
    type V = QuanSatV;

    open spec fn view(&self) -> QuanSatV {
        match self {
            QuanSat::SuCo { loai, chi_tiet } => QuanSatV::SuCo { loai: *loai, chi_tiet: chi_tiet@ },
            QuanSat::MayIn { ma, chi_tiet } => QuanSatV::MayIn { ma: *ma, chi_tiet: chu_cua(*chi_tiet) },
            QuanSat::ConTrongHangDoi(bc) => QuanSatV::ConTrongHangDoi(*bc),
            QuanSat::TrongMayInUsb { bang_chung, da_thay_loi, da_thay_in } => QuanSatV::TrongMayInUsb {
                bang_chung: *bang_chung,
                da_thay_loi: *da_thay_loi,
                da_thay_in: *da_thay_in,
            },
            QuanSat::DaRoiHangDoi => QuanSatV::DaRoiHangDoi,
        }
    }
}

/// The views of a list of reports.
pub open spec fn cac_quan_sat(v: Seq<QuanSat>) -> Seq<QuanSatV> {
    Seq::new(v.len(), |i: int| v[i]@)
}

/// A job in the spooler's queue.
#[derive(Debug, Clone, PartialEq, Eq)]
pub struct JobHangDoi {
    pub id: u32,
    /// The document's name: the name of the printed file, which holds the job's id.
    pub document: String,
    pub status: u32,
    /// Pages printed; more than none, and a sheet is out.
    pub trang_da_in: u32,
    /// The driver's own words.
    pub mo_ta_driver: String,
    /// When it was submitted, in seconds since 1970.
    pub submitted_epoch_secs: i64,
    /// The computer that submitted it; empty where that is not known.
    pub may_tinh: String,
}

/// One reading of the spooler.
#[derive(Debug, Clone, Default, PartialEq, Eq)]
pub struct VongDoc {
    /// The printer's status; nothing where it could not be read.
    pub co_may_in: Option<u32>,
    /// The printer's attributes, read together with its status.
    pub thuoc_tinh_may_in: u32,
    /// The queue; nothing where it could not be read, which is not an empty queue.
    pub hang_doi: Option<Vec<JobHangDoi>>,
    /// There is no printer of that name.
    pub khong_tim_thay_may_in: bool,
    /// A printer on a USB port of this computer.
    pub la_may_usb: bool,
    /// What the device itself said, where it was asked and answered.
    pub usb: Option<DocUsb>,
    /// The device was asked and did not answer.
    pub usb_khong_doc_duoc: bool,
}

/// What can be done to a job in the queue.
#[derive(Debug, Clone, Copy, PartialEq, Eq, Structural)]
pub enum LenhJob {
    TamDung,
    TiepTuc,
    Xoa,
}

/// Every byte of the queue's jobs has gone out, so that the device may be asked.
pub open spec fn da_gui_het(jobs: Seq<JobHangDoi>) -> bool {
    forall|i: int| 0 <= i < jobs.len() ==> (#[trigger] jobs[i]).status & CO_GUI_XONG != 0
}

pub fn hang_doi_cho_doc_usb(jobs: &Vec<JobHangDoi>) -> (r: bool)
    ensures
        r == da_gui_het(jobs@),
{
    let mut i: usize = 0;
    while i < jobs.len()
        invariant
            i <= jobs@.len(),
            forall|k: int| 0 <= k < i ==> (#[trigger] jobs@[k]).status & CO_GUI_XONG != 0,
        decreases jobs@.len() - i,
    {
        if jobs[i].status & CO_GUI_XONG == 0 {
            assert(jobs@[i as int].status & CO_GUI_XONG == 0);
            return false;
        }
        i = i + 1;
    }
    true
}

/// What came of taking a job out of the queue.
#[derive(Debug, Clone, PartialEq, Eq)]
pub enum KetQuaGoJob {
    /// The queue was read, and no job of this order is in it.
    KhongCoTrongHangDoi,
    /// Held, seen clean again, deleted, seen gone.
    DaGoXong,
    /// The job is no longer clean: not touched.
    KhongAnToanDeXoa(String),
    /// Could not be read, held or deleted, or the queue changed meanwhile.
    KhongGoDuoc(String),
}

pub ghost enum KetQuaGoJobV {
    KhongCoTrongHangDoi,
    DaGoXong,
    KhongAnToanDeXoa(Seq<char>),
    KhongGoDuoc(Seq<char>),
}

impl View for KetQuaGoJob {
    type V = KetQuaGoJobV;

    open spec fn view(&self) -> KetQuaGoJobV {
        match self {
            KetQuaGoJob::KhongCoTrongHangDoi => KetQuaGoJobV::KhongCoTrongHangDoi,
            KetQuaGoJob::DaGoXong => KetQuaGoJobV::DaGoXong,
            KetQuaGoJob::KhongAnToanDeXoa(s) => KetQuaGoJobV::KhongAnToanDeXoa(s@),
            KetQuaGoJob::KhongGoDuoc(s) => KetQuaGoJobV::KhongGoDuoc(s@),
        }
    }
}

impl KetQuaGoJobV {
    /// The job is, as far as one can tell, still in the queue.
    pub open spec fn con_trong(self) -> bool {
        self is KhongAnToanDeXoa || self is KhongGoDuoc
    }
}

impl KetQuaGoJob {
    pub fn job_con_trong_hang_doi(&self) -> (r: bool)
        ensures
            r == self@.con_trong(),
    {
        matches!(self, KetQuaGoJob::KhongAnToanDeXoa(_) | KetQuaGoJob::KhongGoDuoc(_))
    }
}

} // verus!
