//! Watching one job in the Windows spooler, and taking it back where that is certain to be safe.
pub mod bo_suy;
pub mod go_job;
pub mod kieu;
pub mod luat;
pub mod luat_loi;
pub mod luat_may;
pub mod luat_sau_roi;
pub mod luat_ten;
pub mod luat_vong;
pub mod may_in;
pub mod moi_truong;
pub mod sau_khi_roi;
pub mod ten_job;
pub mod theo_doi;
