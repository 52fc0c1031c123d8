//! An agent that prints invoices a server sends, watches the spooler, and reports what became of
//! each sheet without ever printing one twice.
pub mod bao_cao;
pub mod chu;
pub mod config;
pub mod day;
pub mod gia_tri;
pub mod giu_thuc;
pub mod hang_doi;
pub mod hop_thu_di;
pub mod job;
pub mod mot_ban;
pub mod net;
pub mod nhat_ky;
pub mod printing;
pub mod spooler;
pub mod state;
pub mod su_co;
pub mod theo_doi_tiep;
pub mod thoi_gian;
pub mod usb_may_in;
