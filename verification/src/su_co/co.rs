//! Flags of the Windows spooler (winspool.h).
use vstd::prelude::*;

verus! {

pub const PRINTER_STATUS_PAUSED: u32 = 0x0000_0001;

pub const PRINTER_STATUS_ERROR: u32 = 0x0000_0002;

pub const PRINTER_STATUS_PAPER_JAM: u32 = 0x0000_0008;

pub const PRINTER_STATUS_PAPER_OUT: u32 = 0x0000_0010;

pub const PRINTER_STATUS_PAPER_PROBLEM: u32 = 0x0000_0040;

pub const PRINTER_STATUS_OFFLINE: u32 = 0x0000_0080;

pub const PRINTER_STATUS_NOT_AVAILABLE: u32 = 0x0000_1000;

pub const PRINTER_STATUS_TONER_LOW: u32 = 0x0002_0000;

pub const PRINTER_STATUS_NO_TONER: u32 = 0x0004_0000;

pub const PRINTER_STATUS_USER_INTERVENTION: u32 = 0x0010_0000;

pub const PRINTER_STATUS_DOOR_OPEN: u32 = 0x0040_0000;

pub const PRINTER_STATUS_SERVER_UNKNOWN: u32 = 0x0080_0000;

/// "Use Printer Offline": the spooler holds every job back.
pub const PRINTER_ATTRIBUTE_WORK_OFFLINE: u32 = 0x0000_0400;

pub const JOB_STATUS_PAUSED: u32 = 0x0000_0001;

pub const JOB_STATUS_ERROR: u32 = 0x0000_0002;

pub const JOB_STATUS_DELETING: u32 = 0x0000_0004;

pub const JOB_STATUS_SPOOLING: u32 = 0x0000_0008;

pub const JOB_STATUS_PRINTING: u32 = 0x0000_0010;

pub const JOB_STATUS_OFFLINE: u32 = 0x0000_0020;

pub const JOB_STATUS_PAPEROUT: u32 = 0x0000_0040;

pub const JOB_STATUS_PRINTED: u32 = 0x0000_0080;

pub const JOB_STATUS_DELETED: u32 = 0x0000_0100;

pub const JOB_STATUS_BLOCKED_DEVQ: u32 = 0x0000_0200;

pub const JOB_STATUS_USER_INTERVENTION: u32 = 0x0000_0400;

pub const JOB_STATUS_RESTART: u32 = 0x0000_0800;

pub const JOB_STATUS_COMPLETE: u32 = 0x0000_1000;

pub const JOB_STATUS_RETAINED: u32 = 0x0000_2000;

} // verus!
