//! One agent on one computer: two of them would take each other's jobs.
use vstd::prelude::*;

verus! {

/// The lock of the whole computer.
pub const TEN_KHOA: &'static str = "Global\\print-agent-lednelia";

/// The lock of one login session; it only tells where the other agent runs.
pub const TEN_KHOA_PHIEN: &'static str = "Local\\print-agent-lednelia";

/// Where the agent runs that is already there.
#[derive(Debug, Clone, Copy, PartialEq, Eq, Structural)]
pub enum BanKhac {
    CungPhien,
    PhienKhac,
}

/// What taking the lock came to.
#[derive(Debug, Clone, Copy, PartialEq, Eq, Structural)]
pub enum KetLuanKhoa {
    DuocChay,
    DaCoBanKhac(BanKhac),
    /// An unknown error: the agent runs all the same.
    LoiLa,
}

/// The lock belongs to another user.
pub const MA_ACCESS_DENIED: u32 = 5;

/// What taking the lock came to: whether it was there already, or the system's error.
pub open spec fn ket_luan(tao: Result<bool, u32>, phien_da_co: bool) -> KetLuanKhoa {
    match tao {
        Ok(co) => if !co {
            KetLuanKhoa::DuocChay
        } else if phien_da_co {
            KetLuanKhoa::DaCoBanKhac(BanKhac::CungPhien)
        } else {
            KetLuanKhoa::DaCoBanKhac(BanKhac::PhienKhac)
        },
        Err(e) => if e == MA_ACCESS_DENIED {
            KetLuanKhoa::DaCoBanKhac(BanKhac::PhienKhac)
        } else {
            KetLuanKhoa::LoiLa
        },
    }
}

pub fn ket_luan_tao_khoa(tao: Result<bool, u32>, phien_da_co: bool) -> (r: KetLuanKhoa)
    ensures
        r == ket_luan(tao, phien_da_co),
{
    match tao {
        Ok(co) => if !co {
            KetLuanKhoa::DuocChay
        } else if phien_da_co {
            KetLuanKhoa::DaCoBanKhac(BanKhac::CungPhien)
        } else {
            KetLuanKhoa::DaCoBanKhac(BanKhac::PhienKhac)
        },
        Err(e) => if e == MA_ACCESS_DENIED {
            KetLuanKhoa::DaCoBanKhac(BanKhac::PhienKhac)
        } else {
            KetLuanKhoa::LoiLa
        },
    }
}

/// Told to a second agent of the same session.
pub const CHU_DA_CHAY: &'static str =
    "Incokit Print Agent đang chạy rồi (xem biểu tượng máy in ở khay hệ thống, góc phải thanh taskbar).";

/// Told to a second agent where the first runs in another session, whose icon cannot be seen here.
pub const CHU_DA_CHAY_PHIEN_KHAC: &'static str =
    "Incokit Print Agent đang chạy ở phiên đăng nhập Windows khác (người dùng khác hoặc Remote Desktop) — mỗi máy chỉ chạy một bản. Muốn chạy ở phiên này thì thoát app ở phiên kia trước.";

pub fn chu_da_chay(o_dau: BanKhac) -> (r: &'static str)
    ensures
        r@ == (match o_dau {
            BanKhac::CungPhien => CHU_DA_CHAY@,
            BanKhac::PhienKhac => CHU_DA_CHAY_PHIEN_KHAC@,
        }),
{
    match o_dau {
        BanKhac::CungPhien => CHU_DA_CHAY,
        BanKhac::PhienKhac => CHU_DA_CHAY_PHIEN_KHAC,
    }
}

/// The agent may run exactly where it was the one to make the lock, or where the system gave an error that says
/// nothing of another agent; a lock that is there, or that another user holds, means that one runs, in this
/// session exactly where the session's own lock is there too.
pub proof fn chay_khi_khong_co_ban_khac(tao: Result<bool, u32>, phien: bool)
    ensures
        ket_luan(tao, phien) is DuocChay <==> tao == Ok::<bool, u32>(false),
        ket_luan(tao, phien) is LoiLa <==> (tao matches Err(e) && e != 5),
        ket_luan(tao, phien) == KetLuanKhoa::DaCoBanKhac(BanKhac::CungPhien) <==> tao == Ok::<bool, u32>(true) && phien,
        ket_luan(tao, phien) == KetLuanKhoa::DaCoBanKhac(BanKhac::PhienKhac) <==> (tao == Ok::<bool, u32>(true) && !phien)
            || tao == Err::<bool, u32>(5),
{
}

/// A second agent is told of the icon it can see where the first runs in the same session, and else of the other
/// session.
pub proof fn noi_dung_phien(o_dau: BanKhac, r: &'static str)
    requires
        call_ensures(chu_da_chay, (o_dau,), r),
    ensures
        o_dau == BanKhac::CungPhien ==> r@
            == "Incokit Print Agent đang chạy rồi (xem biểu tượng máy in ở khay hệ thống, góc phải thanh taskbar)."@,
        o_dau == BanKhac::PhienKhac ==> r@
            == "Incokit Print Agent đang chạy ở phiên đăng nhập Windows khác (người dùng khác hoặc Remote Desktop) — mỗi máy chỉ chạy một bản. Muốn chạy ở phiên này thì thoát app ở phiên kia trước."@,
{
}

} // verus!
