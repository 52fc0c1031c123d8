//! What a printer on a USB port says of itself when it is asked directly.
use crate::chu;
use crate::su_co::MaSuCo;
use vstd::prelude::*;
use vstd::string::*;

verus! {

/// One answer of the device.
#[derive(Debug, Clone, PartialEq, Eq)]
pub struct DocUsb {
    /// The port status byte; bit 3 is up while the device reports no error.
    pub byte: u8,
    /// The field STATUS of the device's identification, where it has one.
    pub status: Option<String>,
}

/// What an answer means.
#[derive(Debug, Clone, Copy, PartialEq, Eq, Structural)]
pub enum TinhTrangUsb {
    /// The device reports an error. It does not say whether paper, a jam or the lid.
    Loi(MaSuCo),
    /// No error, busy.
    DangIn,
    /// No error, idle.
    Ranh,
    /// No error; whether it is busy is not said.
    KhongLoi,
}

impl DocUsb {
    pub open spec fn khong_loi(&self) -> bool {
        self.byte & 0x08 != 0
    }

    /// What the answer means.
    pub open spec fn nghia(&self) -> TinhTrangUsb {
        if !self.khong_loi() {
            TinhTrangUsb::Loi(MaSuCo::CanXuLy)
        } else {
            match self.status {
                Some(s) => if s@ == "BUSY"@ {
                    TinhTrangUsb::DangIn
                } else if s@ == "IDLE"@ {
                    TinhTrangUsb::Ranh
                } else {
                    TinhTrangUsb::KhongLoi
                },
                None => TinhTrangUsb::KhongLoi,
            }
        }
    }

    pub fn tinh_trang(&self) -> (r: TinhTrangUsb)
        ensures
            r == self.nghia(),
    {
        if self.byte & 0x08 == 0 {
            return TinhTrangUsb::Loi(MaSuCo::CanXuLy);
        }
        match &self.status {
            Some(s) => if chu::bang(s.as_str(), "BUSY") {
                TinhTrangUsb::DangIn
            } else if chu::bang(s.as_str(), "IDLE") {
                TinhTrangUsb::Ranh
            } else {
                TinhTrangUsb::KhongLoi
            },
            None => TinhTrangUsb::KhongLoi,
        }
    }

    /// The code of the error, where the device reports one.
    pub open spec fn ma(&self) -> Option<MaSuCo> {
        if self.khong_loi() {
            None
        } else {
            Some(MaSuCo::CanXuLy)
        }
    }

    pub fn ma_su_co(&self) -> (r: Option<MaSuCo>)
        ensures
            r == self.ma(),
    {
        if self.byte & 0x08 == 0 {
            Some(MaSuCo::CanXuLy)
        } else {
            None
        }
    }

    pub open spec fn status_chu(&self) -> Seq<char> {
        match self.status {
            Some(s) => s@,
            None => "-"@,
        }
    }

    /// The answer for people, such as "USB 0x98 STATUS:BUSY".
    pub open spec fn mo_ta_chu(&self) -> Seq<char> {
        "USB 0x"@ + chu::chu_so_cuoi(self.byte as nat, 16, 2) + " STATUS:"@ + self.status_chu() + (
        if self.khong_loi() {
            Seq::empty()
        } else {
            " (máy báo lỗi: hết giấy, kẹt giấy hoặc mở nắp)"@
        })
    }

    pub fn mo_ta(&self) -> (r: String)
        ensures
            r@ == self.mo_ta_chu(),
    {
        let mut s = "USB 0x".to_owned();
        s.append(chu::so_co_dinh(self.byte as u64, 16, 2).as_str());
        s.append(" STATUS:");
        match &self.status {
            Some(t) => s.append(t.as_str()),
            None => s.append("-"),
        }
        if self.byte & 0x08 == 0 {
            s.append(" (máy báo lỗi: hết giấy, kẹt giấy hoặc mở nắp)");
        }
        assert(s@ =~= self.mo_ta_chu());
        s
    }

    /// The answer for the log, such as "0x98/BUSY".
    pub fn mo_ta_ngan(&self) -> (r: String)
        ensures
            r@ == "0x"@ + chu::chu_so_cuoi(self.byte as nat, 16, 2) + "/"@ + self.status_chu(),
    {
        let mut s = "0x".to_owned();
        s.append(chu::so_co_dinh(self.byte as u64, 16, 2).as_str());
        s.append("/");
        match &self.status {
            Some(t) => s.append(t.as_str()),
            None => s.append("-"),
        }
        s
    }
}

/// An answer tells of an error exactly where bit 3 of its byte is down, whatever its text; without one it is
/// busy or idle exactly where its text says so. Both readings of an answer agree on the error.
pub proof fn nghia_theo_bit(d: DocUsb)
    ensures
        d.nghia() == TinhTrangUsb::Loi(MaSuCo::CanXuLy) <==> d.byte & 8 == 0,
        d.nghia() is Loi <==> d.byte & 8 == 0,
        d.nghia() is DangIn <==> d.byte & 8 != 0 && (d.status matches Some(s) && s@ == "BUSY"@),
        d.nghia() is Ranh <==> d.byte & 8 != 0 && (d.status matches Some(s) && s@ == "IDLE"@),
        d.ma() is Some <==> d.nghia() is Loi,
        d.nghia() matches TinhTrangUsb::Loi(m) ==> d.ma() == Some(m),
{
    reveal_strlit("BUSY");
    reveal_strlit("IDLE");
    assert("BUSY"@[0] == 'B' && "IDLE"@[0] == 'I');
}

/// The answer for people holds its byte in two digits and its text, and says that the device reports an error
/// exactly where it does.
pub proof fn mo_ta_usb_du(d: DocUsb)
    ensures
        d.byte & 8 != 0 ==> d.mo_ta_chu() == "USB 0x"@ + chu::chu_so_cuoi(d.byte as nat, 16, 2) + " STATUS:"@ + d.status_chu(),
        d.byte & 8 == 0 ==> d.mo_ta_chu() == "USB 0x"@ + chu::chu_so_cuoi(d.byte as nat, 16, 2) + " STATUS:"@ + d.status_chu()
            + " (máy báo lỗi: hết giấy, kẹt giấy hoặc mở nắp)"@,
        d.status matches Some(s) ==> d.status_chu() == s@,
        d.status is None ==> d.status_chu() == "-"@,
{
    let a = "USB 0x"@ + chu::chu_so_cuoi(d.byte as nat, 16, 2) + " STATUS:"@ + d.status_chu();
    assert(a + Seq::<char>::empty() =~= a);
}

} // verus!
