//! Codes of printer trouble shared by the server, the agent and the screen, and how the
//! spooler's flags map to them.
use crate::chu;
use vstd::prelude::*;
use vstd::string::*;

pub mod co;
pub mod luat;

verus! {

/// What can be wrong with the printer or with a job.
#[derive(Debug, Clone, Copy, PartialEq, Eq, Hash, Structural)]
pub enum MaSuCo {
    HetGiay,
    KetGiay,
    Offline,
    MoNap,
    HetMuc,
    CanXuLy,
    LoiMayIn,
    KhongTimThayMayIn,
    LoiSumatra,
    LoiPdf,
    KhongXacNhan,
    BinhThuong,
}

/// How grave a code is.
#[derive(Debug, Clone, Copy, PartialEq, Eq, Structural)]
pub enum MucDo {
    Loi,
    CanhBao,
    ThongTin,
}

impl MaSuCo {
    /// The code as it goes over the wire.
    pub open spec fn ma_cua(self) -> Seq<char> {
        match self {
            MaSuCo::HetGiay => "het_giay"@,
            MaSuCo::KetGiay => "ket_giay"@,
            MaSuCo::Offline => "offline"@,
            MaSuCo::MoNap => "mo_nap"@,
            MaSuCo::HetMuc => "het_muc"@,
            MaSuCo::CanXuLy => "can_xu_ly"@,
            MaSuCo::LoiMayIn => "loi_may_in"@,
            MaSuCo::KhongTimThayMayIn => "khong_tim_thay_may_in"@,
            MaSuCo::LoiSumatra => "loi_sumatra"@,
            MaSuCo::LoiPdf => "loi_pdf"@,
            MaSuCo::KhongXacNhan => "khong_xac_nhan"@,
            MaSuCo::BinhThuong => "binh_thuong"@,
        }
    }

    /// The code as it goes over the wire.
    pub fn ma(self) -> (r: &'static str)
        ensures
            r@ == self.ma_cua(),
    {
        match self {
            MaSuCo::HetGiay => "het_giay",
            MaSuCo::KetGiay => "ket_giay",
            MaSuCo::Offline => "offline",
            MaSuCo::MoNap => "mo_nap",
            MaSuCo::HetMuc => "het_muc",
            MaSuCo::CanXuLy => "can_xu_ly",
            MaSuCo::LoiMayIn => "loi_may_in",
            MaSuCo::KhongTimThayMayIn => "khong_tim_thay_may_in",
            MaSuCo::LoiSumatra => "loi_sumatra",
            MaSuCo::LoiPdf => "loi_pdf",
            MaSuCo::KhongXacNhan => "khong_xac_nhan",
            MaSuCo::BinhThuong => "binh_thuong",
        }
    }

    /// The label shown to people.
    pub open spec fn nhan_cua(self) -> Seq<char> {
        match self {
            MaSuCo::HetGiay => "Hết giấy"@,
            MaSuCo::KetGiay => "Kẹt giấy"@,
            MaSuCo::Offline => "Máy in offline / mất kết nối máy in"@,
            MaSuCo::MoNap => "Nắp máy in đang mở"@,
            MaSuCo::HetMuc => "Hết mực / sắp hết mực"@,
            MaSuCo::CanXuLy => "Máy in cần người xử lý"@,
            MaSuCo::LoiMayIn => "Máy in báo lỗi"@,
            MaSuCo::KhongTimThayMayIn => "Không tìm thấy máy in trong Windows"@,
            MaSuCo::LoiSumatra => "Không gọi được / SumatraPDF lỗi"@,
            MaSuCo::LoiPdf => "File PDF hỏng"@,
            MaSuCo::KhongXacNhan => "Đã gửi máy in nhưng không xác nhận được đã in"@,
            MaSuCo::BinhThuong => "Máy in bình thường (đã hết sự cố)"@,
        }
    }

    /// The label shown to people.
    pub fn nhan(self) -> (r: &'static str)
        ensures
            r@ == self.nhan_cua(),
    {
        match self {
            MaSuCo::HetGiay => "Hết giấy",
            MaSuCo::KetGiay => "Kẹt giấy",
            MaSuCo::Offline => "Máy in offline / mất kết nối máy in",
            MaSuCo::MoNap => "Nắp máy in đang mở",
            MaSuCo::HetMuc => "Hết mực / sắp hết mực",
            MaSuCo::CanXuLy => "Máy in cần người xử lý",
            MaSuCo::LoiMayIn => "Máy in báo lỗi",
            MaSuCo::KhongTimThayMayIn => "Không tìm thấy máy in trong Windows",
            MaSuCo::LoiSumatra => "Không gọi được / SumatraPDF lỗi",
            MaSuCo::LoiPdf => "File PDF hỏng",
            MaSuCo::KhongXacNhan => "Đã gửi máy in nhưng không xác nhận được đã in",
            MaSuCo::BinhThuong => "Máy in bình thường (đã hết sự cố)",
        }
    }

    /// What the person at the counter has to do.
    pub open spec fn huong_dan_cua(self) -> Seq<char> {
        match self {
            MaSuCo::HetGiay => "Nạp giấy vào khay"@,
            MaSuCo::KetGiay => "Gỡ giấy kẹt rồi đóng nắp"@,
            MaSuCo::Offline => "Bật máy in, kiểm dây mạng/USB"@,
            MaSuCo::MoNap => "Đóng nắp máy in"@,
            MaSuCo::HetMuc => "Chuẩn bị thay mực"@,
            MaSuCo::CanXuLy => "Xem đèn/màn hình máy in: nạp giấy, gỡ giấy kẹt, đóng nắp"@,
            MaSuCo::LoiMayIn => "Xem màn hình máy in, tắt/bật lại máy in"@,
            MaSuCo::KhongTimThayMayIn => "Chọn lại máy in trong app"@,
            MaSuCo::LoiSumatra => "Báo kỹ thuật: SumatraPDF lỗi"@,
            MaSuCo::LoiPdf => "Báo kỹ thuật: file PDF hỏng"@,
            MaSuCo::KhongXacNhan => "Xem khay giấy"@,
            MaSuCo::BinhThuong => ""@,
        }
    }

    /// What the person at the counter has to do. It never asks to print again: printing again is the
    /// system's task, and a second order while the first still waits puts two sheets on the counter.
    pub fn huong_dan(self) -> (r: &'static str)
        ensures
            r@ == self.huong_dan_cua(),
    {
        match self {
            MaSuCo::HetGiay => "Nạp giấy vào khay",
            MaSuCo::KetGiay => "Gỡ giấy kẹt rồi đóng nắp",
            MaSuCo::Offline => "Bật máy in, kiểm dây mạng/USB",
            MaSuCo::MoNap => "Đóng nắp máy in",
            MaSuCo::HetMuc => "Chuẩn bị thay mực",
            MaSuCo::CanXuLy => "Xem đèn/màn hình máy in: nạp giấy, gỡ giấy kẹt, đóng nắp",
            MaSuCo::LoiMayIn => "Xem màn hình máy in, tắt/bật lại máy in",
            MaSuCo::KhongTimThayMayIn => "Chọn lại máy in trong app",
            MaSuCo::LoiSumatra => "Báo kỹ thuật: SumatraPDF lỗi",
            MaSuCo::LoiPdf => "Báo kỹ thuật: file PDF hỏng",
            MaSuCo::KhongXacNhan => "Xem khay giấy",
            MaSuCo::BinhThuong => "",
        }
    }

    /// The trouble is in the printer itself: the invoice waits there and comes out once it is mended.
    pub open spec fn o_may_in(self) -> bool {
        self == MaSuCo::HetGiay || self == MaSuCo::KetGiay || self == MaSuCo::Offline || self
            == MaSuCo::MoNap || self == MaSuCo::HetMuc || self == MaSuCo::CanXuLy || self
            == MaSuCo::LoiMayIn
    }

    pub fn la_su_co_may_in(self) -> (r: bool)
        ensures
            r == self.o_may_in(),
    {
        matches!(
            self,
            MaSuCo::HetGiay
                | MaSuCo::KetGiay
                | MaSuCo::Offline
                | MaSuCo::MoNap
                | MaSuCo::HetMuc
                | MaSuCo::CanXuLy
                | MaSuCo::LoiMayIn
        )
    }

    pub open spec fn muc_cua(self) -> MucDo {
        if self == MaSuCo::HetMuc {
            MucDo::CanhBao
        } else if self == MaSuCo::BinhThuong {
            MucDo::ThongTin
        } else {
            MucDo::Loi
        }
    }

    pub fn muc(self) -> (r: MucDo)
        ensures
            r == self.muc_cua(),
    {
        match self {
            MaSuCo::HetMuc => MucDo::CanhBao,
            MaSuCo::BinhThuong => MucDo::ThongTin,
            _ => MucDo::Loi,
        }
    }

    /// The job cannot be printed while this lasts. Low toner is only a warning.
    pub open spec fn chan(self) -> bool {
        self != MaSuCo::HetMuc && self != MaSuCo::BinhThuong
    }

    pub fn chan_in(self) -> (r: bool)
        ensures
            r == self.chan(),
    {
        self.muc() == MucDo::Loi
    }

    /// Trouble of the printer, not of one job, that keeps jobs from being printed.
    pub open spec fn chan_cap_may(self) -> bool {
        self.chan() && self != MaSuCo::LoiSumatra && self != MaSuCo::LoiPdf && self != MaSuCo::KhongXacNhan
    }

    /// The server keeps the invoice and sends it again by itself, without counting a try.
    pub open spec fn cho_may(self) -> bool {
        self == MaSuCo::HetGiay || self == MaSuCo::KetGiay || self == MaSuCo::Offline || self
            == MaSuCo::MoNap || self == MaSuCo::CanXuLy || self == MaSuCo::KhongTimThayMayIn
    }

    pub fn khong_tieu_luot(self) -> (r: bool)
        ensures
            r == self.cho_may(),
    {
        matches!(
            self,
            MaSuCo::HetGiay
                | MaSuCo::KetGiay
                | MaSuCo::Offline
                | MaSuCo::MoNap
                | MaSuCo::CanXuLy
                | MaSuCo::KhongTimThayMayIn
        )
    }
}

/// Of the codes for which `p` holds, the one that goes first: a specific flag wins over a
/// general one, so that paper out together with an error reads "out of paper".
pub open spec fn uu_tien_dau(p: spec_fn(MaSuCo) -> bool) -> Option<MaSuCo> {
    if p(MaSuCo::HetGiay) {
        Some(MaSuCo::HetGiay)
    } else if p(MaSuCo::KetGiay) {
        Some(MaSuCo::KetGiay)
    } else if p(MaSuCo::Offline) {
        Some(MaSuCo::Offline)
    } else if p(MaSuCo::MoNap) {
        Some(MaSuCo::MoNap)
    } else if p(MaSuCo::CanXuLy) {
        Some(MaSuCo::CanXuLy)
    } else if p(MaSuCo::LoiMayIn) {
        Some(MaSuCo::LoiMayIn)
    } else if p(MaSuCo::HetMuc) {
        Some(MaSuCo::HetMuc)
    } else {
        None
    }
}

/// Of the codes for which `p` holds and that keep a job from being printed, the one that goes first;
/// a printer that is not there comes last.
pub open spec fn chan_dau_cua(p: spec_fn(MaSuCo) -> bool) -> Option<MaSuCo> {
    match uu_tien_dau(|m: MaSuCo| m.chan() && p(m)) {
        Some(m) => Some(m),
        None => if p(MaSuCo::KhongTimThayMayIn) {
            Some(MaSuCo::KhongTimThayMayIn)
        } else {
            None
        },
    }
}

/// The rank of a code in that order; those outside it come after, "all is well" last.
pub open spec fn hang(m: MaSuCo) -> int {
    match m {
        MaSuCo::HetGiay => 0,
        MaSuCo::KetGiay => 1,
        MaSuCo::Offline => 2,
        MaSuCo::MoNap => 3,
        MaSuCo::CanXuLy => 4,
        MaSuCo::LoiMayIn => 5,
        MaSuCo::HetMuc => 6,
        MaSuCo::BinhThuong => 8,
        _ => 7,
    }
}

fn hang_cua(m: MaSuCo) -> (r: u8)
    ensures
        r as int == hang(m),
{
    match m {
        MaSuCo::HetGiay => 0,
        MaSuCo::KetGiay => 1,
        MaSuCo::Offline => 2,
        MaSuCo::MoNap => 3,
        MaSuCo::CanXuLy => 4,
        MaSuCo::LoiMayIn => 5,
        MaSuCo::HetMuc => 6,
        MaSuCo::BinhThuong => 8,
        _ => 7,
    }
}

/// Which of the spooler's flag sets a number is read by.
#[derive(Debug, Clone, Copy, PartialEq, Eq, Structural)]
pub enum Bang {
    MayIn,
    Job,
}

/// A flag of the set that means the code `ma` is up in `status`.
pub open spec fn bao(bang: Bang, status: u32, ma: MaSuCo) -> bool {
    match bang {
        Bang::MayIn => match ma {
            MaSuCo::HetGiay => status & co::PRINTER_STATUS_PAPER_OUT != 0
                || status & co::PRINTER_STATUS_PAPER_PROBLEM != 0,
            MaSuCo::KetGiay => status & co::PRINTER_STATUS_PAPER_JAM != 0,
            MaSuCo::Offline => status & co::PRINTER_STATUS_OFFLINE != 0
                || status & co::PRINTER_STATUS_NOT_AVAILABLE != 0
                || status & co::PRINTER_STATUS_SERVER_UNKNOWN != 0,
            MaSuCo::MoNap => status & co::PRINTER_STATUS_DOOR_OPEN != 0,
            MaSuCo::CanXuLy => status & co::PRINTER_STATUS_USER_INTERVENTION != 0
                || status & co::PRINTER_STATUS_PAUSED != 0,
            MaSuCo::LoiMayIn => status & co::PRINTER_STATUS_ERROR != 0,
            MaSuCo::HetMuc => status & co::PRINTER_STATUS_NO_TONER != 0 || status & co::PRINTER_STATUS_TONER_LOW != 0,
            _ => false,
        },
        Bang::Job => match ma {
            MaSuCo::HetGiay => status & co::JOB_STATUS_PAPEROUT != 0,
            MaSuCo::Offline => status & co::JOB_STATUS_OFFLINE != 0,
            MaSuCo::CanXuLy => status & co::JOB_STATUS_USER_INTERVENTION != 0,
            MaSuCo::LoiMayIn => status & co::JOB_STATUS_ERROR != 0 || status & co::JOB_STATUS_BLOCKED_DEVQ != 0,
            _ => false,
        },
    }
}

fn co_bao(bang: Bang, status: u32, ma: MaSuCo) -> (r: bool)
    ensures
        r == bao(bang, status, ma),
{
    match bang {
        Bang::MayIn => match ma {
            MaSuCo::HetGiay => status & co::PRINTER_STATUS_PAPER_OUT != 0
                || status & co::PRINTER_STATUS_PAPER_PROBLEM != 0,
            MaSuCo::KetGiay => status & co::PRINTER_STATUS_PAPER_JAM != 0,
            MaSuCo::Offline => status & co::PRINTER_STATUS_OFFLINE != 0
                || status & co::PRINTER_STATUS_NOT_AVAILABLE != 0
                || status & co::PRINTER_STATUS_SERVER_UNKNOWN != 0,
            MaSuCo::MoNap => status & co::PRINTER_STATUS_DOOR_OPEN != 0,
            MaSuCo::CanXuLy => status & co::PRINTER_STATUS_USER_INTERVENTION != 0
                || status & co::PRINTER_STATUS_PAUSED != 0,
            MaSuCo::LoiMayIn => status & co::PRINTER_STATUS_ERROR != 0,
            MaSuCo::HetMuc => status & co::PRINTER_STATUS_NO_TONER != 0 || status & co::PRINTER_STATUS_TONER_LOW != 0,
            _ => false,
        },
        Bang::Job => match ma {
            MaSuCo::HetGiay => status & co::JOB_STATUS_PAPEROUT != 0,
            MaSuCo::Offline => status & co::JOB_STATUS_OFFLINE != 0,
            MaSuCo::CanXuLy => status & co::JOB_STATUS_USER_INTERVENTION != 0,
            MaSuCo::LoiMayIn => status & co::JOB_STATUS_ERROR != 0 || status & co::JOB_STATUS_BLOCKED_DEVQ != 0,
            _ => false,
        },
    }
}

/// The first code, in the order of priority, that a flag of the set reports.
pub open spec fn ma_uu_tien(status: u32, bang: Bang) -> Option<MaSuCo> {
    uu_tien_dau(|m: MaSuCo| bao(bang, status, m))
}

fn chon_theo_uu_tien(status: u32, bang: Bang) -> (r: Option<MaSuCo>)
    ensures
        r == ma_uu_tien(status, bang),
{
    if co_bao(bang, status, MaSuCo::HetGiay) {
        Some(MaSuCo::HetGiay)
    } else if co_bao(bang, status, MaSuCo::KetGiay) {
        Some(MaSuCo::KetGiay)
    } else if co_bao(bang, status, MaSuCo::Offline) {
        Some(MaSuCo::Offline)
    } else if co_bao(bang, status, MaSuCo::MoNap) {
        Some(MaSuCo::MoNap)
    } else if co_bao(bang, status, MaSuCo::CanXuLy) {
        Some(MaSuCo::CanXuLy)
    } else if co_bao(bang, status, MaSuCo::LoiMayIn) {
        Some(MaSuCo::LoiMayIn)
    } else if co_bao(bang, status, MaSuCo::HetMuc) {
        Some(MaSuCo::HetMuc)
    } else {
        None
    }
}

/// A set of codes.
#[derive(Debug, Clone, Copy, PartialEq, Eq, Structural)]
pub struct TapMa {
    het_giay: bool,
    ket_giay: bool,
    offline: bool,
    mo_nap: bool,
    het_muc: bool,
    can_xu_ly: bool,
    loi_may_in: bool,
    khong_tim_thay_may_in: bool,
    loi_sumatra: bool,
    loi_pdf: bool,
    khong_xac_nhan: bool,
    binh_thuong: bool,
}

impl TapMa {
    /// The set holds the code.
    pub closed spec fn chua(self, ma: MaSuCo) -> bool {
        match ma {
            MaSuCo::HetGiay => self.het_giay,
            MaSuCo::KetGiay => self.ket_giay,
            MaSuCo::Offline => self.offline,
            MaSuCo::MoNap => self.mo_nap,
            MaSuCo::HetMuc => self.het_muc,
            MaSuCo::CanXuLy => self.can_xu_ly,
            MaSuCo::LoiMayIn => self.loi_may_in,
            MaSuCo::KhongTimThayMayIn => self.khong_tim_thay_may_in,
            MaSuCo::LoiSumatra => self.loi_sumatra,
            MaSuCo::LoiPdf => self.loi_pdf,
            MaSuCo::KhongXacNhan => self.khong_xac_nhan,
            MaSuCo::BinhThuong => self.binh_thuong,
        }
    }

    /// The set of the codes for which `p` holds.
    pub closed spec fn cua(p: spec_fn(MaSuCo) -> bool) -> TapMa {
        TapMa {
            het_giay: p(MaSuCo::HetGiay),
            ket_giay: p(MaSuCo::KetGiay),
            offline: p(MaSuCo::Offline),
            mo_nap: p(MaSuCo::MoNap),
            het_muc: p(MaSuCo::HetMuc),
            can_xu_ly: p(MaSuCo::CanXuLy),
            loi_may_in: p(MaSuCo::LoiMayIn),
            khong_tim_thay_may_in: p(MaSuCo::KhongTimThayMayIn),
            loi_sumatra: p(MaSuCo::LoiSumatra),
            loi_pdf: p(MaSuCo::LoiPdf),
            khong_xac_nhan: p(MaSuCo::KhongXacNhan),
            binh_thuong: p(MaSuCo::BinhThuong),
        }
    }

    /// The set without a code.
    pub open spec fn trong() -> TapMa {
        TapMa::cua(|m: MaSuCo| false)
    }

    /// The empty set.
    pub fn rong() -> (r: TapMa)
        ensures
            r == TapMa::trong(),
            forall|m: MaSuCo| !r.chua(m),
    {
        let r = TapMa {
            het_giay: false,
            ket_giay: false,
            offline: false,
            mo_nap: false,
            het_muc: false,
            can_xu_ly: false,
            loi_may_in: false,
            khong_tim_thay_may_in: false,
            loi_sumatra: false,
            loi_pdf: false,
            khong_xac_nhan: false,
            binh_thuong: false,
        };
        proof {
            la_tap(r, |m: MaSuCo| false);
        }
        r
    }

    pub fn them(&mut self, ma: MaSuCo)
        ensures
            forall|m: MaSuCo| #[trigger] final(self).chua(m) == (old(self).chua(m) || m == ma),
    {
        match ma {
            MaSuCo::HetGiay => {
                self.het_giay = true;
            },
            MaSuCo::KetGiay => {
                self.ket_giay = true;
            },
            MaSuCo::Offline => {
                self.offline = true;
            },
            MaSuCo::MoNap => {
                self.mo_nap = true;
            },
            MaSuCo::HetMuc => {
                self.het_muc = true;
            },
            MaSuCo::CanXuLy => {
                self.can_xu_ly = true;
            },
            MaSuCo::LoiMayIn => {
                self.loi_may_in = true;
            },
            MaSuCo::KhongTimThayMayIn => {
                self.khong_tim_thay_may_in = true;
            },
            MaSuCo::LoiSumatra => {
                self.loi_sumatra = true;
            },
            MaSuCo::LoiPdf => {
                self.loi_pdf = true;
            },
            MaSuCo::KhongXacNhan => {
                self.khong_xac_nhan = true;
            },
            MaSuCo::BinhThuong => {
                self.binh_thuong = true;
            },
        }
    }

    pub fn co(self, ma: MaSuCo) -> (r: bool)
        ensures
            r == self.chua(ma),
    {
        match ma {
            MaSuCo::HetGiay => self.het_giay,
            MaSuCo::KetGiay => self.ket_giay,
            MaSuCo::Offline => self.offline,
            MaSuCo::MoNap => self.mo_nap,
            MaSuCo::HetMuc => self.het_muc,
            MaSuCo::CanXuLy => self.can_xu_ly,
            MaSuCo::LoiMayIn => self.loi_may_in,
            MaSuCo::KhongTimThayMayIn => self.khong_tim_thay_may_in,
            MaSuCo::LoiSumatra => self.loi_sumatra,
            MaSuCo::LoiPdf => self.loi_pdf,
            MaSuCo::KhongXacNhan => self.khong_xac_nhan,
            MaSuCo::BinhThuong => self.binh_thuong,
        }
    }

    /// The codes of `self` that are not in `khac`.
    pub fn tru(self, khac: TapMa) -> (r: TapMa)
        ensures
            forall|m: MaSuCo| #[trigger] r.chua(m) == (self.chua(m) && !khac.chua(m)),
    {
        TapMa {
            het_giay: self.het_giay && !khac.het_giay,
            ket_giay: self.ket_giay && !khac.ket_giay,
            offline: self.offline && !khac.offline,
            mo_nap: self.mo_nap && !khac.mo_nap,
            het_muc: self.het_muc && !khac.het_muc,
            can_xu_ly: self.can_xu_ly && !khac.can_xu_ly,
            loi_may_in: self.loi_may_in && !khac.loi_may_in,
            khong_tim_thay_may_in: self.khong_tim_thay_may_in && !khac.khong_tim_thay_may_in,
            loi_sumatra: self.loi_sumatra && !khac.loi_sumatra,
            loi_pdf: self.loi_pdf && !khac.loi_pdf,
            khong_xac_nhan: self.khong_xac_nhan && !khac.khong_xac_nhan,
            binh_thuong: self.binh_thuong && !khac.binh_thuong,
        }
    }

    /// No code is in the set.
    pub fn is_empty(self) -> (r: bool)
        ensures
            r == (self == TapMa::trong()),
            r == (forall|m: MaSuCo| !self.chua(m)),
    {
        let khong = !(self.het_giay || self.ket_giay || self.offline || self.mo_nap || self.het_muc || self.can_xu_ly
            || self.loi_may_in || self.khong_tim_thay_may_in || self.loi_sumatra || self.loi_pdf
            || self.khong_xac_nhan || self.binh_thuong);
        proof {
            la_tap(TapMa::trong(), |m: MaSuCo| false);
            if !khong {
                assert(exists|m: MaSuCo| self.chua(m)) by {
                    assert(self.het_giay == self.chua(MaSuCo::HetGiay));
                    assert(self.ket_giay == self.chua(MaSuCo::KetGiay));
                    assert(self.offline == self.chua(MaSuCo::Offline));
                    assert(self.mo_nap == self.chua(MaSuCo::MoNap));
                    assert(self.het_muc == self.chua(MaSuCo::HetMuc));
                    assert(self.can_xu_ly == self.chua(MaSuCo::CanXuLy));
                    assert(self.loi_may_in == self.chua(MaSuCo::LoiMayIn));
                    assert(self.khong_tim_thay_may_in == self.chua(MaSuCo::KhongTimThayMayIn));
                    assert(self.loi_sumatra == self.chua(MaSuCo::LoiSumatra));
                    assert(self.loi_pdf == self.chua(MaSuCo::LoiPdf));
                    assert(self.khong_xac_nhan == self.chua(MaSuCo::KhongXacNhan));
                    assert(self.binh_thuong == self.chua(MaSuCo::BinhThuong));
                }
            }
        }
        khong
    }

    /// The first code of the set, in the order of priority, that keeps a job from being printed.
    pub open spec fn chan_dau(self) -> Option<MaSuCo> {
        chan_dau_cua(|m: MaSuCo| self.chua(m))
    }

    pub fn chan_in_uu_tien(self) -> (r: Option<MaSuCo>)
        ensures
            r == self.chan_dau(),
    {
        if self.co(MaSuCo::HetGiay) {
            Some(MaSuCo::HetGiay)
        } else if self.co(MaSuCo::KetGiay) {
            Some(MaSuCo::KetGiay)
        } else if self.co(MaSuCo::Offline) {
            Some(MaSuCo::Offline)
        } else if self.co(MaSuCo::MoNap) {
            Some(MaSuCo::MoNap)
        } else if self.co(MaSuCo::CanXuLy) {
            Some(MaSuCo::CanXuLy)
        } else if self.co(MaSuCo::LoiMayIn) {
            Some(MaSuCo::LoiMayIn)
        } else if self.co(MaSuCo::KhongTimThayMayIn) {
            Some(MaSuCo::KhongTimThayMayIn)
        } else {
            None
        }
    }

    /// The set of the codes in `ds`.
    pub fn tu_danh_sach(ds: &Vec<MaSuCo>) -> (r: TapMa)
        ensures
            r == TapMa::cua(|m: MaSuCo| ds@.contains(m)),
            forall|m: MaSuCo| #[trigger] r.chua(m) == ds@.contains(m),
    {
        let mut t = TapMa::rong();
        let mut i: usize = 0;
        while i < ds.len()
            invariant
                i <= ds@.len(),
                forall|m: MaSuCo| #[trigger] t.chua(m) == ds@.subrange(0, i as int).contains(m),
            decreases ds@.len() - i,
        {
            t.them(ds[i]);
            let ghost a = ds@.subrange(0, i as int);
            let ghost b = ds@.subrange(0, i + 1);
            assert(b =~= a.push(ds@[i as int]));
            assert forall|m: MaSuCo| #[trigger] t.chua(m) == b.contains(m) by {
                if a.contains(m) {
                    let k = choose|k: int| 0 <= k < a.len() && a[k] == m;
                    assert(b[k] == m);
                }
                if m == ds@[i as int] {
                    assert(b[i as int] == m);
                }
            }
            i = i + 1;
        }
        assert(ds@.subrange(0, ds@.len() as int) =~= ds@);
        proof {
            la_tap(t, |m: MaSuCo| ds@.contains(m));
        }
        t
    }
}

impl Default for TapMa {
    fn default() -> (r: TapMa)
        ensures
            r == TapMa::trong(),
            forall|m: MaSuCo| !r.chua(m),
    {
        TapMa::rong()
    }
}

/// A set is told by its codes: the one that holds just those for which `p` holds is the set of `p`.
pub proof fn la_tap(t: TapMa, p: spec_fn(MaSuCo) -> bool)
    ensures
        (forall|m: MaSuCo| #[trigger] t.chua(m) == p(m)) ==> t == TapMa::cua(p),
        forall|m: MaSuCo| #[trigger] TapMa::cua(p).chua(m) == p(m),
{
    if forall|m: MaSuCo| #[trigger] t.chua(m) == p(m) {
        assert(t.chua(MaSuCo::HetGiay) == p(MaSuCo::HetGiay));
        assert(t.chua(MaSuCo::KetGiay) == p(MaSuCo::KetGiay));
        assert(t.chua(MaSuCo::Offline) == p(MaSuCo::Offline));
        assert(t.chua(MaSuCo::MoNap) == p(MaSuCo::MoNap));
        assert(t.chua(MaSuCo::HetMuc) == p(MaSuCo::HetMuc));
        assert(t.chua(MaSuCo::CanXuLy) == p(MaSuCo::CanXuLy));
        assert(t.chua(MaSuCo::LoiMayIn) == p(MaSuCo::LoiMayIn));
        assert(t.chua(MaSuCo::KhongTimThayMayIn) == p(MaSuCo::KhongTimThayMayIn));
        assert(t.chua(MaSuCo::LoiSumatra) == p(MaSuCo::LoiSumatra));
        assert(t.chua(MaSuCo::LoiPdf) == p(MaSuCo::LoiPdf));
        assert(t.chua(MaSuCo::KhongXacNhan) == p(MaSuCo::KhongXacNhan));
        assert(t.chua(MaSuCo::BinhThuong) == p(MaSuCo::BinhThuong));
    }
}

/// Two sets with the same codes are equal.
pub proof fn cung_ma_la_bang(a: TapMa, b: TapMa)
    requires
        forall|m: MaSuCo| #[trigger] a.chua(m) == b.chua(m),
    ensures
        a == b,
{
    la_tap(a, |m: MaSuCo| b.chua(m));
    la_tap(b, |m: MaSuCo| b.chua(m));
}

/// The codes that one reading of the printer (status and attributes) reports.
pub open spec fn tap_co_may_in(status: u32, thuoc_tinh: u32) -> TapMa {
    TapMa::cua(|m: MaSuCo| co_may_in_bao(status, thuoc_tinh, m))
}

/// One reading of the printer reports the code.
pub open spec fn co_may_in_bao(status: u32, thuoc_tinh: u32, m: MaSuCo) -> bool {
    bao(Bang::MayIn, status, m) || (m == MaSuCo::Offline && dung_offline(thuoc_tinh))
}

/// Every code that one reading of the printer (status and attributes) reports.
pub fn cac_ma_may_in(status: u32, thuoc_tinh: u32) -> (r: TapMa)
    ensures
        r == tap_co_may_in(status, thuoc_tinh),
        forall|m: MaSuCo| #[trigger] r.chua(m) == co_may_in_bao(status, thuoc_tinh, m),
{
    let mut t = TapMa::rong();
    if co_bao(Bang::MayIn, status, MaSuCo::HetGiay) {
        t.them(MaSuCo::HetGiay);
    }
    if co_bao(Bang::MayIn, status, MaSuCo::KetGiay) {
        t.them(MaSuCo::KetGiay);
    }
    if co_bao(Bang::MayIn, status, MaSuCo::Offline) {
        t.them(MaSuCo::Offline);
    }
    if co_bao(Bang::MayIn, status, MaSuCo::MoNap) {
        t.them(MaSuCo::MoNap);
    }
    if co_bao(Bang::MayIn, status, MaSuCo::CanXuLy) {
        t.them(MaSuCo::CanXuLy);
    }
    if co_bao(Bang::MayIn, status, MaSuCo::LoiMayIn) {
        t.them(MaSuCo::LoiMayIn);
    }
    if co_bao(Bang::MayIn, status, MaSuCo::HetMuc) {
        t.them(MaSuCo::HetMuc);
    }
    if thuoc_tinh & co::PRINTER_ATTRIBUTE_WORK_OFFLINE != 0 {
        t.them(MaSuCo::Offline);
    }
    proof {
        la_tap(t, |m: MaSuCo| co_may_in_bao(status, thuoc_tinh, m));
    }
    t
}

/// The printer is set to "Use Printer Offline".
pub open spec fn dung_offline(thuoc_tinh: u32) -> bool {
    thuoc_tinh & co::PRINTER_ATTRIBUTE_WORK_OFFLINE != 0
}

/// Of two codes, the one that goes first; the first of two that rank alike.
pub open spec fn hon(a: MaSuCo, b: MaSuCo) -> MaSuCo {
    if hang(b) < hang(a) {
        b
    } else {
        a
    }
}

pub fn uu_tien_hon(a: MaSuCo, b: MaSuCo) -> (r: MaSuCo)
    ensures
        r == hon(a, b),
{
    if hang_cua(b) < hang_cua(a) {
        b
    } else {
        a
    }
}

/// The code of a printer's status alone.
pub fn ma_tu_co_may_in(status: u32) -> (r: MaSuCo)
    ensures
        r == (match ma_uu_tien(status, Bang::MayIn) {
            Some(m) => m,
            None => MaSuCo::BinhThuong,
        }),
{
    match chon_theo_uu_tien(status, Bang::MayIn) {
        Some(m) => m,
        None => MaSuCo::BinhThuong,
    }
}

/// The code that goes first is one of the two and no other ranks before it; "all is well" yields to any
/// trouble, and a third code can be weighed in any grouping.
pub proof fn hon_dung(a: MaSuCo, b: MaSuCo, c: MaSuCo)
    ensures
        hon(a, b) == a || hon(a, b) == b,
        hang(hon(a, b)) <= hang(a),
        hang(hon(a, b)) <= hang(b),
        hon(a, MaSuCo::BinhThuong) == a,
        hon(MaSuCo::BinhThuong, a) == a,
        hon(hon(a, b), c) == hon(a, hon(b, c)),
{
}

/// The code that a set gives as what keeps a job from being printed is in the set and trouble of the printer
/// that does so, and no other such code in the set ranks before it; where it gives none the set has none.
pub proof fn chan_dau_dung(t: TapMa)
    ensures
        t.chan_dau() matches Some(m) ==> t.chua(m) && m.chan_cap_may(),
        forall|n: MaSuCo| #[trigger]
            t.chua(n) && n.chan_cap_may() ==> (t.chan_dau() matches Some(m) && hang(m) <= hang(n)),
{
}

/// One reading comes to the code that ranks first of all that its flags and attributes report; to "all is
/// well" exactly where they report none.
pub proof fn tinh_trang_la_ma_dau(status: u32, thuoc_tinh: u32)
    ensures
        ma_tinh_trang(status, thuoc_tinh) == MaSuCo::BinhThuong <==> (forall|m: MaSuCo|
            !#[trigger] co_may_in_bao(status, thuoc_tinh, m)),
        ma_tinh_trang(status, thuoc_tinh) != MaSuCo::BinhThuong ==> co_may_in_bao(
            status,
            thuoc_tinh,
            ma_tinh_trang(status, thuoc_tinh),
        ),
        forall|m: MaSuCo| #[trigger]
            co_may_in_bao(status, thuoc_tinh, m) ==> hang(ma_tinh_trang(status, thuoc_tinh)) <= hang(m),
{
    let ma = ma_tinh_trang(status, thuoc_tinh);
    if ma == MaSuCo::BinhThuong {
        assert forall|m: MaSuCo| !#[trigger] co_may_in_bao(status, thuoc_tinh, m) by {
            assert(!bao(Bang::MayIn, status, m));
        }
    } else {
        assert(co_may_in_bao(status, thuoc_tinh, ma));
    }
}

/// The server tries again by itself, without counting, for just the trouble of the printer that keeps a job
/// from being printed, other than a fault that the printer does not name.
pub proof fn cho_may_la_chan_cap_may(m: MaSuCo)
    ensures
        m.cho_may() <==> m.chan_cap_may() && m != MaSuCo::LoiMayIn,
{
}

/// What is shown while the printer's queue is paused.
pub const CHU_HANG_DOI_TAM_DUNG: &'static str = "Hàng đợi máy in đang tạm dừng (Pause)";

/// What is shown while the printer is set to "Use Printer Offline".
pub const CHU_DUNG_OFFLINE: &'static str = "Máy in đang để chế độ 'Use Printer Offline'";

/// The code of one reading of the printer: what its flags report, or offline by its attributes,
/// whichever goes first.
pub open spec fn ma_tinh_trang(status: u32, thuoc_tinh: u32) -> MaSuCo {
    match uu_tien_dau(
        |m: MaSuCo|
            ma_uu_tien(status, Bang::MayIn) == Some(m) || (dung_offline(thuoc_tinh) && m
                == MaSuCo::Offline),
    ) {
        Some(m) => m,
        None => MaSuCo::BinhThuong,
    }
}

/// The detail that goes with the code of one reading.
pub open spec fn chi_tiet_tinh_trang(status: u32, thuoc_tinh: u32) -> Option<Seq<char>> {
    let ma = ma_tinh_trang(status, thuoc_tinh);
    let co_may = mo_ta_cua(Bang::MayIn, status);
    if ma == MaSuCo::BinhThuong {
        None
    } else if ma == MaSuCo::Offline && ma_uu_tien(status, Bang::MayIn) != Some(MaSuCo::Offline) {
        Some(CHU_DUNG_OFFLINE@ + "; "@ + co_may + ", Attributes 0x"@ + chu::hex_8(thuoc_tinh))
    } else if ma == MaSuCo::CanXuLy && status & co::PRINTER_STATUS_USER_INTERVENTION == 0 {
        Some(CHU_HANG_DOI_TAM_DUNG@ + "; "@ + co_may)
    } else {
        Some(co_may)
    }
}

/// One reading of the printer (status and attributes) as a code with its detail.
pub fn tinh_trang_may_in(status: u32, thuoc_tinh: u32) -> (r: (MaSuCo, Option<String>))
    ensures
        r.0 == ma_tinh_trang(status, thuoc_tinh),
        crate::gia_tri::chu_cua(r.1) == chi_tiet_tinh_trang(status, thuoc_tinh),
{
    let tu_co = chon_theo_uu_tien(status, Bang::MayIn);
    let offline = thuoc_tinh & co::PRINTER_ATTRIBUTE_WORK_OFFLINE != 0;
    let ma = match tu_co {
        Some(m) => if offline {
            uu_tien_hon(m, MaSuCo::Offline)
        } else {
            m
        },
        None => if offline {
            MaSuCo::Offline
        } else {
            MaSuCo::BinhThuong
        },
    };
    if ma == MaSuCo::BinhThuong {
        return (ma, None);
    }
    let co_may = mo_ta_co_may_in(status);
    let tu_co_offline = match tu_co {
        Some(m) => m == MaSuCo::Offline,
        None => false,
    };
    let chi_tiet = if ma == MaSuCo::Offline && !tu_co_offline {
        let mut s = CHU_DUNG_OFFLINE.to_owned();
        s.append("; ");
        s.append(co_may.as_str());
        s.append(", Attributes 0x");
        s.append(chu::hex8(thuoc_tinh).as_str());
        s
    } else if ma == MaSuCo::CanXuLy && status & co::PRINTER_STATUS_USER_INTERVENTION == 0 {
        let mut s = CHU_HANG_DOI_TAM_DUNG.to_owned();
        s.append("; ");
        s.append(co_may.as_str());
        s
    } else {
        co_may
    };
    (ma, Some(chi_tiet))
}

/// The code of a job's status, where it carries a flag of trouble.
pub fn ma_tu_co_job(status: u32) -> (r: Option<MaSuCo>)
    ensures
        r == ma_uu_tien(status, Bang::Job),
{
    chon_theo_uu_tien(status, Bang::Job)
}

/// The names of the flags so far, with one more where it is up.
pub open spec fn ghep_ten(truoc: Seq<char>, bat: bool, ten: Seq<char>) -> Seq<char> {
    if !bat {
        truoc
    } else if truoc.len() == 0 {
        ten
    } else {
        truoc + "|"@ + ten
    }
}

fn ghep(truoc: String, bat: bool, ten: &str) -> (r: String)
    ensures
        r@ == ghep_ten(truoc@, bat, ten@),
{
    if !bat {
        return truoc;
    }
    if truoc.as_str().is_empty() {
        return ten.to_owned();
    }
    let mut s = truoc;
    s.append("|");
    s.append(ten);
    s
}

/// The names of the flags that are up, joined by `|`.
pub open spec fn ten_cac_co(bang: Bang, status: u32) -> Seq<char> {
    match bang {
        Bang::MayIn => {
            let s = Seq::<char>::empty();
            let s = ghep_ten(s, status & co::PRINTER_STATUS_PAPER_OUT != 0, "PAPER_OUT"@);
            let s = ghep_ten(s, status & co::PRINTER_STATUS_PAPER_PROBLEM != 0, "PAPER_PROBLEM"@);
            let s = ghep_ten(s, status & co::PRINTER_STATUS_PAPER_JAM != 0, "PAPER_JAM"@);
            let s = ghep_ten(s, status & co::PRINTER_STATUS_OFFLINE != 0, "OFFLINE"@);
            let s = ghep_ten(s, status & co::PRINTER_STATUS_NOT_AVAILABLE != 0, "NOT_AVAILABLE"@);
            let s = ghep_ten(s, status & co::PRINTER_STATUS_SERVER_UNKNOWN != 0, "SERVER_UNKNOWN"@);
            let s = ghep_ten(s, status & co::PRINTER_STATUS_DOOR_OPEN != 0, "DOOR_OPEN"@);
            let s = ghep_ten(s, status & co::PRINTER_STATUS_NO_TONER != 0, "NO_TONER"@);
            let s = ghep_ten(s, status & co::PRINTER_STATUS_TONER_LOW != 0, "TONER_LOW"@);
            let s = ghep_ten(s, status & co::PRINTER_STATUS_USER_INTERVENTION != 0, "USER_INTERVENTION"@);
            let s = ghep_ten(s, status & co::PRINTER_STATUS_PAUSED != 0, "PAUSED"@);
            let s = ghep_ten(s, status & co::PRINTER_STATUS_ERROR != 0, "ERROR"@);
            s
        },
        Bang::Job => {
            let s = Seq::<char>::empty();
            let s = ghep_ten(s, status & co::JOB_STATUS_PAPEROUT != 0, "PAPEROUT"@);
            let s = ghep_ten(s, status & co::JOB_STATUS_OFFLINE != 0, "OFFLINE"@);
            let s = ghep_ten(s, status & co::JOB_STATUS_USER_INTERVENTION != 0, "USER_INTERVENTION"@);
            let s = ghep_ten(s, status & co::JOB_STATUS_ERROR != 0, "ERROR"@);
            let s = ghep_ten(s, status & co::JOB_STATUS_BLOCKED_DEVQ != 0, "BLOCKED_DEVQ"@);
            s
        },
    }
}

/// The flags of a status by name and as a number, so that a flag without a name can be read too.
pub open spec fn mo_ta_cua(bang: Bang, status: u32) -> Seq<char> {
    let ten = ten_cac_co(bang, status);
    let tien_to = match bang {
        Bang::MayIn => "PRINTER_STATUS"@,
        Bang::Job => "JOB_STATUS"@,
    };
    tien_to + " "@ + (if ten.len() == 0 { "-"@ } else { ten }) + " (0x"@ + chu::hex_8(status) + ")"@
}

fn mo_ta(bang: Bang, status: u32) -> (r: String)
    ensures
        r@ == mo_ta_cua(bang, status),
{
    let mut s = String::new();
    match bang {
        Bang::MayIn => {
            s = ghep(s, status & co::PRINTER_STATUS_PAPER_OUT != 0, "PAPER_OUT");
            s = ghep(s, status & co::PRINTER_STATUS_PAPER_PROBLEM != 0, "PAPER_PROBLEM");
            s = ghep(s, status & co::PRINTER_STATUS_PAPER_JAM != 0, "PAPER_JAM");
            s = ghep(s, status & co::PRINTER_STATUS_OFFLINE != 0, "OFFLINE");
            s = ghep(s, status & co::PRINTER_STATUS_NOT_AVAILABLE != 0, "NOT_AVAILABLE");
            s = ghep(s, status & co::PRINTER_STATUS_SERVER_UNKNOWN != 0, "SERVER_UNKNOWN");
            s = ghep(s, status & co::PRINTER_STATUS_DOOR_OPEN != 0, "DOOR_OPEN");
            s = ghep(s, status & co::PRINTER_STATUS_NO_TONER != 0, "NO_TONER");
            s = ghep(s, status & co::PRINTER_STATUS_TONER_LOW != 0, "TONER_LOW");
            s = ghep(s, status & co::PRINTER_STATUS_USER_INTERVENTION != 0, "USER_INTERVENTION");
            s = ghep(s, status & co::PRINTER_STATUS_PAUSED != 0, "PAUSED");
            s = ghep(s, status & co::PRINTER_STATUS_ERROR != 0, "ERROR");
        },
        Bang::Job => {
            s = ghep(s, status & co::JOB_STATUS_PAPEROUT != 0, "PAPEROUT");
            s = ghep(s, status & co::JOB_STATUS_OFFLINE != 0, "OFFLINE");
            s = ghep(s, status & co::JOB_STATUS_USER_INTERVENTION != 0, "USER_INTERVENTION");
            s = ghep(s, status & co::JOB_STATUS_ERROR != 0, "ERROR");
            s = ghep(s, status & co::JOB_STATUS_BLOCKED_DEVQ != 0, "BLOCKED_DEVQ");
        },
    }
    let mut ra = match bang {
        Bang::MayIn => "PRINTER_STATUS".to_owned(),
        Bang::Job => "JOB_STATUS".to_owned(),
    };
    ra.append(" ");
    if s.as_str().is_empty() {
        ra.append("-");
    } else {
        ra.append(s.as_str());
    }
    ra.append(" (0x");
    ra.append(chu::hex8(status).as_str());
    ra.append(")");
    ra
}

/// The detail of a printer's status, such as "PRINTER_STATUS PAPER_OUT|ERROR (0x00000012)".
pub fn mo_ta_co_may_in(status: u32) -> (r: String)
    ensures
        r@ == mo_ta_cua(Bang::MayIn, status),
{
    mo_ta(Bang::MayIn, status)
}

/// The detail of a job's status, such as "JOB_STATUS PAPEROUT (0x00000040)".
pub fn mo_ta_co_job(status: u32) -> (r: String)
    ensures
        r@ == mo_ta_cua(Bang::Job, status),
{
    mo_ta(Bang::Job, status)
}

/// A lower-case character without its Vietnamese marks.
pub open spec fn goc_cua(c: char) -> char {
    if c == 'à' || c == 'á' || c == 'ạ' || c == 'ả' || c == 'ã' || c == 'â' || c == 'ầ' || c == 'ấ' || c == 'ậ'
        || c == 'ẩ' || c == 'ẫ' || c == 'ă' || c == 'ằ' || c == 'ắ' || c == 'ặ' || c == 'ẳ' || c == 'ẵ' {
        'a'
    } else if c == 'è' || c == 'é' || c == 'ẹ' || c == 'ẻ' || c == 'ẽ' || c == 'ê' || c == 'ề' || c == 'ế'
        || c == 'ệ' || c == 'ể' || c == 'ễ' {
        'e'
    } else if c == 'ì' || c == 'í' || c == 'ị' || c == 'ỉ' || c == 'ĩ' {
        'i'
    } else if c == 'ò' || c == 'ó' || c == 'ọ' || c == 'ỏ' || c == 'õ' || c == 'ô' || c == 'ồ' || c == 'ố'
        || c == 'ộ' || c == 'ổ' || c == 'ỗ' || c == 'ơ' || c == 'ờ' || c == 'ớ' || c == 'ợ' || c == 'ở'
        || c == 'ỡ' {
        'o'
    } else if c == 'ù' || c == 'ú' || c == 'ụ' || c == 'ủ' || c == 'ũ' || c == 'ư' || c == 'ừ' || c == 'ứ'
        || c == 'ự' || c == 'ử' || c == 'ữ' {
        'u'
    } else if c == 'ỳ' || c == 'ý' || c == 'ỵ' || c == 'ỷ' || c == 'ỹ' {
        'y'
    } else if c == 'đ' {
        'd'
    } else {
        c
    }
}

fn goc(c: char) -> (r: char)
    ensures
        r == goc_cua(c),
{
    if c == 'à' || c == 'á' || c == 'ạ' || c == 'ả' || c == 'ã' || c == 'â' || c == 'ầ' || c == 'ấ' || c == 'ậ'
        || c == 'ẩ' || c == 'ẫ' || c == 'ă' || c == 'ằ' || c == 'ắ' || c == 'ặ' || c == 'ẳ' || c == 'ẵ' {
        'a'
    } else if c == 'è' || c == 'é' || c == 'ẹ' || c == 'ẻ' || c == 'ẽ' || c == 'ê' || c == 'ề' || c == 'ế'
        || c == 'ệ' || c == 'ể' || c == 'ễ' {
        'e'
    } else if c == 'ì' || c == 'í' || c == 'ị' || c == 'ỉ' || c == 'ĩ' {
        'i'
    } else if c == 'ò' || c == 'ó' || c == 'ọ' || c == 'ỏ' || c == 'õ' || c == 'ô' || c == 'ồ' || c == 'ố'
        || c == 'ộ' || c == 'ổ' || c == 'ỗ' || c == 'ơ' || c == 'ờ' || c == 'ớ' || c == 'ợ' || c == 'ở'
        || c == 'ỡ' {
        'o'
    } else if c == 'ù' || c == 'ú' || c == 'ụ' || c == 'ủ' || c == 'ũ' || c == 'ư' || c == 'ừ' || c == 'ứ'
        || c == 'ự' || c == 'ử' || c == 'ữ' {
        'u'
    } else if c == 'ỳ' || c == 'ý' || c == 'ỵ' || c == 'ỷ' || c == 'ỹ' {
        'y'
    } else if c == 'đ' {
        'd'
    } else {
        c
    }
}

/// A combining mark (U+0300 to U+036F).
pub open spec fn la_dau_to_hop(c: char) -> bool {
    '\u{300}' <= c && c <= '\u{36f}'
}

/// Lower-case characters without marks; combining marks are left out.
pub open spec fn bo_dau_chuoi(s: Seq<char>) -> Seq<char>
    decreases s.len(),
{
    if s.len() == 0 {
        Seq::empty()
    } else {
        let truoc = bo_dau_chuoi(s.drop_last());
        if la_dau_to_hop(s.last()) {
            truoc
        } else {
            truoc.push(goc_cua(s.last()))
        }
    }
}

/// Every character in lower case.
pub open spec fn thuong_chuoi(s: Seq<char>) -> Seq<char>
    decreases s.len(),
{
    if s.len() == 0 {
        Seq::empty()
    } else {
        thuong_chuoi(s.drop_last()) + chu::chu_thuong_cua(s.last())
    }
}

/// Lower-case characters without marks, as a text.
pub fn bo_dau(thuong: &Vec<char>) -> (r: String)
    ensures
        r@ == bo_dau_chuoi(thuong@),
{
    let mut ra = String::new();
    let mut k: usize = 0;
    while k < thuong.len()
        invariant
            k <= thuong@.len(),
            ra@ == bo_dau_chuoi(thuong@.subrange(0, k as int)),
        decreases thuong@.len() - k,
    {
        let c = thuong[k];
        if !('\u{300}' <= c && c <= '\u{36f}') {
            ra.push(goc(c));
        }
        assert(thuong@.subrange(0, k + 1).drop_last() =~= thuong@.subrange(0, k as int));
        k = k + 1;
    }
    assert(thuong@.subrange(0, thuong@.len() as int) =~= thuong@);
    ra
}

/// A text in lower case and without marks, so that a driver's words compare whatever their case
/// and with or without marks.
fn bo_dau_thuong(s: &str) -> (r: String)
    ensures
        r@ == bo_dau_chuoi(thuong_chuoi(s@)),
{
    let v = chu::ky_tu(s);
    let mut thuong: Vec<char> = Vec::new();
    let mut i: usize = 0;
    while i < v.len()
        invariant
            v@ == s@,
            i <= v@.len(),
            thuong@ == thuong_chuoi(v@.subrange(0, i as int)),
        decreases v@.len() - i,
    {
        let mut them = chu::chu_thuong(v[i]);
        thuong.append(&mut them);
        assert(v@.subrange(0, i + 1).drop_last() =~= v@.subrange(0, i as int));
        i = i + 1;
    }
    assert(v@.subrange(0, v@.len() as int) =~= v@);
    bo_dau(&thuong)
}

/// The driver's words name the trouble `ma`.
pub open spec fn chu_noi(s: Seq<char>, ma: MaSuCo) -> bool {
    match ma {
        MaSuCo::HetGiay => chu::co_chua(s, "paper out"@) || chu::co_chua(s, "out of paper"@)
            || chu::co_chua(s, "paper empty"@) || chu::co_chua(s, "load paper"@)
            || chu::co_chua(s, "het giay"@),
        MaSuCo::KetGiay => chu::co_chua(s, "jam"@) || chu::co_chua(s, "ket giay"@),
        MaSuCo::Offline => chu::co_chua(s, "offline"@) || chu::co_chua(s, "not connected"@)
            || chu::co_chua(s, "mat ket noi"@),
        MaSuCo::MoNap => chu::co_chua(s, "door open"@) || chu::co_chua(s, "cover open"@)
            || chu::co_chua(s, "lid open"@) || chu::co_chua(s, "mo nap"@),
        MaSuCo::HetMuc => chu::co_chua(s, "toner low"@) || chu::co_chua(s, "ink low"@)
            || chu::co_chua(s, "low toner"@) || chu::co_chua(s, "sap het muc"@),
        _ => false,
    }
}

fn chu_khop(s: &str, ma: MaSuCo) -> (r: bool)
    ensures
        r == chu_noi(s@, ma),
{
    match ma {
        MaSuCo::HetGiay => chu::chua(s, "paper out") || chu::chua(s, "out of paper")
            || chu::chua(s, "paper empty") || chu::chua(s, "load paper") || chu::chua(s, "het giay"),
        MaSuCo::KetGiay => chu::chua(s, "jam") || chu::chua(s, "ket giay"),
        MaSuCo::Offline => chu::chua(s, "offline") || chu::chua(s, "not connected") || chu::chua(s, "mat ket noi"),
        MaSuCo::MoNap => chu::chua(s, "door open") || chu::chua(s, "cover open") || chu::chua(s, "lid open")
            || chu::chua(s, "mo nap"),
        MaSuCo::HetMuc => chu::chua(s, "toner low") || chu::chua(s, "ink low") || chu::chua(s, "low toner")
            || chu::chua(s, "sap het muc"),
        _ => false,
    }
}

/// The code once the driver's words, in lower case and without marks, are read too: a general code gives
/// way to the first one the words name, and "out of paper" to a jam where the words name a jam and no
/// lack of paper.
pub open spec fn tinh_chinh_sach(ma: MaSuCo, s: Seq<char>) -> MaSuCo {
    if ma == MaSuCo::HetGiay {
        if chu_noi(s, MaSuCo::KetGiay) && !chu_noi(s, MaSuCo::HetGiay) {
            MaSuCo::KetGiay
        } else {
            ma
        }
    } else if ma == MaSuCo::LoiMayIn || ma == MaSuCo::CanXuLy {
        match uu_tien_dau(|m: MaSuCo| chu_noi(s, m)) {
            Some(m) => m,
            None => ma,
        }
    } else {
        ma
    }
}

pub fn tinh_chinh_theo_chu_sach(ma: MaSuCo, s: &str) -> (r: MaSuCo)
    ensures
        r == tinh_chinh_sach(ma, s@),
{
    match ma {
        MaSuCo::HetGiay => if chu_khop(s, MaSuCo::KetGiay) && !chu_khop(s, MaSuCo::HetGiay) {
            MaSuCo::KetGiay
        } else {
            ma
        },
        MaSuCo::LoiMayIn | MaSuCo::CanXuLy => if chu_khop(s, MaSuCo::HetGiay) {
            MaSuCo::HetGiay
        } else if chu_khop(s, MaSuCo::KetGiay) {
            MaSuCo::KetGiay
        } else if chu_khop(s, MaSuCo::Offline) {
            MaSuCo::Offline
        } else if chu_khop(s, MaSuCo::MoNap) {
            MaSuCo::MoNap
        } else if chu_khop(s, MaSuCo::HetMuc) {
            MaSuCo::HetMuc
        } else {
            ma
        },
        _ => ma,
    }
}

/// The code once the driver's words are read too; blank words say nothing.
pub open spec fn tinh_chinh(ma: MaSuCo, chu: Seq<char>) -> MaSuCo {
    if chu::bo_trang(chu).len() == 0 {
        ma
    } else {
        tinh_chinh_sach(ma, bo_dau_chuoi(thuong_chuoi(chu)))
    }
}

pub fn tinh_chinh_theo_chu(ma: MaSuCo, chu: &str) -> (r: MaSuCo)
    ensures
        r == tinh_chinh(ma, chu@),
{
    if chu::cat_trang(chu).as_str().is_empty() {
        return ma;
    }
    let s = bo_dau_thuong(chu);
    tinh_chinh_theo_chu_sach(ma, s.as_str())
}

/// Reading the driver's words once more changes nothing.
pub proof fn tinh_chinh_mot_lan(ma: MaSuCo, chu: Seq<char>)
    ensures
        tinh_chinh(tinh_chinh(ma, chu), chu) == tinh_chinh(ma, chu),
{
}

/// The driver's words change no code but a general one and "out of paper", which gives way only to a jam.
/// Blank words change nothing.
pub proof fn tinh_chinh_chi_ma_chung(ma: MaSuCo, chu: Seq<char>)
    ensures
        tinh_chinh(ma, chu) != ma ==> ma == MaSuCo::LoiMayIn || ma == MaSuCo::CanXuLy || ma == MaSuCo::HetGiay,
        ma == MaSuCo::HetGiay ==> tinh_chinh(ma, chu) == ma || tinh_chinh(ma, chu) == MaSuCo::KetGiay,
        chu::bo_trang(chu).len() == 0 ==> tinh_chinh(ma, chu) == ma,
{
}

/// Neither the case of the driver's words nor their marks matter: two texts that are alike in lower case
/// without marks, both blank or neither, give the same code.
pub proof fn tinh_chinh_khong_theo_hoa_dau(ma: MaSuCo, a: Seq<char>, b: Seq<char>)
    requires
        bo_dau_chuoi(thuong_chuoi(a)) == bo_dau_chuoi(thuong_chuoi(b)),
        (chu::bo_trang(a).len() == 0) == (chu::bo_trang(b).len() == 0),
    ensures
        tinh_chinh(ma, a) == tinh_chinh(ma, b),
{
}

/// Without its marks a text has none left: taking them away once more changes nothing.
pub proof fn bo_dau_mot_lan(s: Seq<char>)
    ensures
        bo_dau_chuoi(bo_dau_chuoi(s)) == bo_dau_chuoi(s),
        forall|i: int| 0 <= i < bo_dau_chuoi(s).len() ==> !la_dau_to_hop(#[trigger] bo_dau_chuoi(s)[i]) && goc_cua(
            bo_dau_chuoi(s)[i],
        ) == bo_dau_chuoi(s)[i],
    decreases s.len(),
{
    if s.len() > 0 {
        let t = bo_dau_chuoi(s.drop_last());
        bo_dau_mot_lan(s.drop_last());
        if !la_dau_to_hop(s.last()) {
            let g = goc_cua(s.last());
            assert(!la_dau_to_hop(g) && goc_cua(g) == g);
            assert(t.push(g).drop_last() =~= t);
        }
    }
}

/// Marks are taken away one by one: a text put together is without marks where its parts are.
pub proof fn bo_dau_ghep(a: Seq<char>, b: Seq<char>)
    ensures
        bo_dau_chuoi(a + b) == bo_dau_chuoi(a) + bo_dau_chuoi(b),
    decreases b.len(),
{
    if b.len() == 0 {
        assert(a + b =~= a);
        assert(bo_dau_chuoi(b) =~= Seq::empty());
        assert(bo_dau_chuoi(a) + bo_dau_chuoi(b) =~= bo_dau_chuoi(a));
    } else {
        bo_dau_ghep(a, b.drop_last());
        assert((a + b).drop_last() =~= a + b.drop_last());
        assert((a + b).last() == b.last());
        assert(bo_dau_chuoi(a + b) =~= bo_dau_chuoi(a) + bo_dau_chuoi(b));
    }
}

/// In a lower-case text a mark does not matter, neither one of its own behind a letter nor one that is part
/// of a letter.
pub proof fn dau_khong_doi_gi(a: Seq<char>, c: char, b: Seq<char>)
    ensures
        la_dau_to_hop(c) ==> bo_dau_chuoi(a + seq![c] + b) == bo_dau_chuoi(a + b),
        bo_dau_chuoi(a + seq![goc_cua(c)] + b) == bo_dau_chuoi(a + seq![c] + b),
{
    let g = goc_cua(c);
    bo_dau_ghep(a, b);
    bo_dau_ghep(a, seq![c]);
    bo_dau_ghep(a + seq![c], b);
    bo_dau_ghep(a, seq![g]);
    bo_dau_ghep(a + seq![g], b);
    assert(la_dau_to_hop(c) ==> g == c);
    assert(!la_dau_to_hop(c) ==> !la_dau_to_hop(g) && goc_cua(g) == g);
    let kc = bo_dau_chuoi(seq![c]);
    let kg = bo_dau_chuoi(seq![g]);
    assert(seq![c].drop_last() =~= Seq::empty());
    assert(seq![g].drop_last() =~= Seq::empty());
    assert(bo_dau_chuoi(Seq::<char>::empty()) =~= Seq::empty());
    assert(kc =~= kg);
    if la_dau_to_hop(c) {
        assert(kc =~= Seq::empty());
        assert(bo_dau_chuoi(a) + kc =~= bo_dau_chuoi(a));
    }
}

/// The words "print again" stand in `s` at `i`, in letters of either case and with or without the mark on
/// the last vowel.
pub open spec fn in_lai_tai(s: Seq<char>, i: int) -> bool {
    &&& 0 <= i && i + 3 < s.len()
    &&& s[i] == 'i' || s[i] == 'I'
    &&& s[i + 1] == 'n' || s[i + 1] == 'N'
    &&& s[i + 2] == ' '
    &&& s[i + 3] == 'l' || s[i + 3] == 'L'
}

spec fn in_lai_tu(s: Seq<char>, tu: int) -> bool
    decreases s.len() - tu,
{
    tu < s.len() && (in_lai_tai(s, tu) || in_lai_tu(s, tu + 1))
}

proof fn in_lai_khong_tu(s: Seq<char>, tu: int)
    requires
        !in_lai_tu(s, tu),
    ensures
        forall|i: int| tu <= i ==> !#[trigger] in_lai_tai(s, i),
    decreases s.len() - tu,
{
    if tu < s.len() {
        in_lai_khong_tu(s, tu + 1);
    }
}

/// What the person at the counter has to do is never to print again.
pub proof fn huong_dan_khong_bao_in_lai(ma: MaSuCo, i: int)
    ensures
        !in_lai_tai(ma.huong_dan_cua(), i),
{
    reveal_strlit("Nạp giấy vào khay");
    reveal_strlit("Gỡ giấy kẹt rồi đóng nắp");
    reveal_strlit("Bật máy in, kiểm dây mạng/USB");
    reveal_strlit("Đóng nắp máy in");
    reveal_strlit("Chuẩn bị thay mực");
    reveal_strlit("Xem đèn/màn hình máy in: nạp giấy, gỡ giấy kẹt, đóng nắp");
    reveal_strlit("Xem màn hình máy in, tắt/bật lại máy in");
    reveal_strlit("Chọn lại máy in trong app");
    reveal_strlit("Báo kỹ thuật: SumatraPDF lỗi");
    reveal_strlit("Báo kỹ thuật: file PDF hỏng");
    reveal_strlit("Xem khay giấy");
    reveal_strlit("");
    reveal_with_fuel(in_lai_tu, 60);
    let s = ma.huong_dan_cua();
    assert(!in_lai_tu(s, 0));
    in_lai_khong_tu(s, 0);
}

} // verus!
