//! The decisions of the connection: when to read the printer, when to reconnect, what to report.
use crate::bao_cao::{self, HoTro, MucHangDoi};
use crate::chu;
use crate::day::xem;
use crate::gia_tri::{cac_phan_tu, cac_truong, chu_cua, them_truong, GiaTri, Gt};
use crate::hang_doi::{HdV, KetCuc, LoaiViec, NHIP_LAM_MOI_MS};
use crate::hop_thu_di::{CanHoTro, ThuDi, ThuV};
use crate::job::{KetQua, KetQuaV};
use crate::nhat_ky::{DongGui, DongGuiV};
use crate::state::{TrangThaiChung, TtV};
use crate::su_co::MaSuCo;
use crate::theo_doi_tiep::{JobTheoDoiTiep, KetLuanTiep, TiepV};
use crate::thoi_gian;
use vstd::prelude::*;
use vstd::string::*;

pub mod luat;
pub mod viec;

verus! {

/// The namespace of the connection.
pub const NAMESPACE: &'static str = "/print-agent";

/// The beat of the watch over a connection, in milliseconds.
pub const NHIP_CANH_MS: u64 = 250;

/// A connection that has been down this long without a word is dead.
pub const NGUONG_CHET_HAN_MS: u64 = 60_000;

/// Noted where connecting fails.
pub const CHU_CHI_WEBSOCKET: &'static str =
    "app chi dung websocket (khong dung polling) — mang/proxy/firewall chan websocket thi khong noi duoc";

/// The printer is read this often while idle.
pub const CHU_KY_DOC_MAY_IN_MS: u64 = 20_000;

/// A job that takes longer than this no longer keeps the printer from being read.
pub const DANG_IN_QUA_LAU_MS: u64 = 20_000;

/// At most so many lines of the log go in one batch.
pub const LO_NHAT_KY: usize = 500;

/// The pause between two batches.
pub const NHIP_NHAT_KY_MS: u64 = 3_000;

/// How long the server's word for a batch is waited for.
pub const CHO_ACK_NHAT_KY_MS: u64 = 15_000;

/// The longest pause after failures.
pub const NGHI_NHAT_KY_TOI_DA_MS: u64 = 60_000;

/// The first argument of an event; nothing where it has none.
pub fn payload_dau(ds: Vec<GiaTri>) -> (r: GiaTri)
    ensures
        r@ == (if ds@.len() > 0 {
            ds@[0]@
        } else {
            Gt::Rong
        }),
{
    let mut ds = ds;
    if ds.len() > 0 {
        ds.remove(0)
    } else {
        GiaTri::Rong
    }
}

/// The first value of an acknowledgement. The client hands the whole list of arguments over as one value,
/// so one layer of list is taken off.
pub open spec fn ack_cua(ds: Seq<GiaTri>) -> Gt {
    if ds.len() == 0 {
        Gt::Rong
    } else {
        match ds[0] {
            GiaTri::Mang(v) => if v@.len() > 0 {
                v@[0]@
            } else {
                ds[0]@
            },
            _ => ds[0]@,
        }
    }
}

pub fn gia_tri_ack(ds: Vec<GiaTri>) -> (r: GiaTri)
    ensures
        r@ == ack_cua(ds@),
{
    let ghost dv = ds@;
    let mut ds = ds;
    if ds.len() == 0 {
        return GiaTri::Rong;
    }
    let dau = ds.remove(0);
    assert(dau == dv[0]);
    match dau {
        GiaTri::Mang(v) => {
            if v.len() > 0 {
                let mut v = v;
                v.remove(0)
            } else {
                GiaTri::Mang(v)
            }
        },
        g => g,
    }
}

/// Milliseconds from `tu` to `den`, none where that lies in the past.
pub open spec fn da_qua(tu: u64, den: u64) -> int {
    if den >= tu {
        den - tu
    } else {
        0
    }
}

/// Whether the printer may be read now: no job is being printed, or one has been for too long.
pub fn nen_doc_may_in(dang_in_tu: Option<u64>, bay_gio_ms: u64) -> (r: bool)
    ensures
        r == (dang_in_tu matches Some(t) ==> da_qua(t, bay_gio_ms) >= DANG_IN_QUA_LAU_MS),
{
    match dang_in_tu {
        Some(t) => bay_gio_ms >= t && bay_gio_ms - t >= DANG_IN_QUA_LAU_MS,
        None => true,
    }
}

/// An order to the one who watches the printer.
#[derive(Debug, Clone, PartialEq, Eq)]
pub enum LenhMayIn {
    /// The printer's state, read while a job was watched.
    QuanSat(MaSuCo, Option<String>),
    /// The server has just said what it understands.
    CoCauHinh,
    /// A job with trouble has ended: the next reading is sent even if nothing changed.
    EpGuiLanRanhToi,
    Dung,
}

/// What wakes the one who watches the printer.
#[derive(Debug, Clone, PartialEq, Eq)]
pub enum SuKienMayIn {
    Lenh(LenhMayIn),
    HetCho,
    DutKenh,
}

/// What they do next.
#[derive(Debug, Clone, PartialEq, Eq)]
pub enum BuocMayIn {
    GhiTuWorker(MaSuCo, Option<String>),
    DocRanh { ep_gui: bool },
    SauCauHinh,
    KhongLamGi,
    Thoat,
}

/// Whether the next reading is to be sent even if nothing changed.
#[derive(Debug, Clone, Copy, Default, PartialEq, Eq, Structural)]
pub struct BoTheoDoiMayIn {
    pub ep_gui_lan_ranh_toi: bool,
}

impl BoTheoDoiMayIn {
    /// What is remembered after an event, and what to do next.
    pub open spec fn sau(self, su_kien: SuKienMayIn, co_the_doc: bool) -> (BoTheoDoiMayIn, BuocMayIn) {
        match su_kien {
            SuKienMayIn::Lenh(l) => match l {
                LenhMayIn::QuanSat(ma, ct) => (self, BuocMayIn::GhiTuWorker(ma, ct)),
                LenhMayIn::CoCauHinh => (self, BuocMayIn::SauCauHinh),
                LenhMayIn::EpGuiLanRanhToi => (
                    BoTheoDoiMayIn { ep_gui_lan_ranh_toi: true },
                    BuocMayIn::KhongLamGi,
                ),
                LenhMayIn::Dung => (self, BuocMayIn::Thoat),
            },
            SuKienMayIn::DutKenh => (self, BuocMayIn::Thoat),
            SuKienMayIn::HetCho => if co_the_doc {
                (
                    BoTheoDoiMayIn { ep_gui_lan_ranh_toi: false },
                    BuocMayIn::DocRanh { ep_gui: self.ep_gui_lan_ranh_toi },
                )
            } else {
                (self, BuocMayIn::KhongLamGi)
            },
        }
    }

    /// What to do next. The promise to send the next reading is kept until a reading is made.
    pub fn buoc(&mut self, su_kien: SuKienMayIn, co_the_doc: bool) -> (r: BuocMayIn)
        ensures
            (*final(self), r) == old(self).sau(su_kien, co_the_doc),
    {
        match su_kien {
            SuKienMayIn::Lenh(l) => match l {
                LenhMayIn::QuanSat(ma, ct) => BuocMayIn::GhiTuWorker(ma, ct),
                LenhMayIn::CoCauHinh => BuocMayIn::SauCauHinh,
                LenhMayIn::EpGuiLanRanhToi => {
                    self.ep_gui_lan_ranh_toi = true;
                    BuocMayIn::KhongLamGi
                },
                LenhMayIn::Dung => BuocMayIn::Thoat,
            },
            SuKienMayIn::DutKenh => BuocMayIn::Thoat,
            SuKienMayIn::HetCho => {
                if co_the_doc {
                    let ep_gui = self.ep_gui_lan_ranh_toi;
                    self.ep_gui_lan_ranh_toi = false;
                    BuocMayIn::DocRanh { ep_gui }
                } else {
                    BuocMayIn::KhongLamGi
                }
            },
        }
    }

    /// The reading could not be made: the promise stands for the next.
    pub fn khong_doc_duoc(&mut self, ep_gui: bool)
        ensures
            final(self).ep_gui_lan_ranh_toi == (old(self).ep_gui_lan_ranh_toi || ep_gui),
    {
        self.ep_gui_lan_ranh_toi = self.ep_gui_lan_ranh_toi || ep_gui;
    }
}

/// What is remembered after a run of events, each with whether the printer could be read.
pub open spec fn sau_chuoi(b: BoTheoDoiMayIn, ds: Seq<(SuKienMayIn, bool)>) -> BoTheoDoiMayIn
    decreases ds.len(),
{
    if ds.len() == 0 {
        b
    } else {
        sau_chuoi(b, ds.drop_last()).sau(ds.last().0, ds.last().1).0
    }
}

/// Once a job with trouble has ended, the next reading made while idle is sent whatever it is, however many
/// other events come before it.
pub proof fn loi_hua_ep_gui_khong_mat(b: BoTheoDoiMayIn, ds: Seq<(SuKienMayIn, bool)>)
    requires
        b.ep_gui_lan_ranh_toi,
        forall|i: int| 0 <= i < ds.len() ==> !((#[trigger] ds[i]).0 is HetCho && ds[i].1),
    ensures
        sau_chuoi(b, ds).sau(SuKienMayIn::HetCho, true).1 == (BuocMayIn::DocRanh { ep_gui: true }),
    decreases ds.len(),
{
    if ds.len() > 0 {
        let d = ds.drop_last();
        assert forall|i: int| 0 <= i < d.len() implies !((#[trigger] d[i]).0 is HetCho && d[i].1) by {
            assert(d[i] == ds[i]);
        }
        loi_hua_ep_gui_khong_mat(b, d);
        assert(!(ds[ds.len() - 1].0 is HetCho && ds[ds.len() - 1].1));
    }
}

/// Takes down a reading of the printer; gives the message where it has to be sent: the code has changed,
/// or it is sent whatever it is.
pub fn ghi_trang_thai_may_in(
    tt: &mut TrangThaiChung,
    may_in: &str,
    ma: MaSuCo,
    chi_tiet: Option<String>,
    ep_gui: bool,
    luc_ranh: bool,
    luc_ms: u64,
) -> (r: Option<GiaTri>)
    ensures
        final(tt)@ == old(tt)@.sau_may_in(ma, chu_cua(chi_tiet), luc_ranh),
        r is Some <==> ep_gui || old(tt)@.ma_may_in() != Some(ma),
        r matches Some(g) ==> g@ == bao_cao::trang_thai_cua(ma, chu_cua(chi_tiet), may_in@, luc_ms),
{
    let gia_tri = match &chi_tiet {
        Some(s) => bao_cao::trang_thai_may_in(ma, Some(s.as_str()), may_in, luc_ms),
        None => bao_cao::trang_thai_may_in(ma, None, may_in, luc_ms),
    };
    let doi = tt.ghi_may_in(ma, chi_tiet, luc_ranh);
    if doi || ep_gui {
        Some(gia_tri)
    } else {
        None
    }
}

/// The state to send once the server has said what it understands: what was just read, else the latest
/// known; and whether it was read while idle.
pub fn trang_thai_sau_cau_hinh(doc: Option<(MaSuCo, Option<String>)>, tt: &TrangThaiChung) -> (r: Option<
    (MaSuCo, Option<String>, bool),
>)
    ensures
        match doc {
            Some(x) => r matches Some(y) && y.0 == x.0 && chu_cua(y.1) == chu_cua(x.1) && y.2,
            None => match tt@.may_in {
                Some(x) => r matches Some(y) && y.0 == x.0 && chu_cua(y.1) == x.1 && !y.2,
                None => r is None,
            },
        },
{
    match doc {
        Some(x) => Some((x.0, x.1, true)),
        None => match &tt.may_in {
            Some(x) => {
                let ct = match &x.1 {
                    Some(s) => Some(s.clone()),
                    None => None,
                };
                Some((x.0, ct, false))
            },
            None => None,
        },
    }
}

pub open spec fn mat_dau_chu(so: Seq<char>) -> Seq<char> {
    "Hoá đơn "@ + so
        + " không còn trong hàng đợi Windows mà app không thấy in (bị xoá/huỷ?) — kiểm khay giấy, in lại nếu chưa có"@
}

/// Told where all trace of an invoice was lost.
pub fn chu_mat_dau(so_hoa_don: &str) -> (r: String)
    ensures
        r@ == mat_dau_chu(so_hoa_don@),
{
    let mut s = "Hoá đơn ".to_owned();
    s.append(so_hoa_don);
    s.append(
        " không còn trong hàng đợi Windows mà app không thấy in (bị xoá/huỷ?) — kiểm khay giấy, in lại nếu chưa có",
    );
    s
}

pub open spec fn mat_usb_chu(so: Seq<char>) -> Seq<char> {
    "Hoá đơn "@ + so
        + " đã gửi xuống máy in USB nhưng app không thấy máy in nó (máy bị tắt / lệnh bị huỷ trên máy?) — kiểm khay giấy, in lại nếu chưa có"@
}

/// The same for an invoice that had reached a USB printer.
pub fn chu_mat_usb(so_hoa_don: &str) -> (r: String)
    ensures
        r@ == mat_usb_chu(so_hoa_don@),
{
    let mut s = "Hoá đơn ".to_owned();
    s.append(so_hoa_don);
    s.append(
        " đã gửi xuống máy in USB nhưng app không thấy máy in nó (máy bị tắt / lệnh bị huỷ trên máy?) — kiểm khay giấy, in lại nếu chưa có",
    );
    s
}

pub open spec fn trong_may_chu(so: Seq<char>, ma: MaSuCo) -> Seq<char> {
    "Hoá đơn "@ + so + " đã rời hàng đợi Windows đúng lúc máy in báo "@ + ma.nhan_cua()
        + " — có thể đang nằm trong bộ nhớ máy in; khắc phục xong đợi vài phút, chỉ in lại nếu vẫn không thấy ra"@
}

/// Told where an invoice left the queue just as the printer reported trouble: it may come out by itself.
pub fn chu_co_the_trong_may_in(so_hoa_don: &str, ma: MaSuCo) -> (r: String)
    ensures
        r@ == trong_may_chu(so_hoa_don@, ma),
{
    let mut s = "Hoá đơn ".to_owned();
    s.append(so_hoa_don);
    s.append(" đã rời hàng đợi Windows đúng lúc máy in báo ");
    s.append(ma.nhan());
    s.append(" — có thể đang nằm trong bộ nhớ máy in; khắc phục xong đợi vài phút, chỉ in lại nếu vẫn không thấy ra");
    s
}

pub open spec fn het_han_chu(so: Seq<char>) -> Seq<char> {
    "Hoá đơn "@ + so
        + " theo dõi quá 12 giờ không thấy in (vẫn nằm trong hàng đợi Windows) — kiểm máy in và khay giấy, in lại nếu chưa có"@
}

/// Told where an invoice was watched for too long.
pub fn chu_het_han(so_hoa_don: &str) -> (r: String)
    ensures
        r@ == het_han_chu(so_hoa_don@),
{
    let mut s = "Hoá đơn ".to_owned();
    s.append(so_hoa_don);
    s.append(
        " theo dõi quá 12 giờ không thấy in (vẫn nằm trong hàng đợi Windows) — kiểm máy in và khay giấy, in lại nếu chưa có",
    );
    s
}

pub open spec fn het_han_usb_chu(so: Seq<char>) -> Seq<char> {
    "Hoá đơn "@ + so
        + " theo dõi quá 12 giờ, máy in USB vẫn chưa in xong (hoá đơn nằm trong bộ nhớ máy in) — kiểm máy in và khay giấy, in lại nếu chưa có"@
}

/// The same for an invoice in the memory of a USB printer.
pub fn chu_het_han_usb(so_hoa_don: &str) -> (r: String)
    ensures
        r@ == het_han_usb_chu(so_hoa_don@),
{
    let mut s = "Hoá đơn ".to_owned();
    s.append(so_hoa_don);
    s.append(
        " theo dõi quá 12 giờ, máy in USB vẫn chưa in xong (hoá đơn nằm trong bộ nhớ máy in) — kiểm máy in và khay giấy, in lại nếu chưa có",
    );
    s
}

/// What is told of a job of which all trace was lost.
pub open spec fn chi_tiet_mat(j: TiepV, kl: KetLuanTiep) -> Seq<char> {
    if kl is Mat {
        match j.su_co_luc_roi {
            Some(ma) => trong_may_chu(j.so_hoa_don, ma),
            None => if j.usb is Some {
                mat_usb_chu(j.so_hoa_don)
            } else {
                mat_dau_chu(j.so_hoa_don)
            },
        }
    } else if j.usb is Some {
        het_han_usb_chu(j.so_hoa_don)
    } else {
        het_han_chu(j.so_hoa_don)
    }
}

/// What watching a job further came to, on the screen.
pub open spec fn tt_sau_theo_doi(tt: TtV, j: TiepV, kl: KetLuanTiep) -> TtV {
    if kl is DaIn {
        TtV {
            jobs: tt.jobs.map_values(|x: crate::state::JobLogV| crate::state::doi_da_in(x, j.job_id)),
            dai_jobs: crate::day::giu(tt.dai_jobs, |d: crate::state::DaiV| d.job_id != j.job_id),
            ..tt
        }
    } else {
        tt.sau_mat_dau(
            j.job_id,
            j.so_hoa_don,
            if kl is Mat {
                j.su_co_luc_roi
            } else {
                None
            },
        )
    }
}

/// What watching a job further came to, as it is told to the server. A late "printed" goes only to a
/// server that knows of open outcomes.
pub open spec fn thu_sau_theo_doi(j: TiepV, kl: KetLuanTiep, may_in_mac_dinh: Seq<char>, luc_ms: u64) -> ThuV {
    if kl is DaIn {
        ThuV {
            su_kien: "ket-qua"@,
            gia_tri: (KetQuaV { loi_cuoi: j.ghi_chu, ..KetQuaV::da_in(j.job_id) }).gia_tri(),
            can: CanHoTro::KhongRo,
        }
    } else {
        ThuV {
            su_kien: "su-co"@,
            gia_tri: bao_cao::su_co_cua(
                j.job_id,
                MaSuCo::KhongXacNhan,
                Some(chi_tiet_mat(j, kl)),
                if j.may_in.len() == 0 {
                    may_in_mac_dinh
                } else {
                    j.may_in
                },
                luc_ms,
            ),
            can: CanHoTro::SuCo,
        }
    }
}

/// Takes down what watching a job further came to; gives the letter to the server.
pub fn xu_ly_ket_luan_tiep(
    j: JobTheoDoiTiep,
    kl: KetLuanTiep,
    may_in_mac_dinh: &str,
    tt: &mut TrangThaiChung,
    luc_ms: u64,
) -> (r: ThuDi)
    ensures
        final(tt)@ == tt_sau_theo_doi(old(tt)@, j@, kl),
        r@ == thu_sau_theo_doi(j@, kl, may_in_mac_dinh@, luc_ms),
{
    let in_xong = matches!(kl, KetLuanTiep::DaIn);
    if in_xong {
        let mut kq = KetQua::da_in(j.job_id.clone());
        kq.loi_cuoi = match &j.ghi_chu {
            Some(s) => Some(s.clone()),
            None => None,
        };
        let gia_tri = kq.gia_tri();
        tt.xac_nhan_in_sau(j.job_id.as_str());
        return ThuDi { su_kien: "ket-qua", gia_tri, can: CanHoTro::KhongRo };
    }
    let mat = matches!(kl, KetLuanTiep::Mat(_));
    let so = j.so_hoa_don.as_str();
    let trong_may = if mat {
        j.su_co_luc_roi
    } else {
        None
    };
    let chi_tiet = if mat {
        match j.su_co_luc_roi {
            Some(ma) => chu_co_the_trong_may_in(so, ma),
            None => if j.la_qua_usb() {
                chu_mat_usb(so)
            } else {
                chu_mat_dau(so)
            },
        }
    } else if j.la_qua_usb() {
        chu_het_han_usb(so)
    } else {
        chu_het_han(so)
    };
    tt.mat_dau_job_theo(j.job_id.as_str(), so, trong_may);
    let may_in = if j.may_in.as_str().is_empty() {
        may_in_mac_dinh
    } else {
        j.may_in.as_str()
    };
    let gia_tri = bao_cao::su_co(j.job_id.as_str(), MaSuCo::KhongXacNhan, Some(chi_tiet.as_str()), may_in, luc_ms);
    ThuDi { su_kien: "su-co", gia_tri, can: CanHoTro::SuCo }
}

/// What a connection has been doing, for the one who watches over it.
#[derive(Debug, Clone, Copy, PartialEq, Eq, Structural)]
pub struct CanhClient {
    /// Since when it has been down without a break.
    pub mat_tu: Option<u64>,
}

/// Why the watch over a connection ends.
#[derive(Debug, Clone, Copy, PartialEq, Eq, Structural)]
pub enum LyDoThoat {
    Dung,
    /// The connection said that it is dead.
    ClientChet,
    /// It has been down too long without a word.
    ChetHan,
}

impl CanhClient {
    pub fn moi() -> (r: CanhClient)
        ensures
            r.mat_tu is None,
    {
        CanhClient { mat_tu: None }
    }

    /// One beat. A connection that is up clears the count.
    pub fn mot_nhip(&mut self, dung: bool, chet: bool, da_noi: bool, bay_gio_ms: u64) -> (r: Option<LyDoThoat>)
        ensures
            ({
                let tu = match old(self).mat_tu {
                    Some(t) => t,
                    None => bay_gio_ms,
                };
                if dung {
                    r == Some(LyDoThoat::Dung) && *final(self) == *old(self)
                } else if chet {
                    r == Some(LyDoThoat::ClientChet) && *final(self) == *old(self)
                } else if da_noi {
                    r is None && final(self).mat_tu is None
                } else {
                    final(self).mat_tu == Some(tu) && r == (if da_qua(tu, bay_gio_ms) >= NGUONG_CHET_HAN_MS {
                        Some(LyDoThoat::ChetHan)
                    } else {
                        None
                    })
                }
            }),
    {
        if dung {
            return Some(LyDoThoat::Dung);
        }
        if chet {
            return Some(LyDoThoat::ClientChet);
        }
        if da_noi {
            self.mat_tu = None;
            return None;
        }
        let tu: u64 = match self.mat_tu {
            Some(t) => t,
            None => bay_gio_ms,
        };
        self.mat_tu = Some(tu);
        if bay_gio_ms >= tu && bay_gio_ms - tu >= NGUONG_CHET_HAN_MS {
            Some(LyDoThoat::ChetHan)
        } else {
            None
        }
    }
}

/// The pause before try number `lan`, without what chance adds: 1 s, 2 s, 4 s and so on, 30 s at most.
pub open spec fn cho_goc(lan: u32) -> u64 {
    if lan == 0 {
        1_000
    } else if lan == 1 {
        2_000
    } else if lan == 2 {
        4_000
    } else if lan == 3 {
        8_000
    } else if lan == 4 {
        16_000
    } else {
        30_000
    }
}

/// The pause before try number `lan` of reconnecting, in milliseconds; chance adds a quarter at most, so
/// that not all agents come back at once.
pub fn cho_noi_lai(lan: u32, ngau_nhien: u64) -> (r: u64)
    ensures
        r == cho_goc(lan) + ngau_nhien as int % (cho_goc(lan) as int / 4 + 1),
        cho_goc(lan) <= r <= cho_goc(lan) + cho_goc(lan) / 4,
{
    let goc: u64 = if lan == 0 {
        1_000
    } else if lan == 1 {
        2_000
    } else if lan == 2 {
        4_000
    } else if lan == 3 {
        8_000
    } else if lan == 4 {
        16_000
    } else {
        30_000
    };
    goc + ngau_nhien % (goc / 4 + 1)
}

/// A longer wait never comes before a shorter one.
pub proof fn cho_goc_tang_dan(a: u32, b: u32)
    requires
        a <= b,
    ensures
        cho_goc(a) <= cho_goc(b) <= 30_000,
{
}

/// The text under `khoa` of the JSON object that a text is; nothing where the text is no such object or
/// holds no text there.
pub uninterp spec fn chu_trong_json(s: Seq<char>, khoa: Seq<char>) -> Option<Seq<char>>;

/// `serde_json::from_str` into a `Value`, then `Value::get` and `Value::as_str`: what they find is named,
/// not stated.
#[verifier::external_body]
fn doc_chu_json(s: &str, khoa: &str) -> (r: Option<String>)
    ensures
        chu_cua(r) == chu_trong_json(s@, khoa@),
{
    let v: serde_json::Value = serde_json::from_str(s).ok()?;
    v.get(khoa).and_then(|m| m.as_str()).map(|m| m.to_string())
}

/// A text without the quotation marks around it.
pub open spec fn bo_ngoac_dau(s: Seq<char>) -> Seq<char>
    decreases s.len(),
{
    if s.len() > 0 && s[0] == '"' {
        bo_ngoac_dau(s.subrange(1, s.len() as int))
    } else {
        s
    }
}

pub open spec fn bo_ngoac_cuoi(s: Seq<char>) -> Seq<char>
    decreases s.len(),
{
    if s.len() > 0 && s[s.len() - 1] == '"' {
        bo_ngoac_cuoi(s.subrange(0, s.len() - 1))
    } else {
        s
    }
}

fn cat_ngoac(s: &str) -> (r: String)
    ensures
        r@ == bo_ngoac_cuoi(bo_ngoac_dau(s@)),
{
    let v = chu::ky_tu(s);
    let n: usize = v.len();
    let mut dau: usize = 0;
    assert(v@.subrange(0, n as int) =~= v@);
    while dau < n && v[dau] == '"'
        invariant
            dau <= n,
            n == v@.len(),
            bo_ngoac_dau(v@) == bo_ngoac_dau(v@.subrange(dau as int, n as int)),
        decreases n - dau,
    {
        assert(v@.subrange(dau as int, n as int).subrange(1, n - dau) =~= v@.subrange(dau + 1, n as int));
        dau = dau + 1;
    }
    let ghost g = v@.subrange(dau as int, n as int);
    assert(bo_ngoac_dau(v@) == g);
    let mut cuoi: usize = n;
    while cuoi > dau && v[cuoi - 1] == '"'
        invariant
            dau <= cuoi <= n,
            n == v@.len(),
            bo_ngoac_cuoi(g) == bo_ngoac_cuoi(v@.subrange(dau as int, cuoi as int)),
        decreases cuoi,
    {
        assert(v@.subrange(dau as int, cuoi as int).subrange(0, cuoi - dau - 1) =~= v@.subrange(dau as int, cuoi - 1));
        cuoi = cuoi - 1;
    }
    chu::tu_khoang(&v, dau, cuoi)
}

/// The part of an error that says why the server refuses; nothing for an error of another kind.
pub open spec fn phan_tu_choi(s: Seq<char>) -> Option<Seq<char>> {
    match chu::vi_tri_dau(s, "ConnectError frame:"@, 0) {
        Some(i) => Some(chu::bo_trang(s.subrange(i + "ConnectError frame:"@.len(), s.len() as int))),
        None => None,
    }
}

/// Why the server refuses, given the message in the JSON it sent, if it sent such.
pub open spec fn ly_do_theo(s: Seq<char>, message: Option<Seq<char>>) -> Option<Seq<char>> {
    match phan_tu_choi(s) {
        Some(p) => match message {
            Some(m) => Some(m),
            None => Some(bo_ngoac_cuoi(bo_ngoac_dau(p))),
        },
        None => None,
    }
}

fn tach_tu_choi(s: &str) -> (r: Option<String>)
    ensures
        chu_cua(r) == phan_tu_choi(s@),
{
    let v = chu::ky_tu(s);
    let mau = chu::ky_tu("ConnectError frame:");
    let n: usize = v.len();
    match chu::tim(&v, &mau, 0) {
        Some(i) => {
            let k: usize = i + mau.len();
            Some(chu::cat_trang(chu::tu_khoang(&v, k, n).as_str()))
        },
        None => None,
    }
}

/// Why the server refuses, given what its JSON held.
pub fn ly_do_tu_choi_voi(s: &str, message: Option<String>) -> (r: Option<String>)
    ensures
        chu_cua(r) == ly_do_theo(s@, chu_cua(message)),
{
    match tach_tu_choi(s) {
        Some(p) => match message {
            Some(m) => Some(m),
            None => Some(cat_ngoac(p.as_str())),
        },
        None => None,
    }
}

/// Why the server refuses the connection; nothing for an error of another kind.
pub fn ly_do_tu_choi(s: &str) -> (r: Option<String>)
    ensures
        chu_cua(r) == (match phan_tu_choi(s@) {
            Some(p) => ly_do_theo(s@, chu_trong_json(p, "message"@)),
            None => None,
        }),
{
    match tach_tu_choi(s) {
        Some(p) => {
            let m = doc_chu_json(p.as_str(), "message");
            ly_do_tu_choi_voi(s, m)
        },
        None => None,
    }
}

/// One line of the log as it is sent.
pub open spec fn dong_gui_cua(d: DongGuiV) -> Gt {
    Gt::DoiTuong(
        seq![
            ("luc"@, Gt::Chuoi(thoi_gian::iso_chu(d.luc as int))),
            ("suKien"@, Gt::Chuoi(d.su_kien)),
            ("noiDung"@, Gt::Chuoi(d.noi_dung)),
        ],
    )
}

/// A batch of the log as it is sent.
pub open spec fn lo_gui_cua(lo: Seq<DongGuiV>, bo_qua: u64) -> Gt {
    Gt::DoiTuong(
        seq![
            ("dong"@, Gt::Mang(lo.map_values(|d: DongGuiV| dong_gui_cua(d)))),
            ("boQua"@, Gt::So(bo_qua as int)),
            ("phienBan"@, Gt::Chuoi(bao_cao::PHIEN_BAN@)),
        ],
    )
}

pub fn payload_nhat_ky(lo: &Vec<DongGui>, bo_qua: u64) -> (r: GiaTri)
    ensures
        r@ == lo_gui_cua(xem(lo@), bo_qua),
{
    let ghost f = |d: DongGuiV| dong_gui_cua(d);
    let mut dong: Vec<GiaTri> = Vec::new();
    let mut i: usize = 0;
    while i < lo.len()
        invariant
            f == (|d: DongGuiV| dong_gui_cua(d)),
            i <= lo@.len(),
            dong@.len() == i,
            forall|k: int| 0 <= k < i ==> (#[trigger] dong@[k])@ == f(lo@[k]@),
        decreases lo@.len() - i,
    {
        let d = &lo[i];
        let mut v: Vec<(String, GiaTri)> = Vec::new();
        them_truong(&mut v, "luc", GiaTri::tu_chu(thoi_gian::iso_utc(d.luc).as_str()));
        them_truong(&mut v, "suKien", GiaTri::tu_chu(d.su_kien.as_str()));
        them_truong(&mut v, "noiDung", GiaTri::tu_chu(d.noi_dung.as_str()));
        assert(cac_truong(v@) =~= dong_gui_cua(d@)->DoiTuong_0);
        dong.push(GiaTri::doi_tuong(v));
        i = i + 1;
    }
    assert(cac_phan_tu(dong@) =~= xem(lo@).map_values(f));
    let mut v: Vec<(String, GiaTri)> = Vec::new();
    them_truong(&mut v, "dong", GiaTri::mang(dong));
    them_truong(&mut v, "boQua", GiaTri::tu_so(bo_qua));
    them_truong(&mut v, "phienBan", GiaTri::tu_chu(bao_cao::PHIEN_BAN));
    assert(cac_truong(v@) =~= lo_gui_cua(xem(lo@), bo_qua)->DoiTuong_0);
    GiaTri::doi_tuong(v)
}

/// What the server's reply to a batch means: taken, or why not.
pub open spec fn ack_nhat_ky(g: Gt) -> Result<(), Seq<char>> {
    if g.bool_cua("ok"@) == Some(true) {
        Ok(())
    } else {
        match g.chuoi("loi"@) {
            Some(s) => Err(s),
            None => Err("ack khong ok"@),
        }
    }
}

pub fn doc_ack_nhat_ky(g: &GiaTri) -> (r: Result<(), String>)
    ensures
        ack_nhat_ky(g@) == (match r {
            Ok(_) => Ok::<(), Seq<char>>(()),
            Err(e) => Err(e@),
        }),
{
    let ok = match g.bool_cua("ok") {
        Some(b) => b,
        None => false,
    };
    if ok {
        return Ok(());
    }
    match g.chuoi("loi") {
        Some(s) => Err(s.to_owned()),
        None => Err("ack khong ok".to_owned()),
    }
}

/// How the sending of the log has been going.
#[derive(Debug)]
pub struct NhipGuiNhatKy {
    nghi_ms: u64,
    loi_truoc: Option<String>,
}

pub ghost struct NhipV {
    pub nghi_ms: u64,
    pub loi_truoc: Option<Seq<char>>,
}

impl View for NhipGuiNhatKy {
    type V = NhipV;

    closed spec fn view(&self) -> NhipV {
        NhipV { nghi_ms: self.nghi_ms, loi_truoc: chu_cua(self.loi_truoc) }
    }
}

/// What follows the sending of a batch.
#[derive(Debug, Clone, Copy, PartialEq, Eq, Structural)]
pub struct SauLo {
    /// The batch goes back to the buffer.
    pub tra_lai: bool,
    /// The state of the sending has changed and is noted.
    pub ghi: bool,
    /// The pause before the next batch, in milliseconds.
    pub ngu_ms: u64,
}

impl NhipV {
    /// After a batch of `so_dong` lines. A failure is noted only where it is another than the last; the
    /// pauses after failures double.
    pub open spec fn sau_lo(self, kq: Result<(), Seq<char>>, so_dong: nat) -> (NhipV, SauLo) {
        match kq {
            Ok(_) => (
                NhipV { nghi_ms: NHIP_NHAT_KY_MS, loi_truoc: None },
                SauLo {
                    tra_lai: false,
                    ghi: self.loi_truoc is Some,
                    ngu_ms: if so_dong < LO_NHAT_KY {
                        NHIP_NHAT_KY_MS
                    } else {
                        0
                    },
                },
            ),
            Err(e) => (
                NhipV {
                    nghi_ms: if self.nghi_ms * 2 > NGHI_NHAT_KY_TOI_DA_MS {
                        NGHI_NHAT_KY_TOI_DA_MS
                    } else {
                        (self.nghi_ms * 2) as u64
                    },
                    loi_truoc: Some(e),
                },
                SauLo { tra_lai: true, ghi: self.loi_truoc != Some(e), ngu_ms: self.nghi_ms },
            ),
        }
    }
}

impl NhipGuiNhatKy {
    pub fn moi() -> (r: NhipGuiNhatKy)
        ensures
            r@ == (NhipV { nghi_ms: NHIP_NHAT_KY_MS, loi_truoc: None }),
    {
        NhipGuiNhatKy { nghi_ms: NHIP_NHAT_KY_MS, loi_truoc: None }
    }

    pub fn sau_lo(&mut self, kq: Result<(), String>, so_dong: usize) -> (r: SauLo)
        ensures
            (final(self)@, r) == old(self)@.sau_lo(
                match kq {
                    Ok(_) => Ok(()),
                    Err(e) => Err(e@),
                },
                so_dong as nat,
            ),
    {
        match kq {
            Ok(_) => {
                let ghi = self.loi_truoc.is_some();
                self.loi_truoc = None;
                self.nghi_ms = NHIP_NHAT_KY_MS;
                SauLo {
                    tra_lai: false,
                    ghi,
                    ngu_ms: if so_dong < LO_NHAT_KY {
                        NHIP_NHAT_KY_MS
                    } else {
                        0
                    },
                }
            },
            Err(e) => {
                let ghi = match &self.loi_truoc {
                    Some(cu) => !chu::bang(cu.as_str(), e.as_str()),
                    None => true,
                };
                self.loi_truoc = Some(e);
                let ngu_ms: u64 = self.nghi_ms;
                self.nghi_ms = if ngu_ms > NGHI_NHAT_KY_TOI_DA_MS / 2 {
                    NGHI_NHAT_KY_TOI_DA_MS
                } else {
                    ngu_ms * 2
                };
                SauLo { tra_lai: true, ghi, ngu_ms }
            },
        }
    }
}

/// Whether the queue is asked for now: a new connection that keeps one, or the time has come.
pub fn nen_hoi_hang_doi(the_he_da_hoi: Option<u64>, the_he: u64, luc_hoi_ms: u64, bay_gio_ms: u64) -> (r: bool)
    ensures
        r == (the_he_da_hoi != Some(the_he) || da_qua(luc_hoi_ms, bay_gio_ms) >= NHIP_LAM_MOI_MS),
{
    let cu = match the_he_da_hoi {
        Some(t) => t == the_he,
        None => false,
    };
    !cu || (bay_gio_ms >= luc_hoi_ms && bay_gio_ms - luc_hoi_ms >= NHIP_LAM_MOI_MS)
}

/// A new connection is open: the last error is forgotten, and the queue waits for this connection.
pub fn da_mo_ket_noi(tt: &mut TrangThaiChung)
    requires
        old(tt)@.hang_doi.hop_le(),
    ensures
        final(tt)@ == (TtV {
            da_noi: true,
            thong_bao_cuoi: None,
            tu_choi_ket_noi: None,
            hang_doi: HdV { cua_ket_noi_nay: false, ..old(tt)@.hang_doi.dong_het() },
            ..old(tt)@
        }),
        final(tt)@.hang_doi.hop_le(),
{
    tt.da_noi = true;
    tt.thong_bao_cuoi = None;
    tt.tu_choi_ket_noi = None;
    tt.hang_doi.ket_noi_moi();
}

/// The server has said what it understands.
pub fn da_nhan_cau_hinh(tt: &mut TrangThaiChung, ho_tro: HoTro)
    requires
        old(tt)@.hang_doi.hop_le(),
    ensures
        final(tt)@ == (TtV {
            server_ban_cu: false,
            hang_doi: old(tt)@.hang_doi.sau_cau_hinh(ho_tro.hang_doi),
            ..old(tt)@
        }),
        final(tt)@.hang_doi.hop_le(),
{
    tt.server_ban_cu = false;
    tt.hang_doi.nhan_cau_hinh(ho_tro.hang_doi);
}

/// The connection failed with an error. Says whether it was up until now, and whether the server's reason
/// for refusing is news: each is noted once, not at every try.
pub fn loi_ket_noi(tt: &mut TrangThaiChung, chu: &str) -> (r: (bool, bool))
    ensures
        r.0 == old(tt)@.da_noi,
        ({
            let ly_do = match phan_tu_choi(chu@) {
                Some(p) => ly_do_theo(chu@, chu_trong_json(p, "message"@)),
                None => None,
            };
            let moi = ly_do is Some && old(tt)@.tu_choi_ket_noi != ly_do;
            &&& r.1 == moi
            &&& final(tt)@ == (TtV {
                da_noi: false,
                thong_bao_cuoi: Some("lỗi socket: "@ + chu@),
                tu_choi_ket_noi: if moi {
                    ly_do
                } else {
                    old(tt)@.tu_choi_ket_noi
                },
                ..old(tt)@
            })
        }),
{
    let dang_noi = tt.da_noi;
    tt.da_noi = false;
    let mut s = "lỗi socket: ".to_owned();
    s.append(chu);
    tt.thong_bao_cuoi = Some(s);
    let mut moi = false;
    if let Some(ly_do) = ly_do_tu_choi(chu) {
        let cu = match &tt.tu_choi_ket_noi {
            Some(x) => crate::chu::bang(x.as_str(), ly_do.as_str()),
            None => false,
        };
        if !cu {
            tt.tu_choi_ket_noi = Some(ly_do);
            moi = true;
        }
    }
    (dang_noi, moi)
}

/// The connection was down too long without a word.
pub fn qua_lau_khong_noi(tt: &mut TrangThaiChung)
    ensures
        final(tt)@ == (TtV { thong_bao_cuoi: Some("mất kết nối >60s, đang nối lại..."@), ..old(tt)@ }),
{
    tt.thong_bao_cuoi = Some("mất kết nối >60s, đang nối lại...".to_owned());
}

/// No connection could be made.
pub fn noi_that_bai(tt: &mut TrangThaiChung, chu: &str)
    ensures
        final(tt)@ == (TtV {
            da_noi: false,
            thong_bao_cuoi: Some("nối thất bại (chỉ websocket): "@ + chu@),
            ..old(tt)@
        }),
{
    tt.da_noi = false;
    let mut s = "nối thất bại (chỉ websocket): ".to_owned();
    s.append(chu);
    tt.thong_bao_cuoi = Some(s);
}

/// How reconnecting has been going.
#[derive(Debug)]
pub struct NoiLai {
    lan: u32,
    loi_da_ghi: Option<String>,
}

pub ghost struct NoiLaiV {
    /// Tries since the last connection that opened.
    pub lan: u32,
    /// The last error that was noted since then.
    pub loi_da_ghi: Option<Seq<char>>,
}

impl View for NoiLai {
    type V = NoiLaiV;

    closed spec fn view(&self) -> NoiLaiV {
        NoiLaiV { lan: self.lan, loi_da_ghi: chu_cua(self.loi_da_ghi) }
    }
}

impl NoiLai {
    pub fn moi() -> (r: NoiLai)
        ensures
            r@ == (NoiLaiV { lan: 0, loi_da_ghi: None }),
    {
        NoiLai { lan: 0, loi_da_ghi: None }
    }

    /// A connection is over; one that had opened starts the count anew.
    pub fn het_ket_noi(&mut self, da_mo: bool)
        ensures
            final(self)@ == (if da_mo {
                NoiLaiV { lan: 0, loi_da_ghi: None }
            } else {
                old(self)@
            }),
    {
        if da_mo {
            self.lan = 0;
            self.loi_da_ghi = None;
        }
    }

    /// No connection could be made; whether that is noted: the same error is noted once.
    pub fn that_bai(&mut self, chu: &str) -> (r: bool)
        ensures
            r == (old(self)@.loi_da_ghi != Some(chu@)),
            final(self)@ == (NoiLaiV { loi_da_ghi: Some(chu@), ..old(self)@ }),
    {
        let cu = match &self.loi_da_ghi {
            Some(x) => crate::chu::bang(x.as_str(), chu),
            None => false,
        };
        if cu {
            return false;
        }
        self.loi_da_ghi = Some(chu.to_owned());
        true
    }

    /// The pause before the next try, which is counted.
    pub fn cho_lan_toi(&mut self, ngau_nhien: u64) -> (r: u64)
        ensures
            r == cho_goc(old(self)@.lan) + ngau_nhien as int % (cho_goc(old(self)@.lan) as int / 4 + 1),
            final(self)@ == (NoiLaiV {
                lan: if old(self)@.lan == u32::MAX {
                    u32::MAX
                } else {
                    (old(self)@.lan + 1) as u32
                },
                ..old(self)@
            }),
    {
        let r = cho_noi_lai(self.lan, ngau_nhien);
        self.lan = self.lan.saturating_add(1);
        r
    }
}

/// Texts with a blank between each two.
pub open spec fn noi_bang_trang(ds: Seq<Seq<char>>) -> Seq<char>
    decreases ds.len(),
{
    if ds.len() == 0 {
        Seq::empty()
    } else if ds.len() == 1 {
        ds[0]
    } else {
        noi_bang_trang(ds.drop_last()) + " "@ + ds.last()
    }
}

/// The text of an error event, of the texts of its arguments.
pub fn chu_payload(ds: &Vec<String>) -> (r: String)
    ensures
        r@ == noi_bang_trang(xem(ds@)),
{
    let ghost v = xem(ds@);
    let mut s = "".to_owned();
    proof {
        reveal_strlit("");
    }
    let mut i: usize = 0;
    while i < ds.len()
        invariant
            i <= ds@.len(),
            v == xem(ds@),
            s@ =~= noi_bang_trang(v.subrange(0, i as int)),
        decreases ds@.len() - i,
    {
        if i > 0 {
            s.append(" ");
        }
        s.append(ds[i].as_str());
        proof {
            let x = v.subrange(0, i + 1);
            assert(x.drop_last() =~= v.subrange(0, i as int));
            assert(x.last() == v[i as int]);
        }
        i = i + 1;
    }
    assert(v.subrange(0, v.len() as int) =~= v);
    s
}

/// Takes down how a request about an invoice in the server's queue ended; one that was withdrawn gets a
/// line of its own. `luc` is the time of day.
pub fn ghi_ket_cuc(
    tt: &mut TrangThaiChung,
    muc: &MucHangDoi,
    loai: LoaiViec,
    kc: &KetCuc,
    luc: String,
    bay_gio_ms: u64,
)
    requires
        old(tt)@.hang_doi.hop_le(),
    ensures
        final(tt)@.hang_doi.hop_le(),
        ({
            let t = TtV { hang_doi: old(tt)@.hang_doi.sau_ket_thuc(muc@.id, loai, kc@, bay_gio_ms), ..old(tt)@ };
            final(tt)@ == (if loai == LoaiViec::Huy && kc@ is Duoc {
                t.sau_da_huy(muc@.id, muc@.so_hoa_don, muc@.ten_khach, luc@)
            } else {
                t
            })
        }),
{
    tt.hang_doi.ket_thuc(muc.id.as_str(), loai, kc, bay_gio_ms);
    let duoc = matches!(kc, KetCuc::Duoc { cach: _, noi_dung: _ });
    if loai == LoaiViec::Huy && duoc {
        let khach = match &muc.ten_khach {
            Some(s) => Some(s.clone()),
            None => None,
        };
        tt.ghi_da_huy(muc.id.as_str(), muc.so_hoa_don.as_str(), khach, luc);
    }
}

} // verus!
