//! The server's queue as the screen shows it, and the withdrawal of invoices from it.
use crate::bao_cao::{AnhV, HangDoiServer, MucHangDoi, MucV};
use crate::chu;
use crate::day::{self, dem, giu, giu_cap, giu_dung, vi_tri, vi_tri_la_dau, xem, xem_co};
use vstd::prelude::*;
use vstd::string::*;

pub mod dai;
pub mod khoi;
pub mod luat;
pub mod luat_bam;
pub mod luat_doi;
pub mod luat_dong;
pub mod luat_loat;
pub mod luat_yeu_cau;
pub mod yeu_cau;

verus! {

/// How long "withdrawn" stays on the screen, in milliseconds.
pub const GIU_DA_HUY_MS: u64 = 5_000;

/// How long "no longer followed" stays.
pub const GIU_DA_BO_MS: u64 = 8_000;

/// How long the summary of a batch stays, where all of it succeeded.
pub const GIU_TONG_KET_MS: u64 = 6_000;

/// The queue is asked for again this often.
pub const NHIP_LAM_MOI_MS: u64 = 30_000;

/// A queue older than this may be out of date.
pub const CU_SAU_MS: u64 = 90_000;

/// A confirmation pressed sooner than this after its question appeared is a double click.
pub const CHONG_BAM_DUP_MS: u64 = 500;

/// At most so many requests leave the computer.
pub const SO_LAN_GUI_TOI_DA: u32 = 3;

/// Why an invoice on its way cannot be withdrawn.
pub const VI_SAO_DANG_IN: &'static str =
    "Hoá đơn đang được gửi/in ở máy in — không huỷ được nữa. Nếu không cần tờ này: bỏ tờ in ra.";

/// Why an invoice that may be in the printer cannot be withdrawn.
pub const VI_SAO_CHUA_XAC_NHAN: &'static str =
    "Hoá đơn đã gửi xuống máy in nhưng chưa xác nhận đã in — có thể đang nằm trong bộ nhớ máy in, không huỷ được từ xa. Muốn bỏ hẳn: xoá lệnh trong hàng đợi Windows (nếu còn), tắt máy in 10 giây (MỌI hoá đơn trong bộ nhớ máy sẽ mất) → bật lại → kiểm khay → in lại cái cần. Rồi bấm \"Bỏ khỏi hàng đợi\".";

pub open spec fn xac_nhan_huy_chu(so: Seq<char>) -> Seq<char> {
    "Huỷ lệnh in "@ + so + "? Hoá đơn này sẽ KHÔNG được in."@
}

/// The question before a withdrawal; it names the invoice.
pub fn chu_xac_nhan_huy(so_hoa_don: &str) -> (r: String)
    ensures
        r@ == xac_nhan_huy_chu(so_hoa_don@),
{
    let mut s = "Huỷ lệnh in ".to_owned();
    s.append(so_hoa_don);
    s.append("? Hoá đơn này sẽ KHÔNG được in.");
    s
}

pub open spec fn xac_nhan_bo_chu(so: Seq<char>) -> Seq<char> {
    "Bỏ "@ + so
        + " khỏi hàng đợi? Việc này KHÔNG chặn việc in — hoá đơn còn trong máy in vẫn sẽ in ra. Hệ thống chỉ thôi theo dõi."@
}

/// The question before an invoice is no longer followed.
pub fn chu_xac_nhan_bo(so_hoa_don: &str) -> (r: String)
    ensures
        r@ == xac_nhan_bo_chu(so_hoa_don@),
{
    let mut s = "Bỏ ".to_owned();
    s.append(so_hoa_don);
    s.append(
        " khỏi hàng đợi? Việc này KHÔNG chặn việc in — hoá đơn còn trong máy in vẫn sẽ in ra. Hệ thống chỉ thôi theo dõi.",
    );
    s
}

/// What is asked of the server for an invoice.
#[derive(Debug, Clone, Copy, PartialEq, Eq, Structural)]
pub enum LoaiViec {
    /// Withdraw it: it will not be printed.
    Huy,
    /// No longer follow it: it may still come out.
    BoTheoDoi,
}

impl LoaiViec {
    pub open spec fn ten_su_kien(self) -> Seq<char> {
        match self {
            LoaiViec::Huy => "yeu-cau-huy"@,
            LoaiViec::BoTheoDoi => "yeu-cau-bo-theo-doi"@,
        }
    }

    pub fn su_kien(self) -> (r: &'static str)
        ensures
            r@ == self.ten_su_kien(),
    {
        match self {
            LoaiViec::Huy => "yeu-cau-huy",
            LoaiViec::BoTheoDoi => "yeu-cau-bo-theo-doi",
        }
    }
}

/// What came of a request; each case is something known for certain.
#[derive(Debug, Clone, PartialEq, Eq)]
pub enum KetCuc {
    /// The server said yes, for this very invoice.
    Duoc { cach: String, noi_dung: String },
    /// The server said no.
    KhongDuoc { loi: String, noi_dung: String },
    /// No request ever left: nothing was done.
    ChuaGui { ly_do: String },
    /// A request left and no readable reply came: the server may have done it.
    ChuaRo { ly_do: String },
}

pub ghost enum KetCucV {
    Duoc { cach: Seq<char>, noi_dung: Seq<char> },
    KhongDuoc { loi: Seq<char>, noi_dung: Seq<char> },
    ChuaGui { ly_do: Seq<char> },
    ChuaRo { ly_do: Seq<char> },
}

impl View for KetCuc {
    type V = KetCucV;

    open spec fn view(&self) -> KetCucV {
        match self {
            KetCuc::Duoc { cach, noi_dung } => KetCucV::Duoc { cach: cach@, noi_dung: noi_dung@ },
            KetCuc::KhongDuoc { loi, noi_dung } => KetCucV::KhongDuoc { loi: loi@, noi_dung: noi_dung@ },
            KetCuc::ChuaGui { ly_do } => KetCucV::ChuaGui { ly_do: ly_do@ },
            KetCuc::ChuaRo { ly_do } => KetCucV::ChuaRo { ly_do: ly_do@ },
        }
    }
}

impl KetCucV {
    /// The line in the log; it begins with "ok=true" or "ok=false".
    pub open spec fn dong(self, muc: MucV) -> Seq<char> {
        let dau = "so="@ + muc.so_hoa_don + " id="@ + muc.id;
        match self {
            KetCucV::Duoc { cach, noi_dung } => "ok=true cach="@ + (if cach.len() == 0 {
                "-"@
            } else {
                cach
            }) + " "@ + dau,
            KetCucV::KhongDuoc { loi, noi_dung } => "ok=false loi="@ + loi + " "@ + dau + " noi_dung="@ + noi_dung,
            KetCucV::ChuaGui { ly_do } => "ok=false chua_gui ly_do="@ + ly_do + " "@ + dau,
            KetCucV::ChuaRo { ly_do } => "ok=false chua_ro ly_do="@ + ly_do + " "@ + dau,
        }
    }
}

impl KetCuc {
    pub fn dong_nhat_ky(&self, muc: &MucHangDoi) -> (r: String)
        ensures
            r@ == self@.dong(muc@),
    {
        let mut dau = "so=".to_owned();
        dau.append(muc.so_hoa_don.as_str());
        dau.append(" id=");
        dau.append(muc.id.as_str());
        match self {
            KetCuc::Duoc { cach, noi_dung: _ } => {
                let mut s = "ok=true cach=".to_owned();
                if cach.as_str().is_empty() {
                    s.append("-");
                } else {
                    s.append(cach.as_str());
                }
                s.append(" ");
                s.append(dau.as_str());
                s
            },
            KetCuc::KhongDuoc { loi, noi_dung } => {
                let mut s = "ok=false loi=".to_owned();
                s.append(loi.as_str());
                s.append(" ");
                s.append(dau.as_str());
                s.append(" noi_dung=");
                s.append(noi_dung.as_str());
                s
            },
            KetCuc::ChuaGui { ly_do } => {
                let mut s = "ok=false chua_gui ly_do=".to_owned();
                s.append(ly_do.as_str());
                s.append(" ");
                s.append(dau.as_str());
                s
            },
            KetCuc::ChuaRo { ly_do } => {
                let mut s = "ok=false chua_ro ly_do=".to_owned();
                s.append(ly_do.as_str());
                s.append(" ");
                s.append(dau.as_str());
                s
            },
        }
    }
}

/// What is going on with one invoice on the screen. Times are in milliseconds.
#[derive(Debug, Clone, PartialEq, Eq)]
enum ThaoTac {
    XacNhanHuy { luc: u64 },
    XacNhanBo { luc: u64 },
    ViSao,
    /// `lan` is the number of the try, `da_gui` how many requests have left.
    Dang { loai: LoaiViec, lan: u32, da_gui: u32 },
    Xong { loai: LoaiViec, luc: u64, noi_dung: String },
    ThatBai { loai: LoaiViec, noi_dung: String },
    ChuaRo { loai: LoaiViec },
}

pub ghost enum ThaoTacV {
    XacNhanHuy { luc: u64 },
    XacNhanBo { luc: u64 },
    ViSao,
    Dang { loai: LoaiViec, lan: u32, da_gui: u32 },
    Xong { loai: LoaiViec, luc: u64, noi_dung: Seq<char> },
    ThatBai { loai: LoaiViec, noi_dung: Seq<char> },
    ChuaRo { loai: LoaiViec },
}

impl View for ThaoTac {
    type V = ThaoTacV;

    closed spec fn view(&self) -> ThaoTacV {
        match self {
            ThaoTac::XacNhanHuy { luc } => ThaoTacV::XacNhanHuy { luc: *luc },
            ThaoTac::XacNhanBo { luc } => ThaoTacV::XacNhanBo { luc: *luc },
            ThaoTac::ViSao => ThaoTacV::ViSao,
            ThaoTac::Dang { loai, lan, da_gui } => ThaoTacV::Dang { loai: *loai, lan: *lan, da_gui: *da_gui },
            ThaoTac::Xong { loai, luc, noi_dung } => ThaoTacV::Xong { loai: *loai, luc: *luc, noi_dung: noi_dung@ },
            ThaoTac::ThatBai { loai, noi_dung } => ThaoTacV::ThatBai { loai: *loai, noi_dung: noi_dung@ },
            ThaoTac::ChuaRo { loai } => ThaoTacV::ChuaRo { loai: *loai },
        }
    }
}

impl ThaoTacV {
    /// A question or an explanation.
    pub open spec fn hop_thoai(self) -> bool {
        self is XacNhanHuy || self is XacNhanBo || self is ViSao
    }

    /// Under way, or just done: nothing may be opened over it.
    pub open spec fn ban(self) -> bool {
        self is Dang || self is Xong
    }
}

impl ThaoTac {
    fn la_hop_thoai(&self) -> (r: bool)
        ensures
            r == self@.hop_thoai(),
    {
        match self {
            ThaoTac::XacNhanHuy { luc: _ } => true,
            ThaoTac::XacNhanBo { luc: _ } => true,
            ThaoTac::ViSao => true,
            _ => false,
        }
    }

    fn dang_ban(&self) -> (r: bool)
        ensures
            r == self@.ban(),
    {
        match self {
            ThaoTac::Dang { loai: _, lan: _, da_gui: _ } => true,
            ThaoTac::Xong { loai: _, luc: _, noi_dung: _ } => true,
            _ => false,
        }
    }
}

#[derive(Debug)]
struct MucThaoTac {
    /// The entry as it was when the button was pressed.
    muc: MucHangDoi,
    /// The line it stood on then.
    vi_tri: usize,
    tt: ThaoTac,
}

pub ghost struct MttV {
    pub muc: MucV,
    pub vi_tri: usize,
    pub tt: ThaoTacV,
}

impl View for MucThaoTac {
    type V = MttV;

    closed spec fn view(&self) -> MttV {
        MttV { muc: self.muc@, vi_tri: self.vi_tri, tt: self.tt@ }
    }
}

/// The withdrawal of everything that is held back.
#[derive(Debug)]
enum Loat {
    /// Asked; the list is fixed when the question appears.
    XacNhan { ids: Vec<String>, luc: u64 },
    /// Under way; only what belongs to the list counts.
    Dang { ids: Vec<String>, xong: usize, duoc: usize },
    Xong { tong: usize, duoc: usize, luc: u64 },
}

pub ghost enum LoatV {
    XacNhan { ids: Seq<Seq<char>>, luc: u64 },
    Dang { ids: Seq<Seq<char>>, xong: usize, duoc: usize },
    Xong { tong: usize, duoc: usize, luc: u64 },
}

impl View for Loat {
    type V = LoatV;

    closed spec fn view(&self) -> LoatV {
        match self {
            Loat::XacNhan { ids, luc } => LoatV::XacNhan { ids: xem(ids@), luc: *luc },
            Loat::Dang { ids, xong, duoc } => LoatV::Dang { ids: xem(ids@), xong: *xong, duoc: *duoc },
            Loat::Xong { tong, duoc, luc } => LoatV::Xong { tong: *tong, duoc: *duoc, luc: *luc },
        }
    }
}

/// The queue on the agent's side.
#[derive(Debug)]
pub struct HangDoiApp {
    ho_tro: bool,
    anh: Option<HangDoiServer>,
    luc_nhan: Option<u64>,
    /// The queue came over the present connection.
    cua_ket_noi_nay: bool,
    thao_tac: Vec<MucThaoTac>,
    loat: Option<Loat>,
}

pub ghost struct HdV {
    pub ho_tro: bool,
    pub anh: Option<AnhV>,
    pub luc_nhan: Option<u64>,
    pub cua_ket_noi_nay: bool,
    pub thao_tac: Seq<MttV>,
    pub loat: Option<LoatV>,
}

impl View for HangDoiApp {
    type V = HdV;

    closed spec fn view(&self) -> HdV {
        HdV {
            ho_tro: self.ho_tro,
            anh: xem_co(self.anh),
            luc_nhan: self.luc_nhan,
            cua_ket_noi_nay: self.cua_ket_noi_nay,
            thao_tac: xem(self.thao_tac@),
            loat: xem_co(self.loat),
        }
    }
}

/// An invoice whose withdrawal is certain to take effect.
pub open spec fn huy_duoc_cua(m: MucV) -> bool {
    m.huy == "chac_chan"@ && m.trang_thai == "cho_in"@
}

fn huy_duoc(muc: &MucHangDoi) -> (r: bool)
    ensures
        r == huy_duoc_cua(muc@),
{
    chu::bang(muc.huy.as_str(), "chac_chan") && chu::bang(muc.trang_thai.as_str(), "cho_in")
}

/// An invoice that was sent and not confirmed.
pub open spec fn chua_xac_nhan_cua(m: MucV) -> bool {
    m.nhom == "chua_xac_nhan"@ || m.trang_thai == "khong_ro"@
}

fn la_chua_xac_nhan(muc: &MucHangDoi) -> (r: bool)
    ensures
        r == chua_xac_nhan_cua(muc@),
{
    chu::bang(muc.nhom.as_str(), "chua_xac_nhan") || chu::bang(muc.trang_thai.as_str(), "khong_ro")
}

/// All entries of a queue, in the order of their lines.
pub open spec fn cac_muc(a: AnhV) -> Seq<MucV> {
    a.cho_in + a.chua_xac_nhan
}

/// Counts of a queue: waiting, held back, not confirmed.
pub open spec fn dem_anh(a: AnhV) -> (nat, nat, nat) {
    (a.cho_in.len(), dem(a.cho_in, |m: MucV| m.tam_giu), a.chua_xac_nhan.len())
}

pub open spec fn tom_tat(d: (nat, nat, nat)) -> Seq<char> {
    "cho_in="@ + chu::thap_phan(d.0) + " tam_giu="@ + chu::thap_phan(d.1) + " chua_xac_nhan="@ + chu::thap_phan(d.2)
}

/// The queue holds the invoice, and its withdrawal is certain to take effect.
pub open spec fn con_huy_duoc(a: AnhV, id: Seq<char>) -> bool {
    exists|i: int| 0 <= i < a.cho_in.len() && (#[trigger] a.cho_in[i]).id == id && huy_duoc_cua(a.cho_in[i])
}

/// Milliseconds from `tu` to `den`, none where that lies in the past.
pub open spec fn da_qua(tu: u64, den: u64) -> int {
    if den >= tu {
        den - tu
    } else {
        0
    }
}

fn qua_ms(tu: u64, den: u64) -> (r: u64)
    ensures
        r == da_qua(tu, den),
{
    if den >= tu {
        den - tu
    } else {
        0
    }
}

pub open spec fn noi_dung_hoac(s: Seq<char>, mac_dinh: Seq<char>) -> Seq<char> {
    if s.len() == 0 {
        mac_dinh
    } else {
        s
    }
}

/// What the screen shows once a request has come to an end. "Withdrawn" is shown only where the server
/// said so.
pub open spec fn sau_ket_cuc(loai: LoaiViec, kc: KetCucV, t: u64) -> ThaoTacV {
    match kc {
        KetCucV::Duoc { cach, noi_dung } => ThaoTacV::Xong {
            loai,
            luc: t,
            noi_dung: match loai {
                LoaiViec::Huy => noi_dung_hoac(noi_dung, "Đã huỷ — hoá đơn chắc chắn không in"@),
                LoaiViec::BoTheoDoi =>
                    "Đã bỏ khỏi hàng đợi — hệ thống KHÔNG biết hoá đơn đã in hay chưa. Kiểm giấy trước khi in lại."@,
            },
        },
        KetCucV::KhongDuoc { loi, noi_dung } => ThaoTacV::ThatBai {
            loai,
            noi_dung: (match loai {
                LoaiViec::Huy => "Không huỷ được: "@,
                LoaiViec::BoTheoDoi => "Không bỏ được: "@,
            }) + noi_dung_hoac(noi_dung, "server từ chối"@),
        },
        KetCucV::ChuaGui { ly_do } => ThaoTacV::ThatBai {
            loai,
            noi_dung: "CHƯA "@ + viec_chu(loai) + " — "@ + (if chu::co_chua(ly_do, "ho tro"@) {
                "server ZaloCRM chưa hỗ trợ việc này từ app — làm trên trang ZaloCRM › Máy in"@
            } else {
                "không gửi được yêu cầu (app mất kết nối với ZaloCRM). Nối lại rồi bấm "@ + viec_chu(loai) + " lại"@
            }) + "."@,
        },
        KetCucV::ChuaRo { ly_do } => ThaoTacV::ChuaRo { loai },
    }
}

pub open spec fn viec_chu(loai: LoaiViec) -> Seq<char> {
    match loai {
        LoaiViec::Huy => "huỷ"@,
        LoaiViec::BoTheoDoi => "bỏ"@,
    }
}

fn chu_viec(loai: LoaiViec) -> (r: &'static str)
    ensures
        r@ == viec_chu(loai),
{
    match loai {
        LoaiViec::Huy => "huỷ",
        LoaiViec::BoTheoDoi => "bỏ",
    }
}

fn thao_tac_sau(loai: LoaiViec, kc: &KetCuc, t: u64) -> (r: ThaoTac)
    ensures
        r@ == sau_ket_cuc(loai, kc@, t),
{
    match kc {
        KetCuc::Duoc { cach: _, noi_dung } => {
            let nd = match loai {
                LoaiViec::Huy => if noi_dung.as_str().is_empty() {
                    "Đã huỷ — hoá đơn chắc chắn không in".to_owned()
                } else {
                    noi_dung.clone()
                },
                LoaiViec::BoTheoDoi =>
                    "Đã bỏ khỏi hàng đợi — hệ thống KHÔNG biết hoá đơn đã in hay chưa. Kiểm giấy trước khi in lại.".to_owned(),
            };
            ThaoTac::Xong { loai, luc: t, noi_dung: nd }
        },
        KetCuc::KhongDuoc { loi: _, noi_dung } => {
            let mut s = match loai {
                LoaiViec::Huy => "Không huỷ được: ".to_owned(),
                LoaiViec::BoTheoDoi => "Không bỏ được: ".to_owned(),
            };
            if noi_dung.as_str().is_empty() {
                s.append("server từ chối");
            } else {
                s.append(noi_dung.as_str());
            }
            ThaoTac::ThatBai { loai, noi_dung: s }
        },
        KetCuc::ChuaGui { ly_do } => {
            let vi_sao = if chu::chua(ly_do.as_str(), "ho tro") {
                "server ZaloCRM chưa hỗ trợ việc này từ app — làm trên trang ZaloCRM › Máy in".to_owned()
            } else {
                let mut v = "không gửi được yêu cầu (app mất kết nối với ZaloCRM). Nối lại rồi bấm ".to_owned();
                v.append(chu_viec(loai));
                v.append(" lại");
                v
            };
            let mut s = "CHƯA ".to_owned();
            s.append(chu_viec(loai));
            s.append(" — ");
            s.append(vi_sao.as_str());
            s.append(".");
            ThaoTac::ThatBai { loai, noi_dung: s }
        },
        KetCuc::ChuaRo { ly_do: _ } => ThaoTac::ChuaRo { loai },
    }
}

impl HdV {
    pub open spec fn rong() -> HdV {
        HdV {
            ho_tro: false,
            anh: None,
            luc_nhan: None,
            cua_ket_noi_nay: false,
            thao_tac: Seq::empty(),
            loat: None,
        }
    }

    /// Buttons work: connected, and the queue came over this connection.
    pub open spec fn bam_duoc(self, da_noi: bool) -> bool {
        da_noi && self.ho_tro && self.cua_ket_noi_nay && self.anh is Some
    }

    /// The line of an invoice in the queue.
    pub open spec fn dong_trong_anh(self, id: Seq<char>) -> Option<int> {
        match self.anh {
            Some(a) => vi_tri(cac_muc(a), |m: MucV| m.id == id, 0),
            None => None,
        }
    }

    /// An invoice's entry in the queue.
    pub open spec fn muc_cua(self, id: Seq<char>) -> Option<MucV> {
        match self.dong_trong_anh(id) {
            Some(i) => Some(cac_muc(self.anh->0)[i]),
            None => None,
        }
    }

    /// Where what goes on with an invoice stands.
    pub open spec fn dong_thao_tac(self, id: Seq<char>) -> Option<int> {
        vi_tri(self.thao_tac, |m: MttV| m.muc.id == id, 0)
    }

    /// What goes on, without the invoice's entry.
    pub open spec fn bo_dong(self, id: Seq<char>) -> Seq<MttV> {
        match self.dong_thao_tac(id) {
            Some(i) => self.thao_tac.remove(i),
            None => self.thao_tac,
        }
    }

    /// What goes on with an invoice.
    pub open spec fn tt_cua(self, id: Seq<char>) -> Option<ThaoTacV> {
        match self.dong_thao_tac(id) {
            Some(i) => Some(self.thao_tac[i].tt),
            None => None,
        }
    }

    /// Something is under way with the invoice, or was just done.
    pub open spec fn dang_ban(self, id: Seq<char>) -> bool {
        self.tt_cua(id) matches Some(t) && t.ban()
    }

    /// A request for the invoice is under way.
    pub open spec fn dang_yeu_cau(self, id: Seq<char>) -> bool {
        exists|k: int|
            0 <= k < self.thao_tac.len() && (#[trigger] self.thao_tac[k]).muc.id == id && self.thao_tac[k].tt is Dang
    }

    pub open spec fn sau_cau_hinh(self, ho_tro: bool) -> HdV {
        if ho_tro {
            HdV { ho_tro, ..self }
        } else {
            HdV {
                ho_tro,
                anh: None,
                luc_nhan: None,
                cua_ket_noi_nay: false,
                thao_tac: giu(self.thao_tac, |m: MttV| m.tt is Dang),
                loat: None,
            }
        }
    }

    /// With every question and explanation closed.
    pub open spec fn dong_het(self) -> HdV {
        HdV {
            thao_tac: giu(self.thao_tac, |m: MttV| !m.tt.hop_thoai()),
            loat: if self.loat matches Some(LoatV::XacNhan { ids, luc }) {
                None
            } else {
                self.loat
            },
            ..self
        }
    }

    /// What goes on with an invoice still applies to a new queue.
    pub open spec fn con_ap_dung(self, m: MttV) -> bool {
        match m.tt {
            ThaoTacV::XacNhanHuy { luc } => self.muc_cua(m.muc.id) matches Some(x) && huy_duoc_cua(x),
            ThaoTacV::XacNhanBo { luc } => self.muc_cua(m.muc.id) matches Some(x) && chua_xac_nhan_cua(x),
            ThaoTacV::ViSao => self.muc_cua(m.muc.id) matches Some(x) && !huy_duoc_cua(x),
            _ => true,
        }
    }

    pub open spec fn sau_anh(self, anh: AnhV, t: u64) -> HdV {
        let s = HdV { anh: Some(anh), luc_nhan: Some(t), cua_ket_noi_nay: true, ..self };
        HdV {
            thao_tac: giu(self.thao_tac, |m: MttV| s.con_ap_dung(m)),
            loat: match self.loat {
                Some(LoatV::XacNhan { ids, luc }) => {
                    let con = giu(ids, |id: Seq<char>| con_huy_duoc(anh, id));
                    if con.len() == 0 {
                        None
                    } else {
                        Some(LoatV::XacNhan { ids: con, luc })
                    }
                },
                l => l,
            },
            ..s
        }
    }

    /// With `tt` opened for an invoice, where that may be: only one question at a time, and none over
    /// what is under way.
    pub open spec fn sau_mo(self, id: Seq<char>, tt: ThaoTacV) -> (HdV, bool) {
        match self.dong_trong_anh(id) {
            None => (self, false),
            Some(k) => if self.dang_ban(id) {
                (self, false)
            } else {
                let s = HdV { thao_tac: self.bo_dong(id), ..self };
                let d = s.dong_het();
                (
                    HdV {
                        thao_tac: d.thao_tac.push(
                            MttV { muc: cac_muc(self.anh->0)[k], vi_tri: k as usize, tt },
                        ),
                        ..d
                    },
                    true,
                )
            },
        }
    }

    /// After "withdraw" was pressed on a line: the question is open where buttons work and the invoice can
    /// be withdrawn.
    pub open spec fn sau_bam_huy(self, id: Seq<char>, da_noi: bool, t: u64) -> (HdV, bool) {
        if self.bam_duoc(da_noi) && (self.muc_cua(id) matches Some(m) && huy_duoc_cua(m)) {
            self.sau_mo(id, ThaoTacV::XacNhanHuy { luc: t })
        } else {
            (self, false)
        }
    }

    /// After "why?" was pressed on a line: the explanation is open where the invoice cannot be withdrawn.
    pub open spec fn sau_bam_vi_sao(self, id: Seq<char>) -> (HdV, bool) {
        if self.muc_cua(id) matches Some(m) && !huy_duoc_cua(m) {
            self.sau_mo(id, ThaoTacV::ViSao)
        } else {
            (self, false)
        }
    }

    /// After "take off the queue" was pressed: the question is open where buttons work and the invoice is
    /// one that was not confirmed.
    pub open spec fn sau_bam_bo(self, id: Seq<char>, da_noi: bool, t: u64) -> (HdV, bool) {
        if self.bam_duoc(da_noi) && (self.muc_cua(id) matches Some(m) && chua_xac_nhan_cua(m)) {
            self.sau_mo(id, ThaoTacV::XacNhanBo { luc: t })
        } else {
            (self, false)
        }
    }

    /// With what is shown of an invoice closed, unless it is under way or just done.
    pub open spec fn sau_dong(self, id: Seq<char>) -> HdV {
        HdV { thao_tac: giu(self.thao_tac, |m: MttV| m.muc.id != id || m.tt.ban()), ..self }
    }

    /// The time at which the question was put whose answer starts `loai`.
    pub open spec fn luc_hoi(self, id: Seq<char>, loai: LoaiViec) -> Option<u64> {
        match self.tt_cua(id) {
            Some(ThaoTacV::XacNhanHuy { luc }) => if loai == LoaiViec::Huy {
                Some(luc)
            } else {
                None
            },
            Some(ThaoTacV::XacNhanBo { luc }) => if loai == LoaiViec::BoTheoDoi {
                Some(luc)
            } else {
                None
            },
            _ => None,
        }
    }

    /// The answer to the question counts.
    pub open spec fn duoc_bat_dau(self, id: Seq<char>, loai: LoaiViec, da_noi: bool, t: u64) -> bool {
        self.bam_duoc(da_noi) && (self.luc_hoi(id, loai) matches Some(luc) && da_qua(luc, t) >= CHONG_BAM_DUP_MS)
    }

    /// With `tt` in the place of what goes on at line `i`.
    pub open spec fn doi_tt(self, i: int, tt: ThaoTacV) -> HdV {
        HdV { thao_tac: self.thao_tac.update(i, MttV { tt, ..self.thao_tac[i] }), ..self }
    }

    /// The batch after one of its invoices came to an end.
    pub open spec fn loat_sau(self, id: Seq<char>, duoc_huy: bool, t: u64) -> Option<LoatV> {
        match self.loat {
            Some(LoatV::Dang { ids, xong, duoc }) => if ids.contains(id) {
                let x = (xong + 1) as usize;
                let d = if duoc_huy {
                    (duoc + 1) as usize
                } else {
                    duoc
                };
                if x >= ids.len() {
                    Some(LoatV::Xong { tong: ids.len() as usize, duoc: d, luc: t })
                } else {
                    Some(LoatV::Dang { ids, xong: x, duoc: d })
                }
            } else {
                self.loat
            },
            l => l,
        }
    }

    pub open spec fn sau_ket_thuc(self, id: Seq<char>, loai: LoaiViec, kc: KetCucV, t: u64) -> HdV {
        match self.dong_thao_tac(id) {
            Some(i) => if self.thao_tac[i].tt is Dang {
                let s = self.doi_tt(i, sau_ket_cuc(loai, kc, t));
                if loai == LoaiViec::Huy {
                    HdV { loat: self.loat_sau(id, kc is Duoc, t), ..s }
                } else {
                    s
                }
            } else {
                self
            },
            None => self,
        }
    }

    /// The invoices that are held back, can be withdrawn, and are not busy.
    pub open spec fn ids_huy_ca(self) -> Seq<Seq<char>> {
        match self.anh {
            Some(a) => giu(a.cho_in, |m: MucV| m.tam_giu && huy_duoc_cua(m) && !self.dang_ban(m.id)).map_values(
                |m: MucV| m.id,
            ),
            None => Seq::empty(),
        }
    }

    pub open spec fn sau_huy_ca(self, da_noi: bool, t: u64) -> (HdV, bool) {
        if !self.bam_duoc(da_noi) || (self.loat matches Some(LoatV::Dang { ids, xong, duoc })) || self.ids_huy_ca().len()
            == 0 {
            (self, false)
        } else {
            (HdV { loat: Some(LoatV::XacNhan { ids: self.ids_huy_ca(), luc: t }), ..self.dong_het() }, true)
        }
    }

    /// The invoice of a batch can still be withdrawn.
    pub open spec fn vao_loat(self, id: Seq<char>) -> bool {
        self.muc_cua(id) matches Some(m) && huy_duoc_cua(m) && !self.dang_ban(id)
    }

    /// With the withdrawal of one invoice of the batch under way.
    pub open spec fn mot_trong_loat(self, id: Seq<char>) -> HdV {
        HdV {
            thao_tac: self.bo_dong(id).push(
                MttV {
                    muc: self.muc_cua(id)->0,
                    vi_tri: self.dong_trong_anh(id)->0 as usize,
                    tt: ThaoTacV::Dang { loai: LoaiViec::Huy, lan: 1, da_gui: 0 },
                },
            ),
            ..self
        }
    }

    /// The invoices of the batch taken one after the other: the queue afterwards, and those under way.
    pub open spec fn chay_loat(self, ids: Seq<Seq<char>>) -> (HdV, Seq<MucV>)
        decreases ids.len(),
    {
        if ids.len() == 0 {
            (self, Seq::empty())
        } else {
            let (s, ra) = self.chay_loat(ids.drop_last());
            let id = ids.last();
            if s.vao_loat(id) {
                (s.mot_trong_loat(id), ra.push(s.muc_cua(id)->0))
            } else {
                (s, ra)
            }
        }
    }

    pub open spec fn sau_bat_dau_loat(self, da_noi: bool, t: u64) -> (HdV, Seq<MucV>) {
        match self.loat {
            Some(LoatV::XacNhan { ids, luc }) => if self.bam_duoc(da_noi) && da_qua(luc, t) >= CHONG_BAM_DUP_MS {
                let (s, ra) = self.dong_het().chay_loat(ids);
                (
                    HdV {
                        loat: if ra.len() == 0 {
                            None
                        } else {
                            Some(LoatV::Dang { ids: ra.map_values(|m: MucV| m.id), xong: 0, duoc: 0 })
                        },
                        ..s
                    },
                    ra,
                )
            } else {
                (self, Seq::empty())
            },
            _ => (self, Seq::empty()),
        }
    }

    /// What goes on is still to be shown.
    pub open spec fn con_hien(m: MttV, t: u64) -> bool {
        match m.tt {
            ThaoTacV::Xong { loai, luc, noi_dung } => da_qua(luc, t) < (if loai == LoaiViec::Huy {
                GIU_DA_HUY_MS
            } else {
                GIU_DA_BO_MS
            }),
            _ => true,
        }
    }

    pub open spec fn sau_don_dep(self, t: u64) -> HdV {
        HdV {
            thao_tac: giu(self.thao_tac, |m: MttV| HdV::con_hien(m, t)),
            loat: match self.loat {
                Some(LoatV::Xong { tong, duoc, luc }) => if duoc == tong && da_qua(luc, t) >= GIU_TONG_KET_MS {
                    None
                } else {
                    self.loat
                },
                l => l,
            },
            ..self
        }
    }

    /// What always holds: one entry for each invoice, at most one question open (that of the batch
    /// counts), and a batch that counts no more than it has.
    pub open spec fn hop_le(self) -> bool {
        &&& forall|i: int, j: int|
            0 <= i < j < self.thao_tac.len() ==> #[trigger] cap_hop_le(self.thao_tac[i], self.thao_tac[j])
        &&& self.loat matches Some(LoatV::XacNhan { ids, luc }) ==> forall|i: int|
            0 <= i < self.thao_tac.len() ==> !(#[trigger] self.thao_tac[i]).tt.hop_thoai()
        &&& self.loat matches Some(LoatV::Dang { ids, xong, duoc }) ==> duoc <= xong && xong < ids.len() <= usize::MAX
        &&& self.loat matches Some(LoatV::Xong { tong, duoc, luc }) ==> duoc <= tong
        &&& self.anh_vua()
    }

    /// The lines of the queue can be numbered.
    pub open spec fn anh_vua(self) -> bool {
        self.anh matches Some(a) ==> cac_muc(a).len() <= usize::MAX
    }
}

/// Two entries stand side by side: of different invoices, and not both with a question open.
pub open spec fn cap_hop_le(a: MttV, b: MttV) -> bool {
    a.muc.id != b.muc.id && !(a.tt.hop_thoai() && b.tt.hop_thoai())
}

proof fn giu_hop_le(s: Seq<MttV>, p: spec_fn(MttV) -> bool)
    requires
        forall|i: int, j: int| 0 <= i < j < s.len() ==> #[trigger] cap_hop_le(s[i], s[j]),
    ensures
        forall|i: int, j: int| 0 <= i < j < giu(s, p).len() ==> #[trigger] cap_hop_le(giu(s, p)[i], giu(s, p)[j]),
{
    let q = |a: MttV, b: MttV| cap_hop_le(a, b);
    assert forall|i: int, j: int| 0 <= i < j < s.len() implies #[trigger] q(s[i], s[j]) by {
        assert(cap_hop_le(s[i], s[j]));
    }
    giu_cap(s, p, q);
    assert forall|i: int, j: int| 0 <= i < j < giu(s, p).len() implies #[trigger] cap_hop_le(giu(s, p)[i], giu(s, p)[j]) by {
        assert(q(giu(s, p)[i], giu(s, p)[j]));
    }
}

/// Closing every question leaves none open.
proof fn dong_het_hop_le(s: HdV)
    requires
        s.hop_le(),
    ensures
        s.dong_het().hop_le(),
        forall|i: int| 0 <= i < s.dong_het().thao_tac.len() ==> !(#[trigger] s.dong_het().thao_tac[i]).tt.hop_thoai(),
{
    let p = |m: MttV| !m.tt.hop_thoai();
    giu_hop_le(s.thao_tac, p);
    giu_dung(s.thao_tac, p);
}

/// Without its first entry for an invoice, the list holds none for it.
proof fn bo_mot_hop_le(s: HdV, id: Seq<char>)
    requires
        s.hop_le(),
    ensures
        (HdV { thao_tac: s.bo_dong(id), ..s }).hop_le(),
        forall|i: int| 0 <= i < s.bo_dong(id).len() ==> (#[trigger] s.bo_dong(id)[i]).muc.id != id,
{
    let p = |m: MttV| m.muc.id == id;
    vi_tri_la_dau(s.thao_tac, p, 0);
    if let Some(k) = s.dong_thao_tac(id) {
        let v = s.thao_tac.remove(k);
        assert forall|i: int| 0 <= i < v.len() implies (#[trigger] v[i]).muc.id != id by {
            if i < k {
                assert(v[i] == s.thao_tac[i]);
                assert(cap_hop_le(s.thao_tac[i], s.thao_tac[k]));
            } else {
                assert(v[i] == s.thao_tac[i + 1]);
                assert(cap_hop_le(s.thao_tac[k], s.thao_tac[i + 1]));
            }
        }
        assert forall|i: int, j: int| 0 <= i < j < v.len() implies #[trigger] cap_hop_le(v[i], v[j]) by {
            let a = if i < k {
                i
            } else {
                i + 1
            };
            let b = if j < k {
                j
            } else {
                j + 1
            };
            assert(cap_hop_le(s.thao_tac[a], s.thao_tac[b]));
        }
        assert forall|i: int| 0 <= i < v.len() && s.loat matches Some(LoatV::XacNhan { ids, luc }) implies !(
        #[trigger] v[i]).tt.hop_thoai() by {
            let a = if i < k {
                i
            } else {
                i + 1
            };
            assert(!s.thao_tac[a].tt.hop_thoai());
        }
    } else {
        assert forall|i: int| 0 <= i < s.thao_tac.len() implies (#[trigger] s.thao_tac[i]).muc.id != id by {
            assert(!p(s.thao_tac[i]));
        }
    }
}

/// Opening a question keeps what always holds.
proof fn sau_mo_hop_le(s: HdV, id: Seq<char>, tt: ThaoTacV)
    requires
        s.hop_le(),
    ensures
        s.sau_mo(id, tt).0.hop_le(),
{
    if let Some(k) = s.dong_trong_anh(id) {
        if !s.dang_ban(id) {
            bo_mot_hop_le(s, id);
            let s1 = HdV { thao_tac: s.bo_dong(id), ..s };
            dong_het_hop_le(s1);
            giu_dung(s1.thao_tac, |m: MttV| !m.tt.hop_thoai());
            let d = s1.dong_het();
            vi_tri_la_dau(cac_muc(s.anh->0), |m: MucV| m.id == id, 0);
            let moi = MttV { muc: cac_muc(s.anh->0)[k], vi_tri: k as usize, tt };
            let v = d.thao_tac.push(moi);
            assert forall|i: int, j: int| 0 <= i < j < v.len() implies #[trigger] cap_hop_le(v[i], v[j]) by {
                if j < d.thao_tac.len() {
                    assert(cap_hop_le(d.thao_tac[i], d.thao_tac[j]));
                } else {
                    assert(s1.thao_tac.contains(d.thao_tac[i]));
                    let a = choose|a: int| 0 <= a < s1.thao_tac.len() && s1.thao_tac[a] == d.thao_tac[i];
                    assert(s1.thao_tac[a].muc.id != id);
                }
            }
        }
    }
}

/// Changing what goes on with one invoice to something that is no question keeps what always holds.
proof fn doi_tt_hop_le(s: HdV, i: int, tt: ThaoTacV)
    requires
        s.hop_le(),
        0 <= i < s.thao_tac.len(),
        !tt.hop_thoai(),
    ensures
        s.doi_tt(i, tt).hop_le(),
{
    let v = s.doi_tt(i, tt).thao_tac;
    assert forall|a: int, b: int| 0 <= a < b < v.len() implies #[trigger] cap_hop_le(v[a], v[b]) by {
        assert(cap_hop_le(s.thao_tac[a], s.thao_tac[b]));
    }
    assert forall|a: int| 0 <= a < v.len() && s.loat matches Some(LoatV::XacNhan { ids, luc }) implies !(
    #[trigger] v[a]).tt.hop_thoai() by {
        assert(!s.thao_tac[a].tt.hop_thoai());
    }
}

/// Taking an invoice of the batch under way keeps what always holds, where no question is open.
proof fn mot_trong_loat_hop_le(s: HdV, id: Seq<char>)
    requires
        s.hop_le(),
        s.vao_loat(id),
    ensures
        s.mot_trong_loat(id).hop_le(),
{
    bo_mot_hop_le(s, id);
    vi_tri_la_dau(cac_muc(s.anh->0), |m: MucV| m.id == id, 0);
    let v0 = s.bo_dong(id);
    let s1 = HdV { thao_tac: v0, ..s };
    let v = s.mot_trong_loat(id).thao_tac;
    assert forall|i: int, j: int| 0 <= i < j < v.len() implies #[trigger] cap_hop_le(v[i], v[j]) by {
        if j < v0.len() {
            assert(cap_hop_le(s1.thao_tac[i], s1.thao_tac[j]));
        } else {
            assert(v0[i].muc.id != id);
        }
    }
}

proof fn chay_loat_hop_le(s: HdV, ids: Seq<Seq<char>>)
    requires
        s.hop_le(),
        !(s.loat is Some),
    ensures
        s.chay_loat(ids).0.hop_le(),
        s.chay_loat(ids).0.anh == s.anh,
        s.chay_loat(ids).0.loat is None,
        s.chay_loat(ids).1.len() <= ids.len(),
    decreases ids.len(),
{
    if ids.len() > 0 {
        chay_loat_hop_le(s, ids.drop_last());
        let (s1, ra) = s.chay_loat(ids.drop_last());
        if s1.vao_loat(ids.last()) {
            mot_trong_loat_hop_le(s1, ids.last());
        }
    }
}

fn dem_tam_giu(ds: &Vec<MucHangDoi>) -> (r: usize)
    ensures
        r == dem(xem(ds@), |m: MucV| m.tam_giu),
        r <= ds@.len(),
{
    let ghost x = xem(ds@);
    let ghost p = |m: MucV| m.tam_giu;
    let mut n: usize = 0;
    let mut i: usize = 0;
    while i < ds.len()
        invariant
            x == xem(ds@),
            p == (|m: MucV| m.tam_giu),
            i <= ds@.len(),
            n <= i,
            n == dem(x.subrange(0, i as int), p),
        decreases ds@.len() - i,
    {
        assert(x.subrange(0, i + 1).drop_last() =~= x.subrange(0, i as int));
        assert(x.subrange(0, i + 1).last() == ds@[i as int]@);
        if ds[i].tam_giu {
            n = n + 1;
        }
        i = i + 1;
    }
    assert(x.subrange(0, ds@.len() as int) =~= x);
    n
}

fn co_chu(ds: &Vec<String>, s: &str) -> (r: bool)
    ensures
        r == xem(ds@).contains(s@),
{
    let ghost x = xem(ds@);
    let mut i: usize = 0;
    while i < ds.len()
        invariant
            x == xem(ds@),
            i <= ds@.len(),
            forall|k: int| 0 <= k < i ==> x[k] != s@,
        decreases ds@.len() - i,
    {
        if chu::bang(ds[i].as_str(), s) {
            assert(x[i as int] == s@);
            return true;
        }
        i = i + 1;
    }
    false
}

fn anh_con_huy(anh: &HangDoiServer, id: &str) -> (r: bool)
    ensures
        r == con_huy_duoc(anh@, id@),
{
    let ghost x = anh@.cho_in;
    let mut i: usize = 0;
    while i < anh.cho_in.len()
        invariant
            x == xem(anh.cho_in@),
            i <= anh.cho_in@.len(),
            forall|k: int| 0 <= k < i ==> !((#[trigger] x[k]).id == id@ && huy_duoc_cua(x[k])),
        decreases anh.cho_in@.len() - i,
    {
        if chu::bang(anh.cho_in[i].id.as_str(), id) && huy_duoc(&anh.cho_in[i]) {
            assert(x[i as int].id == id@);
            return true;
        }
        i = i + 1;
    }
    false
}

impl Default for HangDoiApp {
    fn default() -> (r: HangDoiApp)
        ensures
            r@ == HdV::rong(),
    {
        let r = HangDoiApp {
            ho_tro: false,
            anh: None,
            luc_nhan: None,
            cua_ket_noi_nay: false,
            thao_tac: Vec::new(),
            loat: None,
        };
        assert(r@.thao_tac =~= Seq::empty());
        r
    }
}

impl HangDoiApp {
    /// The server of the latest connection keeps a queue.
    pub fn ho_tro(&self) -> (r: bool)
        ensures
            r == self@.ho_tro,
    {
        self.ho_tro
    }

    /// The server said whether it keeps a queue. Where it does not, everything but requests under way
    /// is forgotten.
    pub fn nhan_cau_hinh(&mut self, ho_tro: bool)
        requires
            old(self)@.hop_le(),
        ensures
            final(self)@ == old(self)@.sau_cau_hinh(ho_tro),
            final(self)@.hop_le(),
    {
        let ghost dau = self@;
        self.ho_tro = ho_tro;
        if !ho_tro {
            self.anh = None;
            self.luc_nhan = None;
            self.cua_ket_noi_nay = false;
            self.loat = None;
            let mut b: Vec<bool> = Vec::new();
            let mut i: usize = 0;
            while i < self.thao_tac.len()
                invariant
                    i <= self.thao_tac@.len(),
                    b@.len() == i,
                    forall|k: int| 0 <= k < i ==> #[trigger] b@[k] == (self.thao_tac@[k]@.tt is Dang),
                decreases self.thao_tac@.len() - i,
            {
                b.push(matches!(self.thao_tac[i].tt, ThaoTac::Dang { loai: _, lan: _, da_gui: _ }));
                i = i + 1;
            }
            day::giu_lai(&mut self.thao_tac, &b, Ghost(|m: MttV| m.tt is Dang));
            proof {
                giu_hop_le(dau.thao_tac, |m: MttV| m.tt is Dang);
            }
        }
    }

    /// A new connection: the queue is for looking at until this connection has sent its own.
    pub fn ket_noi_moi(&mut self)
        requires
            old(self)@.hop_le(),
        ensures
            final(self)@ == (HdV { cua_ket_noi_nay: false, ..old(self)@.dong_het() }),
            final(self)@.hop_le(),
    {
        self.cua_ket_noi_nay = false;
        self.dong_hop_thoai();
    }

    fn dong_hop_thoai(&mut self)
        requires
            old(self)@.hop_le(),
        ensures
            final(self)@ == old(self)@.dong_het(),
            final(self)@.hop_le(),
            forall|i: int| 0 <= i < final(self)@.thao_tac.len() ==> !(#[trigger] final(self)@.thao_tac[i]).tt.hop_thoai(),
    {
        let ghost dau = self@;
        let mut b: Vec<bool> = Vec::new();
        let mut i: usize = 0;
        while i < self.thao_tac.len()
            invariant
                i <= self.thao_tac@.len(),
                b@.len() == i,
                forall|k: int| 0 <= k < i ==> #[trigger] b@[k] == !self.thao_tac@[k]@.tt.hop_thoai(),
            decreases self.thao_tac@.len() - i,
        {
            b.push(!self.thao_tac[i].tt.la_hop_thoai());
            i = i + 1;
        }
        day::giu_lai(&mut self.thao_tac, &b, Ghost(|m: MttV| !m.tt.hop_thoai()));
        let hoi = match &self.loat {
            Some(Loat::XacNhan { ids: _, luc: _ }) => true,
            _ => false,
        };
        if hoi {
            self.loat = None;
        }
        proof {
            dong_het_hop_le(dau);
        }
    }

    fn tim_trong_anh(&self, id: &str) -> (r: Option<(usize, &MucHangDoi)>)
        requires
            self@.anh_vua(),
        ensures
            r matches Some(x) ==> self@.dong_trong_anh(id@) == Some(x.0 as int) && self@.muc_cua(id@) == Some(x.1@),
            r is None ==> self@.dong_trong_anh(id@) is None,
    {
        let anh = match &self.anh {
            Some(a) => a,
            None => {
                return None;
            },
        };
        let ghost tc = cac_muc(anh@);
        let ghost p = |m: MucV| m.id == id@;
        let n: usize = anh.cho_in.len();
        let k: usize = anh.chua_xac_nhan.len();
        let mut i: usize = 0;
        while i < n
            invariant
                n == anh.cho_in@.len(),
                self@.anh == Some(anh@),
                tc == cac_muc(anh@),
                p == (|m: MucV| m.id == id@),
                i <= n,
                vi_tri(tc, p, 0) == vi_tri(tc, p, i as int),
            decreases n - i,
        {
            assert(tc[i as int] == anh.cho_in@[i as int]@);
            if chu::bang(anh.cho_in[i].id.as_str(), id) {
                return Some((i, &anh.cho_in[i]));
            }
            i = i + 1;
        }
        let mut j: usize = 0;
        while j < k
            invariant
                n == anh.cho_in@.len(),
                k == anh.chua_xac_nhan@.len(),
                n + k <= usize::MAX,
                self@.anh == Some(anh@),
                tc == cac_muc(anh@),
                p == (|m: MucV| m.id == id@),
                j <= k,
                vi_tri(tc, p, 0) == vi_tri(tc, p, n + j),
            decreases k - j,
        {
            assert(tc[n + j] == anh.chua_xac_nhan@[j as int]@);
            if chu::bang(anh.chua_xac_nhan[j].id.as_str(), id) {
                return Some((n + j, &anh.chua_xac_nhan[j]));
            }
            j = j + 1;
        }
        None
    }

    fn vi_tri_thao_tac(&self, id: &str) -> (r: Option<usize>)
        ensures
            r matches Some(i) ==> i < self.thao_tac@.len() && self@.dong_thao_tac(id@) == Some(i as int),
            r is None ==> self@.dong_thao_tac(id@) is None,
    {
        let ghost x = self@.thao_tac;
        let ghost p = |m: MttV| m.muc.id == id@;
        let mut i: usize = 0;
        while i < self.thao_tac.len()
            invariant
                x == xem(self.thao_tac@),
                p == (|m: MttV| m.muc.id == id@),
                i <= self.thao_tac@.len(),
                vi_tri(x, p, 0) == vi_tri(x, p, i as int),
            decreases self.thao_tac@.len() - i,
        {
            assert(x[i as int] == self.thao_tac@[i as int]@);
            if chu::bang(self.thao_tac[i].muc.id.as_str(), id) {
                return Some(i);
            }
            i = i + 1;
        }
        None
    }

    fn muc_dang_ban(&self, id: &str) -> (r: bool)
        ensures
            r == self@.dang_ban(id@),
    {
        match self.vi_tri_thao_tac(id) {
            Some(i) => {
                assert(self@.thao_tac[i as int] == self.thao_tac@[i as int]@);
                self.thao_tac[i].tt.dang_ban()
            },
            None => false,
        }
    }

    /// Whether a fresh queue holds the invoice; nothing where there is no fresh one.
    pub fn co_trong_anh(&self, print_job_id: &str) -> (r: Option<bool>)
        requires
            self@.hop_le(),
        ensures
            r == (if self@.bam_duoc(true) {
                Some(self@.dong_trong_anh(print_job_id@) is Some)
            } else {
                None
            }),
    {
        if self.ho_tro && self.cua_ket_noi_nay && self.anh.is_some() {
            Some(self.tim_trong_anh(print_job_id).is_some())
        } else {
            None
        }
    }

    /// A request for the invoice is still under way.
    pub fn con_dang(&self, id: &str) -> (r: bool)
        ensures
            r == self@.dang_yeu_cau(id@),
    {
        let ghost x = self@.thao_tac;
        let mut i: usize = 0;
        while i < self.thao_tac.len()
            invariant
                x == xem(self.thao_tac@),
                i <= self.thao_tac@.len(),
                forall|k: int| 0 <= k < i ==> !((#[trigger] x[k]).muc.id == id@ && x[k].tt is Dang),
            decreases self.thao_tac@.len() - i,
        {
            assert(x[i as int] == self.thao_tac@[i as int]@);
            let dang = matches!(self.thao_tac[i].tt, ThaoTac::Dang { loai: _, lan: _, da_gui: _ });
            if dang && chu::bang(self.thao_tac[i].muc.id.as_str(), id) {
                return true;
            }
            i = i + 1;
        }
        false
    }

    /// A new queue from the server: questions that no longer apply are closed. Gives a summary where
    /// the counts have changed.
    pub fn nhan_anh(&mut self, anh: HangDoiServer, bay_gio_ms: u64) -> (r: Option<String>)
        requires
            old(self)@.hop_le(),
            cac_muc(anh@).len() <= usize::MAX,
        ensures
            final(self)@ == old(self)@.sau_anh(anh@, bay_gio_ms),
            final(self)@.hop_le(),
            ({
                let doi = match old(self)@.anh {
                    Some(a) => dem_anh(a) != dem_anh(anh@),
                    None => true,
                };
                &&& r is Some <==> doi
                &&& r matches Some(s) ==> s@ == tom_tat(dem_anh(anh@))
            }),
    {
        let ghost dau = self@;
        let ghost av = anh@;
        let sau: (usize, usize, usize) = (anh.cho_in.len(), dem_tam_giu(&anh.cho_in), anh.chua_xac_nhan.len());
        let doi = match &self.anh {
            Some(a) => a.cho_in.len() != sau.0 || dem_tam_giu(&a.cho_in) != sau.1 || a.chua_xac_nhan.len() != sau.2,
            None => true,
        };
        let loat = match self.loat.take() {
            Some(Loat::XacNhan { ids, luc }) => {
                let mut ids = ids;
                let ghost iv = ids@;
                let mut b: Vec<bool> = Vec::new();
                let mut i: usize = 0;
                while i < ids.len()
                    invariant
                        i <= ids@.len(),
                        b@.len() == i,
                        forall|k: int| 0 <= k < i ==> #[trigger] b@[k] == con_huy_duoc(anh@, ids@[k]@),
                    decreases ids@.len() - i,
                {
                    b.push(anh_con_huy(&anh, ids[i].as_str()));
                    i = i + 1;
                }
                day::giu_lai(&mut ids, &b, Ghost(|id: Seq<char>| con_huy_duoc(av, id)));
                if ids.len() == 0 {
                    None
                } else {
                    Some(Loat::XacNhan { ids, luc })
                }
            },
            l => l,
        };
        self.anh = Some(anh);
        self.luc_nhan = Some(bay_gio_ms);
        self.cua_ket_noi_nay = true;
        let ghost s = HdV { anh: Some(av), luc_nhan: Some(bay_gio_ms), cua_ket_noi_nay: true, ..dau };
        let mut b: Vec<bool> = Vec::new();
        let mut i: usize = 0;
        while i < self.thao_tac.len()
            invariant
                i <= self.thao_tac@.len(),
                self@.anh == Some(av),
                s.anh == Some(av),
                self@.anh_vua(),
                b@.len() == i,
                forall|k: int| 0 <= k < i ==> #[trigger] b@[k] == s.con_ap_dung(self.thao_tac@[k]@),
            decreases self.thao_tac@.len() - i,
        {
            let m = &self.thao_tac[i];
            let tim = self.tim_trong_anh(m.muc.id.as_str());
            let con = match &m.tt {
                ThaoTac::XacNhanHuy { luc: _ } => match tim {
                    Some(x) => huy_duoc(x.1),
                    None => false,
                },
                ThaoTac::XacNhanBo { luc: _ } => match tim {
                    Some(x) => la_chua_xac_nhan(x.1),
                    None => false,
                },
                ThaoTac::ViSao => match tim {
                    Some(x) => !huy_duoc(x.1),
                    None => false,
                },
                _ => true,
            };
            b.push(con);
            i = i + 1;
        }
        day::giu_lai(&mut self.thao_tac, &b, Ghost(|m: MttV| s.con_ap_dung(m)));
        self.loat = loat;
        proof {
            let p = |m: MttV| s.con_ap_dung(m);
            giu_hop_le(dau.thao_tac, p);
            giu_dung(dau.thao_tac, p);
            assert(self@ == dau.sau_anh(av, bay_gio_ms));
            assert forall|i: int| 0 <= i < self@.thao_tac.len() && self@.loat matches Some(LoatV::XacNhan { ids, luc }) implies !(
            #[trigger] self@.thao_tac[i]).tt.hop_thoai() by {
                assert(dau.thao_tac.contains(self@.thao_tac[i]));
                let k = choose|k: int| 0 <= k < dau.thao_tac.len() && dau.thao_tac[k] == self@.thao_tac[i];
                assert(!dau.thao_tac[k].tt.hop_thoai());
            }
        }
        if doi {
            let mut t = "cho_in=".to_owned();
            t.append(chu::so_thap_phan(sau.0 as u64).as_str());
            t.append(" tam_giu=");
            t.append(chu::so_thap_phan(sau.1 as u64).as_str());
            t.append(" chua_xac_nhan=");
            t.append(chu::so_thap_phan(sau.2 as u64).as_str());
            Some(t)
        } else {
            None
        }
    }

    fn co_the_bam(&self, da_noi: bool) -> (r: bool)
        ensures
            r == self@.bam_duoc(da_noi),
    {
        da_noi && self.ho_tro && self.cua_ket_noi_nay && self.anh.is_some()
    }

    fn mo(&mut self, id: &str, tt: ThaoTac) -> (r: bool)
        requires
            old(self)@.hop_le(),
        ensures
            (final(self)@, r) == old(self)@.sau_mo(id@, tt@),
            final(self)@.hop_le(),
    {
        let ghost dau = self@;
        let ghost tv = tt@;
        proof {
            sau_mo_hop_le(dau, id@, tv);
        }
        let (vi_tri, muc) = match self.tim_trong_anh(id) {
            Some(x) => (x.0, x.1.ban_sao()),
            None => {
                return false;
            },
        };
        if let Some(i) = self.vi_tri_thao_tac(id) {
            assert(self@.thao_tac[i as int] == self.thao_tac@[i as int]@);
            if self.thao_tac[i].tt.dang_ban() {
                return false;
            }
            let ghost truoc = self.thao_tac@;
            let _ = self.thao_tac.remove(i);
            assert(xem(self.thao_tac@) =~= xem(truoc).remove(i as int));
        }
        proof {
            bo_mot_hop_le(dau, id@);
            assert(self@ == (HdV { thao_tac: dau.bo_dong(id@), ..dau }));
        }
        self.dong_hop_thoai();
        let ghost truoc = self.thao_tac@;
        let m = MucThaoTac { muc, vi_tri, tt };
        self.thao_tac.push(m);
        assert(xem(self.thao_tac@) =~= xem(truoc).push(m@));
        true
    }

    /// "Withdraw" was pressed on a line: asks first.
    pub fn bam_huy(&mut self, id: &str, da_noi: bool, bay_gio_ms: u64) -> (r: bool)
        requires
            old(self)@.hop_le(),
        ensures
            final(self)@.hop_le(),
            (final(self)@, r) == old(self)@.sau_bam_huy(id@, da_noi, bay_gio_ms),
    {
        let duoc = match self.tim_trong_anh(id) {
            Some(x) => huy_duoc(x.1),
            None => false,
        };
        if !self.co_the_bam(da_noi) || !duoc {
            return false;
        }
        self.mo(id, ThaoTac::XacNhanHuy { luc: bay_gio_ms })
    }

    /// "Why?" was pressed on a line that cannot be withdrawn: explains, connected or not.
    pub fn bam_vi_sao(&mut self, id: &str) -> (r: bool)
        requires
            old(self)@.hop_le(),
        ensures
            final(self)@.hop_le(),
            (final(self)@, r) == old(self)@.sau_bam_vi_sao(id@),
    {
        let giai_thich = match self.tim_trong_anh(id) {
            Some(x) => !huy_duoc(x.1),
            None => false,
        };
        if !giai_thich {
            return false;
        }
        self.mo(id, ThaoTac::ViSao)
    }

    /// "Take off the queue" was pressed in an explanation: asks first.
    pub fn bam_bo(&mut self, id: &str, da_noi: bool, bay_gio_ms: u64) -> (r: bool)
        requires
            old(self)@.hop_le(),
        ensures
            final(self)@.hop_le(),
            (final(self)@, r) == old(self)@.sau_bam_bo(id@, da_noi, bay_gio_ms),
    {
        let duoc = match self.tim_trong_anh(id) {
            Some(x) => la_chua_xac_nhan(x.1),
            None => false,
        };
        if !self.co_the_bam(da_noi) || !duoc {
            return false;
        }
        self.mo(id, ThaoTac::XacNhanBo { luc: bay_gio_ms })
    }

    /// Closes a question, an explanation or a result; not what is under way or just done.
    pub fn dong(&mut self, id: &str)
        requires
            old(self)@.hop_le(),
        ensures
            final(self)@.hop_le(),
            final(self)@ == old(self)@.sau_dong(id@),
    {
        let ghost dau = self@;
        let ghost p = |m: MttV| m.muc.id != id@ || m.tt.ban();
        let mut b: Vec<bool> = Vec::new();
        let mut i: usize = 0;
        while i < self.thao_tac.len()
            invariant
                i <= self.thao_tac@.len(),
                p == (|m: MttV| m.muc.id != id@ || m.tt.ban()),
                b@.len() == i,
                forall|k: int| 0 <= k < i ==> #[trigger] b@[k] == p(self.thao_tac@[k]@),
            decreases self.thao_tac@.len() - i,
        {
            b.push(!chu::bang(self.thao_tac[i].muc.id.as_str(), id) || self.thao_tac[i].tt.dang_ban());
            i = i + 1;
        }
        day::giu_lai(&mut self.thao_tac, &b, Ghost(p));
        proof {
            giu_van_hop_le(dau, p);
        }
    }

    /// The question was answered with yes: the request is under way. Nothing where the answer does not
    /// count: no such question, a double click, or no connection.
    pub fn bat_dau(&mut self, id: &str, loai: LoaiViec, da_noi: bool, bay_gio_ms: u64) -> (r: Option<MucHangDoi>)
        requires
            old(self)@.hop_le(),
        ensures
            final(self)@.hop_le(),
            r is Some <==> old(self)@.duoc_bat_dau(id@, loai, da_noi, bay_gio_ms),
            r matches Some(m) ==> m@ == old(self)@.thao_tac[old(self)@.dong_thao_tac(id@)->0].muc && final(self)@
                == old(self)@.doi_tt(
                old(self)@.dong_thao_tac(id@)->0,
                ThaoTacV::Dang { loai, lan: 1, da_gui: 0 },
            ),
            r is None ==> final(self)@ == old(self)@,
    {
        let ghost dau = self@;
        if !self.co_the_bam(da_noi) {
            return None;
        }
        let i = match self.vi_tri_thao_tac(id) {
            Some(i) => i,
            None => {
                return None;
            },
        };
        assert(self@.thao_tac[i as int] == self.thao_tac@[i as int]@);
        let luc_mo: u64 = match &self.thao_tac[i].tt {
            ThaoTac::XacNhanHuy { luc } => if loai == LoaiViec::Huy {
                *luc
            } else {
                return None;
            },
            ThaoTac::XacNhanBo { luc } => if loai == LoaiViec::BoTheoDoi {
                *luc
            } else {
                return None;
            },
            _ => {
                return None;
            },
        };
        if qua_ms(luc_mo, bay_gio_ms) < CHONG_BAM_DUP_MS {
            return None;
        }
        let muc = self.thao_tac[i].muc.ban_sao();
        self.doi(i, ThaoTac::Dang { loai, lan: 1, da_gui: 0 });
        proof {
            doi_tt_hop_le(dau, i as int, ThaoTacV::Dang { loai, lan: 1, da_gui: 0 });
        }
        Some(muc)
    }

    fn doi(&mut self, i: usize, tt: ThaoTac)
        requires
            i < old(self).thao_tac@.len(),
        ensures
            final(self)@ == old(self)@.doi_tt(i as int, tt@),
            final(self).thao_tac@.len() == old(self).thao_tac@.len(),
    {
        let ghost truoc = self.thao_tac@;
        let cu = self.thao_tac.remove(i);
        let moi = MucThaoTac { muc: cu.muc, vi_tri: cu.vi_tri, tt };
        self.thao_tac.insert(i, moi);
        assert(xem(self.thao_tac@) =~= xem(truoc).update(i as int, moi@));
    }

    /// The request is on its try number `lan`, and `da_gui` requests have left.
    pub fn bao_lan(&mut self, id: &str, lan: u32, da_gui: u32)
        requires
            old(self)@.hop_le(),
        ensures
            final(self)@.hop_le(),
            final(self)@ == (match old(self)@.dong_thao_tac(id@) {
                Some(i) => match old(self)@.thao_tac[i].tt {
                    ThaoTacV::Dang { loai, lan: l, da_gui: g } => old(self)@.doi_tt(
                        i,
                        ThaoTacV::Dang { loai, lan, da_gui },
                    ),
                    _ => old(self)@,
                },
                None => old(self)@,
            }),
    {
        let ghost dau = self@;
        if let Some(i) = self.vi_tri_thao_tac(id) {
            assert(self@.thao_tac[i as int] == self.thao_tac@[i as int]@);
            let dang = match &self.thao_tac[i].tt {
                ThaoTac::Dang { loai, lan: _, da_gui: _ } => Some(*loai),
                _ => None,
            };
            if let Some(loai) = dang {
                self.doi(i, ThaoTac::Dang { loai, lan, da_gui });
                proof {
                    doi_tt_hop_le(dau, i as int, ThaoTacV::Dang { loai, lan, da_gui });
                }
            }
        }
    }

    /// A request has come to its end.
    pub fn ket_thuc(&mut self, id: &str, loai: LoaiViec, kc: &KetCuc, bay_gio_ms: u64)
        requires
            old(self)@.hop_le(),
        ensures
            final(self)@.hop_le(),
            final(self)@ == old(self)@.sau_ket_thuc(id@, loai, kc@, bay_gio_ms),
    {
        let ghost dau = self@;
        let i = match self.vi_tri_thao_tac(id) {
            Some(i) => i,
            None => {
                return ;
            },
        };
        assert(self@.thao_tac[i as int] == self.thao_tac@[i as int]@);
        if !matches!(self.thao_tac[i].tt, ThaoTac::Dang { loai: _, lan: _, da_gui: _ }) {
            return ;
        }
        self.doi(i, thao_tac_sau(loai, kc, bay_gio_ms));
        proof {
            doi_tt_hop_le(dau, i as int, sau_ket_cuc(loai, kc@, bay_gio_ms));
        }
        if loai == LoaiViec::Huy {
            let duoc_huy = matches!(kc, KetCuc::Duoc { cach: _, noi_dung: _ });
            let l = self.loat.take();
            self.loat = match l {
                Some(Loat::Dang { ids, xong, duoc }) => {
                    if co_chu(&ids, id) {
                        let x: usize = xong + 1;
                        let d: usize = if duoc_huy {
                            duoc + 1
                        } else {
                            duoc
                        };
                        if x >= ids.len() {
                            Some(Loat::Xong { tong: ids.len(), duoc: d, luc: bay_gio_ms })
                        } else {
                            Some(Loat::Dang { ids, xong: x, duoc: d })
                        }
                    } else {
                        Some(Loat::Dang { ids, xong, duoc })
                    }
                },
                l => l,
            };
        }
    }

    /// "Withdraw all" was pressed: asks first, for the invoices of this moment.
    pub fn bam_huy_ca(&mut self, da_noi: bool, bay_gio_ms: u64) -> (r: bool)
        requires
            old(self)@.hop_le(),
        ensures
            final(self)@.hop_le(),
            (final(self)@, r) == old(self)@.sau_huy_ca(da_noi, bay_gio_ms),
    {
        let dang = matches!(self.loat, Some(Loat::Dang { ids: _, xong: _, duoc: _ }));
        if !self.co_the_bam(da_noi) || dang {
            return false;
        }
        let ids = self.ids_huy_ca();
        if ids.len() == 0 {
            return false;
        }
        self.dong_hop_thoai();
        self.loat = Some(Loat::XacNhan { ids, luc: bay_gio_ms });
        true
    }

    fn ids_huy_ca(&self) -> (r: Vec<String>)
        ensures
            xem(r@) == self@.ids_huy_ca(),
    {
        let mut ra: Vec<String> = Vec::new();
        let anh = match &self.anh {
            Some(a) => a,
            None => {
                assert(xem(ra@) =~= Seq::empty());
                return ra;
            },
        };
        let ghost x = anh@.cho_in;
        let ghost sv = self@;
        let ghost p = |m: MucV| m.tam_giu && huy_duoc_cua(m) && !sv.dang_ban(m.id);
        let ghost f = |m: MucV| m.id;
        let mut i: usize = 0;
        assert(giu(x.subrange(0, 0), p).map_values(f) =~= Seq::empty());
        assert(xem(ra@) =~= Seq::empty());
        while i < anh.cho_in.len()
            invariant
                sv == self@,
                x == xem(anh.cho_in@),
                p == (|m: MucV| m.tam_giu && huy_duoc_cua(m) && !sv.dang_ban(m.id)),
                f == (|m: MucV| m.id),
                i <= anh.cho_in@.len(),
                xem(ra@) == giu(x.subrange(0, i as int), p).map_values(f),
            decreases anh.cho_in@.len() - i,
        {
            let m = &anh.cho_in[i];
            assert(x.subrange(0, i + 1).drop_last() =~= x.subrange(0, i as int));
            assert(x.subrange(0, i + 1).last() == m@);
            if m.tam_giu && huy_duoc(m) && !self.muc_dang_ban(m.id.as_str()) {
                let ghost truoc = ra@;
                ra.push(m.id.clone());
                assert(xem(ra@) =~= xem(truoc).push(m@.id));
                assert(giu(x.subrange(0, i + 1), p).map_values(f) =~= giu(x.subrange(0, i as int), p).map_values(f).push(
                    m@.id,
                ));
            }
            i = i + 1;
        }
        assert(x.subrange(0, x.len() as int) =~= x);
        ra
    }

    /// Closes the batch's question or summary; not a batch under way.
    pub fn dong_loat(&mut self)
        requires
            old(self)@.hop_le(),
        ensures
            final(self)@.hop_le(),
            final(self)@ == (if old(self)@.loat matches Some(LoatV::Dang { ids, xong, duoc }) {
                old(self)@
            } else {
                HdV { loat: None, ..old(self)@ }
            }),
    {
        if !matches!(self.loat, Some(Loat::Dang { ids: _, xong: _, duoc: _ })) {
            self.loat = None;
        }
    }

    /// The batch's question was answered with yes: gives the invoices whose withdrawal is under way.
    pub fn bat_dau_loat(&mut self, da_noi: bool, bay_gio_ms: u64) -> (r: Vec<MucHangDoi>)
        requires
            old(self)@.hop_le(),
        ensures
            final(self)@.hop_le(),
            (final(self)@, xem(r@)) == old(self)@.sau_bat_dau_loat(da_noi, bay_gio_ms),
    {
        let ghost dau = self@;
        let mut ra: Vec<MucHangDoi> = Vec::new();
        assert(xem(ra@) =~= Seq::empty());
        if !self.co_the_bam(da_noi) {
            return ra;
        }
        let som = match &self.loat {
            Some(Loat::XacNhan { ids: _, luc }) => qua_ms(*luc, bay_gio_ms) < CHONG_BAM_DUP_MS,
            _ => true,
        };
        if som {
            return ra;
        }
        let l = self.loat.take();
        let ids = match l {
            Some(Loat::XacNhan { ids, luc: _ }) => ids,
            _ => {
                assert(false);
                return ra;
            },
        };
        let ghost iv = xem(ids@);
        self.dong_hop_thoai();
        let ghost s0 = dau.dong_het();
        assert(self@ == s0);
        let mut i: usize = 0;
        assert(iv.subrange(0, 0) =~= Seq::empty());
        while i < ids.len()
            invariant
                i <= ids@.len(),
                iv == xem(ids@),
                s0.hop_le(),
                s0.loat is None,
                (self@, xem(ra@)) == s0.chay_loat(iv.subrange(0, i as int)),
            decreases ids@.len() - i,
        {
            assert(iv.subrange(0, i + 1).drop_last() =~= iv.subrange(0, i as int));
            assert(iv.subrange(0, i + 1).last() == ids@[i as int]@);
            proof {
                chay_loat_hop_le(s0, iv.subrange(0, i as int));
            }
            let id = ids[i].as_str();
            i = i + 1;
            let (vi_tri, muc) = match self.tim_trong_anh(id) {
                Some(x) => (x.0, x.1.ban_sao()),
                None => {
                    continue ;
                },
            };
            if !huy_duoc(&muc) || self.muc_dang_ban(id) {
                continue ;
            }
            let ghost s1 = self@;
            if let Some(k) = self.vi_tri_thao_tac(id) {
                let ghost truoc = self.thao_tac@;
                let _ = self.thao_tac.remove(k);
                assert(xem(self.thao_tac@) =~= xem(truoc).remove(k as int));
            }
            let ghost truoc = self.thao_tac@;
            let m = MucThaoTac {
                muc: muc.ban_sao(),
                vi_tri,
                tt: ThaoTac::Dang { loai: LoaiViec::Huy, lan: 1, da_gui: 0 },
            };
            self.thao_tac.push(m);
            assert(xem(self.thao_tac@) =~= xem(truoc).push(m@));
            let ghost rt = ra@;
            ra.push(muc);
            assert(xem(ra@) =~= xem(rt).push(muc@));
        }
        proof {
            assert(iv.subrange(0, iv.len() as int) =~= iv);
            chay_loat_hop_le(s0, iv);
        }
        if ra.len() > 0 {
            let mut ten: Vec<String> = Vec::new();
            let mut k: usize = 0;
            while k < ra.len()
                invariant
                    k <= ra@.len(),
                    ten@.len() == k,
                    forall|j: int| 0 <= j < k ==> (#[trigger] ten@[j])@ == ra@[j]@.id,
                decreases ra@.len() - k,
            {
                ten.push(ra[k].id.clone());
                k = k + 1;
            }
            assert(xem(ten@) =~= xem(ra@).map_values(|m: MucV| m.id));
            self.loat = Some(Loat::Dang { ids: ten, xong: 0, duoc: 0 });
        } else {
            self.loat = None;
        }
        ra
    }

    /// Removes results that have been shown long enough.
    pub fn don_dep(&mut self, bay_gio_ms: u64)
        requires
            old(self)@.hop_le(),
        ensures
            final(self)@.hop_le(),
            final(self)@ == old(self)@.sau_don_dep(bay_gio_ms),
    {
        let ghost dau = self@;
        let ghost p = |m: MttV| HdV::con_hien(m, bay_gio_ms);
        let mut b: Vec<bool> = Vec::new();
        let mut i: usize = 0;
        while i < self.thao_tac.len()
            invariant
                i <= self.thao_tac@.len(),
                p == (|m: MttV| HdV::con_hien(m, bay_gio_ms)),
                b@.len() == i,
                forall|k: int| 0 <= k < i ==> #[trigger] b@[k] == p(self.thao_tac@[k]@),
            decreases self.thao_tac@.len() - i,
        {
            let con = match &self.thao_tac[i].tt {
                ThaoTac::Xong { loai, luc, noi_dung: _ } => {
                    let han: u64 = if *loai == LoaiViec::Huy {
                        GIU_DA_HUY_MS
                    } else {
                        GIU_DA_BO_MS
                    };
                    qua_ms(*luc, bay_gio_ms) < han
                },
                _ => true,
            };
            b.push(con);
            i = i + 1;
        }
        day::giu_lai(&mut self.thao_tac, &b, Ghost(p));
        let bo = match &self.loat {
            Some(Loat::Xong { tong, duoc, luc }) => *duoc == *tong && qua_ms(*luc, bay_gio_ms) >= GIU_TONG_KET_MS,
            _ => false,
        };
        if bo {
            self.loat = None;
        }
        proof {
            giu_van_hop_le(dau, p);
        }
    }
}

/// Leaving entries out keeps what always holds.
proof fn giu_van_hop_le(s: HdV, p: spec_fn(MttV) -> bool)
    requires
        s.hop_le(),
    ensures
        (HdV { thao_tac: giu(s.thao_tac, p), ..s }).hop_le(),
{
    giu_hop_le(s.thao_tac, p);
    giu_dung(s.thao_tac, p);
    let v = giu(s.thao_tac, p);
    assert forall|i: int| 0 <= i < v.len() && s.loat matches Some(LoatV::XacNhan { ids, luc }) implies !(
    #[trigger] v[i]).tt.hop_thoai() by {
        assert(s.thao_tac.contains(v[i]));
        let k = choose|k: int| 0 <= k < s.thao_tac.len() && s.thao_tac[k] == v[i];
        assert(!s.thao_tac[k].tt.hop_thoai());
    }
}

} // verus!
