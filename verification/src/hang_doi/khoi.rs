//! The block that the screen draws of the queue.
use crate::bao_cao::{AnhV, MucHangDoi, MucV};
use crate::chu;
use crate::day::{giu, vi_tri, xem};
use crate::hang_doi::{
    cac_muc, chu_viec, chu_xac_nhan_bo, chu_xac_nhan_huy, chua_xac_nhan_cua, da_qua, dem_anh, dem_tam_giu, huy_duoc,
    huy_duoc_cua, la_chua_xac_nhan, qua_ms, viec_chu, xac_nhan_bo_chu, xac_nhan_huy_chu, HangDoiApp, HdV, Loat, LoaiViec, LoatV,
    MttV, ThaoTac, ThaoTacV, CU_SAU_MS, SO_LAN_GUI_TOI_DA, VI_SAO_CHUA_XAC_NHAN, VI_SAO_DANG_IN,
};
use crate::su_co::MaSuCo;
use vstd::prelude::*;
use vstd::string::*;

verus! {

/// The colour of a line.
#[derive(Debug, Clone, Copy, PartialEq, Eq, Structural)]
pub enum MauDong {
    Cho,
    TamGiu,
    DangIn,
    ChuaXacNhan,
}

/// What a line shows.
#[derive(Debug, Clone, Copy, PartialEq, Eq, Structural)]
pub enum CheDo {
    BinhThuong,
    XacNhanHuy,
    XacNhanBo,
    ViSao,
    Dang,
    DaHuy,
    DaBo,
    ThatBai,
    ChuaRo,
}

/// The main button of a line.
#[derive(Debug, Clone, Copy, PartialEq, Eq, Structural)]
pub enum NutDong {
    Huy,
    ViSao,
}

#[derive(Debug, Clone, PartialEq, Eq)]
pub struct DongHangDoi {
    pub id: String,
    pub tieu_de: String,
    /// When the invoice entered the queue, as the server writes it.
    pub tao: String,
    /// The same in the computer's own time.
    pub gio: String,
    pub trang_thai: String,
    pub mau: MauDong,
    pub che_do: CheDo,
    pub nut: NutDong,
    pub bat_nut: bool,
    pub thong_diep: String,
    pub co_nut_bo: bool,
    pub co_nut_huy_lai: bool,
}

/// A line without its time in the computer's own clock, which is no function of the queue.
pub ghost struct DongV {
    pub id: Seq<char>,
    pub tieu_de: Seq<char>,
    pub tao: Seq<char>,
    pub trang_thai: Seq<char>,
    pub mau: MauDong,
    pub che_do: CheDo,
    pub nut: NutDong,
    pub bat_nut: bool,
    pub thong_diep: Seq<char>,
    pub co_nut_bo: bool,
    pub co_nut_huy_lai: bool,
}

/// The line's time is what `gio` makes of the time at which the invoice entered the queue.
pub open spec fn gio_dung<F: Fn(&str) -> String>(gio: F, d: DongHangDoi) -> bool {
    exists|tao: &str| tao@ == d.tao@ && #[trigger] call_ensures(gio, (tao,), d.gio)
}

/// `gio` takes any text.
pub open spec fn gio_nhan_het<F: Fn(&str) -> String>(gio: F) -> bool {
    forall|tao: &str| call_requires(gio, (tao,))
}

impl View for DongHangDoi {
    type V = DongV;

    open spec fn view(&self) -> DongV {
        DongV {
            id: self.id@,
            tieu_de: self.tieu_de@,
            tao: self.tao@,
            trang_thai: self.trang_thai@,
            mau: self.mau,
            che_do: self.che_do,
            nut: self.nut,
            bat_nut: self.bat_nut,
            thong_diep: self.thong_diep@,
            co_nut_bo: self.co_nut_bo,
            co_nut_huy_lai: self.co_nut_huy_lai,
        }
    }
}

/// The block as a whole.
#[derive(Debug, Clone, PartialEq, Eq)]
pub struct KhoiHangDoi {
    pub hien: bool,
    pub tieu_de: String,
    pub ghi_chu: String,
    /// The strip above the lines while invoices are held back; empty where none is.
    pub dai_tam_giu: String,
    /// How many "withdraw all" would withdraw.
    pub so_huy_ca: usize,
    /// 0 nothing, 1 the question, 2 under way, 3 all done, 4 done with failures.
    pub loat_che_do: u8,
    pub loat_chu: String,
    pub loat_nut: String,
    pub dong: Vec<DongHangDoi>,
}

pub ghost struct KhoiV {
    pub hien: bool,
    pub tieu_de: Seq<char>,
    pub ghi_chu: Seq<char>,
    pub dai_tam_giu: Seq<char>,
    pub so_huy_ca: nat,
    pub loat_che_do: u8,
    pub loat_chu: Seq<char>,
    pub loat_nut: Seq<char>,
    pub dong: Seq<DongV>,
}

impl View for KhoiHangDoi {
    type V = KhoiV;

    open spec fn view(&self) -> KhoiV {
        KhoiV {
            hien: self.hien,
            tieu_de: self.tieu_de@,
            ghi_chu: self.ghi_chu@,
            dai_tam_giu: self.dai_tam_giu@,
            so_huy_ca: self.so_huy_ca as nat,
            loat_che_do: self.loat_che_do,
            loat_chu: self.loat_chu@,
            loat_nut: self.loat_nut@,
            dong: xem(self.dong@),
        }
    }
}

/// What is said of an invoice: the server's words, else words for its state.
pub open spec fn nhan_cua(m: MucV) -> Seq<char> {
    if m.ly_do.len() > 0 {
        m.ly_do
    } else if m.trang_thai == "cho_in"@ {
        if m.tam_giu {
            "Tạm giữ — chờ máy in hết lỗi"@
        } else {
            "Chờ gửi xuống máy in"@
        }
    } else if m.trang_thai == "dang_gui"@ {
        "Đang gửi xuống máy in"@
    } else if m.trang_thai == "da_gui"@ {
        "Đã gửi — đang chờ máy in"@
    } else if m.trang_thai == "khong_ro"@ {
        "Chưa xác nhận đã in — có thể đang nằm trong máy in"@
    } else {
        m.trang_thai
    }
}

fn nhan_trang_thai(muc: &MucHangDoi) -> (r: String)
    ensures
        r@ == nhan_cua(muc@),
{
    if !muc.ly_do.as_str().is_empty() {
        return muc.ly_do.clone();
    }
    let tt = muc.trang_thai.as_str();
    if chu::bang(tt, "cho_in") {
        if muc.tam_giu {
            "Tạm giữ — chờ máy in hết lỗi".to_owned()
        } else {
            "Chờ gửi xuống máy in".to_owned()
        }
    } else if chu::bang(tt, "dang_gui") {
        "Đang gửi xuống máy in".to_owned()
    } else if chu::bang(tt, "da_gui") {
        "Đã gửi — đang chờ máy in".to_owned()
    } else if chu::bang(tt, "khong_ro") {
        "Chưa xác nhận đã in — có thể đang nằm trong máy in".to_owned()
    } else {
        muc.trang_thai.clone()
    }
}

pub open spec fn mau_theo(m: MucV) -> MauDong {
    if m.trang_thai == "cho_in"@ {
        if m.tam_giu {
            MauDong::TamGiu
        } else {
            MauDong::Cho
        }
    } else if m.trang_thai == "khong_ro"@ {
        MauDong::ChuaXacNhan
    } else {
        MauDong::DangIn
    }
}

fn mau_cua(muc: &MucHangDoi) -> (r: MauDong)
    ensures
        r == mau_theo(muc@),
{
    if chu::bang(muc.trang_thai.as_str(), "cho_in") {
        if muc.tam_giu {
            MauDong::TamGiu
        } else {
            MauDong::Cho
        }
    } else if chu::bang(muc.trang_thai.as_str(), "khong_ro") {
        MauDong::ChuaXacNhan
    } else {
        MauDong::DangIn
    }
}

pub open spec fn vi_sao_cua(m: MucV) -> Seq<char> {
    if chua_xac_nhan_cua(m) {
        VI_SAO_CHUA_XAC_NHAN@
    } else {
        VI_SAO_DANG_IN@
    }
}

fn vi_sao(muc: &MucHangDoi) -> (r: &'static str)
    ensures
        r@ == vi_sao_cua(muc@),
{
    if la_chua_xac_nhan(muc) {
        VI_SAO_CHUA_XAC_NHAN
    } else {
        VI_SAO_DANG_IN
    }
}

/// The three texts for a printer in trouble: what is wrong, what to do, and the same in mid-sentence.
pub open spec fn chu_theo_ma(m: MaSuCo) -> (Seq<char>, Seq<char>, Seq<char>) {
    match m {
        MaSuCo::HetGiay => ("máy in Hết giấy"@, "Nạp giấy"@, "nạp giấy"@),
        MaSuCo::KetGiay => ("máy in Kẹt giấy"@, "Gỡ giấy kẹt"@, "gỡ giấy kẹt"@),
        MaSuCo::MoNap => ("nắp máy in đang mở"@, "Đóng nắp"@, "đóng nắp"@),
        MaSuCo::Offline => ("máy in mất kết nối"@, "Bật lại máy in"@, "bật lại máy in"@),
        MaSuCo::KhongTimThayMayIn => (
            "không tìm thấy máy in trong Windows"@,
            "Chọn lại máy in trong app"@,
            "chọn lại máy in"@,
        ),
        _ => ("máy in báo: "@ + m.nhan_cua(), "Xử lý xong máy in"@, "xử lý máy in"@),
    }
}

/// The strip above the lines while `so` invoices are held back.
pub open spec fn dai_tam_giu_cua(so: nat, ma: Option<MaSuCo>) -> Seq<char> {
    let n = chu::thap_phan(so);
    if ma matches Some(m) && m.chan() {
        let (ly_do, viec, viec_thuong) = chu_theo_ma(ma->0);
        n + " hoá đơn đang chờ — "@ + ly_do + ". "@ + viec + " là tự in. Hoá đơn nào không cần nữa: bấm Huỷ TRƯỚC khi "@
            + viec_thuong + "."@
    } else if ma == Some(MaSuCo::BinhThuong) {
        n
            + " hoá đơn đang chờ — máy in vừa hết lỗi, hệ thống sắp tự in. Hoá đơn nào không cần nữa: bấm Huỷ NGAY."@
    } else {
        n
            + " hoá đơn đang được giữ lại vì máy in đang lỗi. Xử lý xong máy in là tự in. Hoá đơn nào không cần nữa: bấm Huỷ trước."@
    }
}

/// The strip above the lines while `so` invoices are held back. `ma_may_in` is the printer's latest
/// state.
pub fn chu_dai_tam_giu(so: usize, ma_may_in: Option<MaSuCo>) -> (r: String)
    ensures
        r@ == dai_tam_giu_cua(so as nat, ma_may_in),
{
    let mut s = chu::so_thap_phan(so as u64);
    match ma_may_in {
        Some(m) => {
            if m.chan_in() {
                s.append(" hoá đơn đang chờ — ");
                let (viec, viec_thuong) = match m {
                    MaSuCo::HetGiay => {
                        s.append("máy in Hết giấy");
                        ("Nạp giấy", "nạp giấy")
                    },
                    MaSuCo::KetGiay => {
                        s.append("máy in Kẹt giấy");
                        ("Gỡ giấy kẹt", "gỡ giấy kẹt")
                    },
                    MaSuCo::MoNap => {
                        s.append("nắp máy in đang mở");
                        ("Đóng nắp", "đóng nắp")
                    },
                    MaSuCo::Offline => {
                        s.append("máy in mất kết nối");
                        ("Bật lại máy in", "bật lại máy in")
                    },
                    MaSuCo::KhongTimThayMayIn => {
                        s.append("không tìm thấy máy in trong Windows");
                        ("Chọn lại máy in trong app", "chọn lại máy in")
                    },
                    _ => {
                        let mut t = "máy in báo: ".to_owned();
                        t.append(m.nhan());
                        s.append(t.as_str());
                        ("Xử lý xong máy in", "xử lý máy in")
                    },
                };
                s.append(". ");
                s.append(viec);
                s.append(" là tự in. Hoá đơn nào không cần nữa: bấm Huỷ TRƯỚC khi ");
                s.append(viec_thuong);
                s.append(".");
                return s;
            }
            if m == MaSuCo::BinhThuong {
                s.append(
                    " hoá đơn đang chờ — máy in vừa hết lỗi, hệ thống sắp tự in. Hoá đơn nào không cần nữa: bấm Huỷ NGAY.",
                );
                return s;
            }
        },
        None => {},
    }
    s.append(
        " hoá đơn đang được giữ lại vì máy in đang lỗi. Xử lý xong máy in là tự in. Hoá đơn nào không cần nữa: bấm Huỷ trước.",
    );
    s
}

/// The words while a request is under way.
pub open spec fn chu_dang(loai: LoaiViec, lan: u32, da_gui: u32) -> Seq<char> {
    let c = match loai {
        LoaiViec::Huy => "Đang huỷ…"@,
        LoaiViec::BoTheoDoi => "Đang bỏ khỏi hàng đợi…"@,
    };
    if lan <= 1 {
        c
    } else if da_gui == 0 {
        c + " (chờ nối lại ZaloCRM để gửi yêu cầu)"@
    } else {
        c + " (ZaloCRM chưa trả lời — hỏi lại, lần "@ + chu::thap_phan((da_gui + 1) as nat) + "/"@ + chu::thap_phan(
            SO_LAN_GUI_TOI_DA as nat,
        ) + ")"@
    }
}

/// The words where no reply came: what the latest queue tells of the invoice.
pub open spec fn chu_chua_ro(loai: LoaiViec, con_trong_anh: bool, m: MucV) -> Seq<char> {
    if con_trong_anh && loai == LoaiViec::Huy && huy_duoc_cua(m) {
        "Chưa rõ đã huỷ được chưa — ZaloCRM không trả lời. Hoá đơn VẪN đang chờ trong hàng đợi: bấm \"Huỷ lại\" để hỏi lại."@
    } else if con_trong_anh {
        "Chưa rõ đã "@ + viec_chu(loai) + " được chưa — ZaloCRM không trả lời. Hoá đơn vẫn còn trong hàng đợi."@
    } else {
        "Chưa rõ đã "@ + viec_chu(loai)
            + " được chưa — ZaloCRM không trả lời, và hoá đơn đã rời hàng đợi (đã huỷ hoặc đã gửi in). Xem Nhật ký in trên ZaloCRM."@
    }
}

/// What a line shows, and its words. A question shows only while buttons work.
pub open spec fn che_do_cua(m: MucV, tt: Option<ThaoTacV>, con_trong_anh: bool, bat: bool) -> (CheDo, Seq<char>) {
    match tt {
        None => (CheDo::BinhThuong, Seq::empty()),
        Some(t) => match t {
            ThaoTacV::XacNhanHuy { luc } => if bat {
                (CheDo::XacNhanHuy, xac_nhan_huy_chu(m.so_hoa_don))
            } else {
                (CheDo::BinhThuong, Seq::empty())
            },
            ThaoTacV::XacNhanBo { luc } => if bat {
                (CheDo::XacNhanBo, xac_nhan_bo_chu(m.so_hoa_don))
            } else {
                (CheDo::BinhThuong, Seq::empty())
            },
            ThaoTacV::ViSao => (CheDo::ViSao, vi_sao_cua(m)),
            ThaoTacV::Dang { loai, lan, da_gui } => (CheDo::Dang, chu_dang(loai, lan, da_gui)),
            ThaoTacV::Xong { loai, luc, noi_dung } => (
                if loai == LoaiViec::Huy {
                    CheDo::DaHuy
                } else {
                    CheDo::DaBo
                },
                noi_dung,
            ),
            ThaoTacV::ThatBai { loai, noi_dung } => (CheDo::ThatBai, noi_dung),
            ThaoTacV::ChuaRo { loai } => (CheDo::ChuaRo, chu_chua_ro(loai, con_trong_anh, m)),
        },
    }
}

/// What goes on is a withdrawal that failed or got no reply.
pub open spec fn huy_hong(tt: Option<ThaoTacV>) -> bool {
    match tt {
        Some(ThaoTacV::ThatBai { loai, noi_dung }) => loai == LoaiViec::Huy,
        Some(ThaoTacV::ChuaRo { loai }) => loai == LoaiViec::Huy,
        _ => false,
    }
}

/// One line.
pub open spec fn dong_theo(m: MucV, tt: Option<ThaoTacV>, con_trong_anh: bool, bat: bool) -> DongV {
    let (che_do, thong_diep) = che_do_cua(m, tt, con_trong_anh, bat);
    DongV {
        id: m.id,
        tieu_de: match m.ten_khach {
            Some(k) => m.so_hoa_don + " · "@ + k,
            None => m.so_hoa_don,
        },
        tao: m.tao,
        trang_thai: nhan_cua(m),
        mau: mau_theo(m),
        che_do,
        nut: if huy_duoc_cua(m) {
            NutDong::Huy
        } else {
            NutDong::ViSao
        },
        bat_nut: bat,
        thong_diep,
        co_nut_bo: che_do == CheDo::ViSao && chua_xac_nhan_cua(m),
        co_nut_huy_lai: con_trong_anh && huy_duoc_cua(m) && huy_hong(tt),
    }
}

/// An entry put behind all that stood on its line or a line above it.
pub open spec fn chen(s: Seq<MttV>, x: MttV) -> Seq<MttV>
    decreases s.len(),
{
    if s.len() == 0 || s.last().vi_tri <= x.vi_tri {
        s.push(x)
    } else {
        chen(s.drop_last(), x).push(s.last())
    }
}

/// Entries by the line they stood on; those of one line in their old order.
pub open spec fn sap_theo_dong(s: Seq<MttV>) -> Seq<MttV>
    decreases s.len(),
{
    if s.len() == 0 {
        s
    } else {
        chen(sap_theo_dong(s.drop_last()), s.last())
    }
}

/// The lines with the entries `ds`, which have left the queue, put back where they stood.
pub open spec fn chen_dong(dong: Seq<DongV>, ds: Seq<MttV>, bat: bool) -> Seq<DongV>
    decreases ds.len(),
{
    if ds.len() == 0 {
        dong
    } else {
        let d = chen_dong(dong, ds.drop_last(), bat);
        let m = ds.last();
        let k = if m.vi_tri <= d.len() {
            m.vi_tri as int
        } else {
            d.len() as int
        };
        d.insert(k, dong_theo(m.muc, Some(m.tt), false, bat))
    }
}

/// The batch: what the strip shows, and its words.
pub open spec fn loat_theo(l: Option<LoatV>, bat: bool) -> (u8, Seq<char>) {
    match l {
        None => (0, Seq::empty()),
        Some(LoatV::XacNhan { ids, luc }) => if bat {
            (
                1,
                "Huỷ cả "@ + chu::thap_phan(ids.len())
                    + " lệnh in đang tạm giữ? Các hoá đơn này sẽ KHÔNG được in."@,
            )
        } else {
            (0, Seq::empty())
        },
        Some(LoatV::Dang { ids, xong, duoc }) => (
            2,
            "Đang huỷ "@ + chu::thap_phan(xong as nat) + "/"@ + chu::thap_phan(ids.len()) + " lệnh in…"@,
        ),
        Some(LoatV::Xong { tong, duoc, luc }) => if duoc == tong {
            (3, "Đã huỷ "@ + chu::thap_phan(duoc as nat) + "/"@ + chu::thap_phan(tong as nat) + " lệnh in"@)
        } else {
            (
                4,
                "Đã huỷ "@ + chu::thap_phan(duoc as nat) + "/"@ + chu::thap_phan(tong as nat) + " — "@ + chu::thap_phan(
                    (tong - duoc) as nat,
                ) + " lệnh KHÔNG huỷ được hoặc chưa rõ, xem các dòng đỏ/vàng bên dưới."@,
            )
        },
    }
}

impl HdV {
    /// What goes on with invoices that have left the queue, questions left out.
    pub open spec fn con_lai(self) -> Seq<MttV> {
        giu(self.thao_tac, |m: MttV| !m.tt.hop_thoai() && self.dong_trong_anh(m.muc.id) is None)
    }

    /// The lines of the invoices in the queue.
    pub open spec fn dong_cua_anh(self, a: AnhV, bat: bool) -> Seq<DongV> {
        cac_muc(a).map_values(|m: MucV| dong_theo(m, self.tt_cua(m.id), true, bat))
    }

    pub open spec fn ghi_chu_cua(self, da_noi: bool, t: u64) -> Seq<char> {
        if !da_noi {
            "có thể chưa cập nhật — app đang mất kết nối"@
        } else if !self.cua_ket_noi_nay {
            "đang tải lại…"@
        } else if self.luc_nhan matches Some(l) && da_qua(l, t) >= CU_SAU_MS {
            "có thể chưa cập nhật"@
        } else {
            Seq::empty()
        }
    }

    /// The block.
    pub open spec fn khoi_cua(self, da_noi: bool, ma: Option<MaSuCo>, t: u64) -> KhoiV {
        if self.anh is None || !self.ho_tro {
            KhoiV::rong()
        } else {
            let a = self.anh->0;
            let bat = self.bam_duoc(da_noi);
            let dong = chen_dong(self.dong_cua_anh(a, bat), sap_theo_dong(self.con_lai()), bat);
            let d = dem_anh(a);
            let (che_do, chu_loat) = loat_theo(self.loat, bat);
            KhoiV {
                hien: dong.len() > 0 || self.loat is Some,
                tieu_de: "HÀNG ĐỢI ("@ + chu::thap_phan(d.0) + ")"@ + (if d.2 > 0 {
                    " · "@ + chu::thap_phan(d.2) + " chưa xác nhận"@
                } else {
                    Seq::empty()
                }),
                ghi_chu: self.ghi_chu_cua(da_noi, t),
                dai_tam_giu: if d.1 > 0 {
                    dai_tam_giu_cua(d.1, ma)
                } else {
                    Seq::empty()
                },
                so_huy_ca: if bat {
                    self.ids_huy_ca().len()
                } else {
                    0
                },
                loat_che_do: che_do,
                loat_chu: chu_loat,
                loat_nut: match self.loat {
                    Some(LoatV::XacNhan { ids, luc }) => "Huỷ "@ + chu::thap_phan(ids.len()) + " lệnh in"@,
                    _ => Seq::empty(),
                },
                dong,
            }
        }
    }
}

/// An entry put at `k`, where everything before stands on its line or above and everything after below.
proof fn chen_tai(s: Seq<MttV>, x: MttV, k: int)
    requires
        0 <= k <= s.len(),
        k == 0 || s[k - 1].vi_tri <= x.vi_tri,
        forall|i: int| k <= i < s.len() ==> (#[trigger] s[i]).vi_tri > x.vi_tri,
    ensures
        chen(s, x) == s.insert(k, x),
    decreases s.len(),
{
    if k == s.len() {
        assert(s.push(x) =~= s.insert(k, x));
    } else {
        assert(s[s.len() - 1].vi_tri > x.vi_tri);
        let d = s.drop_last();
        assert forall|i: int| k <= i < d.len() implies (#[trigger] d[i]).vi_tri > x.vi_tri by {
            assert(d[i] == s[i]);
        }
        chen_tai(d, x, k);
        assert(d.insert(k, x).push(s.last()) =~= s.insert(k, x));
    }
}

/// Entries put in order are in order: no entry stands behind one of a later line, and none is lost.
pub proof fn sap_theo_dong_dung(s: Seq<MttV>)
    ensures
        sap_theo_dong(s).len() == s.len(),
        forall|i: int, j: int|
            0 <= i < j < s.len() ==> (#[trigger] sap_theo_dong(s)[i]).vi_tri <= (#[trigger] sap_theo_dong(s)[j]).vi_tri,
    decreases s.len(),
{
    if s.len() > 0 {
        sap_theo_dong_dung(s.drop_last());
        chen_dung(sap_theo_dong(s.drop_last()), s.last());
    }
}

proof fn chen_dung(s: Seq<MttV>, x: MttV)
    requires
        forall|i: int, j: int| 0 <= i < j < s.len() ==> (#[trigger] s[i]).vi_tri <= (#[trigger] s[j]).vi_tri,
    ensures
        chen(s, x).len() == s.len() + 1,
        forall|i: int, j: int|
            0 <= i < j < chen(s, x).len() ==> (#[trigger] chen(s, x)[i]).vi_tri <= (#[trigger] chen(s, x)[j]).vi_tri,
        s.len() > 0 && x.vi_tri < s.last().vi_tri ==> chen(s, x).last() == s.last(),
        forall|i: int| 0 <= i < chen(s, x).len() ==> chen(s, x)[i] == x || s.contains(#[trigger] chen(s, x)[i]),
    decreases s.len(),
{
    let c = chen(s, x);
    if s.len() == 0 || s.last().vi_tri <= x.vi_tri {
        assert forall|i: int| 0 <= i < c.len() implies c[i] == x || s.contains(#[trigger] c[i]) by {
            if i < s.len() {
                assert(s[i] == c[i]);
            }
        }
        assert forall|i: int, j: int| 0 <= i < j < c.len() implies (#[trigger] c[i]).vi_tri <= (#[trigger] c[j]).vi_tri by {
            if j < s.len() {
                assert(s[i].vi_tri <= s[j].vi_tri);
            } else if i < s.len() - 1 {
                assert(s[i].vi_tri <= s[s.len() - 1].vi_tri);
            }
        }
    } else {
        let d = s.drop_last();
        assert forall|i: int, j: int| 0 <= i < j < d.len() implies (#[trigger] d[i]).vi_tri <= (#[trigger] d[j]).vi_tri by {
            assert(s[i].vi_tri <= s[j].vi_tri);
        }
        chen_dung(d, x);
        let cd = chen(d, x);
        assert forall|i: int| 0 <= i < c.len() implies c[i] == x || s.contains(#[trigger] c[i]) by {
            if i < cd.len() {
                assert(c[i] == cd[i]);
                if cd[i] != x {
                    assert(d.contains(cd[i]));
                    let k = choose|k: int| 0 <= k < d.len() && d[k] == cd[i];
                    assert(s[k] == c[i]);
                }
            } else {
                assert(s[s.len() - 1] == c[i]);
            }
        }
        assert forall|i: int, j: int| 0 <= i < j < c.len() implies (#[trigger] c[i]).vi_tri <= (#[trigger] c[j]).vi_tri by {
            if j < cd.len() {
                assert(cd[i].vi_tri <= cd[j].vi_tri);
            } else if cd[i] != x {
                assert(d.contains(cd[i]));
                let k = choose|k: int| 0 <= k < d.len() && d[k] == cd[i];
                assert(s[k].vi_tri <= s[s.len() - 1].vi_tri);
            }
        }
    }
}

/// The words of a line, and what it shows.
fn che_do_dong(muc: &MucHangDoi, tt: Option<&ThaoTac>, con_trong_anh: bool, bat: bool) -> (r: (CheDo, String))
    ensures
        (r.0, r.1@) == che_do_cua(
            muc@,
            match tt {
                Some(t) => Some(t@),
                None => None,
            },
            con_trong_anh,
            bat,
        ),
{
    match tt {
        None => (CheDo::BinhThuong, String::new()),
        Some(t) => match t {
            ThaoTac::XacNhanHuy { luc: _ } => if bat {
                (CheDo::XacNhanHuy, chu_xac_nhan_huy(muc.so_hoa_don.as_str()))
            } else {
                (CheDo::BinhThuong, String::new())
            },
            ThaoTac::XacNhanBo { luc: _ } => if bat {
                (CheDo::XacNhanBo, chu_xac_nhan_bo(muc.so_hoa_don.as_str()))
            } else {
                (CheDo::BinhThuong, String::new())
            },
            ThaoTac::ViSao => (CheDo::ViSao, vi_sao(muc).to_owned()),
            ThaoTac::Dang { loai, lan, da_gui } => {
                let mut s = match *loai {
                    LoaiViec::Huy => "Đang huỷ…".to_owned(),
                    LoaiViec::BoTheoDoi => "Đang bỏ khỏi hàng đợi…".to_owned(),
                };
                if *lan > 1 {
                    if *da_gui == 0 {
                        s.append(" (chờ nối lại ZaloCRM để gửi yêu cầu)");
                    } else {
                        s.append(" (ZaloCRM chưa trả lời — hỏi lại, lần ");
                        s.append(chu::so_thap_phan(*da_gui as u64 + 1).as_str());
                        s.append("/");
                        s.append(chu::so_thap_phan(SO_LAN_GUI_TOI_DA as u64).as_str());
                        s.append(")");
                    }
                }
                (CheDo::Dang, s)
            },
            ThaoTac::Xong { loai, luc: _, noi_dung } => (
                if *loai == LoaiViec::Huy {
                    CheDo::DaHuy
                } else {
                    CheDo::DaBo
                },
                noi_dung.clone(),
            ),
            ThaoTac::ThatBai { loai: _, noi_dung } => (CheDo::ThatBai, noi_dung.clone()),
            ThaoTac::ChuaRo { loai } => {
                let s = if con_trong_anh && *loai == LoaiViec::Huy && huy_duoc(muc) {
                    "Chưa rõ đã huỷ được chưa — ZaloCRM không trả lời. Hoá đơn VẪN đang chờ trong hàng đợi: bấm \"Huỷ lại\" để hỏi lại.".to_owned()
                } else {
                    let mut s = "Chưa rõ đã ".to_owned();
                    s.append(chu_viec(*loai));
                    if con_trong_anh {
                        s.append(" được chưa — ZaloCRM không trả lời. Hoá đơn vẫn còn trong hàng đợi.");
                    } else {
                        s.append(
                            " được chưa — ZaloCRM không trả lời, và hoá đơn đã rời hàng đợi (đã huỷ hoặc đã gửi in). Xem Nhật ký in trên ZaloCRM.",
                        );
                    }
                    s
                };
                (CheDo::ChuaRo, s)
            },
        },
    }
}

fn mot_dong<F: Fn(&str) -> String>(
    muc: &MucHangDoi,
    tt: Option<&ThaoTac>,
    con_trong_anh: bool,
    bat: bool,
    gio: &F,
) -> (r: DongHangDoi)
    requires
        gio_nhan_het(*gio),
    ensures
        gio_dung(*gio, r),
        r@ == dong_theo(
            muc@,
            match tt {
                Some(t) => Some(t@),
                None => None,
            },
            con_trong_anh,
            bat,
        ),
{
    let mut tieu_de = muc.so_hoa_don.clone();
    if let Some(k) = &muc.ten_khach {
        tieu_de.append(" · ");
        tieu_de.append(k.as_str());
    }
    let (che_do, thong_diep) = che_do_dong(muc, tt, con_trong_anh, bat);
    let hong = match tt {
        Some(ThaoTac::ThatBai { loai, noi_dung: _ }) => *loai == LoaiViec::Huy,
        Some(ThaoTac::ChuaRo { loai }) => *loai == LoaiViec::Huy,
        _ => false,
    };
    let tao = muc.tao.as_str();
    let gio_may = gio(tao);
    let r = DongHangDoi {
        id: muc.id.clone(),
        tieu_de,
        tao: muc.tao.clone(),
        gio: gio_may,
        trang_thai: nhan_trang_thai(muc),
        mau: mau_cua(muc),
        che_do,
        nut: if huy_duoc(muc) {
            NutDong::Huy
        } else {
            NutDong::ViSao
        },
        bat_nut: bat,
        thong_diep,
        co_nut_bo: che_do == CheDo::ViSao && la_chua_xac_nhan(muc),
        co_nut_huy_lai: con_trong_anh && huy_duoc(muc) && hong,
    };
    assert(tao@ == r.tao@ && call_ensures(*gio, (tao,), r.gio));
    r
}

impl HangDoiApp {
    /// The line of one invoice in the queue.
    fn dong_trong_anh<F: Fn(&str) -> String>(&self, muc: &MucHangDoi, bat: bool, gio: &F) -> (r: DongHangDoi)
        requires
            gio_nhan_het(*gio),
        ensures
            gio_dung(*gio, r),
            r@ == dong_theo(muc@, self@.tt_cua(muc@.id), true, bat),
    {
        match self.vi_tri_thao_tac(muc.id.as_str()) {
            Some(i) => {
                assert(self@.thao_tac[i as int] == self.thao_tac@[i as int]@);
                mot_dong(muc, Some(&self.thao_tac[i].tt), true, bat, gio)
            },
            None => mot_dong(muc, None, true, bat, gio),
        }
    }

    /// Which entries of what goes on have left the queue, by the line they stood on.
    fn cac_muc_con_lai(&self) -> (r: Vec<usize>)
        requires
            self@.hop_le(),
        ensures
            forall|i: int| 0 <= i < r@.len() ==> #[trigger] r@[i] < self.thao_tac@.len(),
            r@.map_values(|k: usize| self@.thao_tac[k as int]) == sap_theo_dong(self@.con_lai()),
    {
        let ghost x = self@.thao_tac;
        let ghost sv = self@;
        let ghost p = |m: MttV| !m.tt.hop_thoai() && sv.dong_trong_anh(m.muc.id) is None;
        let ghost f = |k: usize| x[k as int];
        let mut ra: Vec<usize> = Vec::new();
        let mut i: usize = 0;
        assert(ra@.map_values(f) =~= sap_theo_dong(giu(x.subrange(0, 0), p)));
        while i < self.thao_tac.len()
            invariant
                self@.hop_le(),
                sv == self@,
                x == xem(self.thao_tac@),
                x == self@.thao_tac,
                p == (|m: MttV| !m.tt.hop_thoai() && sv.dong_trong_anh(m.muc.id) is None),
                f == (|k: usize| x[k as int]),
                i <= self.thao_tac@.len(),
                forall|j: int| 0 <= j < ra@.len() ==> #[trigger] ra@[j] < self.thao_tac@.len(),
                ra@.map_values(f) == sap_theo_dong(giu(x.subrange(0, i as int), p)),
            decreases self.thao_tac@.len() - i,
        {
            assert(x.subrange(0, i + 1).drop_last() =~= x.subrange(0, i as int));
            assert(x.subrange(0, i + 1).last() == self.thao_tac@[i as int]@);
            let m = &self.thao_tac[i];
            if !m.tt.la_hop_thoai() && self.tim_trong_anh(m.muc.id.as_str()).is_none() {
                let ghost cu = ra@;
                let ghost s = cu.map_values(f);
                let mut k: usize = ra.len();
                while k > 0 && self.thao_tac[ra[k - 1]].vi_tri > m.vi_tri
                    invariant
                        x == xem(self.thao_tac@),
                        f == (|k: usize| x[k as int]),
                        cu == ra@,
                        s == cu.map_values(f),
                        k <= ra@.len(),
                        m@ == x[i as int],
                        forall|j: int| 0 <= j < ra@.len() ==> #[trigger] ra@[j] < self.thao_tac@.len(),
                        forall|j: int| k <= j < s.len() ==> (#[trigger] s[j]).vi_tri > m@.vi_tri,
                    decreases k,
                {
                    assert(s[k - 1] == x[ra@[k - 1] as int]);
                    assert(x[ra@[k - 1] as int] == self.thao_tac@[ra@[k - 1] as int]@);
                    k = k - 1;
                }
                proof {
                    if k > 0 {
                        assert(s[k - 1] == x[ra@[k - 1] as int]);
                        assert(x[ra@[k - 1] as int] == self.thao_tac@[ra@[k - 1] as int]@);
                    }
                    chen_tai(s, m@, k as int);
                }
                ra.insert(k, i);
                assert(ra@.map_values(f) =~= s.insert(k as int, m@));
                let ghost g = giu(x.subrange(0, i as int), p);
                assert(giu(x.subrange(0, i + 1), p) == g.push(m@));
                assert(g.push(m@).drop_last() =~= g);
            }
            i = i + 1;
        }
        assert(x.subrange(0, x.len() as int) =~= x);
        ra
    }

    /// The lines.
    fn cac_dong<F: Fn(&str) -> String>(&self, bat: bool, gio: &F) -> (r: Vec<DongHangDoi>)
        requires
            self@.hop_le(),
            self@.anh is Some,
            gio_nhan_het(*gio),
        ensures
            forall|i: int| 0 <= i < r@.len() ==> gio_dung(*gio, #[trigger] r@[i]),
            xem(r@) == chen_dong(self@.dong_cua_anh(self@.anh->0, bat), sap_theo_dong(self@.con_lai()), bat),
    {
        let ghost sv = self@;
        let ghost av = self@.anh->0;
        let ghost tc = cac_muc(av);
        let ghost f = |m: MucV| dong_theo(m, sv.tt_cua(m.id), true, bat);
        let mut dong: Vec<DongHangDoi> = Vec::new();
        if let Some(anh) = &self.anh {
            let mut i: usize = 0;
            assert(xem(dong@) =~= tc.subrange(0, 0).map_values(f));
            while i < anh.cho_in.len()
                invariant
                    sv == self@,
                    av == anh@,
                    tc == cac_muc(av),
                    f == (|m: MucV| dong_theo(m, sv.tt_cua(m.id), true, bat)),
                    i <= anh.cho_in@.len(),
                    gio_nhan_het(*gio),
                    forall|k: int| 0 <= k < dong@.len() ==> gio_dung(*gio, #[trigger] dong@[k]),
                    xem(dong@) == tc.subrange(0, i as int).map_values(f),
                decreases anh.cho_in@.len() - i,
            {
                assert(tc[i as int] == anh.cho_in@[i as int]@);
                let ghost truoc = dong@;
                let d = self.dong_trong_anh(&anh.cho_in[i], bat, gio);
                dong.push(d);
                assert(xem(dong@) =~= xem(truoc).push(d@));
                assert(tc.subrange(0, i + 1).map_values(f) =~= tc.subrange(0, i as int).map_values(f).push(d@));
                i = i + 1;
            }
            let ghost n = anh.cho_in@.len() as int;
            let mut j: usize = 0;
            while j < anh.chua_xac_nhan.len()
                invariant
                    sv == self@,
                    av == anh@,
                    tc == cac_muc(av),
                    n == anh.cho_in@.len(),
                    f == (|m: MucV| dong_theo(m, sv.tt_cua(m.id), true, bat)),
                    j <= anh.chua_xac_nhan@.len(),
                    gio_nhan_het(*gio),
                    forall|k: int| 0 <= k < dong@.len() ==> gio_dung(*gio, #[trigger] dong@[k]),
                    xem(dong@) == tc.subrange(0, n + j).map_values(f),
                decreases anh.chua_xac_nhan@.len() - j,
            {
                assert(tc[n + j] == anh.chua_xac_nhan@[j as int]@);
                let ghost truoc = dong@;
                let d = self.dong_trong_anh(&anh.chua_xac_nhan[j], bat, gio);
                dong.push(d);
                assert(xem(dong@) =~= xem(truoc).push(d@));
                assert(tc.subrange(0, n + j + 1).map_values(f) =~= tc.subrange(0, n + j).map_values(f).push(d@));
                j = j + 1;
            }
            assert(tc.subrange(0, n + anh.chua_xac_nhan@.len()) =~= tc);
        }
        let ghost goc = xem(dong@);
        assert(goc =~= sv.dong_cua_anh(av, bat));
        let con = self.cac_muc_con_lai();
        let ghost ds = sap_theo_dong(sv.con_lai());
        assert(con@.len() == ds.len()) by {
            assert(con@.map_values(|k: usize| sv.thao_tac[k as int]).len() == con@.len());
        }
        let mut i: usize = 0;
        assert(ds.subrange(0, 0) =~= Seq::empty());
        while i < con.len()
            invariant
                sv == self@,
                con@.len() == ds.len(),
                con@.map_values(|k: usize| sv.thao_tac[k as int]) == ds,
                forall|j: int| 0 <= j < con@.len() ==> #[trigger] con@[j] < self.thao_tac@.len(),
                i <= con@.len(),
                gio_nhan_het(*gio),
                forall|k: int| 0 <= k < dong@.len() ==> gio_dung(*gio, #[trigger] dong@[k]),
                xem(dong@) == chen_dong(goc, ds.subrange(0, i as int), bat),
            decreases con@.len() - i,
        {
            assert(ds.subrange(0, i + 1).drop_last() =~= ds.subrange(0, i as int));
            let m = &self.thao_tac[con[i]];
            assert(ds[i as int] == con@.map_values(|k: usize| sv.thao_tac[k as int])[i as int]);
            assert(ds.subrange(0, i + 1).last() == m@);
            let d = mot_dong(&m.muc, Some(&m.tt), false, bat, gio);
            let k: usize = if m.vi_tri <= dong.len() {
                m.vi_tri
            } else {
                dong.len()
            };
            let ghost truoc = dong@;
            dong.insert(k, d);
            assert(xem(dong@) =~= xem(truoc).insert(k as int, d@));
            i = i + 1;
        }
        assert(ds.subrange(0, ds.len() as int) =~= ds);
        dong
    }

    /// The block for the screen. `ma_may_in` is the printer's latest state; `gio` puts a time of the
    /// server's in the computer's own.
    pub fn khoi<F: Fn(&str) -> String>(
        &self,
        da_noi: bool,
        ma_may_in: Option<MaSuCo>,
        bay_gio_ms: u64,
        gio: &F,
    ) -> (r: KhoiHangDoi)
        requires
            self@.hop_le(),
            gio_nhan_het(*gio),
        ensures
            forall|i: int| 0 <= i < r.dong@.len() ==> gio_dung(*gio, #[trigger] r.dong@[i]),
            r@ == self@.khoi_cua(da_noi, ma_may_in, bay_gio_ms),
    {
        let anh = match &self.anh {
            Some(a) => a,
            None => {
                return KhoiHangDoi::default();
            },
        };
        if !self.ho_tro {
            return KhoiHangDoi::default();
        }
        let bat = self.co_the_bam(da_noi);
        let dong = self.cac_dong(bat, gio);
        let so_tam_giu = dem_tam_giu(&anh.cho_in);
        let mut tieu_de = "HÀNG ĐỢI (".to_owned();
        tieu_de.append(chu::so_thap_phan(anh.cho_in.len() as u64).as_str());
        tieu_de.append(")");
        if anh.chua_xac_nhan.len() > 0 {
            let mut t = " · ".to_owned();
            t.append(chu::so_thap_phan(anh.chua_xac_nhan.len() as u64).as_str());
            t.append(" chưa xác nhận");
            tieu_de.append(t.as_str());
        } else {
            assert(tieu_de@ + Seq::<char>::empty() =~= tieu_de@);
        }
        let cu = match self.luc_nhan {
            Some(t) => qua_ms(t, bay_gio_ms) >= CU_SAU_MS,
            None => false,
        };
        let ghi_chu = if !da_noi {
            "có thể chưa cập nhật — app đang mất kết nối".to_owned()
        } else if !self.cua_ket_noi_nay {
            "đang tải lại…".to_owned()
        } else if cu {
            "có thể chưa cập nhật".to_owned()
        } else {
            String::new()
        };
        let so_huy_ca: usize = if bat {
            let ids = self.ids_huy_ca();
            assert(xem(ids@).len() == ids@.len());
            ids.len()
        } else {
            0
        };
        let (loat_che_do, loat_chu) = self.chu_loat(bat);
        let loat_nut = match &self.loat {
            Some(Loat::XacNhan { ids, luc: _ }) => {
                let mut s = "Huỷ ".to_owned();
                s.append(chu::so_thap_phan(ids.len() as u64).as_str());
                s.append(" lệnh in");
                s
            },
            _ => String::new(),
        };
        let hien = dong.len() > 0 || self.loat.is_some();
        assert(xem(dong@).len() == dong@.len());
        KhoiHangDoi {
            hien,
            tieu_de,
            ghi_chu,
            dai_tam_giu: if so_tam_giu > 0 {
                chu_dai_tam_giu(so_tam_giu, ma_may_in)
            } else {
                String::new()
            },
            so_huy_ca,
            loat_che_do,
            loat_chu,
            loat_nut,
            dong,
        }
    }

    fn chu_loat(&self, bat: bool) -> (r: (u8, String))
        requires
            self@.hop_le(),
        ensures
            (r.0, r.1@) == loat_theo(self@.loat, bat),
    {
        match &self.loat {
            None => (0, String::new()),
            Some(Loat::XacNhan { ids, luc: _ }) => if bat {
                let mut s = "Huỷ cả ".to_owned();
                s.append(chu::so_thap_phan(ids.len() as u64).as_str());
                s.append(" lệnh in đang tạm giữ? Các hoá đơn này sẽ KHÔNG được in.");
                (1, s)
            } else {
                (0, String::new())
            },
            Some(Loat::Dang { ids, xong, duoc: _ }) => {
                let mut s = "Đang huỷ ".to_owned();
                s.append(chu::so_thap_phan(*xong as u64).as_str());
                s.append("/");
                s.append(chu::so_thap_phan(ids.len() as u64).as_str());
                s.append(" lệnh in…");
                (2, s)
            },
            Some(Loat::Xong { tong, duoc, luc: _ }) => {
                let mut s = "Đã huỷ ".to_owned();
                s.append(chu::so_thap_phan(*duoc as u64).as_str());
                s.append("/");
                s.append(chu::so_thap_phan(*tong as u64).as_str());
                if *duoc == *tong {
                    s.append(" lệnh in");
                    (3, s)
                } else {
                    s.append(" — ");
                    s.append(chu::so_thap_phan((*tong - *duoc) as u64).as_str());
                    s.append(" lệnh KHÔNG huỷ được hoặc chưa rõ, xem các dòng đỏ/vàng bên dưới.");
                    (4, s)
                }
            },
        }
    }
}

impl KhoiV {
    /// No block at all.
    pub open spec fn rong() -> KhoiV {
        KhoiV {
            hien: false,
            tieu_de: Seq::empty(),
            ghi_chu: Seq::empty(),
            dai_tam_giu: Seq::empty(),
            so_huy_ca: 0,
            loat_che_do: 0,
            loat_chu: Seq::empty(),
            loat_nut: Seq::empty(),
            dong: Seq::empty(),
        }
    }
}

impl Default for KhoiHangDoi {
    fn default() -> (r: KhoiHangDoi)
        ensures
            r@ == KhoiV::rong(),
            r.dong@.len() == 0,
    {
        let dong: Vec<DongHangDoi> = Vec::new();
        assert(xem(dong@) =~= Seq::empty());
        KhoiHangDoi {
            hien: false,
            tieu_de: String::new(),
            ghi_chu: String::new(),
            dai_tam_giu: String::new(),
            so_huy_ca: 0,
            loat_che_do: 0,
            loat_chu: String::new(),
            loat_nut: String::new(),
            dong,
        }
    }
}

} // verus!
