//! The messages of the protocol: what the server says it understands, and what the agent reports.
use crate::chu;
use crate::config::Config;
use crate::day::xem;
use crate::gia_tri::{cac_truong, chu_cua, chu_muon, them_chu_neu, them_truong, GiaTri, Gt};
use crate::su_co::{MaSuCo, TapMa};
use crate::thoi_gian;
use vstd::prelude::*;

verus! {

/// What the server at the other end of the present connection understands. Nothing, until it says
/// otherwise: an old server takes every state but "loi" for "printed".
#[derive(Debug, Clone, Copy, PartialEq, Eq, Structural)]
pub struct HoTro {
    pub khong_ro: bool,
    pub su_co: bool,
    pub trang_thai_may_in: bool,
    pub nhat_ky_app: bool,
    pub hang_doi: bool,
}

impl Default for HoTro {
    fn default() -> (r: HoTro)
        ensures
            r == HoTro::khong_gi(),
    {
        HoTro { khong_ro: false, su_co: false, trang_thai_may_in: false, nhat_ky_app: false, hang_doi: false }
    }
}

impl HoTro {
    pub open spec fn khong_gi() -> HoTro {
        HoTro { khong_ro: false, su_co: false, trang_thai_may_in: false, nhat_ky_app: false, hang_doi: false }
    }
}

/// The list under "hoTro" names the feature `ten`.
pub open spec fn co_tinh_nang(payload: Gt, ten: Seq<char>) -> bool {
    payload.truong("hoTro"@) matches Some(Gt::Mang(ds)) && ds.contains(Gt::Chuoi(ten))
}

/// What the server says it understands; what it says in another form counts as nothing.
pub open spec fn cau_hinh_cua(payload: Gt) -> HoTro {
    HoTro {
        khong_ro: co_tinh_nang(payload, "khong_ro"@),
        su_co: co_tinh_nang(payload, "su_co"@),
        trang_thai_may_in: co_tinh_nang(payload, "trang_thai_may_in"@),
        nhat_ky_app: co_tinh_nang(payload, "nhat_ky_app"@),
        hang_doi: co_tinh_nang(payload, "hang_doi"@),
    }
}

/// Whether one of the values is the text `ten`.
fn co_chu(ds: &Vec<GiaTri>, ten: &str) -> (r: bool)
    ensures
        r == (exists|i: int| 0 <= i < ds@.len() && (#[trigger] ds@[i])@ == Gt::Chuoi(ten@)),
{
    let mut i: usize = 0;
    while i < ds.len()
        invariant
            i <= ds@.len(),
            forall|k: int| 0 <= k < i ==> (#[trigger] ds@[k])@ != Gt::Chuoi(ten@),
        decreases ds@.len() - i,
    {
        if let Some(s) = ds[i].la_chuoi() {
            if chu::bang(s, ten) {
                assert(ds@[i as int]@ == Gt::Chuoi(ten@));
                return true;
            }
        }
        i = i + 1;
    }
    false
}

/// Reads the event "cau-hinh".
pub fn doc_cau_hinh(payload: &GiaTri) -> (r: HoTro)
    ensures
        r == cau_hinh_cua(payload@),
{
    match payload.truong("hoTro") {
        Some(g) => match g {
            GiaTri::Mang(ds) => {
                let ghost seq = g@->Mang_0;
                assert(seq.len() == ds@.len());
                assert forall|ten: Seq<char>| #[trigger] seq.contains(Gt::Chuoi(ten)) == (exists|i: int|
                    0 <= i < ds@.len() && (#[trigger] ds@[i])@ == Gt::Chuoi(ten)) by {
                    if seq.contains(Gt::Chuoi(ten)) {
                        let i = choose|i: int| 0 <= i < seq.len() && seq[i] == Gt::Chuoi(ten);
                        assert(ds@[i]@ == Gt::Chuoi(ten));
                    }
                    if exists|i: int| 0 <= i < ds@.len() && (#[trigger] ds@[i])@ == Gt::Chuoi(ten) {
                        let i = choose|i: int| 0 <= i < ds@.len() && (#[trigger] ds@[i])@ == Gt::Chuoi(ten);
                        assert(seq[i] == Gt::Chuoi(ten));
                    }
                }
                HoTro {
                    khong_ro: co_chu(ds, "khong_ro"),
                    su_co: co_chu(ds, "su_co"),
                    trang_thai_may_in: co_chu(ds, "trang_thai_may_in"),
                    nhat_ky_app: co_chu(ds, "nhat_ky_app"),
                    hang_doi: co_chu(ds, "hang_doi"),
                }
            },
            _ => HoTro::default(),
        },
        None => HoTro::default(),
    }
}

/// A detail, or nothing where there is none.
pub open spec fn truong_chi_tiet(chi_tiet: Option<Seq<char>>) -> Seq<(Seq<char>, Gt)> {
    match chi_tiet {
        Some(s) => seq![("chiTiet"@, Gt::Chuoi(s))],
        None => Seq::empty(),
    }
}

/// The message "su-co".
pub open spec fn su_co_cua(
    job_id: Seq<char>,
    loai: MaSuCo,
    chi_tiet: Option<Seq<char>>,
    may_in: Seq<char>,
    luc_ms: u64,
) -> Gt {
    Gt::DoiTuong(
        seq![
            ("jobId"@, Gt::Chuoi(job_id)),
            ("loai"@, Gt::Chuoi(loai.ma_cua())),
            ("mayIn"@, Gt::Chuoi(may_in)),
            ("luc"@, Gt::Chuoi(thoi_gian::iso_chu(luc_ms as int))),
        ] + truong_chi_tiet(chi_tiet),
    )
}

/// The message "trang-thai-may-in".
pub open spec fn trang_thai_cua(ma: MaSuCo, chi_tiet: Option<Seq<char>>, may_in: Seq<char>, luc_ms: u64) -> Gt {
    Gt::DoiTuong(
        seq![
            ("trangThai"@, Gt::Chuoi(ma.ma_cua())),
            ("mayIn"@, Gt::Chuoi(may_in)),
            ("luc"@, Gt::Chuoi(thoi_gian::iso_chu(luc_ms as int))),
        ] + truong_chi_tiet(chi_tiet),
    )
}

/// Builds "su-co": trouble of the kind `loai` with a job, at a time in milliseconds since 1970.
pub fn su_co(job_id: &str, loai: MaSuCo, chi_tiet: Option<&str>, may_in: &str, luc_ms: u64) -> (r: GiaTri)
    ensures
        r@ == su_co_cua(job_id@, loai, chu_muon(chi_tiet), may_in@, luc_ms),
{
    let mut v: Vec<(String, GiaTri)> = Vec::new();
    them_truong(&mut v, "jobId", GiaTri::tu_chu(job_id));
    them_truong(&mut v, "loai", GiaTri::tu_chu(loai.ma()));
    them_truong(&mut v, "mayIn", GiaTri::tu_chu(may_in));
    them_truong(&mut v, "luc", GiaTri::tu_chu(thoi_gian::iso_utc(luc_ms).as_str()));
    them_chu_neu(&mut v, "chiTiet", chi_tiet);
    assert(cac_truong(v@) =~= su_co_cua(job_id@, loai, chu_muon(chi_tiet), may_in@, luc_ms)->DoiTuong_0);
    GiaTri::doi_tuong(v)
}

/// Builds "trang-thai-may-in".
pub fn trang_thai_may_in(ma: MaSuCo, chi_tiet: Option<&str>, may_in: &str, luc_ms: u64) -> (r: GiaTri)
    ensures
        r@ == trang_thai_cua(ma, chu_muon(chi_tiet), may_in@, luc_ms),
{
    let mut v: Vec<(String, GiaTri)> = Vec::new();
    them_truong(&mut v, "trangThai", GiaTri::tu_chu(ma.ma()));
    them_truong(&mut v, "mayIn", GiaTri::tu_chu(may_in));
    them_truong(&mut v, "luc", GiaTri::tu_chu(thoi_gian::iso_utc(luc_ms).as_str()));
    them_chu_neu(&mut v, "chiTiet", chi_tiet);
    assert(cac_truong(v@) =~= trang_thai_cua(ma, chu_muon(chi_tiet), may_in@, luc_ms)->DoiTuong_0);
    GiaTri::doi_tuong(v)
}

/// The version that the agent reports of itself.
pub const PHIEN_BAN: &'static str = "0.2.5";

/// Builds "thong-tin-app". The token is not in it.
pub fn thong_tin_app(cfg: &Config, may: &str) -> (r: GiaTri)
    ensures
        r@ == Gt::DoiTuong(
            seq![
                ("phienBan"@, Gt::Chuoi(PHIEN_BAN@)),
                ("mayIn"@, Gt::Chuoi(cfg@.printer_name)),
                ("khay"@, Gt::Chuoi(cfg@.tray)),
                ("khoGiay"@, Gt::Chuoi(cfg@.paper_size)),
                ("may"@, Gt::Chuoi(may@)),
            ],
        ),
{
    let mut v: Vec<(String, GiaTri)> = Vec::new();
    them_truong(&mut v, "phienBan", GiaTri::tu_chu(PHIEN_BAN));
    them_truong(&mut v, "mayIn", GiaTri::tu_chu(cfg.printer_name.as_str()));
    them_truong(&mut v, "khay", GiaTri::tu_chu(cfg.tray.as_str()));
    them_truong(&mut v, "khoGiay", GiaTri::tu_chu(cfg.paper_size.as_str()));
    them_truong(&mut v, "may", GiaTri::tu_chu(may));
    assert(cac_truong(v@) =~= seq![
        ("phienBan"@, Gt::Chuoi(PHIEN_BAN@)),
        ("mayIn"@, Gt::Chuoi(cfg@.printer_name)),
        ("khay"@, Gt::Chuoi(cfg@.tray)),
        ("khoGiay"@, Gt::Chuoi(cfg@.paper_size)),
        ("may"@, Gt::Chuoi(may@)),
    ]);
    GiaTri::doi_tuong(v)
}

/// The kinds of trouble already reported of one job: each is reported once.
#[derive(Debug, Clone, Copy, PartialEq, Eq)]
pub struct BoLocSuCo {
    da_gui: TapMa,
}

impl BoLocSuCo {
    /// This kind was reported already.
    pub closed spec fn da_bao(&self, loai: MaSuCo) -> bool {
        self.da_gui.chua(loai)
    }

    /// Whether this kind is seen for the first time.
    pub fn lan_dau(&mut self, loai: MaSuCo) -> (r: bool)
        ensures
            r == !old(self).da_bao(loai),
            forall|m: MaSuCo| #[trigger] final(self).da_bao(m) == (old(self).da_bao(m) || m == loai),
    {
        let moi = !self.da_gui.co(loai);
        self.da_gui.them(loai);
        moi
    }
}

impl Default for BoLocSuCo {
    fn default() -> (r: BoLocSuCo)
        ensures
            forall|m: MaSuCo| !r.da_bao(m),
    {
        BoLocSuCo { da_gui: TapMa::rong() }
    }
}

/// One invoice in the server's queue.
#[derive(Debug, Clone, PartialEq, Eq)]
pub struct MucHangDoi {
    pub id: String,
    pub so_hoa_don: String,
    pub ten_khach: Option<String>,
    pub trang_thai: String,
    pub nhom: String,
    pub ly_do: String,
    /// Held back because the printer is in trouble.
    pub tam_giu: bool,
    /// When it entered the queue, as the server writes it.
    pub tao: String,
    /// "chac_chan" where a withdrawal is certain to take effect.
    pub huy: String,
}

pub ghost struct MucV {
    pub id: Seq<char>,
    pub so_hoa_don: Seq<char>,
    pub ten_khach: Option<Seq<char>>,
    pub trang_thai: Seq<char>,
    pub nhom: Seq<char>,
    pub ly_do: Seq<char>,
    pub tam_giu: bool,
    pub tao: Seq<char>,
    pub huy: Seq<char>,
}

impl View for MucHangDoi {
    type V = MucV;

    open spec fn view(&self) -> MucV {
        MucV {
            id: self.id@,
            so_hoa_don: self.so_hoa_don@,
            ten_khach: chu_cua(self.ten_khach),
            trang_thai: self.trang_thai@,
            nhom: self.nhom@,
            ly_do: self.ly_do@,
            tam_giu: self.tam_giu,
            tao: self.tao@,
            huy: self.huy@,
        }
    }
}

impl MucHangDoi {
    /// An entry of its own with the same contents.
    pub fn ban_sao(&self) -> (r: MucHangDoi)
        ensures
            r@ == self@,
    {
        MucHangDoi {
            id: self.id.clone(),
            so_hoa_don: self.so_hoa_don.clone(),
            ten_khach: match &self.ten_khach {
                Some(s) => Some(s.clone()),
                None => None,
            },
            trang_thai: self.trang_thai.clone(),
            nhom: self.nhom.clone(),
            ly_do: self.ly_do.clone(),
            tam_giu: self.tam_giu,
            tao: self.tao.clone(),
            huy: self.huy.clone(),
        }
    }
}

/// The server's queue for this printer.
#[derive(Debug, Clone, PartialEq, Eq)]
pub struct HangDoiServer {
    pub cho_in: Vec<MucHangDoi>,
    pub chua_xac_nhan: Vec<MucHangDoi>,
    pub cap_nhat: String,
}

pub ghost struct AnhV {
    pub cho_in: Seq<MucV>,
    pub chua_xac_nhan: Seq<MucV>,
    pub cap_nhat: Seq<char>,
}

impl View for HangDoiServer {
    type V = AnhV;

    open spec fn view(&self) -> AnhV {
        AnhV { cho_in: xem(self.cho_in@), chua_xac_nhan: xem(self.chua_xac_nhan@), cap_nhat: self.cap_nhat@ }
    }
}

/// The server's reply to a withdrawal.
#[derive(Debug, Clone, PartialEq, Eq)]
pub struct KetQuaHuy {
    pub id: String,
    pub ok: bool,
    pub cach: String,
    pub loi: String,
    pub noi_dung: String,
}

pub ghost struct KetQuaHuyV {
    pub id: Seq<char>,
    pub ok: bool,
    pub cach: Seq<char>,
    pub loi: Seq<char>,
    pub noi_dung: Seq<char>,
}

impl View for KetQuaHuy {
    type V = KetQuaHuyV;

    open spec fn view(&self) -> KetQuaHuyV {
        KetQuaHuyV { id: self.id@, ok: self.ok, cach: self.cach@, loi: self.loi@, noi_dung: self.noi_dung@ }
    }
}

/// A text field, empty where it is missing.
pub open spec fn chuoi_hoac_rong(g: Gt, khoa: Seq<char>) -> Seq<char> {
    match g.chuoi(khoa) {
        Some(s) => s,
        None => Seq::empty(),
    }
}

fn lay_chu(g: &GiaTri, khoa: &str) -> (r: String)
    ensures
        r@ == chuoi_hoac_rong(g@, khoa@),
{
    match g.chuoi(khoa) {
        Some(s) => s.to_owned(),
        None => String::new(),
    }
}

/// A reply that names an invoice and says yes or no; any other reply says nothing.
pub open spec fn ket_qua_huy_cua(g: Gt) -> Option<KetQuaHuyV> {
    match g.chuoi("id"@) {
        Some(id) => match g.bool_cua("ok"@) {
            Some(ok) => Some(
                KetQuaHuyV {
                    id,
                    ok,
                    cach: chuoi_hoac_rong(g, "cach"@),
                    loi: chuoi_hoac_rong(g, "loi"@),
                    noi_dung: chuoi_hoac_rong(g, "noiDung"@),
                },
            ),
            None => None,
        },
        None => None,
    }
}

pub fn doc_ket_qua_huy(g: &GiaTri) -> (r: Option<KetQuaHuy>)
    ensures
        r matches Some(k) ==> ket_qua_huy_cua(g@) == Some(k@),
        r is None ==> ket_qua_huy_cua(g@) is None,
{
    match g.chuoi("id") {
        Some(id) => match g.bool_cua("ok") {
            Some(ok) => Some(
                KetQuaHuy {
                    id: id.to_owned(),
                    ok,
                    cach: lay_chu(g, "cach"),
                    loi: lay_chu(g, "loi"),
                    noi_dung: lay_chu(g, "noiDung"),
                },
            ),
            None => None,
        },
        None => None,
    }
}

} // verus!
