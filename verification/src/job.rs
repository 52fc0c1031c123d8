//! One print job: what the server sends, what is handed to the printer, what is reported back.
use crate::chu;
use crate::config::{CauHinh, Config};
use crate::gia_tri::{cac_truong, chu_cua, chu_muon, them_truong, GiaTri, Gt};
use crate::su_co::MaSuCo;
use base64::Engine;
use vstd::prelude::*;
use vstd::string::*;

pub mod luat;

verus! {

/// What the server sends with the event "job".
#[derive(Debug)]
pub struct JobEnvelope {
    pub job: JobIn,
}

#[derive(Debug)]
pub struct JobIn {
    pub id: String,
    /// The file name the server suggests; older servers send none.
    pub name: Option<String>,
    pub pdf_base64: String,
    pub paper_size: Option<String>,
    pub tray: Option<String>,
    pub copies: Option<u32>,
}

pub const DA_IN: &'static str = "da_in";

pub const LOI: &'static str = "loi";

pub const KHONG_RO: &'static str = "khong_ro";

/// Shown on the screen while a job is on its way to the printer; never sent to the server.
pub const DANG_GUI: &'static str = "dang_gui";

/// Shown once the job has left the queue and the printer is still to confirm it; never sent.
pub const CHO_MAY_IN: &'static str = "cho_may_in";

/// Shown for an invoice that was withdrawn from the server's queue; never sent.
pub const DA_HUY: &'static str = "da_huy";

/// The states differ from one another.
pub proof fn trang_thai_khac_nhau()
    ensures
        DA_IN@ != LOI@,
        DA_IN@ != KHONG_RO@,
        LOI@ != KHONG_RO@,
        DANG_GUI@ != DA_IN@,
        DANG_GUI@ != LOI@,
        DANG_GUI@ != KHONG_RO@,
        CHO_MAY_IN@ != DA_IN@,
        CHO_MAY_IN@ != LOI@,
        CHO_MAY_IN@ != KHONG_RO@,
        CHO_MAY_IN@ != DANG_GUI@,
        DA_HUY@ != DA_IN@,
        DA_HUY@ != LOI@,
        DA_HUY@ != KHONG_RO@,
        DA_HUY@ != DANG_GUI@,
        DA_HUY@ != CHO_MAY_IN@,
{
    reveal_strlit("da_in");
    reveal_strlit("loi");
    reveal_strlit("khong_ro");
    reveal_strlit("dang_gui");
    reveal_strlit("cho_may_in");
    reveal_strlit("da_huy");
    assert(DA_IN@.len() == 5 && LOI@.len() == 3 && KHONG_RO@.len() == 8 && DANG_GUI@.len() == 8 && CHO_MAY_IN@.len() == 10
        && DA_HUY@.len() == 6);
    assert(DANG_GUI@[0] == 'd');
    assert(KHONG_RO@[0] == 'k');
}

/// What is reported to the server with the event "ket-qua".
#[derive(Debug, Clone, PartialEq, Eq)]
pub struct KetQua {
    pub job_id: String,
    /// `DA_IN`, `LOI` or `KHONG_RO`.
    pub trang_thai: String,
    pub loi_cuoi: Option<String>,
    pub loai: Option<MaSuCo>,
    /// Only with `KHONG_RO`: whether the job was still in the queue (it will print by itself).
    pub con_trong_hang_doi: Option<bool>,
    /// Copies printed, of how many, where only some came out. For the screen; never sent.
    pub ban_da_in: Option<(u32, u32)>,
}

pub ghost struct KetQuaV {
    pub job_id: Seq<char>,
    pub trang_thai: Seq<char>,
    pub loi_cuoi: Option<Seq<char>>,
    pub loai: Option<MaSuCo>,
    pub con_trong_hang_doi: Option<bool>,
    pub ban_da_in: Option<(u32, u32)>,
}

impl View for KetQua {
    type V = KetQuaV;

    open spec fn view(&self) -> KetQuaV {
        KetQuaV {
            job_id: self.job_id@,
            trang_thai: self.trang_thai@,
            loi_cuoi: chu_cua(self.loi_cuoi),
            loai: self.loai,
            con_trong_hang_doi: self.con_trong_hang_doi,
            ban_da_in: self.ban_da_in,
        }
    }
}

impl KetQuaV {
    pub open spec fn da_in(job_id: Seq<char>) -> KetQuaV {
        KetQuaV {
            job_id,
            trang_thai: DA_IN@,
            loi_cuoi: None,
            loai: None,
            con_trong_hang_doi: None,
            ban_da_in: None,
        }
    }

    pub open spec fn loi(job_id: Seq<char>, ly_do: LyDoV) -> KetQuaV {
        KetQuaV {
            job_id,
            trang_thai: LOI@,
            loi_cuoi: Some(ly_do.chu),
            loai: ly_do.loai,
            con_trong_hang_doi: None,
            ban_da_in: None,
        }
    }

    pub open spec fn khong_ro(job_id: Seq<char>, ly_do: LyDoV) -> KetQuaV {
        KetQuaV {
            job_id,
            trang_thai: KHONG_RO@,
            loi_cuoi: Some(ly_do.chu),
            loai: ly_do.loai,
            con_trong_hang_doi: None,
            ban_da_in: ly_do.ban_da_in,
        }
    }

    /// The report of what printing came to.
    pub open spec fn cua(job_id: Seq<char>, kq: KetQuaInV) -> KetQuaV {
        match kq {
            KetQuaInV::DaIn => KetQuaV::da_in(job_id),
            KetQuaInV::Loi(l) => KetQuaV::loi(job_id, l),
            KetQuaInV::KhongRo(l) => KetQuaV::khong_ro(job_id, l),
        }
    }

    /// The message: what is not known is left out, and how many copies came out is never told.
    pub open spec fn gia_tri(self) -> Gt {
        Gt::DoiTuong(
            seq![("jobId"@, Gt::Chuoi(self.job_id)), ("trangThai"@, Gt::Chuoi(self.trang_thai))] + (match self.loi_cuoi {
                Some(s) => seq![("loiCuoi"@, Gt::Chuoi(s))],
                None => Seq::empty(),
            }) + (match self.loai {
                Some(m) => seq![("loai"@, Gt::Chuoi(m.ma_cua()))],
                None => Seq::empty(),
            }) + (match self.con_trong_hang_doi {
                Some(b) => seq![("conTrongHangDoi"@, Gt::Bool(b))],
                None => Seq::empty(),
            }),
        )
    }
}

impl KetQua {
    pub fn da_in(job_id: String) -> (r: KetQua)
        ensures
            r@ == KetQuaV::da_in(job_id@),
    {
        KetQua {
            job_id,
            trang_thai: DA_IN.to_owned(),
            loi_cuoi: None,
            loai: None,
            con_trong_hang_doi: None,
            ban_da_in: None,
        }
    }

    fn loi(job_id: String, ly_do: LyDo) -> (r: KetQua)
        ensures
            r@ == KetQuaV::loi(job_id@, ly_do@),
    {
        KetQua {
            job_id,
            trang_thai: LOI.to_owned(),
            loi_cuoi: Some(ly_do.chu),
            loai: ly_do.loai,
            con_trong_hang_doi: None,
            ban_da_in: None,
        }
    }

    fn khong_ro(job_id: String, ly_do: LyDo) -> (r: KetQua)
        ensures
            r@ == KetQuaV::khong_ro(job_id@, ly_do@),
    {
        let ban_da_in = ly_do.ban_da_in;
        KetQua {
            job_id,
            trang_thai: KHONG_RO.to_owned(),
            loi_cuoi: Some(ly_do.chu),
            loai: ly_do.loai,
            con_trong_hang_doi: None,
            ban_da_in,
        }
    }

    /// The message as it is sent.
    pub fn gia_tri(&self) -> (r: GiaTri)
        ensures
            r@ == self@.gia_tri(),
    {
        let mut v: Vec<(String, GiaTri)> = Vec::new();
        them_truong(&mut v, "jobId", GiaTri::tu_chu(self.job_id.as_str()));
        them_truong(&mut v, "trangThai", GiaTri::tu_chu(self.trang_thai.as_str()));
        if let Some(s) = &self.loi_cuoi {
            them_truong(&mut v, "loiCuoi", GiaTri::tu_chu(s.as_str()));
        }
        if let Some(m) = self.loai {
            them_truong(&mut v, "loai", GiaTri::tu_chu(m.ma()));
        }
        if let Some(b) = self.con_trong_hang_doi {
            them_truong(&mut v, "conTrongHangDoi", GiaTri::tu_bool(b));
        }
        assert(cac_truong(v@) =~= self@.gia_tri()->DoiTuong_0);
        GiaTri::doi_tuong(v)
    }
}

/// Why a job did not simply print.
#[derive(Debug, Clone, PartialEq, Eq)]
pub struct LyDo {
    pub chu: String,
    pub loai: Option<MaSuCo>,
    /// Copies printed, of how many, where the rest was taken back.
    pub ban_da_in: Option<(u32, u32)>,
}

pub ghost struct LyDoV {
    pub chu: Seq<char>,
    pub loai: Option<MaSuCo>,
    pub ban_da_in: Option<(u32, u32)>,
}

impl View for LyDo {
    type V = LyDoV;

    open spec fn view(&self) -> LyDoV {
        LyDoV { chu: self.chu@, loai: self.loai, ban_da_in: self.ban_da_in }
    }
}

impl LyDoV {
    pub open spec fn co_loai(chu: Seq<char>, loai: MaSuCo) -> LyDoV {
        LyDoV { chu, loai: Some(loai), ban_da_in: None }
    }

    pub open spec fn chi_chu(chu: Seq<char>) -> LyDoV {
        LyDoV { chu, loai: None, ban_da_in: None }
    }

    pub open spec fn chu_day_du(self) -> Seq<char> {
        match self.loai {
            Some(l) => self.chu + " ["@ + l.ma_cua() + "]"@,
            None => self.chu,
        }
    }
}

impl LyDo {
    pub fn co_loai(chu: &str, loai: MaSuCo) -> (r: LyDo)
        ensures
            r@ == LyDoV::co_loai(chu@, loai),
    {
        LyDo { chu: chu.to_owned(), loai: Some(loai), ban_da_in: None }
    }

    /// A reason of which only the words are known.
    pub fn chi_chu(chu: &str) -> (r: LyDo)
        ensures
            r@ == LyDoV::chi_chu(chu@),
    {
        LyDo { chu: chu.to_owned(), loai: None, ban_da_in: None }
    }

    /// The words, with the code behind them where it is known.
    pub fn chu_day_du(&self) -> (r: String)
        ensures
            r@ == self@.chu_day_du(),
    {
        let mut s = self.chu.clone();
        if let Some(l) = self.loai {
            s.append(" [");
            s.append(l.ma());
            s.append("]");
        }
        s
    }

    /// A reason of its own with the same contents.
    pub fn ban_sao(&self) -> (r: LyDo)
        ensures
            r@ == self@,
    {
        LyDo { chu: self.chu.clone(), loai: self.loai, ban_da_in: self.ban_da_in }
    }
}

impl Default for LyDo {
    fn default() -> (r: LyDo)
        ensures
            r@ == (LyDoV { chu: Seq::empty(), loai: None, ban_da_in: None }),
    {
        LyDo { chu: String::new(), loai: None, ban_da_in: None }
    }
}

impl From<String> for LyDo {
    fn from(chu: String) -> (r: LyDo) {
        LyDo { chu, loai: None, ban_da_in: None }
    }
}

impl vstd::std_specs::convert::FromSpecImpl<String> for LyDo {
    open spec fn obeys_from_spec() -> bool {
        true
    }

    open spec fn from_spec(chu: String) -> LyDo {
        LyDo { chu, loai: None, ban_da_in: None }
    }
}

impl From<&str> for LyDo {
    fn from(chu: &str) -> (r: LyDo)
        ensures
            r@ == (LyDoV { chu: chu@, loai: None, ban_da_in: None }),
    {
        LyDo { chu: chu.to_owned(), loai: None, ban_da_in: None }
    }
}

/// Which `String` holds the text is left open: the contract of `from` speaks of the text.
impl vstd::std_specs::convert::FromSpecImpl<&str> for LyDo {
    open spec fn obeys_from_spec() -> bool {
        false
    }

    open spec fn from_spec(chu: &str) -> LyDo {
        LyDo { chu: choose|s: String| s@ == chu@, loai: None, ban_da_in: None }
    }
}

/// What printing came to.
#[derive(Debug, Clone, PartialEq, Eq)]
pub enum KetQuaIn {
    /// The job was seen to print.
    DaIn,
    /// Nothing of the job is left in the queue and no sheet came out: the server may send it again.
    Loi(LyDo),
    /// Neither is certain: the server must not send it again.
    KhongRo(LyDo),
}

pub ghost enum KetQuaInV {
    DaIn,
    Loi(LyDoV),
    KhongRo(LyDoV),
}

impl View for KetQuaIn {
    type V = KetQuaInV;

    open spec fn view(&self) -> KetQuaInV {
        match self {
            KetQuaIn::DaIn => KetQuaInV::DaIn,
            KetQuaIn::Loi(l) => KetQuaInV::Loi(l@),
            KetQuaIn::KhongRo(l) => KetQuaInV::KhongRo(l@),
        }
    }
}

/// One order to print: everything that the printing itself needs.
#[derive(Debug, Clone, PartialEq, Eq)]
pub struct LenhIn {
    pub pdf: Vec<u8>,
    pub may_in: String,
    pub kho_giay: String,
    pub khay: String,
    pub so_ban: u32,
    pub job_id: String,
    pub ten: Option<String>,
}

pub ghost struct LenhInV {
    pub pdf: Seq<u8>,
    pub may_in: Seq<char>,
    pub kho_giay: Seq<char>,
    pub khay: Seq<char>,
    pub so_ban: u32,
    pub job_id: Seq<char>,
    pub ten: Option<Seq<char>>,
}

impl View for LenhIn {
    type V = LenhInV;

    open spec fn view(&self) -> LenhInV {
        LenhInV {
            pdf: self.pdf@,
            may_in: self.may_in@,
            kho_giay: self.kho_giay@,
            khay: self.khay@,
            so_ban: self.so_ban,
            job_id: self.job_id@,
            ten: chu_cua(self.ten),
        }
    }
}

/// What the decoding of a base64 text in the standard alphabet with padding gives: the bytes, or
/// the decoder's message.
pub uninterp spec fn base64_cua(s: Seq<char>) -> Result<Seq<u8>, Seq<char>>;

/// The view of a decoding.
pub open spec fn giai_ma_cua(r: Result<Vec<u8>, String>) -> Result<Seq<u8>, Seq<char>> {
    match r {
        Ok(b) => Ok(b@),
        Err(e) => Err(e@),
    }
}

/// `Engine::decode` of the crate base64 with its engine `STANDARD`, on the bytes of the text; an
/// error as the text that its `Display` gives. Which bytes or which message come out is named, not
/// stated.
#[verifier::external_body]
fn giai_base64(s: &str) -> (r: Result<Vec<u8>, String>)
    ensures
        giai_ma_cua(r) == base64_cua(s@),
{
    base64::engine::general_purpose::STANDARD.decode(s.as_bytes()).map_err(|e| e.to_string())
}

/// The id of the job in a message, read as it stands; empty where there is none.
pub open spec fn id_tho(payload: Gt) -> Seq<char> {
    match payload.truong("job"@) {
        Some(j) => match j.chuoi("id"@) {
            Some(s) => s,
            None => Seq::empty(),
        },
        None => Seq::empty(),
    }
}

/// The suggested file name in a message, read as it stands.
pub open spec fn ten_tho(payload: Gt) -> Option<Seq<char>> {
    match payload.truong("job"@) {
        Some(j) => j.chuoi("name"@),
        None => None,
    }
}

/// The id of the job in a message, so that even a broken message is answered under its own id.
pub fn job_id_tho(payload: &GiaTri) -> (r: String)
    ensures
        r@ == id_tho(payload@),
{
    match payload.truong("job") {
        Some(j) => match j.chuoi("id") {
            Some(s) => s.to_owned(),
            None => String::new(),
        },
        None => String::new(),
    }
}

/// The suggested file name in a message.
pub fn name_tho(payload: &GiaTri) -> (r: Option<&str>)
    ensures
        chu_muon(r) == ten_tho(payload@),
{
    match payload.truong("job") {
        Some(j) => j.chuoi("name"),
        None => None,
    }
}

/// A setting of the job, or the agent's own where the job has none.
pub open spec fn hoac_cua(o: Option<Seq<char>>, mac_dinh: Seq<char>) -> Seq<char> {
    match o {
        Some(s) => s,
        None => mac_dinh,
    }
}

/// The order to print a job whose PDF decoded to `pdf`, or the report where it did not.
pub open spec fn lenh_cua(job: JobIn, pdf: Result<Seq<u8>, Seq<char>>, cfg: CauHinh) -> Result<LenhInV, KetQuaV> {
    match pdf {
        Err(e) => Err(KetQuaV::loi(job.id@, LyDoV::co_loai("base64 lỗi: "@ + e, MaSuCo::LoiPdf))),
        Ok(b) => Ok(
            LenhInV {
                pdf: b,
                may_in: cfg.printer_name,
                kho_giay: hoac_cua(chu_cua(job.paper_size), cfg.paper_size),
                khay: hoac_cua(chu_cua(job.tray), cfg.tray),
                so_ban: match job.copies {
                    Some(n) => n,
                    None => 1,
                },
                job_id: job.id@,
                ten: chu_cua(job.name),
            },
        ),
    }
}

/// The view of an order, or of the report in its place.
pub open spec fn lenh_view(r: Result<LenhIn, KetQua>) -> Result<LenhInV, KetQuaV> {
    match r {
        Ok(l) => Ok(l@),
        Err(k) => Err(k@),
    }
}

/// The order to print a job whose PDF was decoded, or the report where it was not.
pub fn lenh_tu_job(job: JobIn, pdf: Result<Vec<u8>, String>, cfg: &Config) -> (r: Result<LenhIn, KetQua>)
    ensures
        lenh_view(r) == lenh_cua(job, giai_ma_cua(pdf), cfg@),
        r is Ok <==> pdf is Ok,
        r matches Ok(l) ==> l.pdf@ == pdf->Ok_0@ && l.may_in@ == cfg.printer_name@ && l.job_id@ == job.id@,
        r matches Ok(l) ==> (job.copies matches Some(n) ==> l.so_ban == n) && (job.copies is None ==> l.so_ban == 1),
        r matches Ok(l) ==> (job.paper_size matches Some(s) ==> l.kho_giay@ == s@) && (job.paper_size is None ==> l.kho_giay@
            == cfg.paper_size@),
        r matches Ok(l) ==> (job.tray matches Some(s) ==> l.khay@ == s@) && (job.tray is None ==> l.khay@ == cfg.tray@),
        r matches Ok(l) ==> (job.name matches Some(s) ==> l.ten is Some && l.ten->0@ == s@) && (job.name is None ==> l.ten is None),
        r matches Err(k) ==> k.job_id@ == job.id@ && k.trang_thai@ == "loi"@ && k.loai == Some(MaSuCo::LoiPdf),
{
    match pdf {
        Err(e) => {
            let mut s = "base64 lỗi: ".to_owned();
            s.append(e.as_str());
            Err(KetQua::loi(job.id, LyDo::co_loai(s.as_str(), MaSuCo::LoiPdf)))
        },
        Ok(b) => {
            let kho_giay = match job.paper_size {
                Some(s) => s,
                None => cfg.paper_size.clone(),
            };
            let khay = match job.tray {
                Some(s) => s,
                None => cfg.tray.clone(),
            };
            let so_ban: u32 = match job.copies {
                Some(n) => n,
                None => 1,
            };
            Ok(
                LenhIn {
                    pdf: b,
                    may_in: cfg.printer_name.clone(),
                    kho_giay,
                    khay,
                    so_ban,
                    job_id: job.id,
                    ten: job.name,
                },
            )
        },
    }
}

/// What a message comes to before anything is printed. `doc` is the message read as a job, or why
/// it could not be.
pub open spec fn chuan_bi(payload: Gt, doc: Result<JobEnvelope, String>, cfg: CauHinh) -> Result<LenhInV, KetQuaV> {
    match doc {
        Err(e) => Err(KetQuaV::loi(id_tho(payload), LyDoV::chi_chu("payload sai: "@ + e@))),
        Ok(env) => lenh_cua(env.job, base64_cua(env.job.pdf_base64@), cfg),
    }
}

pub fn chuan_bi_job(payload: &GiaTri, doc: Result<JobEnvelope, String>, cfg: &Config) -> (r: Result<LenhIn, KetQua>)
    ensures
        lenh_view(r) == chuan_bi(payload@, doc, cfg@),
        doc matches Ok(env) ==> (r is Ok <==> base64_cua(env.job.pdf_base64@) is Ok),
        doc matches Ok(env) ==> (r matches Ok(l) ==> l.job_id@ == env.job.id@ && (env.job.copies matches Some(n) ==> l.so_ban
            == n) && (env.job.copies is None ==> l.so_ban == 1)),
        doc is Err ==> r is Err,
        r matches Err(k) ==> k.trang_thai@ == "loi"@ && k.loi_cuoi is Some,
{
    match doc {
        Err(e) => {
            let mut s = "payload sai: ".to_owned();
            s.append(e.as_str());
            Err(KetQua::loi(job_id_tho(payload), LyDo::chi_chu(s.as_str())))
        },
        Ok(env) => {
            let job = env.job;
            let pdf = giai_base64(job.pdf_base64.as_str());
            lenh_tu_job(job, pdf, cfg)
        },
    }
}

/// The report of what printing a job came to.
pub fn ket_qua_cua(job_id: String, kq: KetQuaIn) -> (r: KetQua)
    ensures
        r@ == KetQuaV::cua(job_id@, kq@),
{
    match kq {
        KetQuaIn::DaIn => KetQua::da_in(job_id),
        KetQuaIn::Loi(ly_do) => KetQua::loi(job_id, ly_do),
        KetQuaIn::KhongRo(ly_do) => KetQua::khong_ro(job_id, ly_do),
    }
}

/// Handles one message: reads it, decodes its PDF, prints it with `in_fn`, and builds the report.
/// There always is a report; whether it may be sent is decided elsewhere.
pub fn xu_ly_job<F: Fn(&LenhIn) -> KetQuaIn>(
    payload: &GiaTri,
    doc: Result<JobEnvelope, String>,
    cfg: &Config,
    in_fn: F,
) -> (r: KetQua)
    requires
        forall|l: &LenhIn| in_fn.requires((l,)),
    ensures
        chuan_bi(payload@, doc, cfg@) matches Err(k) ==> r@ == k,
        chuan_bi(payload@, doc, cfg@) matches Ok(lenh) ==> exists|l: &LenhIn, kq: KetQuaIn|
            l@ == lenh && #[trigger] in_fn.ensures((l,), kq) && r@ == KetQuaV::cua(lenh.job_id, kq@),
{
    match chuan_bi_job(payload, doc, cfg) {
        Err(k) => k,
        Ok(lenh) => {
            let kq = in_fn(&lenh);
            let ghost gl = &lenh;
            assert(in_fn.ensures((gl,), kq));
            ket_qua_cua(lenh.job_id.clone(), kq)
        },
    }
}

/// A run of decimal digits, at least one.
pub open spec fn la_so(s: Seq<char>) -> bool {
    s.len() > 0 && chu::toan_chu_so(s)
}

/// The id without the token in front: of `<token>-<ms>-<number>` only `<ms>-<number>` is kept; any
/// other id stays as it is.
pub open spec fn rut_gon(s: Seq<char>) -> Seq<char> {
    match chu::vi_tri_cuoi(s, '-', s.len() as int) {
        Some(j) => match chu::vi_tri_cuoi(s, '-', j) {
            Some(i) => if i > 0 && la_so(s.subrange(i + 1, j)) && la_so(s.subrange(j + 1, s.len() as int)) {
                s.subrange(i + 1, s.len() as int)
            } else {
                s
            },
            None => s,
        },
        None => s,
    }
}

/// The id as it may be shown and logged: without the token.
pub fn rut_gon_job_id(job_id: &str) -> (r: String)
    ensures
        r@ == rut_gon(job_id@),
{
    let v = chu::ky_tu(job_id);
    let n: usize = v.len();
    match chu::tim_cuoi(&v, '-', n) {
        Some(j) => match chu::tim_cuoi(&v, '-', j) {
            Some(i) => if i > 0 && i + 1 < j && j + 1 < n && chu::khoang_toan_chu_so(&v, i + 1, j)
                && chu::khoang_toan_chu_so(&v, j + 1, n) {
                chu::tu_khoang(&v, i + 1, n)
            } else {
                job_id.to_owned()
            },
            None => job_id.to_owned(),
        },
        None => job_id.to_owned(),
    }
}

/// Whatever token stands in front of an id of the server's form, the shortened id does not hold it.
pub proof fn rut_gon_bo_token(token: Seq<char>, ms: Seq<char>, so: Seq<char>)
    requires
        token.len() > 0,
        la_so(ms),
        la_so(so),
    ensures
        rut_gon(token + seq!['-'] + ms + seq!['-'] + so) == ms + seq!['-'] + so,
{
    let s = token + seq!['-'] + ms + seq!['-'] + so;
    let i = token.len() as int;
    let j = i + 1 + ms.len();
    let n = s.len() as int;
    assert(s[i] == '-' && s[j] == '-');
    assert forall|k: int| j < k < n implies s[k] != '-' by {
        assert(s[k] == so[k - j - 1]);
        assert(chu::la_chu_so(so[k - j - 1]));
    }
    assert forall|k: int| i < k < j implies s[k] != '-' by {
        assert(s[k] == ms[k - i - 1]);
        assert(chu::la_chu_so(ms[k - i - 1]));
    }
    chu::vi_tri_cuoi_la(s, '-', n, j);
    chu::vi_tri_cuoi_la(s, '-', j, i);
    assert(s.subrange(i + 1, j) =~= ms);
    assert(s.subrange(j + 1, n) =~= so);
    assert(s.subrange(i + 1, n) =~= ms + seq!['-'] + so);
}

/// The id `s` has the server's form: a token, then two runs of digits, with a dash before each.
pub open spec fn la_id_co_token(s: Seq<char>, token: Seq<char>, ms: Seq<char>, so: Seq<char>) -> bool {
    token.len() > 0 && la_so(ms) && la_so(so) && s == token + seq!['-'] + ms + seq!['-'] + so
}

/// An id of any other form stays as it is.
pub proof fn rut_gon_giu_id_khac(s: Seq<char>)
    requires
        !(exists|token: Seq<char>, ms: Seq<char>, so: Seq<char>| la_id_co_token(s, token, ms, so)),
    ensures
        rut_gon(s) == s,
{
    let n = s.len() as int;
    chu::vi_tri_cuoi_la_cuoi(s, '-', n);
    if let Some(j) = chu::vi_tri_cuoi(s, '-', n) {
        chu::vi_tri_cuoi_la_cuoi(s, '-', j);
        if let Some(i) = chu::vi_tri_cuoi(s, '-', j) {
            let token = s.subrange(0, i);
            let ms = s.subrange(i + 1, j);
            let so = s.subrange(j + 1, n);
            assert(s =~= token + seq!['-'] + ms + seq!['-'] + so);
            assert(!la_id_co_token(s, token, ms, so));
        }
    }
}

/// Shortening a shortened id changes nothing more.
pub proof fn rut_gon_hai_lan(s: Seq<char>)
    ensures
        rut_gon(rut_gon(s)) == rut_gon(s),
{
    let n = s.len() as int;
    chu::vi_tri_cuoi_la_cuoi(s, '-', n);
    if let Some(j) = chu::vi_tri_cuoi(s, '-', n) {
        chu::vi_tri_cuoi_la_cuoi(s, '-', j);
        if let Some(i) = chu::vi_tri_cuoi(s, '-', j) {
            let r = s.subrange(i + 1, n);
            assert forall|k: int| j - i - 1 < k < r.len() implies r[k] != '-' by {
                assert(r[k] == s[i + 1 + k]);
            }
            chu::vi_tri_cuoi_la(r, '-', r.len() as int, j - i - 1);
            chu::vi_tri_cuoi_la_cuoi(r, '-', j - i - 1);
            if let Some(k) = chu::vi_tri_cuoi(r, '-', j - i - 1) {
                assert(r[k] == s[i + 1 + k]);
            }
        }
    }
}

/// A name that ends in ".pdf", in whatever case.
pub open spec fn co_duoi_pdf(s: Seq<char>) -> bool {
    let n = s.len() as int;
    n >= 4 && s[n - 4] == '.' && (s[n - 3] == 'p' || s[n - 3] == 'P') && (s[n - 2] == 'd' || s[n - 2] == 'D') && (s[n - 1]
        == 'f' || s[n - 1] == 'F')
}

/// The customer's part of a file name; the server writes "Khong_ro" where it knows none.
pub open spec fn khach_cua(s: Seq<char>) -> Option<Seq<char>> {
    if s.len() == 0 || s == "Khong_ro"@ {
        None
    } else {
        Some(s)
    }
}

/// A file name without the white space around it and without its ending ".pdf".
pub open spec fn ten_khong_duoi(name: Seq<char>) -> Seq<char> {
    let a = chu::bo_trang(name);
    if co_duoi_pdf(a) {
        a.subrange(0, a.len() - 4)
    } else {
        a
    }
}

/// The invoice number and the customer in a file name `AI-<number>-<customer>-<id>.pdf`; nothing
/// where the name does not end in the id.
pub open spec fn hoa_don_cua(name: Seq<char>, job_id: Seq<char>) -> Option<(Seq<char>, Option<Seq<char>>)> {
    let b = ten_khong_duoi(name);
    let duoi = seq!['-'] + job_id;
    if job_id.len() == 0 || !chu::ket_thuc_bang(b, duoi) {
        None
    } else {
        let c = b.subrange(0, b.len() - duoi.len());
        let d = if chu::bat_dau_bang(c, "AI-"@) {
            c.subrange(3, c.len() as int)
        } else {
            c
        };
        match chu::vi_tri_ky_tu(d, '-', 0) {
            Some(i) => if i == 0 {
                None
            } else {
                Some((d.subrange(0, i), khach_cua(d.subrange(i + 1, d.len() as int))))
            },
            None => if d.len() == 0 {
                None
            } else {
                Some((d, None))
            },
        }
    }
}

/// The view of a label: its main line and the customer.
pub open spec fn nhan_view(r: (String, Option<String>)) -> (Seq<char>, Option<Seq<char>>) {
    (r.0@, chu_cua(r.1))
}

pub fn boc_hoa_don(name: &str, job_id: &str) -> (r: Option<(String, Option<String>)>)
    ensures
        r matches Some(x) ==> hoa_don_cua(name@, job_id@) == Some(nhan_view(x)),
        r is None ==> hoa_don_cua(name@, job_id@) is None,
{
    if job_id.is_empty() {
        return None;
    }
    let a = chu::cat_trang(name);
    let av = chu::ky_tu(a.as_str());
    let n: usize = av.len();
    let co_pdf = n >= 4 && av[n - 4] == '.' && (av[n - 3] == 'p' || av[n - 3] == 'P') && (av[n - 2] == 'd' || av[n - 2]
        == 'D') && (av[n - 1] == 'f' || av[n - 1] == 'F');
    let b = if co_pdf {
        chu::tu_khoang(&av, 0, n - 4)
    } else {
        a
    };
    let mut duoi = "-".to_owned();
    duoi.append(job_id);
    proof {
        reveal_strlit("-");
        assert(duoi@ =~= seq!['-'] + job_id@);
    }
    if !chu::ket_thuc(b.as_str(), duoi.as_str()) {
        return None;
    }
    let bv = chu::ky_tu(b.as_str());
    let dv = chu::ky_tu(duoi.as_str());
    let c = chu::tu_khoang(&bv, 0, bv.len() - dv.len());
    let cv = chu::ky_tu(c.as_str());
    proof {
        reveal_strlit("AI-");
    }
    let d = if chu::bat_dau(c.as_str(), "AI-") {
        chu::tu_khoang(&cv, 3, cv.len())
    } else {
        c
    };
    let kv = chu::ky_tu(d.as_str());
    let m: usize = kv.len();
    match chu::tim_ky_tu(&kv, '-', 0) {
        Some(i) => {
            if i == 0 {
                return None;
            }
            let so = chu::tu_khoang(&kv, 0, i);
            let khach = chu::tu_khoang(&kv, i + 1, m);
            if khach.as_str().is_empty() || chu::bang(khach.as_str(), "Khong_ro") {
                Some((so, None))
            } else {
                Some((so, Some(khach)))
            }
        },
        None => if d.as_str().is_empty() {
            None
        } else {
            Some((d, None))
        },
    }
}

/// The label of a job: invoice number and customer from the suggested name, else the id without its
/// token.
pub open spec fn nhan_cua(job_id: Seq<char>, name: Option<Seq<char>>) -> (Seq<char>, Option<Seq<char>>) {
    match name {
        Some(n) => match hoa_don_cua(n, job_id) {
            Some(x) => x,
            None => (rut_gon(job_id), None),
        },
        None => (rut_gon(job_id), None),
    }
}

pub fn nhan_hien_thi(job_id: &str, name: Option<&str>) -> (r: (String, Option<String>))
    ensures
        nhan_view(r) == nhan_cua(job_id@, chu_muon(name)),
{
    match name {
        Some(n) => match boc_hoa_don(n, job_id) {
            Some(x) => x,
            None => (rut_gon_job_id(job_id), None),
        },
        None => (rut_gon_job_id(job_id), None),
    }
}

/// A file name in the server's form gives back the invoice number and the customer it was made of,
/// in whatever case its ending ".pdf" is written and whatever dashes the customer's name holds.
pub proof fn ten_dung_mau_boc_lai_duoc(so: Seq<char>, khach: Seq<char>, id: Seq<char>, pdf: Seq<char>)
    requires
        so.len() > 0,
        khach.len() > 0,
        id.len() > 0,
        pdf.len() == 4 && co_duoi_pdf(pdf),
        forall|i: int| 0 <= i < so.len() ==> so[i] != '-',
    ensures
        hoa_don_cua("AI-"@ + so + seq!['-'] + khach + seq!['-'] + id + pdf, id) == Some((so, khach_cua(khach))),
{
    reveal_strlit("AI-");
    let name = "AI-"@ + so + seq!['-'] + khach + seq!['-'] + id + pdf;
    let n = name.len() as int;
    assert(name[0] == 'A');
    assert(name[n - 4] == pdf[0] && name[n - 3] == pdf[1] && name[n - 2] == pdf[2] && name[n - 1] == pdf[3]);
    assert(chu::bo_trang(name) == name);
    let b = name.subrange(0, n - 4);
    let duoi = seq!['-'] + id;
    let c = "AI-"@ + so + seq!['-'] + khach;
    assert(b =~= c + duoi);
    assert(b.subrange(b.len() - duoi.len(), b.len() as int) =~= duoi);
    assert(b.subrange(0, b.len() - duoi.len()) =~= c);
    assert(c.subrange(0, 3) =~= "AI-"@);
    let d = so + seq!['-'] + khach;
    assert(c.subrange(3, c.len() as int) =~= d);
    chu::vi_tri_ky_tu_la(d, '-', 0, so.len() as int);
    assert(d.subrange(0, so.len() as int) =~= so);
    assert(d.subrange(so.len() as int + 1, d.len() as int) =~= khach);
}

/// Nothing is read out of a name that does not end in the id, nor for an empty id; and what is read
/// out has an invoice number, without a dash in it, and no empty customer.
pub proof fn ten_khac_mau_khong_boc(name: Seq<char>, id: Seq<char>)
    ensures
        id.len() == 0 ==> hoa_don_cua(name, id) is None,
        !chu::ket_thuc_bang(ten_khong_duoi(name), seq!['-'] + id) ==> hoa_don_cua(name, id) is None,
        hoa_don_cua(name, id) matches Some(x) ==> x.0.len() > 0 && (forall|k: int|
            0 <= k < x.0.len() ==> x.0[k] != '-') && (x.1 matches Some(khach) ==> khach.len() > 0 && khach
            != "Khong_ro"@),
{
    let duoi = seq!['-'] + id;
    let b = ten_khong_duoi(name);
    if chu::ket_thuc_bang(b, duoi) {
        let c = b.subrange(0, b.len() - duoi.len());
        let d = if chu::bat_dau_bang(c, "AI-"@) {
            c.subrange(3, c.len() as int)
        } else {
            c
        };
        chu::vi_tri_ky_tu_la_dau(d, '-', 0);
    }
}

} // verus!
