//! Printing a PDF through SumatraPDF, and what its exit is worth: never more than what the spooler
//! shows.
use crate::chu;
use crate::day::xem;
use crate::gia_tri::chu_muon;
use crate::job::{co_duoi_pdf, KetQuaIn, KetQuaInV, LyDo, LyDoV};
use crate::su_co::MaSuCo;
use vstd::prelude::*;
use vstd::string::*;

pub mod in_thu;
pub mod luat;
pub mod luat_lenh;

verus! {

/// The program, where nothing else is configured.
pub const SUMATRA_MAC_DINH: &'static str = "SumatraPDF.exe";

/// How long the program may take, in milliseconds.
pub const HAN_SUMATRA_MS: u64 = 60_000;

/// How often it is looked at.
pub const CHU_KY_CHO_SUMATRA_MS: u64 = 200;

/// The longest file name taken from the server.
pub const TEN_FILE_TOI_DA: usize = 200;

/// How a program ended.
#[derive(Debug, Clone, Copy, PartialEq, Eq, Structural)]
pub struct KetThuc {
    pub thanh_cong: bool,
    pub ma: Option<i32>,
}

/// What waiting for a program came to.
#[derive(Debug, Clone, PartialEq, Eq)]
pub enum KetQuaCho {
    Xong(KetThuc),
    /// Too late: killed.
    QuaHan,
    /// Its state could not be asked: killed.
    LoiCho(String),
}

pub ghost enum KetQuaChoV {
    Xong(KetThuc),
    QuaHan,
    LoiCho(Seq<char>),
}

impl View for KetQuaCho {
    type V = KetQuaChoV;

    open spec fn view(&self) -> KetQuaChoV {
        match self {
            KetQuaCho::Xong(k) => KetQuaChoV::Xong(*k),
            KetQuaCho::QuaHan => KetQuaChoV::QuaHan,
            KetQuaCho::LoiCho(s) => KetQuaChoV::LoiCho(s@),
        }
    }
}

/// A running program.
pub trait TienTrinh {
    /// How it ended, or nothing while it runs.
    fn thu_cho(&mut self) -> Result<Option<KetThuc>, String>;

    /// Ends it by force.
    fn giet(&mut self);

    /// Waits so many milliseconds.
    fn ngu(&mut self, ms: u64);
}

/// What printing a file needs of the outside.
pub trait PhienIn: TienTrinh {
    /// Starts the program with these arguments.
    fn mo(&mut self, argv: &Vec<String>) -> Result<(), String>;

    /// What the ended program wrote as its errors.
    fn loi_ra(&mut self) -> String;

    /// The time, in seconds since 1970.
    fn bay_gio_giay(&mut self) -> i64;

    /// Watches the job in the spooler.
    fn hoi_spooler(&mut self, printer: &str, job_id: &str, submit_after_epoch_secs: i64) -> KetQuaIn;
}

/// One exchange with the outside.
pub ghost enum BuocIn {
    ThuCho(Result<Option<KetThuc>, Seq<char>>),
    Giet,
    Ngu(u64),
    Mo(Seq<Seq<char>>, Result<(), Seq<char>>),
    LoiRa(Seq<char>),
    BayGio(i64),
    HoiSpooler(Seq<char>, Seq<char>, i64, KetQuaInV),
}

/// The outside, reached only through methods that write down every exchange.
pub struct PhienCoVet<P> {
    phien: P,
    vet: Ghost<Seq<BuocIn>>,
}

pub open spec fn thu_cho_view(r: Result<Option<KetThuc>, String>) -> Result<Option<KetThuc>, Seq<char>> {
    match r {
        Ok(o) => Ok(o),
        Err(e) => Err(e@),
    }
}

pub open spec fn mo_view(r: Result<(), String>) -> Result<(), Seq<char>> {
    match r {
        Ok(_) => Ok(()),
        Err(e) => Err(e@),
    }
}

impl<P: TienTrinh> PhienCoVet<P> {
    /// Every exchange so far.
    pub closed spec fn vet(&self) -> Seq<BuocIn> {
        self.vet@
    }

    /// The outside itself.
    pub closed spec fn ngoai(&self) -> P {
        self.phien
    }

    pub fn moi(phien: P) -> (r: PhienCoVet<P>)
        ensures
            r.ngoai() == phien,
            r.vet() == Seq::<BuocIn>::empty(),
    {
        PhienCoVet { phien, vet: Ghost(Seq::empty()) }
    }

    /// Gives the outside back.
    pub fn tra_lai(self) -> (r: P)
        ensures
            r == self.ngoai(),
    {
        self.phien
    }

    fn thu_cho(&mut self) -> (r: Result<Option<KetThuc>, String>)
        ensures
            final(self).vet() == old(self).vet().push(BuocIn::ThuCho(thu_cho_view(r))),
    {
        let r = self.phien.thu_cho();
        self.vet = Ghost(self.vet@.push(BuocIn::ThuCho(thu_cho_view(r))));
        r
    }

    fn giet(&mut self)
        ensures
            final(self).vet() == old(self).vet().push(BuocIn::Giet),
    {
        self.phien.giet();
        self.vet = Ghost(self.vet@.push(BuocIn::Giet));
    }

    fn ngu(&mut self, ms: u64)
        ensures
            final(self).vet() == old(self).vet().push(BuocIn::Ngu(ms)),
    {
        self.phien.ngu(ms);
        self.vet = Ghost(self.vet@.push(BuocIn::Ngu(ms)));
    }
}

impl<P: PhienIn> PhienCoVet<P> {
    fn mo(&mut self, argv: &Vec<String>) -> (r: Result<(), String>)
        ensures
            final(self).vet() == old(self).vet().push(BuocIn::Mo(xem(argv@), mo_view(r))),
    {
        let r = self.phien.mo(argv);
        self.vet = Ghost(self.vet@.push(BuocIn::Mo(xem(argv@), mo_view(r))));
        r
    }

    fn loi_ra(&mut self) -> (r: String)
        ensures
            final(self).vet() == old(self).vet().push(BuocIn::LoiRa(r@)),
    {
        let r = self.phien.loi_ra();
        self.vet = Ghost(self.vet@.push(BuocIn::LoiRa(r@)));
        r
    }

    fn bay_gio_giay(&mut self) -> (r: i64)
        ensures
            final(self).vet() == old(self).vet().push(BuocIn::BayGio(r)),
    {
        let r = self.phien.bay_gio_giay();
        self.vet = Ghost(self.vet@.push(BuocIn::BayGio(r)));
        r
    }

    fn hoi_spooler(&mut self, printer: &str, job_id: &str, sau: i64) -> (r: KetQuaIn)
        ensures
            final(self).vet() == old(self).vet().push(BuocIn::HoiSpooler(printer@, job_id@, sau, r@)),
    {
        let r = self.phien.hoi_spooler(printer, job_id, sau);
        self.vet = Ghost(self.vet@.push(BuocIn::HoiSpooler(printer@, job_id@, sau, r@)));
        r
    }
}

/// The exchanges of waiting for a program that has been waited for `da_cho` milliseconds, and what comes
/// of it. Whatever ends the waiting but the program itself kills the program.
pub open spec fn cho_dung(da_cho: int, han: u64, chu_ky: u64, l: Seq<BuocIn>, kq: KetQuaChoV) -> bool
    decreases l.len(),
{
    l.len() >= 1 && match l[0] {
        BuocIn::ThuCho(r) => match r {
            Ok(Some(k)) => l.len() == 1 && kq == KetQuaChoV::Xong(k),
            Err(e) => l.len() == 2 && l[1] == BuocIn::Giet && kq == KetQuaChoV::LoiCho(e),
            Ok(None) => l.len() >= 2 && if da_cho >= han {
                l.len() == 2 && l[1] == BuocIn::Giet && kq == KetQuaChoV::QuaHan
            } else {
                l[1] == BuocIn::Ngu(chu_ky) && cho_dung(
                    da_cho + chu_ky,
                    han,
                    chu_ky,
                    l.subrange(2, l.len() as int),
                    kq,
                )
            },
        },
        _ => false,
    }
}

/// Whatever completes the waiting after `da_cho` completes, behind `l`, the waiting from its start.
spec fn cho_dan_toi(han: u64, chu_ky: u64, l: Seq<BuocIn>, da_cho: int) -> bool {
    forall|con: Seq<BuocIn>, kq: KetQuaChoV| #[trigger]
        cho_dung(da_cho, han, chu_ky, con, kq) ==> cho_dung(0, han, chu_ky, l + con, kq)
}

proof fn cho_noi(han: u64, chu_ky: u64, l: Seq<BuocIn>, da_cho: int)
    requires
        cho_dan_toi(han, chu_ky, l, da_cho),
        da_cho < han,
    ensures
        cho_dan_toi(han, chu_ky, l + seq![BuocIn::ThuCho(Ok(None)), BuocIn::Ngu(chu_ky)], da_cho + chu_ky),
{
    let b: Seq<BuocIn> = seq![BuocIn::ThuCho(Ok(None)), BuocIn::Ngu(chu_ky)];
    assert forall|con: Seq<BuocIn>, kq: KetQuaChoV| #[trigger]
        cho_dung(da_cho + chu_ky, han, chu_ky, con, kq) implies cho_dung(0, han, chu_ky, (l + b) + con, kq) by {
        let x = b + con;
        assert(x.subrange(2, x.len() as int) =~= con);
        assert(cho_dung(da_cho, han, chu_ky, x, kq));
        assert(l + x =~= (l + b) + con);
    }
}

/// Waits for a program, `han_ms` at most by the time slept, looking at it every `chu_ky_ms`.
pub fn cho_co_han<P: TienTrinh>(p: &mut PhienCoVet<P>, han_ms: u64, chu_ky_ms: u64) -> (r: KetQuaCho)
    requires
        chu_ky_ms > 0,
        han_ms + chu_ky_ms <= u64::MAX,
    ensures
        final(p).vet().len() >= old(p).vet().len(),
        final(p).vet().subrange(0, old(p).vet().len() as int) == old(p).vet(),
        cho_dung(
            0,
            han_ms,
            chu_ky_ms,
            final(p).vet().subrange(old(p).vet().len() as int, final(p).vet().len() as int),
            r@,
        ),
{
    let ghost dau = p.vet();
    let ghost mut l = Seq::<BuocIn>::empty();
    let mut da_cho: u64 = 0;
    proof {
        assert(p.vet() =~= dau + l);
        assert forall|con: Seq<BuocIn>, kq: KetQuaChoV| #[trigger]
            cho_dung(0, han_ms, chu_ky_ms, con, kq) implies cho_dung(0, han_ms, chu_ky_ms, l + con, kq) by {
            assert(l + con =~= con);
        }
    }
    loop
        invariant
            dau == old(p).vet(),
            chu_ky_ms > 0,
            han_ms + chu_ky_ms <= u64::MAX,
            da_cho < han_ms + chu_ky_ms,
            p.vet() == dau + l,
            cho_dan_toi(han_ms, chu_ky_ms, l, da_cho as int),
        decreases han_ms + chu_ky_ms - da_cho,
    {
        let ghost g0 = p.vet();
        match p.thu_cho() {
            Ok(Some(k)) => {
                proof {
                    let con: Seq<BuocIn> = seq![BuocIn::ThuCho(Ok(Some(k)))];
                    assert(cho_dung(da_cho as int, han_ms, chu_ky_ms, con, KetQuaChoV::Xong(k)));
                    assert(p.vet() =~= g0 + con);
                    tach_vet(dau, l, con, p.vet());
                }
                return KetQuaCho::Xong(k);
            },
            Ok(None) => {},
            Err(e) => {
                p.giet();
                proof {
                    let con: Seq<BuocIn> = seq![BuocIn::ThuCho(Err(e@)), BuocIn::Giet];
                    assert(cho_dung(da_cho as int, han_ms, chu_ky_ms, con, KetQuaChoV::LoiCho(e@)));
                    assert(p.vet() =~= g0 + con);
                    tach_vet(dau, l, con, p.vet());
                }
                return KetQuaCho::LoiCho(e);
            },
        }
        if da_cho >= han_ms {
            p.giet();
            proof {
                let con: Seq<BuocIn> = seq![BuocIn::ThuCho(Ok(None)), BuocIn::Giet];
                assert(cho_dung(da_cho as int, han_ms, chu_ky_ms, con, KetQuaChoV::QuaHan));
                assert(p.vet() =~= g0 + con);
                tach_vet(dau, l, con, p.vet());
            }
            return KetQuaCho::QuaHan;
        }
        p.ngu(chu_ky_ms);
        proof {
            let b: Seq<BuocIn> = seq![BuocIn::ThuCho(Ok(None)), BuocIn::Ngu(chu_ky_ms)];
            assert(p.vet() =~= g0 + b);
            assert(dau + (l + b) =~= (dau + l) + b);
            cho_noi(han_ms, chu_ky_ms, l, da_cho as int);
            l = l + b;
        }
        da_cho = da_cho + chu_ky_ms;
    }
}

/// A trace taken apart at where it began.
proof fn tach_vet(dau: Seq<BuocIn>, l: Seq<BuocIn>, con: Seq<BuocIn>, vet: Seq<BuocIn>)
    requires
        vet == (dau + l) + con,
    ensures
        vet.len() >= dau.len(),
        vet.subrange(0, dau.len() as int) == dau,
        vet.subrange(dau.len() as int, vet.len() as int) == l + con,
{
    assert(vet.subrange(0, dau.len() as int) =~= dau);
    assert(vet.subrange(dau.len() as int, vet.len() as int) =~= l + con);
}

/// A tray as SumatraPDF takes it: "tray-2" is the tray called "Tray 2"; any other text is the tray's own
/// name.
pub open spec fn bin_cua(tray: Seq<char>) -> Seq<char> {
    if chu::bat_dau_bang(tray, "tray-"@) {
        "bin=Tray "@ + tray.subrange(5, tray.len() as int)
    } else {
        "bin="@ + tray
    }
}

pub fn tray_sang_bin(tray: &str) -> (r: String)
    ensures
        r@ == bin_cua(tray@),
{
    proof {
        reveal_strlit("tray-");
    }
    if chu::bat_dau(tray, "tray-") {
        let v = chu::ky_tu(tray);
        let so = chu::tu_khoang(&v, 5, v.len());
        let mut s = "bin=Tray ".to_owned();
        s.append(so.as_str());
        s
    } else {
        let mut s = "bin=".to_owned();
        s.append(tray);
        s
    }
}

/// The arguments that print a file.
pub open spec fn lenh_in_cua(
    sumatra: Seq<char>,
    pdf_path: Seq<char>,
    printer: Seq<char>,
    paper_size: Seq<char>,
    tray: Seq<char>,
) -> Seq<Seq<char>> {
    seq![
        sumatra,
        "-print-to"@,
        printer,
        "-print-settings"@,
        "paper="@ + paper_size + ","@ + bin_cua(tray),
        "-silent"@,
        pdf_path,
    ]
}

pub fn lenh_in(sumatra: &str, pdf_path: &str, printer: &str, paper_size: &str, tray: &str) -> (r: Vec<String>)
    ensures
        xem(r@) == lenh_in_cua(sumatra@, pdf_path@, printer@, paper_size@, tray@),
{
    let mut settings = "paper=".to_owned();
    settings.append(paper_size);
    settings.append(",");
    settings.append(tray_sang_bin(tray).as_str());
    let mut v: Vec<String> = Vec::new();
    v.push(sumatra.to_owned());
    v.push("-print-to".to_owned());
    v.push(printer.to_owned());
    v.push("-print-settings".to_owned());
    v.push(settings);
    v.push("-silent".to_owned());
    v.push(pdf_path.to_owned());
    assert(xem(v@) =~= lenh_in_cua(sumatra@, pdf_path@, printer@, paper_size@, tray@));
    v
}

/// A character that may stand in a file name.
pub open spec fn ky_tu_an_toan(c: char, cham: bool) -> bool {
    chu::la_chu_so(c) || ('a' <= c && c <= 'z') || ('A' <= c && c <= 'Z') || c == '-' || c == '_' || (cham && c == '.')
}

/// A text with every other character replaced.
pub open spec fn loc_ten(s: Seq<char>, cham: bool) -> Seq<char> {
    s.map_values(
        |c: char|
            if ky_tu_an_toan(c, cham) {
                c
            } else {
                '_'
            },
    )
}

fn loc_ky_tu(v: &Vec<char>, cham: bool) -> (r: Vec<char>)
    ensures
        r@ == loc_ten(v@, cham),
{
    let mut ra: Vec<char> = Vec::new();
    let mut i: usize = 0;
    while i < v.len()
        invariant
            i <= v@.len(),
            ra@.len() == i,
            forall|k: int|
                0 <= k < i ==> #[trigger] ra@[k] == (if ky_tu_an_toan(v@[k], cham) {
                    v@[k]
                } else {
                    '_'
                }),
        decreases v@.len() - i,
    {
        let c = v[i];
        let giu = ('0' <= c && c <= '9') || ('a' <= c && c <= 'z') || ('A' <= c && c <= 'Z') || c == '-' || c == '_' || (cham
            && c == '.');
        ra.push(
            if giu {
                c
            } else {
                '_'
            },
        );
        i = i + 1;
    }
    assert(ra@ =~= loc_ten(v@, cham));
    ra
}

/// A text without the dots at its start.
pub open spec fn bo_cham_dau(s: Seq<char>) -> Seq<char>
    decreases s.len(),
{
    if s.len() > 0 && s[0] == '.' {
        bo_cham_dau(s.subrange(1, s.len() as int))
    } else {
        s
    }
}

/// The suggested name made safe.
pub open spec fn ten_sach(ten: Seq<char>) -> Seq<char> {
    let sach = bo_cham_dau(loc_ten(chu::bo_trang(ten), true));
    if co_duoi_pdf(sach) {
        sach
    } else {
        sach + ".pdf"@
    }
}

/// The suggested name can be used: it holds the id, by which the job is found in the queue, and is
/// neither empty nor too long.
pub open spec fn ten_dung_duoc(job_id: Seq<char>, ten: Seq<char>) -> bool {
    job_id.len() > 0 && ten_sach(ten).len() > 4 && chu::co_chua(ten_sach(ten), job_id) && ten_sach(ten).len()
        <= TEN_FILE_TOI_DA
}

/// The id made safe.
pub open spec fn id_sach(job_id: Seq<char>) -> Seq<char> {
    if job_id.len() == 0 {
        "unknown"@
    } else {
        loc_ten(job_id, false)
    }
}

/// The name of the file that is printed.
pub open spec fn ten_file_cua(job_id: Seq<char>, ten: Option<Seq<char>>, id_ngan: Seq<char>) -> Seq<char> {
    if ten matches Some(t) && ten_dung_duoc(job_id, t) {
        ten_sach(ten->0)
    } else {
        "print-agent-"@ + id_sach(job_id) + "-"@ + id_ngan + ".pdf"@
    }
}

pub fn sanitize_job_id(job_id: &str) -> (r: String)
    ensures
        r@ == id_sach(job_id@),
{
    let v = chu::ky_tu(job_id);
    if v.len() == 0 {
        "unknown".to_owned()
    } else {
        chu::tu_ky_tu(&loc_ky_tu(&v, false))
    }
}

/// The name of the file that is printed: the server's suggestion, made safe, where it can be used, else
/// one of the agent's own. `id_ngan` tells files apart.
pub fn ten_file_in(job_id: &str, ten_goi_y: Option<&str>, id_ngan: &str) -> (r: String)
    ensures
        r@ == ten_file_cua(job_id@, chu_muon(ten_goi_y), id_ngan@),
{
    if let Some(ten) = ten_goi_y {
        let v = loc_ky_tu(&chu::ky_tu(chu::cat_trang(ten).as_str()), true);
        let n: usize = v.len();
        let mut i: usize = 0;
        assert(v@.subrange(0, n as int) =~= v@);
        while i < n && v[i] == '.'
            invariant
                i <= n,
                n == v@.len(),
                bo_cham_dau(v@) == bo_cham_dau(v@.subrange(i as int, n as int)),
            decreases n - i,
        {
            assert(v@.subrange(i as int, n as int).subrange(1, n - i) =~= v@.subrange(i + 1, n as int));
            i = i + 1;
        }
        let mut sach = chu::tu_khoang(&v, i, n);
        let k: usize = n - i;
        let ghost sv = sach@;
        let co_pdf = k >= 4 && v[n - 4] == '.' && (v[n - 3] == 'p' || v[n - 3] == 'P') && (v[n - 2] == 'd' || v[n - 2] == 'D')
            && (v[n - 1] == 'f' || v[n - 1] == 'F');
        assert(co_pdf == co_duoi_pdf(sv));
        if !co_pdf {
            sach.append(".pdf");
        }
        assert(sach@ == ten_sach(ten@));
        let dai: usize = sach.as_str().unicode_len();
        if !job_id.is_empty() && dai > 4 && dai <= TEN_FILE_TOI_DA && chu::chua(sach.as_str(), job_id) {
            return sach;
        }
    }
    let mut s = "print-agent-".to_owned();
    s.append(sanitize_job_id(job_id).as_str());
    s.append("-");
    s.append(id_ngan);
    s.append(".pdf");
    s
}

/// Whatever the server suggests, the file name holds no separator of directories and none of the
/// characters that a file name must not hold.
pub proof fn ten_file_an_toan(job_id: Seq<char>, ten: Option<Seq<char>>, id_ngan: Seq<char>, i: int)
    requires
        forall|k: int| 0 <= k < id_ngan.len() ==> ky_tu_an_toan(#[trigger] id_ngan[k], false),
        0 <= i < ten_file_cua(job_id, ten, id_ngan).len(),
    ensures
        ky_tu_an_toan(ten_file_cua(job_id, ten, id_ngan)[i], true),
{
    reveal_strlit(".pdf");
    reveal_strlit("print-agent-");
    reveal_strlit("-");
    reveal_strlit("unknown");
    if ten matches Some(t) && ten_dung_duoc(job_id, t) {
        let t = ten->0;
        let l = loc_ten(chu::bo_trang(t), true);
        bo_cham_dau_con(l);
        let s = bo_cham_dau(l);
        if i < s.len() {
            assert(ten_sach(t)[i] == s[i]);
            let k = choose|k: int| 0 <= k < l.len() && l[k] == s[i];
            assert(ky_tu_an_toan(l[k], true));
        }
    }
}

proof fn bo_cham_dau_con(s: Seq<char>)
    ensures
        forall|i: int| 0 <= i < bo_cham_dau(s).len() ==> s.contains(#[trigger] bo_cham_dau(s)[i]),
    decreases s.len(),
{
    if s.len() > 0 && s[0] == '.' {
        let d = s.subrange(1, s.len() as int);
        bo_cham_dau_con(d);
        assert forall|i: int| 0 <= i < bo_cham_dau(s).len() implies s.contains(#[trigger] bo_cham_dau(s)[i]) by {
            assert(d.contains(bo_cham_dau(d)[i]));
            let k = choose|k: int| 0 <= k < d.len() && d[k] == bo_cham_dau(d)[i];
            assert(s[k + 1] == d[k]);
        }
    } else {
        assert forall|i: int| 0 <= i < bo_cham_dau(s).len() implies s.contains(#[trigger] bo_cham_dau(s)[i]) by {
            assert(s[i] == bo_cham_dau(s)[i]);
        }
    }
}

/// How many copies are printed: one at least.
pub open spec fn so_ban(copies: u32) -> u32 {
    if copies == 0 {
        1
    } else {
        copies
    }
}

pub open spec fn thieu_ban(da_in: u32, tong: u32) -> Seq<char> {
    "Đã in "@ + chu::thap_phan(da_in as nat) + "/"@ + chu::thap_phan(tong as nat) + " bản — bản còn lại CHƯA in"@
}

/// What is said where only some copies came out.
pub fn chu_thieu_ban(da_in: u32, tong: u32) -> (r: String)
    ensures
        r@ == thieu_ban(da_in, tong),
{
    let mut s = "Đã in ".to_owned();
    s.append(chu::so_thap_phan(da_in as u64).as_str());
    s.append("/");
    s.append(chu::so_thap_phan(tong as u64).as_str());
    s.append(" bản — bản còn lại CHƯA in");
    s
}

/// A copy that did not print after others did leaves the job open: the server would send all copies
/// again.
pub open spec fn sau_ban(lan: u32, copies: u32, kq: KetQuaInV) -> KetQuaInV {
    match kq {
        KetQuaInV::Loi(l) => if lan > 0 {
            KetQuaInV::KhongRo(
                LyDoV {
                    chu: thieu_ban(lan, so_ban(copies)) + " ("@ + (if l.loai == Some(MaSuCo::LoiSumatra) {
                        "chưa gửi xuống máy in"@
                    } else {
                        "đã gỡ khỏi hàng đợi"@
                    }) + "): "@ + l.chu,
                    loai: l.loai,
                    ban_da_in: Some((lan, so_ban(copies))),
                },
            )
        } else {
            kq
        },
        _ => kq,
    }
}

pub fn sau_ban_da_in(lan: u32, copies: u32, kq: KetQuaIn) -> (r: KetQuaIn)
    ensures
        r@ == sau_ban(lan, copies, kq@),
{
    match kq {
        KetQuaIn::Loi(l) => {
            if lan > 0 {
                let tong: u32 = if copies == 0 {
                    1
                } else {
                    copies
                };
                let sumatra = match l.loai {
                    Some(m) => m == MaSuCo::LoiSumatra,
                    None => false,
                };
                let mut s = chu_thieu_ban(lan, tong);
                s.append(" (");
                s.append(
                    if sumatra {
                        "chưa gửi xuống máy in"
                    } else {
                        "đã gỡ khỏi hàng đợi"
                    },
                );
                s.append("): ");
                s.append(l.chu.as_str());
                KetQuaIn::KhongRo(LyDo { chu: s, loai: l.loai, ban_da_in: Some((lan, tong)) })
            } else {
                KetQuaIn::Loi(l)
            }
        },
        k => k,
    }
}

/// The exit code as it is told.
pub open spec fn ma_chu(ma: Option<i32>) -> Seq<char> {
    match ma {
        Some(n) => "Some("@ + (if n < 0 {
            "-"@ + chu::thap_phan((-n) as nat)
        } else {
            chu::thap_phan(n as nat)
        }) + ")"@,
        None => "None"@,
    }
}

fn chu_ma(ma: Option<i32>) -> (r: String)
    ensures
        r@ == ma_chu(ma),
{
    match ma {
        Some(n) => {
            let mut s = "Some(".to_owned();
            if n < 0 {
                let mut t = "-".to_owned();
                t.append(chu::so_thap_phan((-(n as i64)) as u64).as_str());
                s.append(t.as_str());
            } else {
                s.append(chu::so_thap_phan(n as u64).as_str());
            }
            s.append(")");
            s
        },
        None => "None".to_owned(),
    }
}

/// What is told of a program that did not end well; nothing where it did.
pub open spec fn loi_sumatra(kq: KetQuaChoV, loi_ra: Seq<char>, han: u64) -> Option<Seq<char>> {
    match kq {
        KetQuaChoV::Xong(k) => if k.thanh_cong {
            None
        } else {
            Some("SumatraPDF lỗi (exit "@ + ma_chu(k.ma) + "): "@ + chu::bo_trang(loi_ra))
        },
        KetQuaChoV::QuaHan => Some(
            "SumatraPDF quá "@ + chu::thap_phan((han / 1000) as nat) + " s chưa xong — đã dừng tiến trình"@,
        ),
        KetQuaChoV::LoiCho(e) => Some("không chờ được SumatraPDF: "@ + e),
    }
}

/// The errors that a program wrote are read only where it ended badly by itself.
pub open spec fn doc_loi_ra(kq: KetQuaChoV) -> bool {
    kq matches KetQuaChoV::Xong(k) && !k.thanh_cong
}

/// The outcome where the program did not end well: what the spooler shows decides. "Open" stays open,
/// and "did not print" is only what the spooler says it is.
pub open spec fn khi_sumatra_loi(mo_ta: Seq<char>, kq: KetQuaInV) -> KetQuaInV {
    match kq {
        KetQuaInV::DaIn => KetQuaInV::DaIn,
        KetQuaInV::KhongRo(l) => KetQuaInV::KhongRo(
            LyDoV {
                loai: if l.loai == Some(MaSuCo::KhongXacNhan) {
                    Some(MaSuCo::LoiSumatra)
                } else {
                    l.loai
                },
                ..l
            },
        ),
        KetQuaInV::Loi(l) => KetQuaInV::Loi(
            LyDoV {
                chu: mo_ta + "; spooler: "@ + l.chu,
                loai: if l.loai is Some {
                    l.loai
                } else {
                    Some(MaSuCo::LoiSumatra)
                },
                ban_da_in: None,
            },
        ),
    }
}

fn ket_qua_khi_sumatra_loi(mo_ta: &str, kq: KetQuaIn) -> (r: KetQuaIn)
    ensures
        r@ == khi_sumatra_loi(mo_ta@, kq@),
{
    match kq {
        KetQuaIn::DaIn => KetQuaIn::DaIn,
        KetQuaIn::KhongRo(l) => {
            let chua = match l.loai {
                Some(m) => m == MaSuCo::KhongXacNhan,
                None => false,
            };
            KetQuaIn::KhongRo(
                LyDo {
                    chu: l.chu,
                    loai: if chua {
                        Some(MaSuCo::LoiSumatra)
                    } else {
                        l.loai
                    },
                    ban_da_in: l.ban_da_in,
                },
            )
        },
        KetQuaIn::Loi(l) => {
            let mut s = mo_ta.to_owned();
            s.append("; spooler: ");
            s.append(l.chu.as_str());
            KetQuaIn::Loi(
                LyDo {
                    chu: s,
                    loai: if l.loai.is_some() {
                        l.loai
                    } else {
                        Some(MaSuCo::LoiSumatra)
                    },
                    ban_da_in: None,
                },
            )
        },
    }
}

/// An order to print a file.
pub struct LenhInFile<'a> {
    pub sumatra: &'a str,
    pub duong_dan: &'a str,
    pub printer: &'a str,
    pub paper_size: &'a str,
    pub tray: &'a str,
    pub copies: u32,
    pub job_id: &'a str,
    pub han_ms: u64,
}

pub ghost struct LenhFileV {
    pub sumatra: Seq<char>,
    pub duong_dan: Seq<char>,
    pub printer: Seq<char>,
    pub paper_size: Seq<char>,
    pub tray: Seq<char>,
    pub copies: u32,
    pub job_id: Seq<char>,
    pub han_ms: u64,
}

impl<'a> View for LenhInFile<'a> {
    type V = LenhFileV;

    open spec fn view(&self) -> LenhFileV {
        LenhFileV {
            sumatra: self.sumatra@,
            duong_dan: self.duong_dan@,
            printer: self.printer@,
            paper_size: self.paper_size@,
            tray: self.tray@,
            copies: self.copies,
            job_id: self.job_id@,
            han_ms: self.han_ms,
        }
    }
}

impl LenhFileV {
    pub open spec fn argv(self) -> Seq<Seq<char>> {
        lenh_in_cua(self.sumatra, self.duong_dan, self.printer, self.paper_size, self.tray)
    }

    pub open spec fn ly_do_khong_goi(self, e: Seq<char>) -> LyDoV {
        LyDoV::co_loai("không gọi được SumatraPDF ("@ + self.sumatra + "): "@ + e, MaSuCo::LoiSumatra)
    }
}

/// The exchanges of one copy once the program was started: waiting for it, reading its errors where it
/// ended badly, and asking the spooler. `m` exchanges are the waiting.
pub open spec fn mot_ban_dung(
    c: LenhFileV,
    t0: i64,
    l: Seq<BuocIn>,
    m: int,
    cho: KetQuaChoV,
    loi_ra: Seq<char>,
    sp: KetQuaInV,
) -> bool {
    let n = if doc_loi_ra(cho) {
        m + 1
    } else {
        m
    };
    &&& 0 <= m < l.len()
    &&& cho_dung(0, c.han_ms, CHU_KY_CHO_SUMATRA_MS, l.subrange(0, m), cho)
    &&& l.len() == n + 1
    &&& doc_loi_ra(cho) ==> l[m] == BuocIn::LoiRa(loi_ra)
    &&& l[n] == BuocIn::HoiSpooler(c.printer, c.job_id, t0, sp)
}

/// What one copy came to.
pub open spec fn ket_qua_ban(c: LenhFileV, lan: u32, cho: KetQuaChoV, loi_ra: Seq<char>, sp: KetQuaInV) -> KetQuaInV {
    match loi_sumatra(cho, loi_ra, c.han_ms) {
        Some(mo_ta) => sau_ban(lan, c.copies, khi_sumatra_loi(mo_ta, sp)),
        None => sau_ban(lan, c.copies, sp),
    }
}

/// After this copy no other follows: it did not simply print, or it was the last.
pub open spec fn ban_cuoi(c: LenhFileV, lan: u32, cho: KetQuaChoV, loi_ra: Seq<char>, sp: KetQuaInV) -> bool {
    loi_sumatra(cho, loi_ra, c.han_ms) is Some || !(sp is DaIn) || lan + 1 >= so_ban(c.copies)
}

/// The exchanges from copy `lan` on, and the outcome.
pub open spec fn in_dung(c: LenhFileV, t0: i64, lan: u32, l: Seq<BuocIn>, kq: KetQuaInV) -> bool
    decreases l.len(),
{
    l.len() >= 1 && match l[0] {
        BuocIn::Mo(argv, r) => argv == c.argv() && match r {
            Err(e) => l.len() == 1 && kq == sau_ban(lan, c.copies, KetQuaInV::Loi(c.ly_do_khong_goi(e))),
            Ok(_) => exists|k: int, m: int, cho: KetQuaChoV, loi_ra: Seq<char>, sp: KetQuaInV|
                1 <= k <= l.len() && #[trigger] mot_ban_dung(c, t0, l.subrange(1, k), m, cho, loi_ra, sp) && if ban_cuoi(
                    c,
                    lan,
                    cho,
                    loi_ra,
                    sp,
                ) {
                    k == l.len() && kq == ket_qua_ban(c, lan, cho, loi_ra, sp)
                } else {
                    lan < u32::MAX && in_dung(c, t0, (lan + 1) as u32, l.subrange(k, l.len() as int), kq)
                },
        },
        _ => false,
    }
}

/// The exchanges of a whole order, and the outcome.
pub open spec fn ca_lenh_in_dung(c: LenhFileV, l: Seq<BuocIn>, kq: KetQuaInV) -> bool {
    l.len() >= 1 && match l[0] {
        BuocIn::BayGio(t0) => in_dung(c, t0, 0, l.subrange(1, l.len() as int), kq),
        _ => false,
    }
}

spec fn in_dan_toi(c: LenhFileV, t0: i64, l: Seq<BuocIn>, lan: u32) -> bool {
    forall|con: Seq<BuocIn>, kq: KetQuaInV| #[trigger]
        in_dung(c, t0, lan, con, kq) ==> in_dung(c, t0, 0, l + con, kq)
}

/// A copy that simply printed, and more follow.
proof fn in_noi(
    c: LenhFileV,
    t0: i64,
    l: Seq<BuocIn>,
    lan: u32,
    b: Seq<BuocIn>,
    m: int,
    cho: KetQuaChoV,
    loi_ra: Seq<char>,
    sp: KetQuaInV,
)
    requires
        in_dan_toi(c, t0, l, lan),
        mot_ban_dung(c, t0, b, m, cho, loi_ra, sp),
        !ban_cuoi(c, lan, cho, loi_ra, sp),
        lan < u32::MAX,
    ensures
        in_dan_toi(c, t0, l + (seq![BuocIn::Mo(c.argv(), Ok(()))] + b), (lan + 1) as u32),
{
    let mo: Seq<BuocIn> = seq![BuocIn::Mo(c.argv(), Ok(()))];
    assert forall|con: Seq<BuocIn>, kq: KetQuaInV| #[trigger]
        in_dung(c, t0, (lan + 1) as u32, con, kq) implies in_dung(c, t0, 0, (l + (mo + b)) + con, kq) by {
        let x = (mo + b) + con;
        let k = 1 + b.len() as int;
        assert(x[0] == BuocIn::Mo(c.argv(), Ok(())));
        assert(x.subrange(1, k) =~= b);
        assert(x.subrange(k, x.len() as int) =~= con);
        assert(mot_ban_dung(c, t0, x.subrange(1, k), m, cho, loi_ra, sp));
        assert(in_dung(c, t0, lan, x, kq));
        assert(l + x =~= (l + (mo + b)) + con);
    }
}

/// A copy after which none follows.
proof fn in_chot(
    c: LenhFileV,
    t0: i64,
    lan: u32,
    b: Seq<BuocIn>,
    m: int,
    cho: KetQuaChoV,
    loi_ra: Seq<char>,
    sp: KetQuaInV,
)
    requires
        mot_ban_dung(c, t0, b, m, cho, loi_ra, sp),
        ban_cuoi(c, lan, cho, loi_ra, sp),
    ensures
        in_dung(c, t0, lan, seq![BuocIn::Mo(c.argv(), Ok(()))] + b, ket_qua_ban(c, lan, cho, loi_ra, sp)),
{
    let mo: Seq<BuocIn> = seq![BuocIn::Mo(c.argv(), Ok(()))];
    let x = mo + b;
    assert(x[0] == BuocIn::Mo(c.argv(), Ok(())));
    assert(x.subrange(1, x.len() as int) =~= b);
    assert(mot_ban_dung(c, t0, x.subrange(1, x.len() as int), m, cho, loi_ra, sp));
}

/// Prints a file, copy by copy, and confirms each in the spooler. A copy that is open or did not print
/// ends the order; the exit of the program never overrides what the spooler shows.
pub fn in_va_xac_nhan<P: PhienIn>(p: &mut PhienCoVet<P>, c: &LenhInFile<'_>) -> (r: KetQuaIn)
    requires
        c.han_ms + CHU_KY_CHO_SUMATRA_MS <= u64::MAX,
    ensures
        final(p).vet().len() >= old(p).vet().len(),
        final(p).vet().subrange(0, old(p).vet().len() as int) == old(p).vet(),
        ca_lenh_in_dung(
            c@,
            final(p).vet().subrange(old(p).vet().len() as int, final(p).vet().len() as int),
            r@,
        ),
{
    let ghost dau = p.vet();
    let ghost cv = c@;
    let t0 = p.bay_gio_giay();
    let ghost goc = dau.push(BuocIn::BayGio(t0));
    let ghost mut l = Seq::<BuocIn>::empty();
    let tong: u32 = if c.copies == 0 {
        1
    } else {
        c.copies
    };
    let mut lan: u32 = 0;
    proof {
        assert(p.vet() =~= goc + l);
        assert forall|con: Seq<BuocIn>, kq: KetQuaInV| #[trigger]
            in_dung(cv, t0, 0, con, kq) implies in_dung(cv, t0, 0, l + con, kq) by {
            assert(l + con =~= con);
        }
    }
    loop
        invariant
            cv == c@,
            c.han_ms + CHU_KY_CHO_SUMATRA_MS <= u64::MAX,
            dau == old(p).vet(),
            goc == dau.push(BuocIn::BayGio(t0)),
            tong == so_ban(cv.copies),
            lan < tong,
            p.vet() == goc + l,
            in_dan_toi(cv, t0, l, lan),
        decreases tong - lan,
    {
        let ghost g0 = p.vet();
        let argv = lenh_in(c.sumatra, c.duong_dan, c.printer, c.paper_size, c.tray);
        let mo = p.mo(&argv);
        let ghost g1 = p.vet();
        if let Err(e) = mo {
            let mut s = "không gọi được SumatraPDF (".to_owned();
            s.append(c.sumatra);
            s.append("): ");
            s.append(e.as_str());
            let ly_do = LyDo::co_loai(s.as_str(), MaSuCo::LoiSumatra);
            let r = sau_ban_da_in(lan, c.copies, KetQuaIn::Loi(ly_do));
            proof {
                let con: Seq<BuocIn> = seq![BuocIn::Mo(cv.argv(), Err(e@))];
                assert(in_dung(cv, t0, lan, con, r@));
                assert(p.vet() =~= g0 + con);
                chot_lenh(dau, t0, l, con, p.vet());
            }
            return r;
        }
        let cho = cho_co_han(p, c.han_ms, CHU_KY_CHO_SUMATRA_MS);
        let ghost chv = cho@;
        let ghost g2 = p.vet();
        let ghost b1 = g2.subrange(g1.len() as int, g2.len() as int);
        let mut loi_ra = String::new();
        let doc = match &cho {
            KetQuaCho::Xong(k) => !k.thanh_cong,
            _ => false,
        };
        if doc {
            loi_ra = p.loi_ra();
        }
        let ghost lr = loi_ra@;
        let mo_ta = mo_ta_loi(&cho, loi_ra.as_str(), c.han_ms);
        let sp = p.hoi_spooler(c.printer, c.job_id, t0);
        let ghost spv = sp@;
        let ghost b = p.vet().subrange(g1.len() as int, p.vet().len() as int);
        let ghost m = b1.len() as int;
        proof {
            assert(g2 =~= g1 + b1);
            let duoi: Seq<BuocIn> = if doc {
                seq![BuocIn::LoiRa(lr), BuocIn::HoiSpooler(cv.printer, cv.job_id, t0, spv)]
            } else {
                seq![BuocIn::HoiSpooler(cv.printer, cv.job_id, t0, spv)]
            };
            assert(p.vet() =~= g2 + duoi);
            assert(b =~= b1 + duoi);
            assert(b.subrange(0, m) =~= b1);
            assert(mot_ban_dung(cv, t0, b, m, chv, lr, spv));
            let mo: Seq<BuocIn> = seq![BuocIn::Mo(cv.argv(), Ok(()))];
            assert(g1 =~= g0 + mo);
            assert(p.vet() =~= g0 + (mo + b));
        }
        if let Some(mt) = mo_ta {
            let r = sau_ban_da_in(lan, c.copies, ket_qua_khi_sumatra_loi(mt.as_str(), sp));
            proof {
                in_chot(cv, t0, lan, b, m, chv, lr, spv);
                chot_lenh(dau, t0, l, seq![BuocIn::Mo(cv.argv(), Ok(()))] + b, p.vet());
            }
            return r;
        }
        let in_xong = matches!(sp, KetQuaIn::DaIn);
        if !in_xong || lan == tong - 1 {
            let r = sau_ban_da_in(lan, c.copies, sp);
            proof {
                in_chot(cv, t0, lan, b, m, chv, lr, spv);
                chot_lenh(dau, t0, l, seq![BuocIn::Mo(cv.argv(), Ok(()))] + b, p.vet());
            }
            return r;
        }
        proof {
            let mo: Seq<BuocIn> = seq![BuocIn::Mo(cv.argv(), Ok(()))];
            in_noi(cv, t0, l, lan, b, m, chv, lr, spv);
            assert(goc + (l + (mo + b)) =~= (goc + l) + (mo + b));
            l = l + (mo + b);
        }
        lan = lan + 1;
    }
}

fn mo_ta_loi(cho: &KetQuaCho, loi_ra: &str, han_ms: u64) -> (r: Option<String>)
    ensures
        crate::gia_tri::chu_cua(r) == loi_sumatra(cho@, loi_ra@, han_ms),
{
    match cho {
        KetQuaCho::Xong(k) => if k.thanh_cong {
            None
        } else {
            let mut s = "SumatraPDF lỗi (exit ".to_owned();
            s.append(chu_ma(k.ma).as_str());
            s.append("): ");
            s.append(chu::cat_trang(loi_ra).as_str());
            Some(s)
        },
        KetQuaCho::QuaHan => {
            let mut s = "SumatraPDF quá ".to_owned();
            s.append(chu::so_thap_phan(han_ms / 1000).as_str());
            s.append(" s chưa xong — đã dừng tiến trình");
            Some(s)
        },
        KetQuaCho::LoiCho(e) => {
            let mut s = "không chờ được SumatraPDF: ".to_owned();
            s.append(e.as_str());
            Some(s)
        },
    }
}

/// A trace taken apart at where the order began.
proof fn chot_lenh(dau: Seq<BuocIn>, t0: i64, l: Seq<BuocIn>, con: Seq<BuocIn>, vet: Seq<BuocIn>)
    requires
        vet == (dau.push(BuocIn::BayGio(t0)) + l) + con,
    ensures
        vet.len() >= dau.len(),
        vet.subrange(0, dau.len() as int) == dau,
        ({
            let d = vet.subrange(dau.len() as int, vet.len() as int);
            d.len() >= 1 && d[0] == BuocIn::BayGio(t0) && d.subrange(1, d.len() as int) == l + con
        }),
{
    assert(vet.subrange(0, dau.len() as int) =~= dau);
    let d = vet.subrange(dau.len() as int, vet.len() as int);
    assert(d.subrange(1, d.len() as int) =~= l + con);
}

/// The spooler said of the first copy that it did not print.
pub open spec fn spooler_noi_loi(b: BuocIn) -> bool {
    b matches BuocIn::HoiSpooler(printer, job_id, t0, kq) && kq is Loi
}

/// "Did not print" is the outcome of an order only where the program could not be started for the first
/// copy, or where the spooler itself said so of the first copy: never for a later copy, and never by the
/// program's exit alone.
pub proof fn loi_chi_o_ban_dau(c: LenhFileV, t0: i64, lan: u32, l: Seq<BuocIn>, kq: KetQuaInV)
    requires
        in_dung(c, t0, lan, l, kq),
        kq is Loi,
    ensures
        lan == 0,
        (l.len() == 1 && (l[0] matches BuocIn::Mo(argv, r) && r is Err)) || spooler_noi_loi(l.last()),
    decreases l.len(),
{
    if let BuocIn::Mo(argv, Ok(_)) = l[0] {
        let (k, m, cho, loi_ra, sp) = choose|k: int, m: int, cho: KetQuaChoV, loi_ra: Seq<char>, sp: KetQuaInV|
            1 <= k <= l.len() && #[trigger] mot_ban_dung(c, t0, l.subrange(1, k), m, cho, loi_ra, sp) && if ban_cuoi(
                c,
                lan,
                cho,
                loi_ra,
                sp,
            ) {
                k == l.len() && kq == ket_qua_ban(c, lan, cho, loi_ra, sp)
            } else {
                lan < u32::MAX && in_dung(c, t0, (lan + 1) as u32, l.subrange(k, l.len() as int), kq)
            };
        if ban_cuoi(c, lan, cho, loi_ra, sp) {
            let b = l.subrange(1, k);
            assert(b[b.len() - 1] == l.last());
        } else {
            loi_chi_o_ban_dau(c, t0, (lan + 1) as u32, l.subrange(k, l.len() as int), kq);
        }
    }
}

} // verus!
