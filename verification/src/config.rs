//! The agent's settings, kept in a small INI file.
use crate::chu;
use vstd::prelude::*;
use vstd::string::*;

pub mod luat;

verus! {

/// The token of a build that carries none. A build that carries one hands it to `parse_config_voi`.
pub const AGENT_TOKEN: &'static str = "";

#[derive(Debug, Clone, PartialEq, Eq)]
pub struct Config {
    pub server_url: String,
    pub token: String,
    pub org_id: String,
    pub printer_name: String,
    /// The tray used where a job names none, in the form "tray-<n>".
    pub tray: String,
    /// The paper used where a job names none.
    pub paper_size: String,
}

/// The settings as texts.
pub ghost struct CauHinh {
    pub server_url: Seq<char>,
    pub token: Seq<char>,
    pub org_id: Seq<char>,
    pub printer_name: Seq<char>,
    pub tray: Seq<char>,
    pub paper_size: Seq<char>,
}

impl View for Config {
    type V = CauHinh;

    open spec fn view(&self) -> CauHinh {
        CauHinh {
            server_url: self.server_url@,
            token: self.token@,
            org_id: self.org_id@,
            printer_name: self.printer_name@,
            tray: self.tray@,
            paper_size: self.paper_size@,
        }
    }
}

pub const DEFAULT_TRAY: &'static str = "tray-1";

pub const DEFAULT_PAPER: &'static str = "A5";

/// A setting that cannot be left out.
#[derive(Debug, Clone, Copy, PartialEq, Eq, Structural)]
pub enum TruongBatBuoc {
    ServerUrl,
    OrgId,
    PrinterName,
}

/// Why the file cannot be used.
#[derive(Debug, Clone, Copy, PartialEq, Eq, Structural)]
pub enum LoiCauHinh {
    ThieuSection,
    ThieuTruong(TruongBatBuoc),
}

impl TruongBatBuoc {
    pub open spec fn khoa(self) -> Seq<char> {
        match self {
            TruongBatBuoc::ServerUrl => "server_url"@,
            TruongBatBuoc::OrgId => "org_id"@,
            TruongBatBuoc::PrinterName => "printer_name"@,
        }
    }
}

impl LoiCauHinh {
    /// The message for people.
    pub fn chu(self) -> (r: String)
        ensures
            r@ == (match self {
                LoiCauHinh::ThieuSection => "config.ini thiếu section [agent]"@,
                LoiCauHinh::ThieuTruong(t) => "config.ini thiếu field bắt buộc: "@ + t.khoa(),
            }),
    {
        match self {
            LoiCauHinh::ThieuSection => "config.ini thiếu section [agent]".to_owned(),
            LoiCauHinh::ThieuTruong(t) => {
                let mut s = "config.ini thiếu field bắt buộc: ".to_owned();
                s.append(
                    match t {
                        TruongBatBuoc::ServerUrl => "server_url",
                        TruongBatBuoc::OrgId => "org_id",
                        TruongBatBuoc::PrinterName => "printer_name",
                    },
                );
                s
            },
        }
    }
}

/// A text without the byte order marks at its start.
pub open spec fn bo_bom(s: Seq<char>) -> Seq<char>
    decreases s.len(),
{
    if s.len() > 0 && s[0] == '\u{feff}' {
        bo_bom(s.subrange(1, s.len() as int))
    } else {
        s
    }
}

/// A line without the carriage return before its line feed.
pub open spec fn bo_cr(s: Seq<char>) -> Seq<char> {
    if s.len() > 0 && s[s.len() - 1] == '\r' {
        s.subrange(0, s.len() - 1)
    } else {
        s
    }
}

/// The lines of a text; what follows the last line feed is a line unless it is empty.
pub open spec fn cac_dong(s: Seq<char>) -> Seq<Seq<char>>
    decreases s.len(),
{
    match chu::vi_tri_ky_tu(s, '\n', 0) {
        Some(i) => if 0 <= i < s.len() {
            seq![bo_cr(s.subrange(0, i))] + cac_dong(s.subrange(i + 1, s.len() as int))
        } else {
            Seq::empty()
        },
        None => if s.len() == 0 {
            Seq::empty()
        } else {
            seq![s]
        },
    }
}

/// A line (without white space around it) that says nothing: empty, or a comment.
pub open spec fn dong_bo_qua(d: Seq<char>) -> bool {
    d.len() == 0 || d[0] == ';' || d[0] == '#'
}

/// A line that opens a section.
pub open spec fn dong_section(d: Seq<char>) -> bool {
    !dong_bo_qua(d) && d[0] == '[' && d[d.len() - 1] == ']'
}

/// After these lines the section `[agent]` is open.
pub open spec fn trong_agent(dong: Seq<Seq<char>>) -> bool
    decreases dong.len(),
{
    if dong.len() == 0 {
        false
    } else {
        let d = chu::bo_trang(dong.last());
        if dong_section(d) {
            d.subrange(1, d.len() - 1) == "agent"@
        } else {
            trong_agent(dong.drop_last())
        }
    }
}

/// The name on the left of the first `=` of a line, and the value on its right.
pub open spec fn gan_cua(d: Seq<char>) -> Option<(Seq<char>, Seq<char>)> {
    match chu::vi_tri_ky_tu(d, '=', 0) {
        Some(i) => Some(
            (chu::bo_trang(d.subrange(0, i)), chu::bo_trang(d.subrange(i + 1, d.len() as int))),
        ),
        None => None,
    }
}

/// The value that the last of these lines to set `khoa` in the section `[agent]` gives it; empty
/// where none does.
pub open spec fn gia_tri_cua(dong: Seq<Seq<char>>, khoa: Seq<char>) -> Seq<char>
    decreases dong.len(),
{
    if dong.len() == 0 {
        Seq::empty()
    } else {
        let d = chu::bo_trang(dong.last());
        let truoc = dong.drop_last();
        if dong_bo_qua(d) || dong_section(d) || !trong_agent(truoc) {
            gia_tri_cua(truoc, khoa)
        } else {
            match gan_cua(d) {
                Some(g) => if g.0 == khoa {
                    g.1
                } else {
                    gia_tri_cua(truoc, khoa)
                },
                None => gia_tri_cua(truoc, khoa),
            }
        }
    }
}

/// A text, or another one in its place where it is empty.
pub open spec fn hoac(s: Seq<char>, mac_dinh: Seq<char>) -> Seq<char> {
    if s.len() == 0 {
        mac_dinh
    } else {
        s
    }
}

/// What the file `s` says to a build that carries the token `token_kem`.
pub open spec fn doc_config(s: Seq<char>, token_kem: Seq<char>) -> Result<CauHinh, LoiCauHinh> {
    let t = bo_bom(s);
    let dong = cac_dong(t);
    if !chu::co_chua(t, "[agent]"@) {
        Err(LoiCauHinh::ThieuSection)
    } else if gia_tri_cua(dong, "server_url"@).len() == 0 {
        Err(LoiCauHinh::ThieuTruong(TruongBatBuoc::ServerUrl))
    } else if gia_tri_cua(dong, "org_id"@).len() == 0 {
        Err(LoiCauHinh::ThieuTruong(TruongBatBuoc::OrgId))
    } else if gia_tri_cua(dong, "printer_name"@).len() == 0 {
        Err(LoiCauHinh::ThieuTruong(TruongBatBuoc::PrinterName))
    } else {
        Ok(
            CauHinh {
                server_url: gia_tri_cua(dong, "server_url"@),
                token: hoac(gia_tri_cua(dong, "token"@), token_kem),
                org_id: gia_tri_cua(dong, "org_id"@),
                printer_name: gia_tri_cua(dong, "printer_name"@),
                tray: hoac(gia_tri_cua(dong, "tray"@), DEFAULT_TRAY@),
                paper_size: hoac(gia_tri_cua(dong, "paper_size"@), DEFAULT_PAPER@),
            },
        )
    }
}

fn cat_bom(v: &Vec<char>) -> (r: usize)
    ensures
        r <= v@.len(),
        v@.subrange(r as int, v@.len() as int) == bo_bom(v@),
{
    let mut i: usize = 0;
    assert(v@.subrange(0, v@.len() as int) =~= v@);
    while i < v.len() && v[i] == '\u{feff}'
        invariant
            i <= v@.len(),
            bo_bom(v@) == bo_bom(v@.subrange(i as int, v@.len() as int)),
        decreases v@.len() - i,
    {
        assert(v@.subrange(i as int, v@.len() as int).subrange(1, v@.len() - i) =~= v@.subrange(
            i + 1,
            v@.len() as int,
        ));
        i = i + 1;
    }
    i
}

proof fn vi_tri_dich(s: Seq<char>, c: char, a: int, tu: int)
    requires
        0 <= a <= s.len(),
        0 <= tu,
    ensures
        chu::vi_tri_ky_tu(s.subrange(a, s.len() as int), c, tu) == (match chu::vi_tri_ky_tu(s, c, a + tu) {
            Some(i) => Some(i - a),
            None => None,
        }),
    decreases s.len() - a - tu,
{
    if tu < s.len() - a {
        vi_tri_dich(s, c, a, tu + 1);
    }
}

/// The lines of the text `v[tu..]`.
fn tach_dong(v: &Vec<char>, tu: usize) -> (r: Vec<String>)
    requires
        tu <= v@.len(),
    ensures
        r@.len() == cac_dong(v@.subrange(tu as int, v@.len() as int)).len(),
        forall|i: int|
            0 <= i < r@.len() ==> (#[trigger] r@[i])@ == cac_dong(v@.subrange(tu as int, v@.len() as int))[i],
{
    let dai: usize = v.len();
    let ghost n = v@.len() as int;
    let ghost tat_ca = cac_dong(v@.subrange(tu as int, n));
    let mut ra: Vec<String> = Vec::new();
    let mut i: usize = tu;
    loop
        invariant_except_break
            tat_ca == Seq::new(ra@.len(), |k: int| ra@[k]@) + cac_dong(v@.subrange(i as int, n)),
        invariant
            n == v@.len(),
            n == dai,
            tu <= i <= n,
            tat_ca == cac_dong(v@.subrange(tu as int, n)),
        ensures
            tat_ca == Seq::new(ra@.len(), |k: int| ra@[k]@),
        decreases n - i,
    {
        let ghost duoi = v@.subrange(i as int, n);
        let ghost truoc = Seq::new(ra@.len(), |k: int| ra@[k]@);
        proof {
            vi_tri_dich(v@, '\n', i as int, 0);
        }
        match chu::tim_ky_tu(v, '\n', i) {
            Some(j) => {
                let cuoi: usize = if j > i && v[j - 1] == '\r' {
                    j - 1
                } else {
                    j
                };
                ra.push(chu::tu_khoang(v, i, cuoi));
                assert(bo_cr(duoi.subrange(0, j - i)) =~= v@.subrange(i as int, cuoi as int)) by {
                    assert(duoi.subrange(0, j - i) =~= v@.subrange(i as int, j as int));
                }
                assert(duoi.subrange(j - i + 1, duoi.len() as int) =~= v@.subrange(j + 1, n));
                assert(Seq::new(ra@.len(), |k: int| ra@[k]@) =~= truoc.push(v@.subrange(i as int, cuoi as int)));
                assert(tat_ca =~= Seq::new(ra@.len(), |k: int| ra@[k]@) + cac_dong(v@.subrange(j + 1, n)));
                i = j + 1;
            },
            None => {
                if i < v.len() {
                    ra.push(chu::tu_khoang(v, i, v.len()));
                    assert(cac_dong(duoi) == seq![duoi]);
                    assert(Seq::new(ra@.len(), |k: int| ra@[k]@) =~= truoc.push(duoi));
                    assert(tat_ca =~= Seq::new(ra@.len(), |k: int| ra@[k]@));
                } else {
                    assert(cac_dong(duoi) =~= Seq::empty());
                    assert(tat_ca =~= Seq::new(ra@.len(), |k: int| ra@[k]@));
                }
                break;
            },
        }
    }
    ra
}

fn hoac_chu(s: String, mac_dinh: &str) -> (r: String)
    ensures
        r@ == hoac(s@, mac_dinh@),
{
    if s.as_str().is_empty() {
        mac_dinh.to_owned()
    } else {
        s
    }
}

/// The line a setting stands on, split at its first `=`.
fn tach_gan(d: &str) -> (r: Option<(String, String)>)
    ensures
        r matches Some(g) ==> gan_cua(d@) == Some((g.0@, g.1@)),
        r is None ==> gan_cua(d@) is None,
{
    let v = chu::ky_tu(d);
    let dai: usize = v.len();
    match chu::tim_ky_tu(&v, '=', 0) {
        Some(i) => {
            let trai = chu::tu_khoang(&v, 0, i);
            let phai = chu::tu_khoang(&v, i + 1, dai);
            Some((chu::cat_trang(trai.as_str()), chu::cat_trang(phai.as_str())))
        },
        None => None,
    }
}

/// Reads the settings, for a build that carries no token of its own.
pub fn parse_config(text: &str) -> (r: Result<Config, LoiCauHinh>)
    ensures
        r matches Ok(c) ==> doc_config(text@, AGENT_TOKEN@) == Ok::<CauHinh, LoiCauHinh>(c@),
        r matches Err(e) ==> doc_config(text@, AGENT_TOKEN@) == Err::<CauHinh, LoiCauHinh>(e),
{
    parse_config_voi(text, AGENT_TOKEN)
}

/// Reads the settings. Only the section `[agent]` counts; of two lines for one name the last one
/// wins. Where the file names no token it is the build's, `token_kem`.
pub fn parse_config_voi(text: &str, token_kem: &str) -> (r: Result<Config, LoiCauHinh>)
    ensures
        r matches Ok(c) ==> doc_config(text@, token_kem@) == Ok::<CauHinh, LoiCauHinh>(c@),
        r matches Err(e) ==> doc_config(text@, token_kem@) == Err::<CauHinh, LoiCauHinh>(e),
{
    let v = chu::ky_tu(text);
    let dau = cat_bom(&v);
    let sach = chu::tu_khoang(&v, dau, v.len());
    let dong = tach_dong(&v, dau);
    let ghost ds = cac_dong(bo_bom(text@));
    let mut trong: bool = false;
    let mut server_url = String::new();
    let mut token = String::new();
    let mut org_id = String::new();
    let mut printer_name = String::new();
    let mut tray = String::new();
    let mut paper_size = String::new();
    let mut i: usize = 0;
    while i < dong.len()
        invariant
            i <= dong@.len(),
            dong@.len() == ds.len(),
            forall|k: int| 0 <= k < dong@.len() ==> (#[trigger] dong@[k])@ == ds[k],
            trong == trong_agent(ds.subrange(0, i as int)),
            server_url@ == gia_tri_cua(ds.subrange(0, i as int), "server_url"@),
            token@ == gia_tri_cua(ds.subrange(0, i as int), "token"@),
            org_id@ == gia_tri_cua(ds.subrange(0, i as int), "org_id"@),
            printer_name@ == gia_tri_cua(ds.subrange(0, i as int), "printer_name"@),
            tray@ == gia_tri_cua(ds.subrange(0, i as int), "tray"@),
            paper_size@ == gia_tri_cua(ds.subrange(0, i as int), "paper_size"@),
        decreases dong@.len() - i,
    {
        let d = chu::cat_trang(dong[i].as_str());
        let dv = chu::ky_tu(d.as_str());
        assert(ds.subrange(0, i + 1).drop_last() =~= ds.subrange(0, i as int));
        assert(ds.subrange(0, i + 1).last() == ds[i as int]);
        i = i + 1;
        if dv.len() == 0 || dv[0] == ';' || dv[0] == '#' {
            continue ;
        }
        if dv[0] == '[' && dv[dv.len() - 1] == ']' {
            if dv.len() < 2 {
                assert(dv@[0] == '[' && dv@[0] == ']');
            }
            let ten = chu::tu_khoang(&dv, 1, dv.len() - 1);
            trong = chu::bang(ten.as_str(), "agent");
            continue ;
        }
        if !trong {
            continue ;
        }
        if let Some((k, gt)) = tach_gan(d.as_str()) {
            proof {
                ten_khac_nhau();
            }
            if chu::bang(k.as_str(), "server_url") {
                server_url = gt;
            } else if chu::bang(k.as_str(), "token") {
                token = gt;
            } else if chu::bang(k.as_str(), "org_id") {
                org_id = gt;
            } else if chu::bang(k.as_str(), "printer_name") {
                printer_name = gt;
            } else if chu::bang(k.as_str(), "tray") {
                tray = gt;
            } else if chu::bang(k.as_str(), "paper_size") {
                paper_size = gt;
            }
        }
    }
    assert(ds.subrange(0, ds.len() as int) =~= ds);
    if !chu::chua(sach.as_str(), "[agent]") {
        return Err(LoiCauHinh::ThieuSection);
    }
    if server_url.as_str().is_empty() {
        return Err(LoiCauHinh::ThieuTruong(TruongBatBuoc::ServerUrl));
    }
    if org_id.as_str().is_empty() {
        return Err(LoiCauHinh::ThieuTruong(TruongBatBuoc::OrgId));
    }
    if printer_name.as_str().is_empty() {
        return Err(LoiCauHinh::ThieuTruong(TruongBatBuoc::PrinterName));
    }
    Ok(
        Config {
            server_url,
            token: hoac_chu(token, token_kem),
            org_id,
            printer_name,
            tray: hoac_chu(tray, DEFAULT_TRAY),
            paper_size: hoac_chu(paper_size, DEFAULT_PAPER),
        },
    )
}

/// The names of the settings differ from one another.
pub(crate) proof fn ten_khac_nhau()
    ensures
        "server_url"@ != "token"@,
        "server_url"@ != "org_id"@,
        "server_url"@ != "printer_name"@,
        "server_url"@ != "tray"@,
        "server_url"@ != "paper_size"@,
        "token"@ != "org_id"@,
        "token"@ != "printer_name"@,
        "token"@ != "tray"@,
        "token"@ != "paper_size"@,
        "org_id"@ != "printer_name"@,
        "org_id"@ != "tray"@,
        "org_id"@ != "paper_size"@,
        "printer_name"@ != "tray"@,
        "printer_name"@ != "paper_size"@,
        "tray"@ != "paper_size"@,
{
    reveal_strlit("server_url");
    reveal_strlit("token");
    reveal_strlit("org_id");
    reveal_strlit("printer_name");
    reveal_strlit("tray");
    reveal_strlit("paper_size");
    assert("server_url"@[0] == 's');
    assert("paper_size"@[0] == 'p');
    assert("server_url"@.len() == 10);
    assert("token"@.len() == 5);
    assert("org_id"@.len() == 6);
    assert("printer_name"@.len() == 12);
    assert("tray"@.len() == 4);
    assert("paper_size"@.len() == 10);
}

/// The line that sets `ten`.
pub open spec fn dong_cua(ten: Seq<char>, v: Seq<char>) -> Seq<char> {
    ten + " = "@ + v + seq!['\n']
}

/// The file that holds these settings. The token is never written out.
pub open spec fn file_cua(c: CauHinh) -> Seq<char> {
    "[agent]"@ + seq!['\n'] + dong_cua("server_url"@, c.server_url) + dong_cua("org_id"@, c.org_id) + dong_cua(
        "printer_name"@,
        c.printer_name,
    ) + dong_cua("tray"@, c.tray) + dong_cua("paper_size"@, c.paper_size)
}

fn ghi_dong(s: &mut String, ten: &str, v: &str)
    ensures
        final(s)@ == old(s)@ + dong_cua(ten@, v@),
{
    let ghost truoc = s@;
    s.append(ten);
    s.append(" = ");
    s.append(v);
    s.push('\n');
    assert(s@ =~= truoc + dong_cua(ten@, v@));
}

pub fn ghi_config(cfg: &Config) -> (r: String)
    ensures
        r@ == file_cua(cfg@),
{
    let mut s = "[agent]".to_owned();
    s.push('\n');
    assert(s@ =~= "[agent]"@ + seq!['\n']);
    ghi_dong(&mut s, "server_url", cfg.server_url.as_str());
    ghi_dong(&mut s, "org_id", cfg.org_id.as_str());
    ghi_dong(&mut s, "printer_name", cfg.printer_name.as_str());
    ghi_dong(&mut s, "tray", cfg.tray.as_str());
    ghi_dong(&mut s, "paper_size", cfg.paper_size.as_str());
    s
}

/// A value that a line of the file can carry: no white space around it, no line feed in it.
pub open spec fn gia_tri_mot_dong(s: Seq<char>) -> bool {
    chu::bo_trang(s) == s && forall|i: int| 0 <= i < s.len() ==> s[i] != '\n'
}

/// Reading back what was written gives every setting but the token, which is not written, so that the
/// build's comes back; a tray or paper left empty comes back as its default.
pub proof fn ghi_roi_doc(c: CauHinh, token_kem: Seq<char>)
    requires
        gia_tri_mot_dong(c.server_url),
        gia_tri_mot_dong(c.org_id),
        gia_tri_mot_dong(c.printer_name),
        gia_tri_mot_dong(c.tray),
        gia_tri_mot_dong(c.paper_size),
        c.server_url.len() > 0,
        c.org_id.len() > 0,
        c.printer_name.len() > 0,
    ensures
        doc_config(file_cua(c), token_kem) == Ok::<CauHinh, LoiCauHinh>(
            CauHinh {
                token: token_kem,
                tray: hoac(c.tray, DEFAULT_TRAY@),
                paper_size: hoac(c.paper_size, DEFAULT_PAPER@),
                ..c
            },
        ),
{
    let f = file_cua(c);
    let d0 = "[agent]"@;
    let d1 = "server_url"@ + " = "@ + c.server_url;
    let d2 = "org_id"@ + " = "@ + c.org_id;
    let d3 = "printer_name"@ + " = "@ + c.printer_name;
    let d4 = "tray"@ + " = "@ + c.tray;
    let d5 = "paper_size"@ + " = "@ + c.paper_size;
    let e = Seq::<char>::empty();
    let p1 = seq![bo_cr(d0)];
    let p2 = p1.push(bo_cr(d1));
    let p3 = p2.push(bo_cr(d2));
    let p4 = p3.push(bo_cr(d3));
    let p5 = p4.push(bo_cr(d4));
    let p6 = p5.push(bo_cr(d5));
    cac_ten_hop_le();
    cac_dong_cua_file(c);
    dau_file(c);
    ten_khac_nhau();
    dong_gan("server_url"@, c.server_url);
    dong_gan("org_id"@, c.org_id);
    dong_gan("printer_name"@, c.printer_name);
    dong_gan("tray"@, c.tray);
    dong_gan("paper_size"@, c.paper_size);
    them_dong(p1, "server_url"@, c.server_url);
    them_dong(p2, "org_id"@, c.org_id);
    them_dong(p3, "printer_name"@, c.printer_name);
    them_dong(p4, "tray"@, c.tray);
    them_dong(p5, "paper_size"@, c.paper_size);
    assert(gia_tri_cua(p6, "token"@) == e);
}

proof fn cac_ten_hop_le()
    ensures
        la_ten("server_url"@),
        la_ten("org_id"@),
        la_ten("printer_name"@),
        la_ten("tray"@),
        la_ten("paper_size"@),
{
    reveal_strlit("server_url");
    reveal_strlit("org_id");
    reveal_strlit("printer_name");
    reveal_strlit("tray");
    reveal_strlit("paper_size");
}

/// The first line of the file opens the section.
proof fn dau_file(c: CauHinh)
    ensures
        bo_bom(file_cua(c)) == file_cua(c),
        chu::co_chua(file_cua(c), "[agent]"@),
        trong_agent(seq![bo_cr("[agent]"@)]),
        forall|k: Seq<char>| #[trigger] gia_tri_cua(seq![bo_cr("[agent]"@)], k) == Seq::<char>::empty(),
{
    reveal_strlit("[agent]");
    reveal_strlit("agent");
    let f = file_cua(c);
    let d0 = "[agent]"@;
    let p1 = seq![bo_cr(d0)];
    assert(f[0] == '[');
    assert(chu::khop_tai(f, d0, 0)) by {
        assert(f.subrange(0, 7) =~= d0);
    }
    assert(bo_cr(d0) == d0);
    assert(chu::bo_trang(d0) == d0);
    assert(d0.subrange(1, 6) =~= "agent"@);
    assert(p1.last() == d0);
    assert forall|k: Seq<char>| #[trigger] gia_tri_cua(p1, k) == Seq::<char>::empty() by {
        assert(p1.drop_last() =~= Seq::empty());
        assert(gia_tri_cua(Seq::<Seq<char>>::empty(), k) == Seq::<char>::empty());
        assert(dong_section(chu::bo_trang(p1.last())));
    }
}

/// The file's six lines.
proof fn cac_dong_cua_file(c: CauHinh)
    requires
        gia_tri_mot_dong(c.server_url),
        gia_tri_mot_dong(c.org_id),
        gia_tri_mot_dong(c.printer_name),
        gia_tri_mot_dong(c.tray),
        gia_tri_mot_dong(c.paper_size),
    ensures
        cac_dong(file_cua(c)) == seq![bo_cr("[agent]"@)].push(bo_cr("server_url"@ + " = "@ + c.server_url)).push(
            bo_cr("org_id"@ + " = "@ + c.org_id),
        ).push(bo_cr("printer_name"@ + " = "@ + c.printer_name)).push(bo_cr("tray"@ + " = "@ + c.tray)).push(
            bo_cr("paper_size"@ + " = "@ + c.paper_size),
        ),
{
    let d0 = "[agent]"@;
    let e = Seq::<char>::empty();
    assert(forall|i: int| 0 <= i < d0.len() ==> d0[i] != '\n') by {
        reveal_strlit("[agent]");
    }
    mot_dong_dau(d0, e);
    assert(cac_dong(e) =~= Seq::empty());
    let x1 = d0 + seq!['\n'];
    assert(x1 + e =~= x1);
    assert(cac_dong(x1) =~= seq![bo_cr(d0)]);
    cac_ten_hop_le();
    let x2 = x1 + dong_cua("server_url"@, c.server_url);
    dong_cuoi(x1, "server_url"@, c.server_url);
    let x3 = x2 + dong_cua("org_id"@, c.org_id);
    dong_cuoi(x2, "org_id"@, c.org_id);
    let x4 = x3 + dong_cua("printer_name"@, c.printer_name);
    dong_cuoi(x3, "printer_name"@, c.printer_name);
    let x5 = x4 + dong_cua("tray"@, c.tray);
    dong_cuoi(x4, "tray"@, c.tray);
    dong_cuoi(x5, "paper_size"@, c.paper_size);
}

/// One more line at the end of whole lines.
proof fn dong_cuoi(x: Seq<char>, ten: Seq<char>, v: Seq<char>)
    requires
        la_ten(ten),
        gia_tri_mot_dong(v),
        x.len() == 0 || x[x.len() - 1] == '\n',
    ensures
        cac_dong(x + dong_cua(ten, v)) == cac_dong(x).push(bo_cr(ten + " = "@ + v)),
        (x + dong_cua(ten, v)).last() == '\n',
{
    reveal_strlit(" = ");
    let a = ten + " = "@ + v;
    assert(forall|i: int| 0 <= i < a.len() ==> a[i] != '\n');
    noi_dong_cuoi(x, a);
    assert(dong_cua(ten, v) == a + seq!['\n']);
}

pub(crate) proof fn noi_dong_cuoi(x: Seq<char>, a: Seq<char>)
    requires
        forall|i: int| 0 <= i < a.len() ==> a[i] != '\n',
        x.len() == 0 || x[x.len() - 1] == '\n',
    ensures
        cac_dong(x + (a + seq!['\n'])) == cac_dong(x).push(bo_cr(a)),
    decreases x.len(),
{
    let e = Seq::<char>::empty();
    let nl = seq!['\n'];
    let l = a + nl;
    if x.len() == 0 {
        mot_dong_dau(a, e);
        assert(x + l =~= a + nl + e);
        assert(cac_dong(e) =~= Seq::empty());
        assert(cac_dong(x) =~= Seq::empty());
        assert(cac_dong(x + l) =~= cac_dong(x).push(bo_cr(a)));
    } else {
        chu::vi_tri_ky_tu_la_dau(x, '\n', 0);
        let i = chu::vi_tri_ky_tu(x, '\n', 0)->0;
        let x0 = x.subrange(0, i);
        let x1 = x.subrange(i + 1, x.len() as int);
        noi_dong_cuoi(x1, a);
        assert(x + l =~= x0 + nl + (x1 + l));
        mot_dong_dau(x0, x1 + l);
        assert(cac_dong(x) == seq![bo_cr(x0)] + cac_dong(x1));
        assert(cac_dong(x + l) =~= cac_dong(x).push(bo_cr(a)));
    }
}

/// A line at the start of a text.
proof fn mot_dong_dau(a: Seq<char>, b: Seq<char>)
    requires
        forall|i: int| 0 <= i < a.len() ==> a[i] != '\n',
    ensures
        cac_dong(a + seq!['\n'] + b) == seq![bo_cr(a)] + cac_dong(b),
{
    let s = a + seq!['\n'] + b;
    let n = a.len() as int;
    assert(s[n] == '\n');
    assert forall|k: int| 0 <= k < n implies s[k] != '\n' by {
        assert(s[k] == a[k]);
    }
    chu::vi_tri_ky_tu_la(s, '\n', 0, n);
    assert(s.subrange(0, n) =~= a);
    assert(s.subrange(n + 1, s.len() as int) =~= b);
}

proof fn bo_trang_ngan(s: Seq<char>)
    ensures
        chu::bo_trang_dau(s).len() <= s.len(),
        chu::bo_trang_cuoi(s).len() <= s.len(),
        s.len() > 0 && chu::la_khoang_trang(s[0]) ==> chu::bo_trang_dau(s).len() < s.len(),
        s.len() > 0 && chu::la_khoang_trang(s[s.len() - 1]) ==> chu::bo_trang_cuoi(s).len() < s.len(),
    decreases s.len(),
{
    if s.len() > 0 {
        bo_trang_ngan(s.subrange(1, s.len() as int));
        bo_trang_ngan(s.subrange(0, s.len() - 1));
    }
}

/// The name of a setting: no `=`, no white space around it, and it opens neither a comment nor a
/// section.
pub open spec fn la_ten(ten: Seq<char>) -> bool {
    &&& ten.len() > 0
    &&& forall|i: int| 0 <= i < ten.len() ==> ten[i] != '=' && ten[i] != '\n'
    &&& !chu::la_khoang_trang(ten[0])
    &&& !chu::la_khoang_trang(ten[ten.len() - 1])
    &&& ten[0] != ';' && ten[0] != '#' && ten[0] != '['
}

/// A line as it is written is read as the setting it was written for.
proof fn dong_gan(ten: Seq<char>, v: Seq<char>)
    requires
        la_ten(ten),
        gia_tri_mot_dong(v),
    ensures
        ({
            let d = chu::bo_trang(bo_cr(ten + " = "@ + v));
            !dong_bo_qua(d) && !dong_section(d) && gan_cua(d) == Some((ten, v))
        }),
{
    reveal_strlit(" = ");
    let l = ten + " = "@ + v;
    let n = ten.len() as int;
    assert(l[0] == ten[0]);
    assert(l[n] == ' ' && l[n + 1] == '=' && l[n + 2] == ' ');
    bo_trang_ngan(v);
    bo_trang_ngan(chu::bo_trang_dau(v));
    let d = chu::bo_trang(bo_cr(l));
    if v.len() > 0 {
        assert(!chu::la_khoang_trang(v[v.len() - 1]));
        assert(l[l.len() - 1] == v[v.len() - 1]);
        assert(d == l);
    } else {
        assert(bo_cr(l) == l);
        assert(chu::bo_trang_dau(l) == l);
        let l1 = l.subrange(0, n + 2);
        assert(l.len() == n + 3);
        assert(chu::bo_trang_cuoi(l1) == l1);
        assert(chu::bo_trang_cuoi(l) == chu::bo_trang_cuoi(l1));
        assert(d == l1);
    }
    assert forall|k: int| 0 <= k < n + 1 implies d[k] != '=' by {
        assert(k < n ==> d[k] == ten[k]);
    }
    chu::vi_tri_ky_tu_la(d, '=', 0, n + 1);
    let trai = d.subrange(0, n + 1);
    assert(trai =~= ten.push(' '));
    assert(trai.subrange(0, n) =~= ten);
    assert(chu::bo_trang_dau(trai) == trai);
    assert(chu::bo_trang_cuoi(ten) == ten);
    assert(chu::bo_trang_cuoi(trai) == chu::bo_trang_cuoi(ten));
    let phai = d.subrange(n + 2, d.len() as int);
    if v.len() > 0 {
        assert(phai =~= seq![' '] + v);
        assert(phai.subrange(1, phai.len() as int) =~= v);
        assert(!chu::la_khoang_trang(v[0]));
        assert(chu::bo_trang_dau(v) == v);
        assert(chu::bo_trang_dau(phai) == chu::bo_trang_dau(v));
    } else {
        assert(phai =~= v);
    }
}

/// One more line that sets `ten`.
proof fn them_dong(p: Seq<Seq<char>>, ten: Seq<char>, v: Seq<char>)
    requires
        trong_agent(p),
        ({
            let d = chu::bo_trang(bo_cr(ten + " = "@ + v));
            !dong_bo_qua(d) && !dong_section(d) && gan_cua(d) == Some((ten, v))
        }),
    ensures
        trong_agent(p.push(bo_cr(ten + " = "@ + v))),
        forall|k: Seq<char>| #[trigger]
            gia_tri_cua(p.push(bo_cr(ten + " = "@ + v)), k) == (if k == ten {
                v
            } else {
                gia_tri_cua(p, k)
            }),
{
    let q = p.push(bo_cr(ten + " = "@ + v));
    assert(q.drop_last() =~= p);
    assert(q.last() == bo_cr(ten + " = "@ + v));
}

} // verus!
