//! Which job in the queue belongs to which order: by the name of its document.
use crate::chu;
use crate::job::{self, co_duoi_pdf};
use crate::spooler::kieu::JobHangDoi;
use vstd::prelude::*;
use vstd::string::*;

verus! {

/// Kinds of characters that ids are made of.
#[derive(Clone, Copy, PartialEq, Eq, Structural)]
pub enum LoaiKyTu {
    ChuSo,
    Hex,
    ThuongHoacSo,
    Token,
}

pub open spec fn thuoc_loai(c: char, loai: LoaiKyTu) -> bool {
    match loai {
        LoaiKyTu::ChuSo => chu::la_chu_so(c),
        LoaiKyTu::Hex => chu::la_chu_so(c) || ('a' <= c && c <= 'f') || ('A' <= c && c <= 'F'),
        LoaiKyTu::ThuongHoacSo => chu::la_chu_so(c) || ('a' <= c && c <= 'z'),
        LoaiKyTu::Token => chu::la_chu_so(c) || ('a' <= c && c <= 'z') || ('A' <= c && c <= 'Z') || c == '_' || c == '-',
    }
}

/// Every character of `s` is of the kind `loai`.
pub open spec fn toan_loai(s: Seq<char>, loai: LoaiKyTu) -> bool {
    forall|i: int| 0 <= i < s.len() ==> thuoc_loai(#[trigger] s[i], loai)
}

fn khoang_toan_loai(v: &Vec<char>, tu: usize, den: usize, loai: LoaiKyTu) -> (r: bool)
    requires
        tu <= den <= v@.len(),
    ensures
        r == toan_loai(v@.subrange(tu as int, den as int), loai),
{
    let ghost g = v@.subrange(tu as int, den as int);
    let mut i: usize = tu;
    while i < den
        invariant
            tu <= i <= den <= v@.len(),
            g == v@.subrange(tu as int, den as int),
            forall|k: int| 0 <= k < i - tu ==> thuoc_loai(#[trigger] g[k], loai),
        decreases den - i,
    {
        let c = v[i];
        let so = '0' <= c && c <= '9';
        let dung = match loai {
            LoaiKyTu::ChuSo => so,
            LoaiKyTu::Hex => so || ('a' <= c && c <= 'f') || ('A' <= c && c <= 'F'),
            LoaiKyTu::ThuongHoacSo => so || ('a' <= c && c <= 'z'),
            LoaiKyTu::Token => so || ('a' <= c && c <= 'z') || ('A' <= c && c <= 'Z') || c == '_' || c == '-',
        };
        assert(g[i - tu] == c);
        if !dung {
            return false;
        }
        i = i + 1;
    }
    true
}

/// The start of what follows the last separator before `den`.
pub open spec fn sau_phan_cach(s: Seq<char>, den: int) -> int
    decreases den,
{
    if den <= 0 || den > s.len() {
        0
    } else if s[den - 1] == '\\' || s[den - 1] == '/' {
        den
    } else {
        sau_phan_cach(s, den - 1)
    }
}

/// The file name in a document's name: drivers may give the whole path.
pub open spec fn ten_file_cua(s: Seq<char>) -> Seq<char> {
    s.subrange(sau_phan_cach(s, s.len() as int), s.len() as int)
}

proof fn sau_phan_cach_trong(s: Seq<char>, den: int)
    requires
        0 <= den <= s.len(),
    ensures
        0 <= sau_phan_cach(s, den) <= den,
    decreases den,
{
    if den > 0 {
        sau_phan_cach_trong(s, den - 1);
    }
}

fn ten_file(document: &str) -> (r: Vec<char>)
    ensures
        r@ == ten_file_cua(document@),
{
    let v = chu::ky_tu(document);
    let n: usize = v.len();
    let mut i: usize = n;
    while i > 0 && v[i - 1] != '\\' && v[i - 1] != '/'
        invariant
            i <= n,
            n == v@.len(),
            sau_phan_cach(v@, n as int) == sau_phan_cach(v@, i as int),
        decreases i,
    {
        i = i - 1;
    }
    let mut ra: Vec<char> = Vec::new();
    let mut k: usize = i;
    while k < n
        invariant
            i <= k <= n,
            n == v@.len(),
            ra@ == v@.subrange(i as int, k as int),
        decreases n - k,
    {
        ra.push(v[k]);
        k = k + 1;
        assert(ra@ =~= v@.subrange(i as int, k as int));
    }
    ra
}

/// A test page of the agent.
pub open spec fn la_in_thu(document: Seq<char>) -> bool {
    chu::bat_dau_bang(ten_file_cua(document), "print-agent-in-thu-"@)
}

pub fn la_job_in_thu(document: &str) -> (r: bool)
    ensures
        r == la_in_thu(document@),
{
    let ten = ten_file(document);
    let mau = chu::ky_tu("print-agent-in-thu-");
    chu::khop(&ten, &mau, 0)
}

/// Milliseconds since 1970: thirteen digits.
pub open spec fn la_ms(s: Seq<char>) -> bool {
    s.len() == 13 && toan_loai(s, LoaiKyTu::ChuSo)
}

/// Five groups of 8, 4, 4, 4 and 12 hexadecimal digits, with `-` between them.
pub open spec fn la_uuid(s: Seq<char>) -> bool {
    &&& s.len() == 36
    &&& s[8] == '-' && s[13] == '-' && s[18] == '-' && s[23] == '-'
    &&& toan_loai(s.subrange(0, 8), LoaiKyTu::Hex)
    &&& toan_loai(s.subrange(9, 13), LoaiKyTu::Hex)
    &&& toan_loai(s.subrange(14, 18), LoaiKyTu::Hex)
    &&& toan_loai(s.subrange(19, 23), LoaiKyTu::Hex)
    &&& toan_loai(s.subrange(24, 36), LoaiKyTu::Hex)
}

pub open spec fn la_cuid(s: Seq<char>) -> bool {
    8 <= s.len() <= 40 && toan_loai(s, LoaiKyTu::ThuongHoacSo)
}

pub open spec fn la_token(s: Seq<char>) -> bool {
    s.len() > 0 && s[0] != '-' && s[s.len() - 1] != '-' && toan_loai(s, LoaiKyTu::Token)
}

pub open spec fn la_so_loai(s: Seq<char>) -> bool {
    s.len() > 0 && toan_loai(s, LoaiKyTu::ChuSo)
}

/// `<ms>-<number>`.
pub open spec fn id_ms_so(id: Seq<char>) -> bool {
    match chu::vi_tri_ky_tu(id, '-', 0) {
        Some(i) => la_ms(id.subrange(0, i)) && la_so_loai(id.subrange(i + 1, id.len() as int)),
        None => false,
    }
}

/// `<uuid>-<ms>` or `<cuid>-<ms>`.
pub open spec fn id_uuid_ms(id: Seq<char>) -> bool {
    match chu::vi_tri_cuoi(id, '-', id.len() as int) {
        Some(j) => la_ms(id.subrange(j + 1, id.len() as int)) && (la_uuid(id.subrange(0, j)) || la_cuid(
            id.subrange(0, j),
        )),
        None => false,
    }
}

/// `<token>-<ms>-<number>`, the form of older servers.
pub open spec fn id_token_ms_so(id: Seq<char>) -> bool {
    match chu::vi_tri_cuoi(id, '-', id.len() as int) {
        Some(j) => la_so_loai(id.subrange(j + 1, id.len() as int)) && match chu::vi_tri_cuoi(
            id.subrange(0, j),
            '-',
            j,
        ) {
            Some(i) => la_ms(id.subrange(i + 1, j)) && la_token(id.subrange(0, i)),
            None => false,
        },
        None => false,
    }
}

/// An id in one of the forms the server gives.
pub open spec fn la_id(id: Seq<char>) -> bool {
    id_ms_so(id) || id_uuid_ms(id) || id_token_ms_so(id)
}

fn khoang_la_ms(v: &Vec<char>, tu: usize, den: usize) -> (r: bool)
    requires
        tu <= den <= v@.len(),
    ensures
        r == la_ms(v@.subrange(tu as int, den as int)),
{
    den - tu == 13 && khoang_toan_loai(v, tu, den, LoaiKyTu::ChuSo)
}

fn khoang_la_so(v: &Vec<char>, tu: usize, den: usize) -> (r: bool)
    requires
        tu <= den <= v@.len(),
    ensures
        r == la_so_loai(v@.subrange(tu as int, den as int)),
{
    den > tu && khoang_toan_loai(v, tu, den, LoaiKyTu::ChuSo)
}

fn dau_la_uuid(v: &Vec<char>, den: usize) -> (r: bool)
    requires
        den <= v@.len(),
    ensures
        r == la_uuid(v@.subrange(0, den as int)),
{
    let ghost s = v@.subrange(0, den as int);
    if den != 36 {
        return false;
    }
    assert(s.subrange(0, 8) =~= v@.subrange(0, 8));
    assert(s.subrange(9, 13) =~= v@.subrange(9, 13));
    assert(s.subrange(14, 18) =~= v@.subrange(14, 18));
    assert(s.subrange(19, 23) =~= v@.subrange(19, 23));
    assert(s.subrange(24, 36) =~= v@.subrange(24, 36));
    v[8] == '-' && v[13] == '-' && v[18] == '-' && v[23] == '-' && khoang_toan_loai(v, 0, 8, LoaiKyTu::Hex)
        && khoang_toan_loai(v, 9, 13, LoaiKyTu::Hex) && khoang_toan_loai(v, 14, 18, LoaiKyTu::Hex)
        && khoang_toan_loai(v, 19, 23, LoaiKyTu::Hex) && khoang_toan_loai(v, 24, 36, LoaiKyTu::Hex)
}

proof fn vi_tri_cuoi_cat(s: Seq<char>, c: char, n: int, den: int)
    requires
        0 <= den <= n <= s.len(),
    ensures
        chu::vi_tri_cuoi(s.subrange(0, n), c, den) == chu::vi_tri_cuoi(s, c, den),
    decreases den,
{
    if den > 0 {
        vi_tri_cuoi_cat(s, c, n, den - 1);
    }
}

/// Whether the text is an id in one of the forms the server gives.
pub fn la_id_backend(id: &str) -> (r: bool)
    ensures
        r == la_id(id@),
{
    let v = chu::ky_tu(id);
    let n: usize = v.len();
    if let Some(i) = chu::tim_ky_tu(&v, '-', 0) {
        if khoang_la_ms(&v, 0, i) && khoang_la_so(&v, i + 1, n) {
            return true;
        }
    }
    match chu::tim_cuoi(&v, '-', n) {
        Some(j) => {
            if khoang_la_ms(&v, j + 1, n) && (dau_la_uuid(&v, j) || (8 <= j && j <= 40 && khoang_toan_loai(
                &v,
                0,
                j,
                LoaiKyTu::ThuongHoacSo,
            ))) {
                return true;
            }
            if !khoang_la_so(&v, j + 1, n) {
                return false;
            }
            proof {
                vi_tri_cuoi_cat(v@, '-', j as int, j as int);
            }
            match chu::tim_cuoi(&v, '-', j) {
                Some(i) => {
                    assert(id@.subrange(0, j as int).subrange(0, i as int) =~= id@.subrange(0, i as int));
                    khoang_la_ms(&v, i + 1, j) && i > 0 && v[0] != '-' && v[i - 1] != '-' && khoang_toan_loai(
                        &v,
                        0,
                        i,
                        LoaiKyTu::Token,
                    )
                },
                None => false,
            }
        },
        None => false,
    }
}

/// A name without the ending ".pdf".
pub open spec fn bo_pdf(s: Seq<char>) -> Seq<char> {
    if co_duoi_pdf(s) {
        s.subrange(0, s.len() - 4)
    } else {
        s
    }
}

/// What stands where the id stands in a name the server or the agent gave.
pub open spec fn doan_id(goc: Seq<char>) -> Option<Seq<char>> {
    if chu::bat_dau_bang(goc, "AI-"@) {
        let con = goc.subrange(3, goc.len() as int);
        match chu::vi_tri_ky_tu(con, '-', 0) {
            Some(a) => match chu::vi_tri_ky_tu(con, '-', a + 1) {
                Some(b) => if a == 0 || b == a + 1 {
                    None
                } else {
                    Some(con.subrange(b + 1, con.len() as int))
                },
                None => None,
            },
            None => None,
        }
    } else if chu::bat_dau_bang(goc, "print-agent-"@) {
        let con = goc.subrange(12, goc.len() as int);
        match chu::vi_tri_cuoi(con, '-', con.len() as int) {
            Some(j) => if j + 1 == con.len() || !toan_loai(con.subrange(j + 1, con.len() as int), LoaiKyTu::Hex) {
                None
            } else {
                Some(con.subrange(0, j))
            },
            None => None,
        }
    } else {
        None
    }
}

/// The id in the document's name of a job of the agent.
pub open spec fn id_trong_ten(document: Seq<char>) -> Option<Seq<char>> {
    match doan_id(bo_pdf(ten_file_cua(document))) {
        Some(id) => if la_id(id) {
            Some(id)
        } else {
            None
        },
        None => None,
    }
}

fn tach_doan_id(goc: &Vec<char>) -> (r: Option<String>)
    ensures
        crate::gia_tri::chu_cua(r) == doan_id(goc@),
{
    proof {
        reveal_strlit("AI-");
        reveal_strlit("print-agent-");
    }
    let n: usize = goc.len();
    let mau_ai = chu::ky_tu("AI-");
    if chu::khop(goc, &mau_ai, 0) {
        let con = chu::ky_tu(chu::tu_khoang(goc, 3, n).as_str());
        let m: usize = con.len();
        return match chu::tim_ky_tu(&con, '-', 0) {
            Some(a) => match chu::tim_ky_tu(&con, '-', a + 1) {
                Some(b) => if a == 0 || b == a + 1 {
                    None
                } else {
                    Some(chu::tu_khoang(&con, b + 1, m))
                },
                None => None,
            },
            None => None,
        };
    }
    let mau_pa = chu::ky_tu("print-agent-");
    if chu::khop(goc, &mau_pa, 0) {
        let con = chu::ky_tu(chu::tu_khoang(goc, 12, n).as_str());
        let m: usize = con.len();
        return match chu::tim_cuoi(&con, '-', m) {
            Some(j) => if j + 1 == m || !khoang_toan_loai(&con, j + 1, m, LoaiKyTu::Hex) {
                None
            } else {
                Some(chu::tu_khoang(&con, 0, j))
            },
            None => None,
        };
    }
    None
}

/// The id in the document's name of a job of the agent.
pub fn tach_job_id_tu_ten(document: &str) -> (r: Option<String>)
    ensures
        crate::gia_tri::chu_cua(r) == id_trong_ten(document@),
{
    let ten = ten_file(document);
    let n: usize = ten.len();
    let co_pdf = n >= 4 && ten[n - 4] == '.' && (ten[n - 3] == 'p' || ten[n - 3] == 'P') && (ten[n - 2] == 'd' || ten[n
        - 2] == 'D') && (ten[n - 1] == 'f' || ten[n - 1] == 'F');
    let goc = if co_pdf {
        chu::ky_tu(chu::tu_khoang(&ten, 0, n - 4).as_str())
    } else {
        ten
    };
    match tach_doan_id(&goc) {
        Some(id) => if la_id_backend(id.as_str()) {
            Some(id)
        } else {
            None
        },
        None => None,
    }
}

proof fn ghep_toan_loai(a: Seq<char>, b: Seq<char>, loai: LoaiKyTu)
    requires
        toan_loai(a, loai),
        toan_loai(b, loai),
    ensures
        toan_loai(a + b, loai),
{
    assert forall|i: int| 0 <= i < (a + b).len() implies thuoc_loai(#[trigger] (a + b)[i], loai) by {
        if i < a.len() {
            assert(thuoc_loai(a[i], loai));
        } else {
            assert(thuoc_loai(b[i - a.len()], loai));
        }
    }
}

/// Everything of another kind is of a kind of a token's characters.
proof fn la_toan_token(s: Seq<char>, loai: LoaiKyTu)
    requires
        toan_loai(s, loai),
    ensures
        toan_loai(s, LoaiKyTu::Token),
{
    assert forall|i: int| 0 <= i < s.len() implies thuoc_loai(#[trigger] s[i], LoaiKyTu::Token) by {
        assert(thuoc_loai(s[i], loai));
    }
}

proof fn uuid_toan_token(s: Seq<char>)
    requires
        la_uuid(s),
    ensures
        toan_loai(s, LoaiKyTu::Token),
{
    assert forall|i: int| 0 <= i < s.len() implies thuoc_loai(#[trigger] s[i], LoaiKyTu::Token) by {
        if i < 8 {
            assert(thuoc_loai(s.subrange(0, 8)[i], LoaiKyTu::Hex));
        } else if 9 <= i < 13 {
            assert(thuoc_loai(s.subrange(9, 13)[i - 9], LoaiKyTu::Hex));
        } else if 14 <= i < 18 {
            assert(thuoc_loai(s.subrange(14, 18)[i - 14], LoaiKyTu::Hex));
        } else if 19 <= i < 23 {
            assert(thuoc_loai(s.subrange(19, 23)[i - 19], LoaiKyTu::Hex));
        } else if 24 <= i < 36 {
            assert(thuoc_loai(s.subrange(24, 36)[i - 24], LoaiKyTu::Hex));
        }
    }
}

/// An id is made of a token's characters, and is longer than an ending.
proof fn id_toan_token(id: Seq<char>)
    requires
        la_id(id),
    ensures
        toan_loai(id, LoaiKyTu::Token),
        id.len() > 4,
{
    let n = id.len() as int;
    let ngang = seq!['-'];
    assert(toan_loai(ngang, LoaiKyTu::Token));
    if id_ms_so(id) {
        chu::vi_tri_ky_tu_la_dau(id, '-', 0);
        let i = chu::vi_tri_ky_tu(id, '-', 0)->0;
        let a = id.subrange(0, i);
        let b = id.subrange(i + 1, n);
        la_toan_token(a, LoaiKyTu::ChuSo);
        la_toan_token(b, LoaiKyTu::ChuSo);
        ghep_toan_loai(a, ngang, LoaiKyTu::Token);
        ghep_toan_loai(a + ngang, b, LoaiKyTu::Token);
        assert(id =~= a + ngang + b);
    } else {
        chu::vi_tri_cuoi_la_cuoi(id, '-', n);
        let j = chu::vi_tri_cuoi(id, '-', n)->0;
        let a = id.subrange(0, j);
        let b = id.subrange(j + 1, n);
        if id_uuid_ms(id) {
            if la_uuid(a) {
                uuid_toan_token(a);
            } else {
                la_toan_token(a, LoaiKyTu::ThuongHoacSo);
            }
        } else {
            chu::vi_tri_cuoi_la_cuoi(a, '-', j);
            let i = chu::vi_tri_cuoi(a, '-', j)->0;
            let t = id.subrange(0, i);
            let ms = id.subrange(i + 1, j);
            assert(a.subrange(0, i) =~= t);
            la_toan_token(ms, LoaiKyTu::ChuSo);
            ghep_toan_loai(t, ngang, LoaiKyTu::Token);
            ghep_toan_loai(t + ngang, ms, LoaiKyTu::Token);
            assert(a =~= t + ngang + ms);
        }
        la_toan_token(b, LoaiKyTu::ChuSo);
        ghep_toan_loai(a, ngang, LoaiKyTu::Token);
        ghep_toan_loai(a + ngang, b, LoaiKyTu::Token);
        assert(id =~= a + ngang + b);
    }
}

/// A text without the signs that part a path.
pub open spec fn khong_phan_cach(s: Seq<char>) -> bool {
    forall|i: int| 0 <= i < s.len() ==> #[trigger] s[i] != '\\' && s[i] != '/'
}

/// The start of a path: nothing, or it ends in a separator.
pub open spec fn la_thu_muc(dir: Seq<char>) -> bool {
    dir.len() == 0 || dir.last() == '\\' || dir.last() == '/'
}

pub(crate) proof fn sau_thu_muc(dir: Seq<char>, ten: Seq<char>, den: int)
    requires
        la_thu_muc(dir),
        khong_phan_cach(ten),
        dir.len() <= den <= dir.len() + ten.len(),
    ensures
        sau_phan_cach(dir + ten, den) == dir.len(),
    decreases den,
{
    let s = dir + ten;
    if den > dir.len() {
        assert(s[den - 1] == ten[den - 1 - dir.len()]);
        sau_thu_muc(dir, ten, den - 1);
    } else if den > 0 {
        assert(s[den - 1] == dir.last());
    }
}

/// An ending that a name may have: none, or ".pdf" in letters of either case.
pub open spec fn la_duoi(duoi: Seq<char>) -> bool {
    duoi.len() == 0 || (duoi.len() == 4 && co_duoi_pdf(duoi))
}

/// A name of a directory, a stem that ends in a token's characters, and an ending: what is left is the stem.
proof fn goc_cua_ten(dir: Seq<char>, goc: Seq<char>, duoi: Seq<char>)
    requires
        la_thu_muc(dir),
        khong_phan_cach(goc),
        la_duoi(duoi),
        goc.len() > 4,
        thuoc_loai(goc[goc.len() - 4], LoaiKyTu::Token),
    ensures
        bo_pdf(ten_file_cua(dir + (goc + duoi))) == goc,
{
    let ten = goc + duoi;
    assert(khong_phan_cach(ten)) by {
        assert forall|i: int| 0 <= i < ten.len() implies #[trigger] ten[i] != '\\' && ten[i] != '/' by {
            if i < goc.len() {
                assert(ten[i] == goc[i]);
            } else {
                assert(ten[i] == duoi[i - goc.len()]);
            }
        }
    }
    let s = dir + ten;
    sau_thu_muc(dir, ten, s.len() as int);
    assert(ten_file_cua(s) =~= ten);
    if duoi.len() == 0 {
        assert(ten =~= goc);
    } else {
        assert(ten[ten.len() - 4] == duoi[0] && ten[ten.len() - 3] == duoi[1] && ten[ten.len() - 2] == duoi[2]
            && ten[ten.len() - 1] == duoi[3]);
        assert(ten.subrange(0, ten.len() - 4) =~= goc);
    }
}

/// The name that the server gives a document.
pub open spec fn ten_cua_server(so: Seq<char>, khach: Seq<char>, id: Seq<char>) -> Seq<char> {
    "AI-"@ + so + "-"@ + khach + "-"@ + id
}

/// The name that the agent falls back on.
pub open spec fn ten_cua_app(id: Seq<char>, hex: Seq<char>) -> Seq<char> {
    "print-agent-"@ + id + "-"@ + hex
}

/// A part of the server's name: no `-` and nothing that parts a path.
pub open spec fn la_doan_ten(s: Seq<char>) -> bool {
    s.len() > 0 && khong_phan_cach(s) && forall|i: int| 0 <= i < s.len() ==> #[trigger] s[i] != '-'
}

/// The id is read back from the name that the server gives a document, in any directory, with or without
/// an ending.
#[verifier::rlimit(30)]
pub proof fn id_tu_ten_cua_server(
    dir: Seq<char>,
    so: Seq<char>,
    khach: Seq<char>,
    id: Seq<char>,
    duoi: Seq<char>,
)
    requires
        la_thu_muc(dir),
        la_doan_ten(so),
        la_doan_ten(khach),
        la_id(id),
        la_duoi(duoi),
    ensures
        id_trong_ten(dir + (ten_cua_server(so, khach, id) + duoi)) == Some(id),
{
    reveal_strlit("AI-");
    reveal_strlit("-");
    id_toan_token(id);
    let goc = ten_cua_server(so, khach, id);
    let n = goc.len() as int;
    let b = (so.len() + khach.len() + 5) as int;
    assert(n == b + id.len());
    assert(goc.subrange(b, n) =~= id);
    assert(khong_phan_cach(goc)) by {
        assert forall|i: int| 0 <= i < n implies #[trigger] goc[i] != '\\' && goc[i] != '/' by {
            if i < 3 {
                assert(goc[i] == "AI-"@[i]);
            } else if i < 3 + so.len() {
                assert(goc[i] == so[i - 3]);
            } else if i == 3 + so.len() || i == b - 1 {
                assert(goc[i] == '-');
            } else if i < b - 1 {
                assert(goc[i] == khach[i - 4 - so.len()]);
            } else {
                assert(goc[i] == id[i - b]);
                assert(thuoc_loai(id[i - b], LoaiKyTu::Token));
            }
        }
    }
    assert(goc[n - 4] == id[id.len() - 4]);
    assert(thuoc_loai(id[id.len() - 4], LoaiKyTu::Token));
    goc_cua_ten(dir, goc, duoi);
    assert(chu::bat_dau_bang(goc, "AI-"@)) by {
        assert(goc.subrange(0, 3) =~= "AI-"@);
    }
    let con = goc.subrange(3, n);
    let a = so.len() as int;
    let c = a + 1 + khach.len();
    assert forall|k: int| 0 <= k < a implies con[k] != '-' by {
        assert(con[k] == so[k]);
    }
    assert(con[a] == '-' && con[c] == '-');
    assert forall|k: int| a + 1 <= k < c implies con[k] != '-' by {
        assert(con[k] == khach[k - a - 1]);
    }
    chu::vi_tri_ky_tu_la(con, '-', 0, a);
    chu::vi_tri_ky_tu_la(con, '-', a + 1, c);
    assert(con.subrange(c + 1, con.len() as int) =~= id);
}

/// The id is read back from the name that the agent falls back on, in any directory, with or without an
/// ending.
pub proof fn id_tu_ten_cua_app(dir: Seq<char>, id: Seq<char>, hex: Seq<char>, duoi: Seq<char>)
    requires
        la_thu_muc(dir),
        la_id(id),
        hex.len() > 0,
        toan_loai(hex, LoaiKyTu::Hex),
        la_duoi(duoi),
    ensures
        id_trong_ten(dir + (ten_cua_app(id, hex) + duoi)) == Some(id),
{
    reveal_strlit("AI-");
    reveal_strlit("print-agent-");
    reveal_strlit("-");
    id_toan_token(id);
    la_toan_token(hex, LoaiKyTu::Hex);
    let goc = ten_cua_app(id, hex);
    let n = goc.len() as int;
    let dau = "print-agent-"@;
    assert(dau.len() == 12);
    assert(toan_loai(dau, LoaiKyTu::Token));
    assert(toan_loai("-"@, LoaiKyTu::Token));
    ghep_toan_loai(dau, id, LoaiKyTu::Token);
    ghep_toan_loai(dau + id, "-"@, LoaiKyTu::Token);
    ghep_toan_loai(dau + id + "-"@, hex, LoaiKyTu::Token);
    assert(khong_phan_cach(goc)) by {
        assert forall|i: int| 0 <= i < n implies #[trigger] goc[i] != '\\' && goc[i] != '/' by {
            assert(thuoc_loai(goc[i], LoaiKyTu::Token));
        }
    }
    assert(thuoc_loai(goc[n - 4], LoaiKyTu::Token));
    goc_cua_ten(dir, goc, duoi);
    assert(!chu::bat_dau_bang(goc, "AI-"@)) by {
        assert(goc[0] == 'p');
        assert(goc.subrange(0, 3)[0] == 'p');
    }
    assert(chu::bat_dau_bang(goc, dau)) by {
        assert(goc.subrange(0, 12) =~= dau);
    }
    let con = goc.subrange(12, n);
    let j = id.len() as int;
    assert(con[j] == '-');
    assert forall|k: int| j < k < con.len() implies con[k] != '-' by {
        assert(con[k] == hex[k - j - 1]);
        assert(thuoc_loai(hex[k - j - 1], LoaiKyTu::Hex));
    }
    chu::vi_tri_cuoi_la(con, '-', con.len() as int, j);
    assert(con.subrange(j + 1, con.len() as int) =~= hex);
    assert(con.subrange(0, j) =~= id);
}

/// What is read from a document's name is an id and stands in the name.
pub proof fn id_doc_duoc_co_trong_ten(document: Seq<char>)
    ensures
        id_trong_ten(document) matches Some(id) ==> la_id(id) && chu::co_chua(document, id),
{
    if let Some(id) = id_trong_ten(document) {
        reveal_strlit("AI-");
        reveal_strlit("print-agent-");
        sau_phan_cach_trong(document, document.len() as int);
        let d = sau_phan_cach(document, document.len() as int);
        let ten = ten_file_cua(document);
        let goc = bo_pdf(ten);
        let k = if chu::bat_dau_bang(goc, "AI-"@) {
            let con = goc.subrange(3, goc.len() as int);
            chu::vi_tri_ky_tu_la_dau(con, '-', 0);
            let a = chu::vi_tri_ky_tu(con, '-', 0)->0;
            chu::vi_tri_ky_tu_la_dau(con, '-', a + 1);
            let b = chu::vi_tri_ky_tu(con, '-', a + 1)->0;
            3 + b + 1
        } else {
            let con = goc.subrange(12, goc.len() as int);
            chu::vi_tri_cuoi_la_cuoi(con, '-', con.len() as int);
            12int
        };
        assert(document.subrange(d + k, d + k + id.len()) =~= id);
        assert(chu::khop_tai(document, id, d + k));
    }
}

/// A job of the agent: an order of the server, or a test page.
pub open spec fn cua_app(document: Seq<char>) -> bool {
    la_in_thu(document) || id_trong_ten(document) is Some
}

pub fn la_job_cua_app(document: &str) -> (r: bool)
    ensures
        r == cua_app(document@),
{
    la_job_in_thu(document) || tach_job_id_tu_ten(document).is_some()
}

/// The invoice number of a job of the agent: from its document's name, else the id without token.
pub open spec fn so_hoa_don_trong(document: Seq<char>) -> Option<Seq<char>> {
    match id_trong_ten(document) {
        Some(id) => match job::hoa_don_cua(ten_file_cua(document), id) {
            Some(x) => Some(x.0),
            None => Some(job::rut_gon(id)),
        },
        None => None,
    }
}

pub fn so_hoa_don_cua(j: &JobHangDoi) -> (r: Option<String>)
    ensures
        crate::gia_tri::chu_cua(r) == so_hoa_don_trong(j.document@),
{
    match tach_job_id_tu_ten(j.document.as_str()) {
        Some(id) => {
            let ten = chu::tu_ky_tu(&ten_file(j.document.as_str()));
            match job::boc_hoa_don(ten.as_str(), id.as_str()) {
                Some(x) => Some(x.0),
                None => Some(job::rut_gon_job_id(id.as_str())),
            }
        },
        None => None,
    }
}

/// What `str::to_lowercase` of std makes of a text.
pub uninterp spec fn chuoi_thuong_cua(s: Seq<char>) -> Seq<char>;

/// `str::to_lowercase` of std: the text in lower case, a function of the text alone.
#[verifier::external_body]
fn chuoi_thuong(s: &str) -> (r: String)
    ensures
        r@ == chuoi_thuong_cua(s@),
{
    s.to_lowercase()
}

/// A text without the backslashes at its start.
pub open spec fn bo_gach_nguoc(s: Seq<char>) -> Seq<char>
    decreases s.len(),
{
    if s.len() > 0 && s[0] == '\\' {
        bo_gach_nguoc(s.subrange(1, s.len() as int))
    } else {
        s
    }
}

/// The first label of a computer's name, before lower case.
pub open spec fn nhan_may(s: Seq<char>) -> Seq<char> {
    let t = bo_gach_nguoc(chu::bo_trang(s));
    match chu::vi_tri_ky_tu(t, '.', 0) {
        Some(i) => t.subrange(0, i),
        None => t,
    }
}

fn tach_nhan_may(s: &str) -> (r: String)
    ensures
        r@ == nhan_may(s@),
{
    let v = chu::ky_tu(chu::cat_trang(s).as_str());
    let n: usize = v.len();
    let mut i: usize = 0;
    assert(v@.subrange(0, v@.len() as int) =~= v@);
    while i < n && v[i] == '\\'
        invariant
            i <= n,
            n == v@.len(),
            bo_gach_nguoc(v@) == bo_gach_nguoc(v@.subrange(i as int, n as int)),
        decreases n - i,
    {
        assert(v@.subrange(i as int, n as int).subrange(1, n - i) =~= v@.subrange(i + 1, n as int));
        i = i + 1;
    }
    let t = chu::ky_tu(chu::tu_khoang(&v, i, n).as_str());
    match chu::tim_ky_tu(&t, '.', 0) {
        Some(k) => chu::tu_khoang(&t, 0, k),
        None => chu::tu_ky_tu(&t),
    }
}

/// The job was submitted by the computer `ten_may`; never where either computer is not known.
pub open spec fn la_cung_may(may_tinh_job: Seq<char>, ten_may: Seq<char>) -> bool {
    let a = nhan_may(may_tinh_job);
    let b = nhan_may(ten_may);
    a.len() > 0 && b.len() > 0 && chuoi_thuong_cua(a) == chuoi_thuong_cua(b)
}

/// Compares two computers by their labels, each given as it stands and in lower case.
pub fn ten_may_trung(a: &str, a_thuong: &str, b: &str, b_thuong: &str) -> (r: bool)
    ensures
        r == (a@.len() > 0 && b@.len() > 0 && a_thuong@ == b_thuong@),
{
    !a.is_empty() && !b.is_empty() && chu::bang(a_thuong, b_thuong)
}

pub fn cung_may(may_tinh_job: &str, ten_may: &str) -> (r: bool)
    ensures
        r == la_cung_may(may_tinh_job@, ten_may@),
{
    let a = tach_nhan_may(may_tinh_job);
    let b = tach_nhan_may(ten_may);
    let a_thuong = chuoi_thuong(a.as_str());
    let b_thuong = chuoi_thuong(b.as_str());
    ten_may_trung(a.as_str(), a_thuong.as_str(), b.as_str(), b_thuong.as_str())
}

/// Which computer submitted the job does not depend on the order in which the two are named, and a
/// computer that is not known is never the same as another.
pub proof fn cung_may_doi_xung(a: Seq<char>, b: Seq<char>)
    ensures
        la_cung_may(a, b) == la_cung_may(b, a),
        nhan_may(a).len() == 0 || nhan_may(b).len() == 0 ==> !la_cung_may(a, b),
        nhan_may(a).len() > 0 ==> la_cung_may(a, a),
{
}

/// A name in another letter case is the same computer as whatever the name itself is: two known
/// names that come to one text in lower case are interchangeable.
pub proof fn cung_may_khong_ke_hoa_thuong(a: Seq<char>, b: Seq<char>, c: Seq<char>)
    requires
        nhan_may(a).len() > 0,
        nhan_may(b).len() > 0,
        chuoi_thuong_cua(nhan_may(a)) == chuoi_thuong_cua(nhan_may(b)),
    ensures
        la_cung_may(a, b),
        la_cung_may(a, c) == la_cung_may(b, c),
        la_cung_may(c, a) == la_cung_may(c, b),
{
}

/// Backslashes in front of a computer's name do not matter.
pub proof fn cung_may_khong_ke_gach_nguoc(gach: Seq<char>, ten: Seq<char>, b: Seq<char>)
    requires
        forall|i: int| 0 <= i < gach.len() ==> gach[i] == '\\',
        ten.len() > 0,
        !chu::la_khoang_trang(ten[0]),
    ensures
        nhan_may(gach + ten) == nhan_may(ten),
        la_cung_may(gach + ten, b) == la_cung_may(ten, b),
        la_cung_may(b, gach + ten) == la_cung_may(b, ten),
    decreases gach.len(),
{
    if gach.len() == 0 {
        assert(gach + ten =~= ten);
    } else {
        let sau = gach.subrange(1, gach.len() as int);
        let t = sau + ten;
        cung_may_khong_ke_gach_nguoc(sau, ten, b);
        assert(gach + ten =~= seq!['\\'] + t);
        assert(t[0] == (if sau.len() > 0 {
            sau[0]
        } else {
            ten[0]
        }));
        bo_trang_cuoi_ghep(seq!['\\'], t);
        let c = chu::bo_trang_cuoi(t);
        assert((seq!['\\'] + c).subrange(1, c.len() as int + 1) =~= c);
    }
}

/// The domain behind a computer's name does not matter.
pub proof fn cung_may_khong_ke_ten_mien(ten: Seq<char>, mien: Seq<char>, b: Seq<char>)
    requires
        ten.len() > 0,
        !chu::la_khoang_trang(ten.last()),
    ensures
        nhan_may(ten + seq!['.'] + mien) == nhan_may(ten),
        la_cung_may(ten + seq!['.'] + mien, b) == la_cung_may(ten, b),
        la_cung_may(b, ten + seq!['.'] + mien) == la_cung_may(b, ten),
{
    let duoi = seq!['.'] + mien;
    assert(ten + seq!['.'] + mien =~= ten + duoi);
    bo_trang_dau_ghep(ten, duoi);
    let x = chu::bo_trang_dau(ten);
    assert(chu::bo_trang_cuoi(x) == x);
    bo_trang_cuoi_con_dau(duoi);
    bo_trang_cuoi_ghep(x, duoi);
    let d = chu::bo_trang_cuoi(duoi);
    bo_gach_nguoc_ghep(x, d);
    let g = bo_gach_nguoc(x);
    let t = g + d;
    chu::vi_tri_ky_tu_la_dau(g, '.', 0);
    match chu::vi_tri_ky_tu(g, '.', 0) {
        Some(i) => {
            chu::vi_tri_ky_tu_la(t, '.', 0, i);
            assert(t.subrange(0, i) =~= g.subrange(0, i));
        },
        None => {
            let i = g.len() as int;
            chu::vi_tri_ky_tu_la(t, '.', 0, i);
            assert(t.subrange(0, i) =~= g);
        },
    }
}

/// White space at the start is taken off in front of what stays.
proof fn bo_trang_dau_ghep(a: Seq<char>, b: Seq<char>)
    requires
        a.len() > 0,
        !chu::la_khoang_trang(a.last()),
    ensures
        chu::bo_trang_dau(a + b) == chu::bo_trang_dau(a) + b,
        chu::bo_trang_dau(a).len() > 0,
        chu::bo_trang_dau(a).last() == a.last(),
    decreases a.len(),
{
    if chu::la_khoang_trang(a[0]) {
        let sau = a.subrange(1, a.len() as int);
        assert(sau.last() == a.last());
        bo_trang_dau_ghep(sau, b);
        assert((a + b).subrange(1, (a + b).len() as int) =~= sau + b);
    }
}

/// White space at the end is taken off within what is appended, where that is more than white space.
proof fn bo_trang_cuoi_ghep(a: Seq<char>, b: Seq<char>)
    requires
        b.len() > 0,
        !chu::la_khoang_trang(b[0]),
    ensures
        chu::bo_trang_cuoi(a + b) == a + chu::bo_trang_cuoi(b),
    decreases b.len(),
{
    let s = a + b;
    assert(s[s.len() - 1] == b[b.len() - 1]);
    if chu::la_khoang_trang(b[b.len() - 1]) {
        let truoc = b.subrange(0, b.len() - 1);
        assert(s.subrange(0, s.len() - 1) =~= a + truoc);
        bo_trang_cuoi_ghep(a, truoc);
    }
}

/// Taking white space off the end leaves what does not start with it.
proof fn bo_trang_cuoi_con_dau(b: Seq<char>)
    requires
        b.len() > 0,
        !chu::la_khoang_trang(b[0]),
    ensures
        chu::bo_trang_cuoi(b).len() > 0,
        chu::bo_trang_cuoi(b)[0] == b[0],
    decreases b.len(),
{
    if chu::la_khoang_trang(b[b.len() - 1]) {
        bo_trang_cuoi_con_dau(b.subrange(0, b.len() - 1));
    }
}

/// Backslashes at the start are taken off in front of what does not start with one.
proof fn bo_gach_nguoc_ghep(a: Seq<char>, b: Seq<char>)
    requires
        b.len() > 0,
        b[0] != '\\',
    ensures
        bo_gach_nguoc(a + b) == bo_gach_nguoc(a) + b,
    decreases a.len(),
{
    if a.len() == 0 {
        assert(a + b =~= b);
    } else if a[0] == '\\' {
        let sau = a.subrange(1, a.len() as int);
        bo_gach_nguoc_ghep(sau, b);
        assert((a + b).subrange(1, (a + b).len() as int) =~= sau + b);
    }
}

/// The id stands in the text at `i` with no digit right behind it.
pub open spec fn id_ranh_tai(s: Seq<char>, id: Seq<char>, i: int) -> bool {
    chu::khop_tai(s, id, i) && (i + id.len() == s.len() || !chu::la_chu_so(s[i + id.len()]))
}

/// The job belongs to the order with this id: its document's name holds the id with no digit behind
/// it, so that "...-7" is not taken for "...-71".
pub open spec fn thuoc_ve(j: JobHangDoi, id: Seq<char>) -> bool {
    id.len() > 0 && exists|i: int| id_ranh_tai(j.document@, id, i)
}

pub fn la_cua_job(j: &JobHangDoi, job_id: &str) -> (r: bool)
    ensures
        r == thuoc_ve(*j, job_id@),
{
    if job_id.is_empty() {
        return false;
    }
    let s = chu::ky_tu(j.document.as_str());
    let id = chu::ky_tu(job_id);
    let n: usize = s.len();
    let mut tu: usize = 0;
    while tu < n
        invariant
            s@ == j.document@,
            id@ == job_id@,
            id@.len() > 0,
            n == s@.len(),
            tu <= n,
            forall|i: int| i < tu ==> !id_ranh_tai(s@, id@, i),
        decreases n - tu,
    {
        if chu::khop(&s, &id, tu) {
            let sau: usize = tu + id.len();
            if sau == n || !('0' <= s[sau] && s[sau] <= '9') {
                assert(id_ranh_tai(s@, id@, tu as int));
                return true;
            }
        }
        tu = tu + 1;
    }
    false
}

/// A margin for the clock of the spooler, which counts whole seconds.
pub const BIEN_AN_TOAN_GIAY: i64 = 2;

/// The job belongs to the order and was not submitted before it was given.
pub open spec fn ung_vien(j: JobHangDoi, id: Seq<char>, sau: i64) -> bool {
    thuoc_ve(j, id) && j.submitted_epoch_secs >= sau - BIEN_AN_TOAN_GIAY
}

/// Job `i` is the one: it is the only candidate.
pub open spec fn la_job_cua_lan_in(jobs: Seq<JobHangDoi>, id: Seq<char>, sau: i64, i: int) -> bool {
    &&& 0 <= i < jobs.len()
    &&& ung_vien(jobs[i], id, sau)
    &&& forall|k: int| 0 <= k < jobs.len() && k != i ==> !ung_vien(#[trigger] jobs[k], id, sau)
}

/// The job of the order, where exactly one can be meant.
pub open spec fn vi_tri_job(jobs: Seq<JobHangDoi>, id: Seq<char>, sau: i64) -> Option<int> {
    if exists|i: int| la_job_cua_lan_in(jobs, id, sau, i) {
        Some(choose|i: int| la_job_cua_lan_in(jobs, id, sau, i))
    } else {
        None
    }
}

/// Finds the job of an order in the queue; nothing where none, or more than one, can be meant.
pub fn tim_job<'a>(jobs: &'a Vec<JobHangDoi>, job_id: &str, submit_after_epoch_secs: i64) -> (r: Option<&'a JobHangDoi>)
    ensures
        r matches Some(j) ==> vi_tri_job(jobs@, job_id@, submit_after_epoch_secs) matches Some(i) && jobs@[i] == *j
            && la_job_cua_lan_in(jobs@, job_id@, submit_after_epoch_secs, i),
        r is None ==> vi_tri_job(jobs@, job_id@, submit_after_epoch_secs) is None,
{
    let ghost id = job_id@;
    let ghost sau = submit_after_epoch_secs;
    let mut thay: Option<usize> = None;
    let mut i: usize = 0;
    while i < jobs.len()
        invariant
            id == job_id@,
            sau == submit_after_epoch_secs,
            i <= jobs@.len(),
            thay matches Some(t) ==> t < i && ung_vien(jobs@[t as int], id, sau) && forall|k: int|
                0 <= k < i && k != t ==> !ung_vien(#[trigger] jobs@[k], id, sau),
            thay is None ==> forall|k: int| 0 <= k < i ==> !ung_vien(#[trigger] jobs@[k], id, sau),
        decreases jobs@.len() - i,
    {
        let j = &jobs[i];
        if la_cua_job(j, job_id) && j.submitted_epoch_secs as i128 >= submit_after_epoch_secs as i128
            - BIEN_AN_TOAN_GIAY as i128 {
            assert(ung_vien(jobs@[i as int], id, sau));
            if let Some(t) = thay {
                assert forall|x: int| !la_job_cua_lan_in(jobs@, id, sau, x) by {
                    assert(ung_vien(jobs@[t as int], id, sau));
                }
                return None;
            }
            thay = Some(i);
        }
        i = i + 1;
    }
    match thay {
        Some(t) => {
            assert(la_job_cua_lan_in(jobs@, id, sau, t as int));
            let ghost x = choose|i: int| la_job_cua_lan_in(jobs@, id, sau, i);
            assert(x == t) by {
                assert(ung_vien(jobs@[x], id, sau));
            }
            Some(&jobs[t])
        },
        None => None,
    }
}

} // verus!
