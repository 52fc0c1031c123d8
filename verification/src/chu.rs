//! Text helpers: every string is reasoned about as its sequence of characters.
use vstd::prelude::*;
use vstd::string::*;

pub mod luat;

verus! {

/// `String::push` of std appends one character at the end.
pub assume_specification[ String::push ](s: &mut String, c: char)
    ensures
        final(s)@ == old(s)@.push(c),
;

/// White space as Unicode has it (the property `White_Space`).
pub open spec fn la_khoang_trang(c: char) -> bool {
    ('\u{9}' <= c && c <= '\u{d}') || c == ' ' || c == '\u{85}' || c == '\u{a0}' || c == '\u{1680}' || (
    '\u{2000}' <= c && c <= '\u{200a}') || c == '\u{2028}' || c == '\u{2029}' || c == '\u{202f}' || c
        == '\u{205f}' || c == '\u{3000}'
}

pub(crate) fn khoang_trang(c: char) -> (r: bool)
    ensures
        r == la_khoang_trang(c),
{
    ('\u{9}' <= c && c <= '\u{d}') || c == ' ' || c == '\u{85}' || c == '\u{a0}' || c == '\u{1680}' || (
    '\u{2000}' <= c && c <= '\u{200a}') || c == '\u{2028}' || c == '\u{2029}' || c == '\u{202f}' || c
        == '\u{205f}' || c == '\u{3000}'
}

/// What `char::to_lowercase` of std yields for a character: one character or a few.
pub uninterp spec fn chu_thuong_cua(c: char) -> Seq<char>;

/// `char::to_lowercase` of std, its characters collected in order.
#[verifier::external_body]
pub(crate) fn chu_thuong(c: char) -> (r: Vec<char>)
    ensures
        r@ == chu_thuong_cua(c),
{
    c.to_lowercase().collect()
}

/// The characters of a text, as a vector.
pub fn ky_tu(s: &str) -> (r: Vec<char>)
    ensures
        r@ == s@,
{
    broadcast use group_string_axioms;

    let mut ra: Vec<char> = Vec::new();
    let mut it = s.chars();
    loop
        invariant
            vstd::std_specs::iter::IteratorSpec::obeys_prophetic_iter_laws(&it),
            vstd::std_specs::iter::IteratorSpec::decrease(&it) is Some,
            s@ == ra@ + vstd::std_specs::iter::IteratorSpec::remaining(&it),
        ensures
            ra@ == s@,
        decreases vstd::std_specs::iter::IteratorSpec::decrease(&it)->0,
    {
        match it.next() {
            Some(c) => {
                ra.push(c);
                assert(s@ =~= ra@ + vstd::std_specs::iter::IteratorSpec::remaining(&it));
            },
            None => {
                assert(s@ =~= ra@);
                break;
            },
        }
    }
    ra
}

/// The text made of the characters `v[tu..den]`.
pub fn tu_khoang(v: &Vec<char>, tu: usize, den: usize) -> (r: String)
    requires
        tu <= den <= v@.len(),
    ensures
        r@ == v@.subrange(tu as int, den as int),
{
    let mut ra = String::new();
    let mut i: usize = tu;
    while i < den
        invariant
            tu <= i <= den <= v@.len(),
            ra@ == v@.subrange(tu as int, i as int),
        decreases den - i,
    {
        ra.push(v[i]);
        i = i + 1;
        assert(ra@ =~= v@.subrange(tu as int, i as int));
    }
    ra
}

/// The text made of all the characters of `v`.
pub fn tu_ky_tu(v: &Vec<char>) -> (r: String)
    ensures
        r@ == v@,
{
    let r = tu_khoang(v, 0, v.len());
    assert(v@.subrange(0, v@.len() as int) =~= v@);
    r
}

/// Whether two texts hold the same characters.
pub fn bang(a: &str, b: &str) -> (r: bool)
    ensures
        r == (a@ == b@),
{
    a.to_owned() == b.to_owned()
}

/// `t` stands in `s` from position `i` on.
pub open spec fn khop_tai(s: Seq<char>, t: Seq<char>, i: int) -> bool {
    0 <= i && i + t.len() <= s.len() && s.subrange(i, i + t.len()) == t
}

/// `t` stands somewhere in `s`.
pub open spec fn co_chua(s: Seq<char>, t: Seq<char>) -> bool {
    exists|i: int| khop_tai(s, t, i)
}

pub open spec fn bat_dau_bang(s: Seq<char>, t: Seq<char>) -> bool {
    khop_tai(s, t, 0)
}

pub open spec fn ket_thuc_bang(s: Seq<char>, t: Seq<char>) -> bool {
    khop_tai(s, t, s.len() - t.len())
}

/// The first position at or after `tu` where `t` stands in `s`.
pub open spec fn vi_tri_dau(s: Seq<char>, t: Seq<char>, tu: int) -> Option<int>
    decreases s.len() + 1 - tu,
{
    if tu < 0 || tu + t.len() > s.len() {
        None
    } else if khop_tai(s, t, tu) {
        Some(tu)
    } else {
        vi_tri_dau(s, t, tu + 1)
    }
}

/// The first position at or after `tu` where the character `c` stands in `s`.
pub open spec fn vi_tri_ky_tu(s: Seq<char>, c: char, tu: int) -> Option<int>
    decreases s.len() - tu,
{
    if tu < 0 || tu >= s.len() {
        None
    } else if s[tu] == c {
        Some(tu)
    } else {
        vi_tri_ky_tu(s, c, tu + 1)
    }
}

/// Whether `t` stands in `s` from position `i` on.
pub fn khop(s: &Vec<char>, t: &Vec<char>, i: usize) -> (r: bool)
    ensures
        r == khop_tai(s@, t@, i as int),
{
    if t.len() > s.len() || i > s.len() - t.len() {
        return false;
    }
    let n: usize = s.len();
    let mut k: usize = 0;
    while k < t.len()
        invariant
            n == s@.len(),
            i + t@.len() <= n,
            k <= t@.len(),
            forall|j: int| 0 <= j < k ==> s@[i + j] == t@[j],
        decreases t@.len() - k,
    {
        if s[i + k] != t[k] {
            assert(s@.subrange(i as int, i + t@.len())[k as int] != t@[k as int]);
            return false;
        }
        k = k + 1;
    }
    assert(s@.subrange(i as int, i + t@.len()) =~= t@);
    true
}

/// The first position at or after `tu` where `t` stands in `s`.
pub fn tim(s: &Vec<char>, t: &Vec<char>, tu: usize) -> (r: Option<usize>)
    ensures
        r matches Some(i) ==> vi_tri_dau(s@, t@, tu as int) == Some(i as int) && khop_tai(s@, t@, i as int) && tu <= i,
        r is None ==> vi_tri_dau(s@, t@, tu as int) is None,
{
    let mut i: usize = tu;
    while t.len() <= s.len() && i <= s.len() - t.len()
        invariant
            tu <= i,
            vi_tri_dau(s@, t@, tu as int) == vi_tri_dau(s@, t@, i as int),
        decreases s@.len() + 1 - i,
    {
        if khop(s, t, i) {
            return Some(i);
        }
        if i == s.len() {
            assert(vi_tri_dau(s@, t@, i + 1) is None);
            return None;
        }
        i = i + 1;
    }
    None
}

/// No occurrence at or after `tu` where the search finds none, and none before what it finds.
pub proof fn vi_tri_dau_la_dau(s: Seq<char>, t: Seq<char>, tu: int)
    requires
        0 <= tu,
    ensures
        vi_tri_dau(s, t, tu) matches Some(i) ==> tu <= i && khop_tai(s, t, i) && forall|j: int|
            tu <= j < i ==> !khop_tai(s, t, j),
        vi_tri_dau(s, t, tu) is None ==> forall|j: int| tu <= j ==> !khop_tai(s, t, j),
    decreases s.len() + 1 - tu,
{
    if tu + t.len() <= s.len() && !khop_tai(s, t, tu) {
        vi_tri_dau_la_dau(s, t, tu + 1);
    }
}

/// Whether `t` stands somewhere in `s`.
pub fn chua(s: &str, t: &str) -> (r: bool)
    ensures
        r == co_chua(s@, t@),
{
    let sv = ky_tu(s);
    let tv = ky_tu(t);
    proof {
        vi_tri_dau_la_dau(s@, t@, 0);
    }
    match tim(&sv, &tv, 0) {
        Some(i) => {
            assert(khop_tai(s@, t@, i as int));
            true
        },
        None => false,
    }
}

pub fn bat_dau(s: &str, t: &str) -> (r: bool)
    ensures
        r == bat_dau_bang(s@, t@),
{
    let sv = ky_tu(s);
    let tv = ky_tu(t);
    khop(&sv, &tv, 0)
}

pub fn ket_thuc(s: &str, t: &str) -> (r: bool)
    ensures
        r == ket_thuc_bang(s@, t@),
{
    let sv = ky_tu(s);
    let tv = ky_tu(t);
    if tv.len() > sv.len() {
        return false;
    }
    khop(&sv, &tv, sv.len() - tv.len())
}

/// The first position at or after `tu` where `c` stands in `s`.
pub fn tim_ky_tu(s: &Vec<char>, c: char, tu: usize) -> (r: Option<usize>)
    ensures
        r matches Some(i) ==> vi_tri_ky_tu(s@, c, tu as int) == Some(i as int) && tu <= i < s@.len() && s@[i as int]
            == c,
        r is None ==> vi_tri_ky_tu(s@, c, tu as int) is None,
{
    let mut i: usize = tu;
    while i < s.len()
        invariant
            tu <= i,
            vi_tri_ky_tu(s@, c, tu as int) == vi_tri_ky_tu(s@, c, i as int),
        decreases s@.len() - i,
    {
        if s[i] == c {
            return Some(i);
        }
        i = i + 1;
    }
    None
}

/// `s` without the white space at its start.
pub open spec fn bo_trang_dau(s: Seq<char>) -> Seq<char>
    decreases s.len(),
{
    if s.len() > 0 && la_khoang_trang(s[0]) {
        bo_trang_dau(s.subrange(1, s.len() as int))
    } else {
        s
    }
}

/// `s` without the white space at its end.
pub open spec fn bo_trang_cuoi(s: Seq<char>) -> Seq<char>
    decreases s.len(),
{
    if s.len() > 0 && la_khoang_trang(s[s.len() - 1]) {
        bo_trang_cuoi(s.subrange(0, s.len() - 1))
    } else {
        s
    }
}

/// `s` without the white space around it.
pub open spec fn bo_trang(s: Seq<char>) -> Seq<char> {
    bo_trang_cuoi(bo_trang_dau(s))
}

/// The characters of `v` without the white space around them.
pub fn cat_trang_ky_tu(v: &Vec<char>) -> (r: String)
    ensures
        r@ == bo_trang(v@),
{
    let mut dau: usize = 0;
    assert(v@.subrange(0, v@.len() as int) =~= v@);
    while dau < v.len() && khoang_trang(v[dau])
        invariant
            dau <= v@.len(),
            bo_trang_dau(v@) == bo_trang_dau(v@.subrange(dau as int, v@.len() as int)),
        decreases v@.len() - dau,
    {
        assert(v@.subrange(dau as int, v@.len() as int).subrange(1, v@.len() - dau) =~= v@.subrange(
            dau + 1,
            v@.len() as int,
        ));
        dau = dau + 1;
    }
    let ghost g = v@.subrange(dau as int, v@.len() as int);
    assert(bo_trang_dau(v@) == g);
    let mut cuoi: usize = v.len();
    while cuoi > dau && khoang_trang(v[cuoi - 1])
        invariant
            dau <= cuoi <= v@.len(),
            bo_trang_cuoi(g) == bo_trang_cuoi(v@.subrange(dau as int, cuoi as int)),
        decreases cuoi,
    {
        assert(v@.subrange(dau as int, cuoi as int).subrange(0, cuoi - dau - 1) =~= v@.subrange(
            dau as int,
            cuoi - 1,
        ));
        cuoi = cuoi - 1;
    }
    tu_khoang(v, dau, cuoi)
}

/// `s` without the white space around it.
pub fn cat_trang(s: &str) -> (r: String)
    ensures
        r@ == bo_trang(s@),
{
    let v = ky_tu(s);
    cat_trang_ky_tu(&v)
}

/// The decimal or hexadecimal digit of a number below 16.
pub open spec fn chu_so_cua(n: int) -> char {
    if n == 0 { '0' }
    else if n == 1 { '1' }
    else if n == 2 { '2' }
    else if n == 3 { '3' }
    else if n == 4 { '4' }
    else if n == 5 { '5' }
    else if n == 6 { '6' }
    else if n == 7 { '7' }
    else if n == 8 { '8' }
    else if n == 9 { '9' }
    else if n == 10 { 'A' }
    else if n == 11 { 'B' }
    else if n == 12 { 'C' }
    else if n == 13 { 'D' }
    else if n == 14 { 'E' }
    else { 'F' }
}

fn chu_so(n: u32) -> (r: char)
    ensures
        r == chu_so_cua(n as int),
{
    if n == 0 { '0' }
    else if n == 1 { '1' }
    else if n == 2 { '2' }
    else if n == 3 { '3' }
    else if n == 4 { '4' }
    else if n == 5 { '5' }
    else if n == 6 { '6' }
    else if n == 7 { '7' }
    else if n == 8 { '8' }
    else if n == 9 { '9' }
    else if n == 10 { 'A' }
    else if n == 11 { 'B' }
    else if n == 12 { 'C' }
    else if n == 13 { 'D' }
    else if n == 14 { 'E' }
    else { 'F' }
}

/// A number in decimal, without leading zeros.
pub open spec fn thap_phan(n: nat) -> Seq<char>
    decreases n,
{
    if n < 10 {
        seq![chu_so_cua(n as int)]
    } else {
        thap_phan(n / 10).push(chu_so_cua((n % 10) as int))
    }
}

/// The last `k` digits of a number in base `co_so`, leading zeros kept.
pub open spec fn chu_so_cuoi(n: nat, co_so: nat, k: nat) -> Seq<char>
    decreases k,
{
    if k == 0 {
        Seq::empty()
    } else {
        chu_so_cuoi(n / co_so, co_so, (k - 1) as nat).push(chu_so_cua((n % co_so) as int))
    }
}

/// Eight hexadecimal digits.
pub open spec fn hex_8(n: u32) -> Seq<char> {
    chu_so_cuoi(n as nat, 16, 8)
}

/// A number in decimal, without leading zeros.
pub fn so_thap_phan(n: u64) -> (r: String)
    ensures
        r@ == thap_phan(n as nat),
    decreases n,
{
    if n < 10 {
        let mut s = String::new();
        s.push(chu_so(n as u32));
        assert(s@ =~= thap_phan(n as nat));
        s
    } else {
        let mut s = so_thap_phan(n / 10);
        s.push(chu_so((n % 10) as u32));
        s
    }
}

/// The last `k` digits of a number in base `co_so` (at most 16), leading zeros kept.
pub fn so_co_dinh(n: u64, co_so: u64, k: u32) -> (r: String)
    requires
        2 <= co_so <= 16,
    ensures
        r@ == chu_so_cuoi(n as nat, co_so as nat, k as nat),
    decreases k,
{
    if k == 0 {
        String::new()
    } else {
        let mut s = so_co_dinh(n / co_so, co_so, k - 1);
        s.push(chu_so((n % co_so) as u32));
        s
    }
}

pub fn hex8(n: u32) -> (r: String)
    ensures
        r@ == hex_8(n),
{
    so_co_dinh(n as u64, 16, 8)
}

pub open spec fn la_chu_so(c: char) -> bool {
    '0' <= c && c <= '9'
}

pub open spec fn toan_chu_so(s: Seq<char>) -> bool {
    forall|i: int| 0 <= i < s.len() ==> la_chu_so(#[trigger] s[i])
}

/// Whether every character of `v[tu..den]` is a decimal digit.
pub fn khoang_toan_chu_so(v: &Vec<char>, tu: usize, den: usize) -> (r: bool)
    requires
        tu <= den <= v@.len(),
    ensures
        r == toan_chu_so(v@.subrange(tu as int, den as int)),
{
    let ghost g = v@.subrange(tu as int, den as int);
    let mut i: usize = tu;
    while i < den
        invariant
            tu <= i <= den <= v@.len(),
            g == v@.subrange(tu as int, den as int),
            forall|k: int| 0 <= k < i - tu ==> la_chu_so(#[trigger] g[k]),
        decreases den - i,
    {
        if !(v[i] >= '0' && v[i] <= '9') {
            assert(g[i - tu] == v@[i as int]);
            return false;
        }
        assert(g[i - tu] == v@[i as int]);
        i = i + 1;
    }
    true
}

/// The last position before `den` where `c` stands in `s`.
pub open spec fn vi_tri_cuoi(s: Seq<char>, c: char, den: int) -> Option<int>
    decreases den,
{
    if den <= 0 || den > s.len() {
        None
    } else if s[den - 1] == c {
        Some(den - 1)
    } else {
        vi_tri_cuoi(s, c, den - 1)
    }
}

/// The last position before `den` where `c` stands in `s`.
pub fn tim_cuoi(s: &Vec<char>, c: char, den: usize) -> (r: Option<usize>)
    requires
        den <= s@.len(),
    ensures
        r matches Some(i) ==> vi_tri_cuoi(s@, c, den as int) == Some(i as int) && i < den && s@[i as int] == c,
        r is None ==> vi_tri_cuoi(s@, c, den as int) is None,
{
    let mut i: usize = den;
    while i > 0
        invariant
            i <= den <= s@.len(),
            vi_tri_cuoi(s@, c, den as int) == vi_tri_cuoi(s@, c, i as int),
        decreases i,
    {
        if s[i - 1] == c {
            return Some(i - 1);
        }
        i = i - 1;
    }
    None
}

/// What the search for the last position finds holds the character, and nothing behind it does.
pub proof fn vi_tri_cuoi_la_cuoi(s: Seq<char>, c: char, den: int)
    requires
        0 <= den <= s.len(),
    ensures
        vi_tri_cuoi(s, c, den) matches Some(i) ==> 0 <= i < den && s[i] == c && forall|k: int|
            i < k < den ==> s[k] != c,
        vi_tri_cuoi(s, c, den) is None ==> forall|k: int| 0 <= k < den ==> s[k] != c,
    decreases den,
{
    if den > 0 {
        vi_tri_cuoi_la_cuoi(s, c, den - 1);
    }
}

/// A `c` after which, up to `den`, no other stands, is the last one.
pub proof fn vi_tri_cuoi_la(s: Seq<char>, c: char, den: int, i: int)
    requires
        0 <= i < den <= s.len(),
        s[i] == c,
        forall|k: int| i < k < den ==> s[k] != c,
    ensures
        vi_tri_cuoi(s, c, den) == Some(i),
    decreases den,
{
    if den - 1 > i {
        vi_tri_cuoi_la(s, c, den - 1, i);
    }
}

/// A `c` before which, from `tu` on, no other stands, is the first one.
pub proof fn vi_tri_ky_tu_la(s: Seq<char>, c: char, tu: int, i: int)
    requires
        0 <= tu <= i < s.len(),
        s[i] == c,
        forall|k: int| tu <= k < i ==> s[k] != c,
    ensures
        vi_tri_ky_tu(s, c, tu) == Some(i),
    decreases i - tu,
{
    if tu < i {
        vi_tri_ky_tu_la(s, c, tu + 1, i);
    }
}

/// What the search for a character finds is the first one; where it finds none there is none.
pub proof fn vi_tri_ky_tu_la_dau(s: Seq<char>, c: char, tu: int)
    requires
        0 <= tu,
    ensures
        vi_tri_ky_tu(s, c, tu) matches Some(i) ==> tu <= i < s.len() && s[i] == c && forall|k: int|
            tu <= k < i ==> s[k] != c,
        vi_tri_ky_tu(s, c, tu) is None ==> forall|k: int| tu <= k < s.len() ==> s[k] != c,
    decreases s.len() - tu,
{
    if tu < s.len() && s[tu] != c {
        vi_tri_ky_tu_la_dau(s, c, tu + 1);
    }
}

/// The lower-case hexadecimal digit of a number below 16.
pub open spec fn chu_so_thuong(n: int) -> char {
    if n == 10 { 'a' }
    else if n == 11 { 'b' }
    else if n == 12 { 'c' }
    else if n == 13 { 'd' }
    else if n == 14 { 'e' }
    else if n == 15 { 'f' }
    else { chu_so_cua(n) }
}

/// A number in lower-case hexadecimal, without leading zeros.
pub open spec fn hex_thuong(n: nat) -> Seq<char>
    decreases n,
{
    if n < 16 {
        seq![chu_so_thuong(n as int)]
    } else {
        hex_thuong(n / 16).push(chu_so_thuong((n % 16) as int))
    }
}

fn ky_tu_hex(n: u32) -> (r: char)
    ensures
        r == chu_so_thuong(n as int),
{
    if n == 10 { 'a' }
    else if n == 11 { 'b' }
    else if n == 12 { 'c' }
    else if n == 13 { 'd' }
    else if n == 14 { 'e' }
    else if n == 15 { 'f' }
    else { chu_so(n) }
}

/// A number in lower-case hexadecimal, without leading zeros.
pub fn so_hex_thuong(n: u64) -> (r: String)
    ensures
        r@ == hex_thuong(n as nat),
    decreases n,
{
    if n < 16 {
        let mut s = String::new();
        s.push(ky_tu_hex(n as u32));
        assert(s@ =~= hex_thuong(n as nat));
        s
    } else {
        let mut s = so_hex_thuong(n / 16);
        s.push(ky_tu_hex((n % 16) as u32));
        s
    }
}

} // verus!
