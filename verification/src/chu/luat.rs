//! What numbers written out come to when they are read again, and where a text starts and ends.
use crate::chu::{
    chu_so_cua, chu_so_cuoi, chu_so_thuong, co_chua, hex_8, hex_thuong, khop_tai, la_chu_so, la_khoang_trang, thap_phan, vi_tri_dau,
    vi_tri_dau_la_dau,
};
use vstd::prelude::*;

verus! {

/// The value of a digit, in letters of either case beyond nine.
pub open spec fn gia_tri_chu_so(c: char) -> nat {
    if '0' <= c && c <= '9' {
        (c as int - '0' as int) as nat
    } else if 'A' <= c && c <= 'F' {
        (c as int - 'A' as int + 10) as nat
    } else if 'a' <= c && c <= 'f' {
        (c as int - 'a' as int + 10) as nat
    } else {
        0
    }
}

/// The number that digits in a base stand for.
pub open spec fn doc_so(s: Seq<char>, co_so: nat) -> nat
    decreases s.len(),
{
    if s.len() == 0 {
        0
    } else {
        doc_so(s.drop_last(), co_so) * co_so + gia_tri_chu_so(s.last())
    }
}

proof fn chu_so_dung(n: int)
    requires
        0 <= n < 16,
    ensures
        gia_tri_chu_so(chu_so_cua(n)) == n,
        gia_tri_chu_so(chu_so_thuong(n)) == n,
        n < 10 ==> la_chu_so(chu_so_cua(n)),
{
}

/// A number in decimal is read back, is made of digits, and has no leading zero but for zero itself.
pub proof fn thap_phan_doc_lai(n: nat)
    ensures
        thap_phan(n).len() > 0,
        doc_so(thap_phan(n), 10) == n,
        forall|i: int| 0 <= i < thap_phan(n).len() ==> la_chu_so(#[trigger] thap_phan(n)[i]),
        n > 0 ==> thap_phan(n)[0] != '0',
    decreases n,
{
    if n < 10 {
        chu_so_dung(n as int);
        let s = seq![chu_so_cua(n as int)];
        assert(s.drop_last() =~= Seq::empty());
        assert(doc_so(s.drop_last(), 10) == 0);
    } else {
        thap_phan_doc_lai(n / 10);
        chu_so_dung((n % 10) as int);
        let d = thap_phan(n / 10);
        assert(thap_phan(n).drop_last() =~= d);
        assert(thap_phan(n)[0] == d[0]);
        assert forall|i: int| 0 <= i < thap_phan(n).len() implies la_chu_so(#[trigger] thap_phan(n)[i]) by {
            if i < d.len() {
                assert(thap_phan(n)[i] == d[i]);
            }
        }
    }
}

/// The last `k` digits of a number are `k` digits, and are read back as the number where it has no more.
pub proof fn chu_so_cuoi_doc_lai(n: nat, co_so: nat, k: nat)
    requires
        2 <= co_so <= 16,
    ensures
        chu_so_cuoi(n, co_so, k).len() == k,
        n < mu(co_so, k) ==> doc_so(chu_so_cuoi(n, co_so, k), co_so) == n,
    decreases k,
{
    if k > 0 {
        let m = (k - 1) as nat;
        chu_so_cuoi_doc_lai(n / co_so, co_so, m);
        let d = chu_so_cuoi(n / co_so, co_so, m);
        assert(chu_so_cuoi(n, co_so, k).drop_last() =~= d);
        assert(n == (n / co_so) * co_so + n % co_so && 0 <= n % co_so < co_so) by (nonlinear_arith)
            requires
                co_so >= 2,
        ;
        chu_so_dung((n % co_so) as int);
        if n < mu(co_so, k) {
            assert(n / co_so < mu(co_so, m)) by (nonlinear_arith)
                requires
                    n < co_so * mu(co_so, m),
                    n == (n / co_so) * co_so + n % co_so,
                    n % co_so >= 0,
                    co_so >= 2,
            ;
        }
    }
}

/// A power.
pub open spec fn mu(co_so: nat, k: nat) -> nat
    decreases k,
{
    if k == 0 {
        1
    } else {
        co_so * mu(co_so, (k - 1) as nat)
    }
}

/// Eight hexadecimal digits are read back, for every number of 32 bits.
pub proof fn hex_8_doc_lai(n: u32)
    ensures
        hex_8(n).len() == 8,
        doc_so(hex_8(n), 16) == n,
{
    reveal_with_fuel(mu, 9);
    assert(mu(16, 8) == 0x1_0000_0000);
    chu_so_cuoi_doc_lai(n as nat, 16, 8);
}

/// A number in lower-case hexadecimal is read back, and has no leading zero but for zero itself.
pub proof fn hex_thuong_doc_lai(n: nat)
    ensures
        hex_thuong(n).len() > 0,
        doc_so(hex_thuong(n), 16) == n,
        n > 0 ==> hex_thuong(n)[0] != '0',
    decreases n,
{
    if n < 16 {
        chu_so_dung(n as int);
        let s = seq![chu_so_thuong(n as int)];
        assert(s.drop_last() =~= Seq::empty());
        assert(doc_so(s.drop_last(), 16) == 0);
    } else {
        hex_thuong_doc_lai(n / 16);
        chu_so_dung((n % 16) as int);
        assert(hex_thuong(n).drop_last() =~= hex_thuong(n / 16));
        assert(hex_thuong(n)[0] == hex_thuong(n / 16)[0]);
    }
}

/// The first place of one text in another is a place of it, and there is none before; there is one exactly where
/// the one text holds the other.
pub proof fn vi_tri_dau_khi_nao(s: Seq<char>, t: Seq<char>)
    ensures
        vi_tri_dau(s, t, 0) is Some <==> co_chua(s, t),
        vi_tri_dau(s, t, 0) matches Some(i) ==> 0 <= i && i + t.len() <= s.len() && s.subrange(i, i + t.len()) == t && forall|k: int|
            k < i ==> !khop_tai(s, t, k),
{
    vi_tri_dau_la_dau(s, t, 0);
    if let Some(i) = vi_tri_dau(s, t, 0) {
        assert(khop_tai(s, t, i));
    } else if co_chua(s, t) {
        let i = choose|i: int| khop_tai(s, t, i);
        assert(0 <= i);
    }
}

/// Blanks, tabs and line ends are white space; no letter, digit or mark of plain text is.
pub proof fn khoang_trang_la_gi(c: char)
    ensures
        la_khoang_trang(' ') && la_khoang_trang('\t') && la_khoang_trang('\r') && la_khoang_trang('\n'),
        '!' <= c && c <= '~' ==> !la_khoang_trang(c),
{
}

} // verus!
