//! The log: lines without secrets, one file a day within bounds, and a buffer of lines for the server.
use crate::chu;
use crate::day::xem;
use crate::thoi_gian;
use vstd::prelude::*;
use vstd::string::*;
use vstd::utf8::encode_utf8;

pub mod luat;

verus! {

pub const TIEN_TO: &'static str = "print-agent-";

pub const DUOI: &'static str = ".txt";

/// The ending that older versions gave their files.
pub const DUOI_CU: &'static str = ".log";

/// Files of so many days are kept, today included.
pub const SO_NGAY_GIU: u64 = 30;

/// A day's file holds no more than this, in bytes.
pub const MOI_NGAY_TOI_DA: u64 = 20_971_520;

/// All files together hold no more than this, in bytes.
pub const TONG_TOI_DA: u64 = 209_715_200;

/// A secret shorter than this, in bytes, is not replaced.
pub const DO_DAI_BI_MAT_TOI_THIEU: usize = 6;

/// At most so many lines wait for the server.
pub const TRAN_CHO_GUI: usize = 20_000;

/// A text with every occurrence of `m` replaced by `r`, from the left and none within another. The empty
/// text stands before every character and at the end.
pub open spec fn thay(s: Seq<char>, m: Seq<char>, r: Seq<char>) -> Seq<char>
    decreases s.len(),
{
    if m.len() == 0 {
        if s.len() == 0 {
            r
        } else {
            r + seq![s[0]] + thay(s.subrange(1, s.len() as int), m, r)
        }
    } else {
        match chu::vi_tri_dau(s, m, 0) {
            Some(i) => if 0 <= i && i + m.len() <= s.len() {
                s.subrange(0, i) + r + thay(s.subrange(i + m.len(), s.len() as int), m, r)
            } else {
                s
            },
            None => s,
        }
    }
}

/// What stands in the place of a secret.
pub open spec fn sao() -> Seq<char> {
    seq!['*', '*', '*']
}

/// A text with the secrets replaced, one after the other.
pub open spec fn che_het(s: Seq<char>, bi_mat: Seq<Seq<char>>) -> Seq<char>
    decreases bi_mat.len(),
{
    if bi_mat.len() == 0 {
        s
    } else {
        thay(che_het(s, bi_mat.drop_last()), bi_mat.last(), sao())
    }
}

proof fn vi_tri_dau_dich(s: Seq<char>, t: Seq<char>, a: int, tu: int)
    requires
        0 <= a <= s.len(),
        0 <= tu,
    ensures
        chu::vi_tri_dau(s.subrange(a, s.len() as int), t, tu) == (match chu::vi_tri_dau(s, t, a + tu) {
            Some(i) => Some(i - a),
            None => None,
        }),
    decreases s.len() + 1 - a - tu,
{
    let d = s.subrange(a, s.len() as int);
    if tu + t.len() <= d.len() {
        assert(d.subrange(tu, tu + t.len()) =~= s.subrange(a + tu, a + tu + t.len()));
        vi_tri_dau_dich(s, t, a, tu + 1);
    }
}

/// Replaces every occurrence of a text by three stars.
fn thay_sao(s: &str, m: &str) -> (r: String)
    ensures
        r@ == thay(s@, m@, sao()),
{
    let sv = chu::ky_tu(s);
    let mv = chu::ky_tu(m);
    let n: usize = sv.len();
    let k: usize = mv.len();
    let mut ra = String::new();
    let mut i: usize = 0;
    assert(sv@.subrange(0, n as int) =~= sv@);
    assert(ra@ + thay(sv@, mv@, sao()) =~= thay(sv@, mv@, sao()));
    if k == 0 {
        while i < n
            invariant
                n == sv@.len(),
                mv@.len() == 0,
                i <= n,
                ra@ + thay(sv@.subrange(i as int, n as int), mv@, sao()) == thay(sv@, mv@, sao()),
            decreases n - i,
        {
            let ghost con = sv@.subrange(i as int, n as int);
            let ghost ra0 = ra@;
            ra.push('*');
            ra.push('*');
            ra.push('*');
            ra.push(sv[i]);
            proof {
                assert(con.subrange(1, con.len() as int) =~= sv@.subrange(i + 1, n as int));
                let sau = thay(sv@.subrange(i + 1, n as int), mv@, sao());
                assert(ra@ =~= ra0 + (sao() + seq![con[0]]));
                assert(ra@ + sau =~= ra0 + (sao() + seq![con[0]] + sau));
            }
            i = i + 1;
        }
        ra.append("***");
        proof {
            reveal_strlit("***");
            assert("***"@ =~= sao());
        }
        return ra;
    }
    loop
        invariant
            n == sv@.len(),
            k == mv@.len(),
            k > 0,
            sv@ == s@,
            mv@ == m@,
            i <= n,
            ra@ + thay(sv@.subrange(i as int, n as int), mv@, sao()) == thay(s@, m@, sao()),
        decreases n - i,
    {
        let ghost con = sv@.subrange(i as int, n as int);
        proof {
            vi_tri_dau_dich(sv@, mv@, i as int, 0);
        }
        match chu::tim(&sv, &mv, i) {
            Some(j) => {
                let ghost ra0 = ra@;
                ra.append(chu::tu_khoang(&sv, i, j).as_str());
                ra.push('*');
                ra.push('*');
                ra.push('*');
                proof {
                    assert(con.subrange(0, j - i) =~= sv@.subrange(i as int, j as int));
                    assert(con.subrange(j - i + k, con.len() as int) =~= sv@.subrange(j + k, n as int));
                    assert(ra@ =~= ra0 + sv@.subrange(i as int, j as int) + sao());
                    let sau = thay(sv@.subrange(j + k, n as int), mv@, sao());
                    assert(ra@ + sau =~= ra0 + (sv@.subrange(i as int, j as int) + sao() + sau));
                }
                i = j + k;
            },
            None => {
                ra.append(chu::tu_khoang(&sv, i, n).as_str());
                return ra;
            },
        }
    }
}

/// The text with the secrets replaced.
pub fn che(s: &str, bi_mat: &Vec<String>) -> (r: String)
    ensures
        r@ == che_het(s@, xem(bi_mat@)),
{
    let ghost bx = xem(bi_mat@);
    let mut ra = s.to_owned();
    let mut i: usize = 0;
    assert(bx.subrange(0, 0) =~= Seq::empty());
    while i < bi_mat.len()
        invariant
            bx == xem(bi_mat@),
            i <= bi_mat@.len(),
            ra@ == che_het(s@, bx.subrange(0, i as int)),
        decreases bi_mat@.len() - i,
    {
        assert(bx.subrange(0, i + 1).drop_last() =~= bx.subrange(0, i as int));
        assert(bx.subrange(0, i + 1).last() == bi_mat@[i as int]@);
        ra = thay_sao(ra.as_str(), bi_mat[i].as_str());
        i = i + 1;
    }
    assert(bx.subrange(0, bx.len() as int) =~= bx);
    ra
}

/// The same where the empty text is replaced.
proof fn thay_rong_khong_them(s: Seq<char>, m: Seq<char>, x: Seq<char>, k: int)
    requires
        m.len() == 0,
        x.len() > 0,
        forall|i: int| 0 <= i < x.len() ==> x[i] != '*',
        chu::khop_tai(thay(s, m, sao()), x, k),
    ensures
        chu::co_chua(s, x),
    decreases s.len(),
{
    let w = thay(s, m, sao());
    let n = x.len() as int;
    assert(w.subrange(k, k + n)[0] == x[0]);
    assert(k >= 3) by {
        if k < 3 {
            assert(w[k] == '*');
        }
    }
    let q = s.subrange(1, s.len() as int);
    let t = thay(q, m, sao());
    assert(w == sao() + seq![s[0]] + t);
    if k == 3 {
        assert(t[0] == '*');
        if n > 1 {
            assert(w.subrange(k, k + n)[1] == x[1]);
        }
        assert(s.subrange(0, 1) =~= x);
        assert(chu::khop_tai(s, x, 0));
    } else {
        assert(t.subrange(k - 4, k - 4 + n) =~= w.subrange(k, k + n));
        assert(chu::khop_tai(t, x, k - 4));
        thay_rong_khong_them(q, m, x, k - 4);
        let j = choose|j: int| chu::khop_tai(q, x, j);
        assert(s.subrange(j + 1, j + 1 + n) =~= q.subrange(j, j + n));
        assert(chu::khop_tai(s, x, j + 1));
    }
}

/// A text without stars that stands in the replaced text stood in the text before.
proof fn thay_khong_them(s: Seq<char>, m: Seq<char>, x: Seq<char>, k: int)
    requires
        x.len() > 0,
        forall|i: int| 0 <= i < x.len() ==> x[i] != '*',
        chu::khop_tai(thay(s, m, sao()), x, k),
    ensures
        chu::co_chua(s, x),
    decreases s.len(),
{
    if m.len() == 0 {
        thay_rong_khong_them(s, m, x, k);
    } else {
        chu::vi_tri_dau_la_dau(s, m, 0);
        match chu::vi_tri_dau(s, m, 0) {
            Some(i) => {
                let p = s.subrange(0, i);
                let q = s.subrange(i + m.len(), s.len() as int);
                let t = thay(q, m, sao());
                let w = thay(s, m, sao());
                assert(w == p + sao() + t);
                let n = x.len() as int;
                if k + n <= i {
                    assert(s.subrange(k, k + n) =~= w.subrange(k, k + n));
                    assert(chu::khop_tai(s, x, k));
                } else if k >= i + 3 {
                    assert(t.subrange(k - i - 3, k - i - 3 + n) =~= w.subrange(k, k + n));
                    assert(chu::khop_tai(t, x, k - i - 3));
                    thay_khong_them(q, m, x, k - i - 3);
                    let j = choose|j: int| chu::khop_tai(q, x, j);
                    assert(s.subrange(j + i + m.len(), j + i + m.len() + n) =~= q.subrange(j, j + n));
                    assert(chu::khop_tai(s, x, j + i + m.len()));
                } else {
                    let c = if k > i {
                        k
                    } else {
                        i
                    };
                    assert(w[c] == '*');
                    assert(w.subrange(k, k + n)[c - k] == x[c - k]);
                }
            },
            None => {
                assert(chu::khop_tai(s, x, k));
            },
        }
    }
}

/// A text without stars does not stand in a text in which it was replaced.
proof fn thay_het(s: Seq<char>, m: Seq<char>, k: int)
    requires
        m.len() > 0,
        forall|i: int| 0 <= i < m.len() ==> m[i] != '*',
    ensures
        !chu::khop_tai(thay(s, m, sao()), m, k),
    decreases s.len(),
{
    chu::vi_tri_dau_la_dau(s, m, 0);
    if let Some(i) = chu::vi_tri_dau(s, m, 0) {
        let p = s.subrange(0, i);
        let q = s.subrange(i + m.len(), s.len() as int);
        let t = thay(q, m, sao());
        let w = thay(s, m, sao());
        let n = m.len() as int;
        assert(w == p + sao() + t);
        thay_het(q, m, k - i - 3);
        if chu::khop_tai(w, m, k) {
            if k + n <= i {
                assert(s.subrange(k, k + n) =~= w.subrange(k, k + n));
                assert(chu::khop_tai(s, m, k));
            } else if k >= i + 3 {
                assert(t.subrange(k - i - 3, k - i - 3 + n) =~= w.subrange(k, k + n));
            } else {
                let c = if k > i {
                    k
                } else {
                    i
                };
                assert(w[c] == '*');
                assert(w.subrange(k, k + n)[c - k] == m[c - k]);
            }
        }
    }
}

/// No secret is left in what is written: whatever the text and whatever the other secrets, a secret
/// without stars does not stand in the result.
pub proof fn che_khong_lo(s: Seq<char>, bi_mat: Seq<Seq<char>>, i: int)
    requires
        0 <= i < bi_mat.len(),
        bi_mat[i].len() > 0,
        forall|k: int| 0 <= k < bi_mat[i].len() ==> bi_mat[i][k] != '*',
    ensures
        !chu::co_chua(che_het(s, bi_mat), bi_mat[i]),
    decreases bi_mat.len(),
{
    let m = bi_mat[i];
    let truoc = che_het(s, bi_mat.drop_last());
    let r = che_het(s, bi_mat);
    if i == bi_mat.len() - 1 {
        assert forall|k: int| !chu::khop_tai(r, m, k) by {
            thay_het(truoc, m, k);
        }
    } else {
        che_khong_lo(s, bi_mat.drop_last(), i);
        if chu::co_chua(r, m) {
            let k = choose|k: int| chu::khop_tai(r, m, k);
            thay_khong_them(truoc, bi_mat.last(), m, k);
        }
    }
}

/// The secrets that are never written.
#[derive(Debug)]
pub struct BiMat {
    ds: Vec<String>,
}

impl View for BiMat {
    type V = Seq<Seq<char>>;

    closed spec fn view(&self) -> Seq<Seq<char>> {
        xem(self.ds@)
    }
}

impl BiMat {
    pub fn moi() -> (r: BiMat)
        ensures
            r@ == Seq::<Seq<char>>::empty(),
    {
        let r = BiMat { ds: Vec::new() };
        assert(r@ =~= Seq::empty());
        r
    }

    /// Takes up a secret, once; one too short to be worth it is left out.
    pub fn che_bi_mat(&mut self, bi_mat: &str)
        ensures
            final(self)@ == (if encode_utf8(bi_mat@).len() < DO_DAI_BI_MAT_TOI_THIEU || old(self)@.contains(bi_mat@) {
                old(self)@
            } else {
                old(self)@.push(bi_mat@)
            }),
    {
        if bi_mat.as_bytes_vec().len() < DO_DAI_BI_MAT_TOI_THIEU {
            return ;
        }
        let ghost x = self@;
        let mut i: usize = 0;
        while i < self.ds.len()
            invariant
                x == xem(self.ds@),
                i <= self.ds@.len(),
                forall|k: int| 0 <= k < i ==> x[k] != bi_mat@,
            decreases self.ds@.len() - i,
        {
            if chu::bang(self.ds[i].as_str(), bi_mat) {
                assert(x[i as int] == bi_mat@);
                return ;
            }
            i = i + 1;
        }
        self.ds.push(bi_mat.to_owned());
        assert(self@ =~= x.push(bi_mat@));
    }

    /// The text with the secrets replaced.
    pub fn che(&self, s: &str) -> (r: String)
        ensures
            r@ == che_het(s@, self@),
    {
        che(s, &self.ds)
    }
}

/// One event of the log. Its time is in milliseconds since 1970.
#[derive(Debug, Clone, PartialEq, Eq)]
pub struct DongGui {
    pub luc: u64,
    pub su_kien: String,
    pub noi_dung: String,
}

pub ghost struct DongGuiV {
    pub luc: u64,
    pub su_kien: Seq<char>,
    pub noi_dung: Seq<char>,
}

impl View for DongGui {
    type V = DongGuiV;

    open spec fn view(&self) -> DongGuiV {
        DongGuiV { luc: self.luc, su_kien: self.su_kien@, noi_dung: self.noi_dung@ }
    }
}

/// Lines that wait for the server, oldest first, and how many were dropped.
#[derive(Debug)]
pub struct ChoGui {
    ds: Vec<DongGui>,
    bo_qua: u64,
}

pub ghost struct ChoGuiV {
    pub ds: Seq<DongGuiV>,
    pub bo_qua: u64,
}

impl View for ChoGui {
    type V = ChoGuiV;

    closed spec fn view(&self) -> ChoGuiV {
        ChoGuiV { ds: xem(self.ds@), bo_qua: self.bo_qua }
    }
}

/// A count that stops at the largest number.
pub open spec fn cong(a: u64, b: int) -> u64 {
    if a + b > u64::MAX {
        u64::MAX
    } else {
        (a + b) as u64
    }
}

fn cong_u64(a: u64, b: u64) -> (r: u64)
    ensures
        r == cong(a, b as int),
{
    if b > u64::MAX - a {
        u64::MAX
    } else {
        a + b
    }
}

impl ChoGuiV {
    /// With one line more; where there are enough already, the oldest goes and is counted.
    pub open spec fn sau_them(self, d: DongGuiV, tran: nat) -> ChoGuiV {
        if self.ds.len() >= tran {
            if self.ds.len() > 0 {
                ChoGuiV {
                    ds: self.ds.subrange(1, self.ds.len() as int).push(d),
                    bo_qua: cong(self.bo_qua, 1),
                }
            } else {
                ChoGuiV { ds: seq![d], bo_qua: cong(self.bo_qua, 1) }
            }
        } else {
            ChoGuiV { ds: self.ds.push(d), ..self }
        }
    }

    /// With a batch put back at the front; what is too much goes, oldest first, and is counted.
    pub open spec fn sau_tra_lai(self, lo: Seq<DongGuiV>, bo_qua: u64, tran: nat) -> ChoGuiV {
        let ds = lo + self.ds;
        let du = if ds.len() > tran {
            ds.len() - tran
        } else {
            0
        };
        ChoGuiV { ds: ds.subrange(du, ds.len() as int), bo_qua: cong(cong(self.bo_qua, bo_qua as int), du) }
    }
}

impl ChoGui {
    pub fn moi() -> (r: ChoGui)
        ensures
            r@ == (ChoGuiV { ds: Seq::empty(), bo_qua: 0 }),
    {
        let r = ChoGui { ds: Vec::new(), bo_qua: 0 };
        assert(r@.ds =~= Seq::empty());
        r
    }

    /// How many lines were dropped since the last batch was taken.
    pub fn bo_qua(&self) -> (r: u64)
        ensures
            r == self@.bo_qua,
    {
        self.bo_qua
    }

    pub fn them(&mut self, dong: DongGui, tran: usize)
        ensures
            final(self)@ == old(self)@.sau_them(dong@, tran as nat),
    {
        let ghost d0 = self.ds@;
        if self.ds.len() >= tran {
            if self.ds.len() > 0 {
                let _ = self.ds.remove(0);
                assert(xem(self.ds@) =~= xem(d0).subrange(1, d0.len() as int));
            }
            self.bo_qua = cong_u64(self.bo_qua, 1);
        }
        let ghost d1 = self.ds@;
        self.ds.push(dong);
        assert(xem(self.ds@) =~= xem(d1).push(dong@));
        assert(self@.ds =~= old(self)@.sau_them(dong@, tran as nat).ds);
    }

    /// Takes the oldest lines, `toi_da` at most, and the count of those dropped.
    pub fn lay(&mut self, toi_da: usize) -> (r: (Vec<DongGui>, u64))
        ensures
            r.1 == old(self)@.bo_qua,
            final(self)@.bo_qua == 0,
            xem(r.0@) + final(self)@.ds == old(self)@.ds,
            xem(r.0@).len() == (if toi_da <= old(self)@.ds.len() {
                toi_da as nat
            } else {
                old(self)@.ds.len()
            }),
    {
        let ghost d0 = self.ds@;
        let n: usize = if toi_da <= self.ds.len() {
            toi_da
        } else {
            self.ds.len()
        };
        let con = self.ds.split_off(n);
        let mut ra = con;
        let mut dau: Vec<DongGui> = Vec::new();
        dau.append(&mut self.ds);
        self.ds.append(&mut ra);
        assert(xem(dau@) + xem(self.ds@) =~= xem(d0));
        let b: u64 = self.bo_qua;
        self.bo_qua = 0;
        (dau, b)
    }

    /// Puts a batch back at the front.
    pub fn tra_lai(&mut self, lo: Vec<DongGui>, bo_qua: u64, tran: usize)
        requires
            lo@.len() + old(self)@.ds.len() <= u64::MAX,
        ensures
            final(self)@ == old(self)@.sau_tra_lai(xem(lo@), bo_qua, tran as nat),
    {
        let ghost d0 = self.ds@;
        let ghost lv = lo@;
        let ghost b0 = self.bo_qua;
        assert(xem(d0).len() == d0.len());
        let mut ds = lo;
        ds.append(&mut self.ds);
        let ghost tc = ds@;
        assert(xem(tc) =~= xem(lv) + xem(d0));
        self.bo_qua = cong_u64(self.bo_qua, bo_qua);
        let ghost b1 = self.bo_qua;
        let ghost mut du: int = 0;
        assert(xem(ds@) =~= xem(tc).subrange(0, tc.len() as int));
        while ds.len() > tran
            invariant
                0 <= du <= tc.len(),
                tc.len() <= u64::MAX,
                ds@.len() == tc.len() - du,
                du > 0 ==> ds@.len() >= tran,
                xem(ds@) == xem(tc).subrange(du, tc.len() as int),
                self.bo_qua == cong(b1, du),
                self.ds@.len() == 0,
            decreases ds@.len(),
        {
            let ghost d1 = ds@;
            let _ = ds.remove(0);
            self.bo_qua = cong_u64(self.bo_qua, 1);
            proof {
                assert(xem(ds@) =~= xem(d1).subrange(1, d1.len() as int));
                du = du + 1;
                assert(xem(ds@) =~= xem(tc).subrange(du, tc.len() as int));
            }
        }
        self.ds = ds;
    }
}

/// A batch that was taken and put back at once changes nothing, as long as it fits.
pub proof fn lay_roi_tra_khong_mat(truoc: ChoGuiV, sau: ChoGuiV, lo: Seq<DongGuiV>, bo_qua: u64, tran: nat)
    requires
        lo + sau.ds == truoc.ds,
        sau.bo_qua == 0,
        bo_qua == truoc.bo_qua,
        truoc.ds.len() <= tran,
    ensures
        sau.sau_tra_lai(lo, bo_qua, tran) == truoc,
{
    assert(truoc.ds.subrange(0, truoc.ds.len() as int) =~= truoc.ds);
}

/// A text on one line: line ends and tabs are blanks.
pub open spec fn phang_chu(s: Seq<char>) -> Seq<char> {
    s.map_values(
        |c: char|
            if c == '\r' || c == '\n' || c == '\t' {
                ' '
            } else {
                c
            },
    )
}

fn phang(s: &str) -> (r: String)
    ensures
        r@ == phang_chu(s@),
{
    let v = chu::ky_tu(s);
    let mut ra = String::new();
    let mut i: usize = 0;
    while i < v.len()
        invariant
            v@ == s@,
            i <= v@.len(),
            ra@ == phang_chu(v@.subrange(0, i as int)),
        decreases v@.len() - i,
    {
        let c = v[i];
        ra.push(
            if c == '\r' || c == '\n' || c == '\t' {
                ' '
            } else {
                c
            },
        );
        i = i + 1;
        assert(ra@ =~= phang_chu(v@.subrange(0, i as int)));
    }
    assert(v@.subrange(0, v@.len() as int) =~= v@);
    ra
}

/// A line as it is sent: without secrets, on one line.
pub open spec fn dong_sach(d: DongGuiV, bi_mat: Seq<Seq<char>>) -> DongGuiV {
    DongGuiV {
        luc: d.luc,
        su_kien: phang_chu(che_het(d.su_kien, bi_mat)),
        noi_dung: phang_chu(che_het(chu::bo_trang(d.noi_dung), bi_mat)),
    }
}

pub fn lam_sach_lo(lo: Vec<DongGui>, bi_mat: &BiMat) -> (r: Vec<DongGui>)
    ensures
        xem(r@) == xem(lo@).map_values(|d: DongGuiV| dong_sach(d, bi_mat@)),
{
    let ghost f = |d: DongGuiV| dong_sach(d, bi_mat@);
    let mut ra: Vec<DongGui> = Vec::new();
    let mut i: usize = 0;
    while i < lo.len()
        invariant
            f == (|d: DongGuiV| dong_sach(d, bi_mat@)),
            i <= lo@.len(),
            ra@.len() == i,
            forall|k: int| 0 <= k < i ==> (#[trigger] ra@[k])@ == f(lo@[k]@),
        decreases lo@.len() - i,
    {
        let d = &lo[i];
        let su_kien = phang(bi_mat.che(d.su_kien.as_str()).as_str());
        let gon = chu::cat_trang(d.noi_dung.as_str());
        let noi_dung = phang(bi_mat.che(gon.as_str()).as_str());
        let moi = DongGui { luc: d.luc, su_kien, noi_dung };
        assert(moi@ == f(lo@[i as int]@));
        ra.push(moi);
        i = i + 1;
    }
    assert(xem(ra@) =~= xem(lo@).map_values(f));
    ra
}

/// What to do with a line, by the bound on a day's file.
#[derive(Debug, Clone, Copy, PartialEq, Eq, Structural)]
pub enum GhiGi {
    Dong,
    /// The bound is reached: one line says so in its place.
    BaoDay,
    Bo,
}

/// How much of today's file is written.
#[derive(Debug)]
pub struct TranNgay {
    ngay: String,
    da_ghi: u64,
    da_bao: bool,
}

pub ghost struct TranNgayV {
    pub ngay: Seq<char>,
    pub da_ghi: u64,
    pub da_bao: bool,
}

impl View for TranNgay {
    type V = TranNgayV;

    closed spec fn view(&self) -> TranNgayV {
        TranNgayV { ngay: self.ngay@, da_ghi: self.da_ghi, da_bao: self.da_bao }
    }
}

impl TranNgayV {
    /// After one more line of `dai` bytes for the day `ngay`. On a new day `kich_thuoc_dau` bytes are
    /// there already.
    pub open spec fn sau_xet(self, ngay: Seq<char>, dai: u64, kich_thuoc_dau: u64) -> (TranNgayV, GhiGi) {
        let s = if self.ngay != ngay {
            TranNgayV { ngay, da_ghi: kich_thuoc_dau, da_bao: false }
        } else {
            self
        };
        if s.da_bao {
            (s, GhiGi::Bo)
        } else if s.da_ghi + dai <= MOI_NGAY_TOI_DA {
            (TranNgayV { da_ghi: (s.da_ghi + dai) as u64, ..s }, GhiGi::Dong)
        } else {
            (TranNgayV { da_bao: true, ..s }, GhiGi::BaoDay)
        }
    }
}

impl TranNgay {
    pub fn moi() -> (r: TranNgay)
        ensures
            r@ == (TranNgayV { ngay: Seq::empty(), da_ghi: 0, da_bao: false }),
    {
        TranNgay { ngay: String::new(), da_ghi: 0, da_bao: false }
    }

    /// Whether the size of the file has to be looked up before the next line.
    pub fn sang_ngay(&self, ngay: &str) -> (r: bool)
        ensures
            r == (self@.ngay != ngay@),
    {
        !chu::bang(self.ngay.as_str(), ngay)
    }

    pub fn xet(&mut self, ngay: &str, dai: u64, kich_thuoc_dau: u64) -> (r: GhiGi)
        ensures
            (final(self)@, r) == old(self)@.sau_xet(ngay@, dai, kich_thuoc_dau),
    {
        if self.sang_ngay(ngay) {
            self.ngay = ngay.to_owned();
            self.da_ghi = kich_thuoc_dau;
            self.da_bao = false;
        }
        if self.da_bao {
            return GhiGi::Bo;
        }
        if self.da_ghi <= MOI_NGAY_TOI_DA && dai <= MOI_NGAY_TOI_DA - self.da_ghi {
            self.da_ghi = self.da_ghi + dai;
            return GhiGi::Dong;
        }
        self.da_bao = true;
        GhiGi::BaoDay
    }
}

/// A line of the file: the time, the event, the text.
pub open spec fn dong_chu(luc_ms: u64, su_kien: Seq<char>, noi_dung: Seq<char>) -> Seq<char> {
    thoi_gian::iso_chu(luc_ms as int) + "\t"@ + phang_chu(su_kien) + "\t"@ + phang_chu(chu::bo_trang(noi_dung)) + "\n"@
}

pub fn dong_nhat_ky(luc_ms: u64, su_kien: &str, noi_dung: &str) -> (r: String)
    ensures
        r@ == dong_chu(luc_ms, su_kien@, noi_dung@),
{
    let mut s = thoi_gian::iso_utc(luc_ms);
    s.append("\t");
    s.append(phang(su_kien).as_str());
    s.append("\t");
    s.append(phang(chu::cat_trang(noi_dung).as_str()).as_str());
    s.append("\n");
    s
}

pub open spec fn ten_file_cua(ngay: Seq<char>) -> Seq<char> {
    TIEN_TO@ + ngay + DUOI@
}

/// The name of a day's file.
pub fn ten_file(ngay: &str) -> (r: String)
    ensures
        r@ == ten_file_cua(ngay@),
{
    let mut s = TIEN_TO.to_owned();
    s.append(ngay);
    s.append(DUOI);
    s
}

/// A date in the form "2026-09-25".
pub open spec fn dang_ngay(s: Seq<char>) -> bool {
    s.len() == 10 && forall|i: int|
        0 <= i < 10 ==> if i == 4 || i == 7 {
            #[trigger] s[i] == '-'
        } else {
            chu::la_chu_so(s[i])
        }
}

/// The part of a file name between what every log file begins and ends with.
pub open spec fn than_ten(ten: Seq<char>) -> Option<Seq<char>> {
    if !chu::bat_dau_bang(ten, TIEN_TO@) {
        None
    } else {
        let t = ten.subrange(12, ten.len() as int);
        if chu::ket_thuc_bang(t, DUOI@) || chu::ket_thuc_bang(t, DUOI_CU@) {
            Some(t.subrange(0, t.len() - 4))
        } else {
            None
        }
    }
}

/// The day of a log file; nothing for a file of another kind.
pub open spec fn ngay_cua(ten: Seq<char>) -> Option<Seq<char>> {
    match than_ten(ten) {
        Some(t) => if dang_ngay(t) {
            Some(t)
        } else {
            None
        },
        None => None,
    }
}

pub fn ngay_cua_file(ten: &str) -> (r: Option<String>)
    ensures
        crate::gia_tri::chu_cua(r) == ngay_cua(ten@),
{
    proof {
        reveal_strlit("print-agent-");
        reveal_strlit(".txt");
        reveal_strlit(".log");
    }
    if !chu::bat_dau(ten, TIEN_TO) {
        return None;
    }
    let v = chu::ky_tu(ten);
    let t = chu::tu_khoang(&v, 12, v.len());
    if !chu::ket_thuc(t.as_str(), DUOI) && !chu::ket_thuc(t.as_str(), DUOI_CU) {
        return None;
    }
    let tv = chu::ky_tu(t.as_str());
    let n: usize = tv.len();
    let ngay = chu::tu_khoang(&tv, 0, n - 4);
    let nv = chu::ky_tu(ngay.as_str());
    if nv.len() != 10 {
        return None;
    }
    let mut i: usize = 0;
    while i < 10
        invariant
            nv@ == ngay@,
            nv@.len() == 10,
            than_ten(ten@) == Some(ngay@),
            i <= 10,
            forall|k: int|
                0 <= k < i ==> if k == 4 || k == 7 {
                    #[trigger] nv@[k] == '-'
                } else {
                    chu::la_chu_so(nv@[k])
                },
        decreases 10 - i,
    {
        let c = nv[i];
        let dung = if i == 4 || i == 7 {
            c == '-'
        } else {
            '0' <= c && c <= '9'
        };
        if !dung {
            assert(ngay@[i as int] == c);
            assert(!dang_ngay(ngay@));
            return None;
        }
        i = i + 1;
    }
    Some(ngay)
}

/// The order of texts by their characters.
pub open spec fn truoc_tu_dien(a: Seq<char>, b: Seq<char>) -> bool
    decreases a.len(),
{
    if b.len() == 0 {
        false
    } else if a.len() == 0 {
        true
    } else if a[0] != b[0] {
        a[0] < b[0]
    } else {
        truoc_tu_dien(a.subrange(1, a.len() as int), b.subrange(1, b.len() as int))
    }
}

fn nho_hon(a: &str, b: &str) -> (r: bool)
    ensures
        r == truoc_tu_dien(a@, b@),
{
    let av = chu::ky_tu(a);
    let bv = chu::ky_tu(b);
    let n: usize = av.len();
    let m: usize = bv.len();
    let mut i: usize = 0;
    assert(av@.subrange(0, n as int) =~= av@);
    assert(bv@.subrange(0, m as int) =~= bv@);
    while i < n && i < m
        invariant
            av@ == a@,
            bv@ == b@,
            n == av@.len(),
            m == bv@.len(),
            i <= n,
            i <= m,
            truoc_tu_dien(av@, bv@) == truoc_tu_dien(
                av@.subrange(i as int, n as int),
                bv@.subrange(i as int, m as int),
            ),
        decreases n - i,
    {
        if av[i] != bv[i] {
            return av[i] < bv[i];
        }
        assert(av@.subrange(i as int, n as int).subrange(1, n - i) =~= av@.subrange(i + 1, n as int));
        assert(bv@.subrange(i as int, m as int).subrange(1, m - i) =~= bv@.subrange(i + 1, m as int));
        i = i + 1;
    }
    i < m
}

/// A log file: its day, its name and its size in bytes.
#[derive(Debug)]
pub struct FileNhatKy {
    pub ngay: String,
    pub ten: String,
    pub dai: u64,
}

pub ghost struct FileV {
    pub ngay: Seq<char>,
    pub ten: Seq<char>,
    pub dai: u64,
}

impl View for FileNhatKy {
    type V = FileV;

    open spec fn view(&self) -> FileV {
        FileV { ngay: self.ngay@, ten: self.ten@, dai: self.dai }
    }
}

/// One file comes before another: by its day, then by its name.
pub open spec fn file_truoc(a: FileV, b: FileV) -> bool {
    truoc_tu_dien(a.ngay, b.ngay) || (a.ngay == b.ngay && truoc_tu_dien(a.ten, b.ten))
}

fn den_truoc(a: &FileNhatKy, b: &FileNhatKy) -> (r: bool)
    ensures
        r == file_truoc(a@, b@),
{
    nho_hon(a.ngay.as_str(), b.ngay.as_str()) || (chu::bang(a.ngay.as_str(), b.ngay.as_str()) && nho_hon(
        a.ten.as_str(),
        b.ten.as_str(),
    ))
}

/// A file put behind all that it does not come before.
pub open spec fn chen_file(s: Seq<FileV>, x: FileV) -> Seq<FileV>
    decreases s.len(),
{
    if s.len() == 0 || !file_truoc(x, s.last()) {
        s.push(x)
    } else {
        chen_file(s.drop_last(), x).push(s.last())
    }
}

proof fn chen_file_tai(s: Seq<FileV>, x: FileV, k: int)
    requires
        0 <= k <= s.len(),
        k == 0 || !file_truoc(x, s[k - 1]),
        forall|i: int| k <= i < s.len() ==> file_truoc(x, #[trigger] s[i]),
    ensures
        chen_file(s, x) == s.insert(k, x),
    decreases s.len(),
{
    if k == s.len() {
        assert(s.push(x) =~= s.insert(k, x));
    } else {
        assert(file_truoc(x, s[s.len() - 1]));
        let d = s.drop_last();
        assert forall|i: int| k <= i < d.len() implies file_truoc(x, #[trigger] d[i]) by {
            assert(d[i] == s[i]);
        }
        chen_file_tai(d, x, k);
        assert(d.insert(k, x).push(s.last()) =~= s.insert(k, x));
    }
}

/// A file of the directory: its name and its size.
#[derive(Debug)]
pub struct MucThuMuc {
    pub ten: String,
    pub dai: u64,
}

pub ghost struct MucTmV {
    pub ten: Seq<char>,
    pub dai: u64,
}

impl View for MucThuMuc {
    type V = MucTmV;

    open spec fn view(&self) -> MucTmV {
        MucTmV { ten: self.ten@, dai: self.dai }
    }
}

/// Deletes files.
pub trait XoaFile {
    /// Whether the file of that name was deleted.
    fn xoa(&mut self, ten: &str) -> bool;
}

/// Deletions are made only through a method that writes each down.
pub struct XoaCoVet<X> {
    xoa: X,
    vet: Ghost<Seq<(Seq<char>, bool)>>,
}

impl<X: XoaFile> XoaCoVet<X> {
    /// Every deletion so far: the name, and whether it succeeded.
    pub closed spec fn vet(&self) -> Seq<(Seq<char>, bool)> {
        self.vet@
    }

    /// The outside itself.
    pub closed spec fn ngoai(&self) -> X {
        self.xoa
    }

    pub fn moi(xoa: X) -> (r: XoaCoVet<X>)
        ensures
            r.ngoai() == xoa,
            r.vet() == Seq::<(Seq<char>, bool)>::empty(),
    {
        XoaCoVet { xoa, vet: Ghost(Seq::empty()) }
    }

    /// Gives the deleter back.
    pub fn tra_lai(self) -> (r: X)
        ensures
            r == self.ngoai(),
    {
        self.xoa
    }

    fn xoa_mot(&mut self, ten: &str) -> (r: bool)
        ensures
            final(self).vet() == old(self).vet().push((ten@, r)),
    {
        let r = self.xoa.xoa(ten);
        self.vet = Ghost(self.vet@.push((ten@, r)));
        r
    }
}

/// The log files in a directory, those too old and those that stay, in order; what is not a log file is
/// in neither.
pub open spec fn phan_loai(ds: Seq<MucTmV>, moc: Seq<char>) -> (Seq<Seq<char>>, Seq<FileV>)
    decreases ds.len(),
{
    if ds.len() == 0 {
        (Seq::empty(), Seq::empty())
    } else {
        let (cu, con) = phan_loai(ds.drop_last(), moc);
        let f = ds.last();
        match ngay_cua(f.ten) {
            Some(ngay) => if !truoc_tu_dien(moc, ngay) {
                (cu.push(f.ten), con)
            } else {
                (cu, chen_file(con, FileV { ngay, ten: f.ten, dai: f.dai }))
            },
            None => (cu, con),
        }
    }
}

pub open spec fn tong_dai(ds: Seq<FileV>) -> nat
    decreases ds.len(),
{
    if ds.len() == 0 {
        0
    } else {
        tong_dai(ds.drop_last()) + ds.last().dai as nat
    }
}

/// The deletions by which files beyond the bound go, oldest first and never today's: `tong` bytes are
/// left before the first of `ds`. A deletion that fails frees nothing.
pub open spec fn bo_bot_dung(ds: Seq<FileV>, tong: int, hom_nay: Seq<char>, tran: u64, l: Seq<(Seq<char>, bool)>) -> bool
    decreases ds.len(),
{
    if ds.len() == 0 || tong <= tran || !truoc_tu_dien(ds[0].ngay, hom_nay) {
        l.len() == 0
    } else {
        l.len() >= 1 && l[0].0 == ds[0].ten && bo_bot_dung(
            ds.subrange(1, ds.len() as int),
            if !l[0].1 {
                tong
            } else if tong >= ds[0].dai {
                tong - ds[0].dai
            } else {
                0
            },
            hom_nay,
            tran,
            l.subrange(1, l.len() as int),
        )
    }
}

/// The deletions of a whole clean-up: `a` of them of files too old, in the order of the directory, then
/// those beyond the bound.
pub open spec fn don_dung(
    ds: Seq<MucTmV>,
    moc: Seq<char>,
    hom_nay: Seq<char>,
    tran: u64,
    l: Seq<(Seq<char>, bool)>,
) -> bool {
    let (cu, con) = phan_loai(ds, moc);
    let a = cu.len() as int;
    &&& l.len() >= a
    &&& forall|i: int| 0 <= i < a ==> (#[trigger] l[i]).0 == cu[i]
    &&& bo_bot_dung(con, tong_dai(con) as int, hom_nay, tran, l.subrange(a, l.len() as int))
}

proof fn tong_chen(s: Seq<FileV>, x: FileV)
    ensures
        tong_dai(chen_file(s, x)) == tong_dai(s) + x.dai,
    decreases s.len(),
{
    if s.len() == 0 || !file_truoc(x, s.last()) {
        assert(s.push(x).drop_last() =~= s);
    } else {
        tong_chen(s.drop_last(), x);
        assert(chen_file(s.drop_last(), x).push(s.last()).drop_last() =~= chen_file(s.drop_last(), x));
    }
}

/// How many bytes a directory holds.
pub open spec fn tong_thu_muc(ds: Seq<MucTmV>) -> nat
    decreases ds.len(),
{
    if ds.len() == 0 {
        0
    } else {
        tong_thu_muc(ds.drop_last()) + ds.last().dai as nat
    }
}

proof fn tong_con_it_hon(ds: Seq<MucTmV>, moc: Seq<char>)
    ensures
        tong_dai(phan_loai(ds, moc).1) <= tong_thu_muc(ds),
    decreases ds.len(),
{
    if ds.len() > 0 {
        tong_con_it_hon(ds.drop_last(), moc);
        let f = ds.last();
        if let Some(ngay) = ngay_cua(f.ten) {
            if truoc_tu_dien(moc, ngay) {
                tong_chen(phan_loai(ds.drop_last(), moc).1, FileV { ngay, ten: f.ten, dai: f.dai });
            }
        }
    }
}

proof fn tong_dau(ds: Seq<MucTmV>, k: int)
    requires
        0 <= k <= ds.len(),
    ensures
        tong_thu_muc(ds.subrange(0, k)) <= tong_thu_muc(ds),
    decreases ds.len(),
{
    if k < ds.len() {
        tong_dau(ds.drop_last(), k);
        assert(ds.drop_last().subrange(0, k) =~= ds.subrange(0, k));
    } else {
        assert(ds.subrange(0, k) =~= ds);
    }
}

/// Deletes log files of `moc` and before, then the oldest while the rest is beyond the bound. Files of
/// another kind and today's file are never touched.
pub fn don_file_cu_voi_tran<X: XoaFile>(
    x: &mut XoaCoVet<X>,
    ds: &Vec<MucThuMuc>,
    moc: &str,
    hom_nay: &str,
    tong_toi_da: u64,
)
    requires
        tong_thu_muc(xem(ds@)) <= u64::MAX,
    ensures
        final(x).vet().len() >= old(x).vet().len(),
        final(x).vet().subrange(0, old(x).vet().len() as int) == old(x).vet(),
        don_dung(
            xem(ds@),
            moc@,
            hom_nay@,
            tong_toi_da,
            final(x).vet().subrange(old(x).vet().len() as int, final(x).vet().len() as int),
        ),
{
    let ghost dau = x.vet();
    let ghost dx = xem(ds@);
    let ghost mut l = Seq::<(Seq<char>, bool)>::empty();
    let mut con: Vec<FileNhatKy> = Vec::new();
    let mut tong: u64 = 0;
    let mut i: usize = 0;
    proof {
        assert(dx.subrange(0, 0) =~= Seq::empty());
        assert(xem(con@) =~= Seq::empty());
        assert(x.vet() =~= dau + l);
    }
    while i < ds.len()
        invariant
            dau == old(x).vet(),
            dx == xem(ds@),
            tong_thu_muc(dx) <= u64::MAX,
            i <= ds@.len(),
            x.vet() == dau + l,
            l.len() == phan_loai(dx.subrange(0, i as int), moc@).0.len(),
            forall|k: int| 0 <= k < l.len() ==> (#[trigger] l[k]).0 == phan_loai(dx.subrange(0, i as int), moc@).0[k],
            xem(con@) == phan_loai(dx.subrange(0, i as int), moc@).1,
            tong == tong_dai(xem(con@)),
        decreases ds@.len() - i,
    {
        let ghost p0 = phan_loai(dx.subrange(0, i as int), moc@);
        proof {
            assert(dx.subrange(0, i + 1).drop_last() =~= dx.subrange(0, i as int));
            assert(dx.subrange(0, i + 1).last() == ds@[i as int]@);
            tong_con_it_hon(dx.subrange(0, i + 1), moc@);
            tong_dau(dx, i + 1);
        }
        let f = &ds[i];
        if let Some(ngay) = ngay_cua_file(f.ten.as_str()) {
            if !nho_hon(moc, ngay.as_str()) {
                let duoc = x.xoa_mot(f.ten.as_str());
                proof {
                    let l0 = l;
                    l = l.push((f@.ten, duoc));
                    assert(x.vet() =~= dau + l);
                }
            } else {
                let moi = FileNhatKy { ngay, ten: f.ten.clone(), dai: f.dai };
                let ghost s = xem(con@);
                let mut k: usize = con.len();
                while k > 0 && den_truoc(&moi, &con[k - 1])
                    invariant
                        s == xem(con@),
                        k <= con@.len(),
                        forall|j: int| k <= j < s.len() ==> file_truoc(moi@, #[trigger] s[j]),
                    decreases k,
                {
                    assert(s[k - 1] == con@[k - 1]@);
                    k = k - 1;
                }
                proof {
                    if k > 0 {
                        assert(s[k - 1] == con@[k - 1]@);
                    }
                    chen_file_tai(s, moi@, k as int);
                    tong_chen(s, moi@);
                }
                tong = tong + f.dai;
                con.insert(k, moi);
                assert(xem(con@) =~= s.insert(k as int, moi@));
            }
        }
        i = i + 1;
    }
    assert(dx.subrange(0, dx.len() as int) =~= dx);
    let ghost cx = xem(con@);
    let ghost a = l.len() as int;
    let ghost mut m = Seq::<(Seq<char>, bool)>::empty();
    let ghost tong0 = tong as int;
    proof {
        assert(cx.subrange(0, cx.len() as int) =~= cx);
        assert(x.vet() =~= (dau + l) + m);
        assert forall|rest: Seq<(Seq<char>, bool)>| #[trigger]
            bo_bot_dung(cx, tong0, hom_nay@, tong_toi_da, rest) implies bo_bot_dung(
            cx,
            tong0,
            hom_nay@,
            tong_toi_da,
            m + rest,
        ) by {
            assert(m + rest =~= rest);
        }
    }
    let mut j: usize = 0;
    while j < con.len() && tong > tong_toi_da && nho_hon(con[j].ngay.as_str(), hom_nay)
        invariant
            cx == xem(con@),
            j <= con@.len(),
            x.vet() == (dau + l) + m,
            forall|rest: Seq<(Seq<char>, bool)>| #[trigger]
                bo_bot_dung(cx.subrange(j as int, cx.len() as int), tong as int, hom_nay@, tong_toi_da, rest)
                    ==> bo_bot_dung(cx, tong0, hom_nay@, tong_toi_da, m + rest),
        decreases con@.len() - j,
    {
        let ghost c0 = cx.subrange(j as int, cx.len() as int);
        let ghost t0 = tong as int;
        let ghost m0 = m;
        assert(c0[0] == con@[j as int]@);
        let duoc = x.xoa_mot(con[j].ten.as_str());
        let ghost b = (con@[j as int]@.ten, duoc);
        if duoc {
            tong = if tong >= con[j].dai {
                tong - con[j].dai
            } else {
                0
            };
        }
        proof {
            m = m.push(b);
            assert(x.vet() =~= (dau + l) + m);
            let c1 = cx.subrange(j + 1, cx.len() as int);
            assert(c0.subrange(1, c0.len() as int) =~= c1);
            assert forall|rest: Seq<(Seq<char>, bool)>| #[trigger]
                bo_bot_dung(c1, tong as int, hom_nay@, tong_toi_da, rest) implies bo_bot_dung(
                cx,
                tong0,
                hom_nay@,
                tong_toi_da,
                m + rest,
            ) by {
                let y = seq![b] + rest;
                assert(y.subrange(1, y.len() as int) =~= rest);
                assert(bo_bot_dung(c0, t0, hom_nay@, tong_toi_da, y));
                assert(m0 + y =~= m + rest);
            }
        }
        j = j + 1;
    }
    proof {
        let e = Seq::<(Seq<char>, bool)>::empty();
        let cj = cx.subrange(j as int, cx.len() as int);
        if cj.len() > 0 {
            assert(cj[0] == con@[j as int]@);
        }
        assert(bo_bot_dung(cj, tong as int, hom_nay@, tong_toi_da, e));
        assert(m + e =~= m);
        let v = x.vet();
        assert(v.subrange(0, dau.len() as int) =~= dau);
        let d = v.subrange(dau.len() as int, v.len() as int);
        assert(d =~= l + m);
        assert(d.subrange(a, d.len() as int) =~= m);
    }
}

/// The file of today, or of a later day, is never deleted to make room.
pub proof fn khong_xoa_file_hom_nay(
    ds: Seq<FileV>,
    tong: int,
    hom_nay: Seq<char>,
    tran: u64,
    l: Seq<(Seq<char>, bool)>,
    i: int,
)
    requires
        bo_bot_dung(ds, tong, hom_nay, tran, l),
        0 <= i < l.len(),
    ensures
        i < ds.len(),
        l[i].0 == ds[i].ten,
        truoc_tu_dien(ds[i].ngay, hom_nay),
    decreases ds.len(),
{
    if i > 0 {
        let d1 = ds.subrange(1, ds.len() as int);
        let l1 = l.subrange(1, l.len() as int);
        let t = if !l[0].1 {
            tong
        } else if tong >= ds[0].dai {
            tong - ds[0].dai
        } else {
            0
        };
        khong_xoa_file_hom_nay(d1, t, hom_nay, tran, l1, i - 1);
    }
}

} // verus!
