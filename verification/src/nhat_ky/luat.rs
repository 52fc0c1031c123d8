//! What the log keeps, what it drops, and which of its files go.
use crate::chu;
use crate::chu::luat::vi_tri_dau_khi_nao;
use crate::nhat_ky::{
    bo_bot_dung, che_het, chen_file, cong, dang_ngay, don_dung, dong_chu, dong_sach, file_truoc, khong_xoa_file_hom_nay, ngay_cua, phan_loai, phang_chu, sao,
    ten_file_cua, thay, truoc_tu_dien, ChoGuiV, DongGuiV, FileV, GhiGi, MucTmV, TranNgayV,
};
use crate::thoi_gian;
use vstd::prelude::*;
use vstd::string::*;

verus! {

/// Of a text that does not hold a secret nothing is replaced; of one that does, its first occurrence is, and then
/// what stands behind it.
pub proof fn thay_dung_cho(s: Seq<char>, m: Seq<char>, r: Seq<char>)
    requires
        m.len() > 0,
    ensures
        !chu::co_chua(s, m) ==> thay(s, m, r) == s,
        chu::co_chua(s, m) ==> exists|i: int|
            #![trigger s.subrange(0, i)]
            chu::khop_tai(s, m, i) && (forall|k: int| k < i ==> !chu::khop_tai(s, m, k)) && thay(s, m, r) == s.subrange(0, i) + r
                + thay(s.subrange(i + m.len(), s.len() as int), m, r),
{
    vi_tri_dau_khi_nao(s, m);
    if let Some(i) = chu::vi_tri_dau(s, m, 0) {
        assert(chu::khop_tai(s, m, i));
        assert(thay(s, m, r) == s.subrange(0, i) + r + thay(s.subrange(i + m.len(), s.len() as int), m, r));
    }
}

/// A text that holds none of the secrets stays as it is; a secret is replaced by three stars.
pub proof fn che_chi_bi_mat(s: Seq<char>, bi_mat: Seq<Seq<char>>)
    requires
        forall|i: int| 0 <= i < bi_mat.len() ==> (#[trigger] bi_mat[i]).len() > 0 && !chu::co_chua(s, bi_mat[i]),
    ensures
        che_het(s, bi_mat) == s,
        sao() == seq!['*', '*', '*'],
    decreases bi_mat.len(),
{
    if bi_mat.len() > 0 {
        let d = bi_mat.drop_last();
        assert forall|i: int| 0 <= i < d.len() implies (#[trigger] d[i]).len() > 0 && !chu::co_chua(s, d[i]) by {
            assert(d[i] == bi_mat[i]);
        }
        che_chi_bi_mat(s, d);
        assert(bi_mat[bi_mat.len() - 1].len() > 0 && !chu::co_chua(s, bi_mat[bi_mat.len() - 1]));
        thay_dung_cho(s, bi_mat.last(), sao());
    }
}

/// A text that is one secret and something on either side that holds none of it shows three stars in its place.
pub proof fn bi_mat_thanh_sao(a: Seq<char>, m: Seq<char>, b: Seq<char>)
    requires
        m.len() > 0,
        forall|k: int| k < a.len() ==> !chu::khop_tai(a + m + b, m, k),
        !chu::co_chua(b, m),
    ensures
        thay(a + m + b, m, sao()) == a + seq!['*', '*', '*'] + b,
{
    let s = a + m + b;
    let i = a.len() as int;
    assert(s.subrange(i, i + m.len()) =~= m);
    assert(chu::khop_tai(s, m, i));
    thay_dung_cho(s, m, sao());
    let j = choose|j: int|
        #![trigger s.subrange(0, j)]
        chu::khop_tai(s, m, j) && (forall|k: int| k < j ==> !chu::khop_tai(s, m, k)) && thay(s, m, sao()) == s.subrange(0, j)
            + sao() + thay(s.subrange(j + m.len(), s.len() as int), m, sao());
    assert(j == i);
    assert(s.subrange(0, i) =~= a);
    assert(s.subrange(i + m.len(), s.len() as int) =~= b);
    thay_dung_cho(b, m, sao());
}

/// The counts stop at the largest number and are exact below it.
pub proof fn cong_khong_tran(a: u64, b: u64)
    ensures
        a + b <= u64::MAX ==> cong(a, b as int) == a + b,
        a + b > u64::MAX ==> cong(a, b as int) == u64::MAX,
{
}

/// A new line waits last; where there are enough already the oldest goes and is counted, so that every line either
/// waits or is counted.
pub proof fn them_dong_khong_mat_dau(c: ChoGuiV, d: DongGuiV, tran: nat)
    requires
        0 < tran,
        c.ds.len() <= tran,
        c.bo_qua < u64::MAX,
    ensures
        c.sau_them(d, tran).ds.len() > 0,
        c.sau_them(d, tran).ds.last() == d,
        c.sau_them(d, tran).ds.len() <= tran,
        c.sau_them(d, tran).ds.len() + c.sau_them(d, tran).bo_qua == c.ds.len() + c.bo_qua + 1,
        c.ds.len() < tran ==> c.sau_them(d, tran).ds.drop_last() == c.ds,
        c.ds.len() == tran ==> c.sau_them(d, tran).ds.drop_last() == c.ds.subrange(1, c.ds.len() as int),
{
    assert(c.ds.push(d).drop_last() =~= c.ds);
    if c.ds.len() > 0 {
        let e = c.ds.subrange(1, c.ds.len() as int);
        assert(e.push(d).drop_last() =~= e);
    }
}

/// A batch that comes back stands before what waits, in its order; of too many the oldest go and are counted.
pub proof fn tra_lai_len_dau(c: ChoGuiV, lo: Seq<DongGuiV>, bo_qua: u64, tran: nat)
    requires
        c.bo_qua + bo_qua + lo.len() + c.ds.len() <= u64::MAX,
    ensures
        c.sau_tra_lai(lo, bo_qua, tran).ds.len() <= tran,
        c.sau_tra_lai(lo, bo_qua, tran).ds.len() + c.sau_tra_lai(lo, bo_qua, tran).bo_qua == lo.len() + c.ds.len() + c.bo_qua
            + bo_qua,
        lo.len() + c.ds.len() <= tran ==> c.sau_tra_lai(lo, bo_qua, tran).ds == lo + c.ds,
        c.ds.len() <= tran ==> c.sau_tra_lai(lo, bo_qua, tran).ds.subrange(
            c.sau_tra_lai(lo, bo_qua, tran).ds.len() - c.ds.len(),
            c.sau_tra_lai(lo, bo_qua, tran).ds.len() as int,
        ) == c.ds,
{
    let ds = lo + c.ds;
    let r = c.sau_tra_lai(lo, bo_qua, tran).ds;
    if ds.len() <= tran {
        assert(r =~= ds);
    }
    if c.ds.len() <= tran {
        assert(r.subrange(r.len() - c.ds.len(), r.len() as int) =~= c.ds);
    }
}

/// On one line every line end and tab is a blank and every other character stays, so that no line end or tab is
/// left.
pub proof fn phang_tung_ky_tu(s: Seq<char>)
    ensures
        phang_chu(s).len() == s.len(),
        forall|i: int|
            0 <= i < s.len() ==> #[trigger] phang_chu(s)[i] != '\n' && phang_chu(s)[i] != '\r' && phang_chu(s)[i] != '\t',
        forall|i: int|
            0 <= i < s.len() && s[i] != '\n' && s[i] != '\r' && s[i] != '\t' ==> #[trigger] phang_chu(s)[i] == s[i],
        forall|i: int|
            0 <= i < s.len() && (s[i] == '\n' || s[i] == '\r' || s[i] == '\t') ==> #[trigger] phang_chu(s)[i] == ' ',
{
}

/// A line of the file is its time, its event and its words, with a tab between each two and a line end behind.
pub proof fn dong_file_ba_cot(luc: u64, su_kien: Seq<char>, noi_dung: Seq<char>)
    ensures
        dong_chu(luc, su_kien, noi_dung) == thoi_gian::iso_chu(luc as int) + seq!['\t'] + phang_chu(su_kien) + seq!['\t']
            + phang_chu(chu::bo_trang(noi_dung)) + seq!['\n'],
{
    reveal_strlit("\t");
    reveal_strlit("\n");
    assert("\t"@ =~= seq!['\t']);
    assert("\n"@ =~= seq!['\n']);
}

/// A line that goes to the server keeps its time; its event and its words are without secrets and on one line.
pub proof fn dong_gui_sach(d: DongGuiV, bi_mat: Seq<Seq<char>>)
    ensures
        dong_sach(d, bi_mat).luc == d.luc,
        dong_sach(d, bi_mat).su_kien == phang_chu(che_het(d.su_kien, bi_mat)),
        dong_sach(d, bi_mat).noi_dung == phang_chu(che_het(chu::bo_trang(d.noi_dung), bi_mat)),
{
}

/// A day's file never grows beyond twenty mebibytes by lines: one that would take it over is told once, in its
/// place, and after that the day's lines are dropped; a new day starts anew with what its file holds.
pub proof fn mot_ngay_toi_da(s: TranNgayV, ngay: Seq<char>, dai: u64, dau: u64)
    ensures
        ({
            let (t, g) = s.sau_xet(ngay, dai, dau);
            let da = if s.ngay == ngay {
                s.da_ghi
            } else {
                dau
            };
            let bao = s.ngay == ngay && s.da_bao;
            &&& t.ngay == ngay
            &&& g == GhiGi::Dong <==> !bao && da + dai <= 20 * 1024 * 1024
            &&& g == GhiGi::BaoDay <==> !bao && da + dai > 20 * 1024 * 1024
            &&& g == GhiGi::Bo <==> bao
            &&& g == GhiGi::Dong ==> t.da_ghi == da + dai && !t.da_bao
            &&& g != GhiGi::Dong ==> t.da_ghi == da && t.da_bao
        }),
{
}

/// The day of a log file's name is read back, of today's form and of the older one; a name gives a day only where
/// it is one of these two.
pub proof fn ten_file_doc_lai(ngay: Seq<char>, ten: Seq<char>)
    ensures
        dang_ngay(ngay) ==> ngay_cua(ten_file_cua(ngay)) == Some(ngay),
        dang_ngay(ngay) ==> ten_file_cua(ngay) == "print-agent-"@ + ngay + ".txt"@,
        dang_ngay(ngay) ==> ngay_cua("print-agent-"@ + ngay + ".log"@) == Some(ngay),
        ngay_cua(ten) matches Some(n) ==> dang_ngay(n) && (ten == "print-agent-"@ + n + ".txt"@ || ten == "print-agent-"@ + n
            + ".log"@),
{
    reveal_strlit("print-agent-");
    reveal_strlit(".txt");
    reveal_strlit(".log");
    let p = "print-agent-"@;
    if dang_ngay(ngay) {
        mot_ten(ngay, ".txt"@);
        mot_ten(ngay, ".log"@);
    }
    if let Some(n) = ngay_cua(ten) {
        let t = ten.subrange(12, ten.len() as int);
        assert(ten =~= p + t);
        if chu::ket_thuc_bang(t, ".txt"@) {
            assert(t =~= n + ".txt"@) by {
                assert(t.subrange(t.len() - 4, t.len() as int) == ".txt"@);
                assert(t =~= t.subrange(0, t.len() - 4) + t.subrange(t.len() - 4, t.len() as int));
            }
            assert(ten =~= p + n + ".txt"@);
        } else {
            assert(t.subrange(t.len() - 4, t.len() as int) == ".log"@);
            assert(t =~= t.subrange(0, t.len() - 4) + t.subrange(t.len() - 4, t.len() as int));
            assert(ten =~= p + n + ".log"@);
        }
    }
}

proof fn mot_ten(ngay: Seq<char>, duoi: Seq<char>)
    requires
        dang_ngay(ngay),
        duoi == ".txt"@ || duoi == ".log"@,
    ensures
        ngay_cua("print-agent-"@ + ngay + duoi) == Some(ngay),
{
    reveal_strlit("print-agent-");
    reveal_strlit(".txt");
    reveal_strlit(".log");
    let p = "print-agent-"@;
    let ten = p + ngay + duoi;
    assert(ten.subrange(0, 12) =~= p);
    let t = ten.subrange(12, ten.len() as int);
    assert(t =~= ngay + duoi);
    assert(t.subrange(t.len() - 4, t.len() as int) =~= duoi);
    assert(t.subrange(0, t.len() - 4) =~= ngay);
}

/// The order of texts is a strict order in which any two different texts can be told apart.
pub proof fn truoc_la_thu_tu(a: Seq<char>, b: Seq<char>, c: Seq<char>)
    ensures
        !truoc_tu_dien(a, a),
        truoc_tu_dien(a, b) ==> !truoc_tu_dien(b, a),
        a != b ==> truoc_tu_dien(a, b) || truoc_tu_dien(b, a),
        truoc_tu_dien(a, b) && truoc_tu_dien(b, c) ==> truoc_tu_dien(a, c),
    decreases a.len(),
{
    if a.len() > 0 {
        let a1 = a.subrange(1, a.len() as int);
        if b.len() > 0 && c.len() > 0 {
            truoc_la_thu_tu(a1, b.subrange(1, b.len() as int), c.subrange(1, c.len() as int));
        } else {
            truoc_la_thu_tu(a1, if b.len() > 0 {
                b.subrange(1, b.len() as int)
            } else {
                a1
            }, Seq::empty());
        }
        if b.len() > 0 && a[0] == b[0] && a1 == b.subrange(1, b.len() as int) {
            assert(a =~= seq![a[0]] + a1);
            assert(b =~= seq![b[0]] + b.subrange(1, b.len() as int));
        }
    } else if b.len() == 0 {
        assert(a =~= b);
    }
}

/// Which log files are too old: just those whose day is not after the bound; what is no log file is never among
/// them, nor among those that stay.
pub proof fn phan_loai_theo_ngay(ds: Seq<MucTmV>, moc: Seq<char>, ten: Seq<char>)
    ensures
        phan_loai(ds, moc).0.contains(ten) <==> (exists|i: int|
            0 <= i < ds.len() && (#[trigger] ds[i]).ten == ten) && (ngay_cua(ten) matches Some(n) && !truoc_tu_dien(moc, n)),
        forall|k: int|
            0 <= k < phan_loai(ds, moc).1.len() ==> {
                let f = #[trigger] phan_loai(ds, moc).1[k];
                ngay_cua(f.ten) == Some(f.ngay) && truoc_tu_dien(moc, f.ngay) && exists|i: int|
                    0 <= i < ds.len() && (#[trigger] ds[i]).ten == f.ten && ds[i].dai == f.dai
            },
        phan_loai(ds, moc).0.len() + phan_loai(ds, moc).1.len() <= ds.len(),
    decreases ds.len(),
{
    if ds.len() == 0 {
        assert(!phan_loai(ds, moc).0.contains(ten));
    } else {
        let d = ds.drop_last();
        phan_loai_theo_ngay(d, moc, ten);
        let n = ds.len() - 1;
        let l = ds[n];
        let (cu, con) = phan_loai(d, moc);
        let (cu1, con1) = phan_loai(ds, moc);
        assert(forall|i: int| 0 <= i < d.len() ==> #[trigger] ds[i] == d[i]);
        let ten_co = exists|i: int| 0 <= i < ds.len() && (#[trigger] ds[i]).ten == ten;
        let ten_co_d = exists|i: int| 0 <= i < d.len() && (#[trigger] d[i]).ten == ten;
        assert(ten_co <==> ten_co_d || l.ten == ten) by {
            if ten_co {
                let i = choose|i: int| 0 <= i < ds.len() && (#[trigger] ds[i]).ten == ten;
                if i < d.len() {
                    assert(d[i].ten == ten);
                }
            }
            if ten_co_d {
                let i = choose|i: int| 0 <= i < d.len() && (#[trigger] d[i]).ten == ten;
                assert(ds[i].ten == ten);
            }
            if l.ten == ten {
                assert(ds[n].ten == ten);
            }
        }
        assert(cu1.contains(ten) <==> cu.contains(ten) || (l.ten == ten && (ngay_cua(ten) matches Some(x) && !truoc_tu_dien(
            moc,
            x,
        )))) by {
            if cu1 != cu {
                assert(cu1 == cu.push(l.ten));
                if cu.contains(ten) {
                    let i = choose|i: int| 0 <= i < cu.len() && cu[i] == ten;
                    assert(cu1[i] == ten);
                }
                if l.ten == ten {
                    assert(cu1[cu.len() as int] == ten);
                }
                if cu1.contains(ten) {
                    let i = choose|i: int| 0 <= i < cu1.len() && cu1[i] == ten;
                    if i < cu.len() {
                        assert(cu[i] == ten);
                    }
                }
            }
            if let Some(x) = ngay_cua(l.ten) {
                if !truoc_tu_dien(moc, x) {
                    assert(cu1 == cu.push(l.ten));
                    assert(cu1[cu.len() as int] == l.ten);
                }
            }
        }
        assert forall|k: int| 0 <= k < con1.len() implies ({
            let f = #[trigger] con1[k];
            ngay_cua(f.ten) == Some(f.ngay) && truoc_tu_dien(moc, f.ngay) && exists|i: int|
                0 <= i < ds.len() && (#[trigger] ds[i]).ten == f.ten && ds[i].dai == f.dai
        }) by {
            let f = con1[k];
            if con1 != con {
                let x = FileV { ngay: ngay_cua(l.ten)->0, ten: l.ten, dai: l.dai };
                assert(con1 == chen_file(con, x));
                chen_file_tu(con, x, k);
                if f == x {
                    assert(ds[n].ten == f.ten && ds[n].dai == f.dai);
                } else {
                    let j = choose|j: int| 0 <= j < con.len() && con[j] == f;
                    assert(con[j] == f);
                    let i = choose|i: int| 0 <= i < d.len() && (#[trigger] d[i]).ten == f.ten && d[i].dai == f.dai;
                    assert(ds[i].ten == f.ten && ds[i].dai == f.dai);
                }
            } else {
                assert(con[k] == f);
                let i = choose|i: int| 0 <= i < d.len() && (#[trigger] d[i]).ten == f.ten && d[i].dai == f.dai;
                assert(ds[i].ten == f.ten && ds[i].dai == f.dai);
            }
        }
        if let Some(x) = ngay_cua(l.ten) {
            if truoc_tu_dien(moc, x) {
                chen_file_dai(con, FileV { ngay: x, ten: l.ten, dai: l.dai });
            }
        }
    }
}

proof fn chen_file_dai(s: Seq<FileV>, x: FileV)
    ensures
        chen_file(s, x).len() == s.len() + 1,
    decreases s.len(),
{
    if s.len() > 0 && file_truoc(x, s.last()) {
        chen_file_dai(s.drop_last(), x);
    }
}

proof fn chen_file_tu(s: Seq<FileV>, x: FileV, k: int)
    requires
        0 <= k < chen_file(s, x).len(),
    ensures
        chen_file(s, x)[k] == x || s.contains(chen_file(s, x)[k]),
    decreases s.len(),
{
    let r = chen_file(s, x);
    if s.len() == 0 || !file_truoc(x, s.last()) {
        if k < s.len() {
            assert(s[k] == r[k]);
        }
    } else {
        let d = s.drop_last();
        let g = chen_file(d, x);
        if k < g.len() {
            chen_file_tu(d, x, k);
            if r[k] != x {
                let j = choose|j: int| 0 <= j < d.len() && d[j] == g[k];
                assert(s[j] == r[k]);
            }
        } else {
            assert(s[s.len() - 1] == r[k]);
        }
    }
}

/// How many bytes the first `n` files hold.
pub open spec fn dai_dau(ds: Seq<FileV>, n: int) -> int
    decreases n,
{
    if n <= 0 {
        0
    } else {
        dai_dau(ds, n - 1) + ds[n - 1].dai
    }
}

proof fn dai_dau_bo_mot(ds: Seq<FileV>, n: int)
    requires
        0 <= n < ds.len(),
    ensures
        dai_dau(ds, n + 1) == ds[0].dai + dai_dau(ds.subrange(1, ds.len() as int), n),
    decreases n,
{
    let d = ds.subrange(1, ds.len() as int);
    if n > 0 {
        dai_dau_bo_mot(ds, n - 1);
        assert(d[n - 1] == ds[n]);
    } else {
        reveal_with_fuel(dai_dau, 2);
    }
}

/// Files beyond the bound go one by one, the oldest first: none where there is no more than the bound; every one
/// that goes is from before today and went while there was too much; and where each could be deleted, it ends
/// only where there is no more than the bound, or no file from before today.
pub proof fn bo_bot_vua_du(ds: Seq<FileV>, tong: int, hom_nay: Seq<char>, tran: u64, l: Seq<(Seq<char>, bool)>, k: int)
    requires
        bo_bot_dung(ds, tong, hom_nay, tran, l),
        forall|i: int| 0 <= i < l.len() ==> (#[trigger] l[i]).1,
        dai_dau(ds, ds.len() as int) <= tong,
    ensures
        l.len() <= ds.len(),
        tong <= tran ==> l.len() == 0,
        0 <= k < l.len() ==> l[k].0 == ds[k].ten && truoc_tu_dien(ds[k].ngay, hom_nay) && tong - dai_dau(ds, k) > tran,
        l.len() == ds.len() || tong - dai_dau(ds, l.len() as int) <= tran || !truoc_tu_dien(ds[l.len() as int].ngay, hom_nay),
    decreases ds.len(),
{
    if ds.len() == 0 || tong <= tran || !truoc_tu_dien(ds[0].ngay, hom_nay) {
        assert(dai_dau(ds, 0) == 0);
    } else {
        let d = ds.subrange(1, ds.len() as int);
        let l1 = l.subrange(1, l.len() as int);
        assert(l[0].1);
        assert forall|i: int| 0 <= i < l1.len() implies (#[trigger] l1[i]).1 by {
            assert(l1[i] == l[i + 1]);
        }
        dai_dau_bo_mot(ds, ds.len() - 1);
        dai_dau_khong_am(d, d.len() as int);
        bo_bot_vua_du(d, tong - ds[0].dai, hom_nay, tran, l1, k - 1);
        assert(dai_dau(ds, 0) == 0);
        if 0 < k < l.len() {
            assert(l1[k - 1] == l[k]);
            assert(d[k - 1] == ds[k]);
            dai_dau_bo_mot(ds, k - 1);
        }
        if l1.len() < d.len() {
            assert(d[l1.len() as int] == ds[l.len() as int]);
        }
        dai_dau_bo_mot(ds, l1.len() as int);
    }
}

proof fn dai_dau_khong_am(ds: Seq<FileV>, n: int)
    ensures
        dai_dau(ds, n) >= 0,
    decreases n,
{
    if n > 0 {
        dai_dau_khong_am(ds, n - 1);
    }
}

/// Files are put in order: none stands behind one that it comes before.
pub open spec fn theo_thu_tu(s: Seq<FileV>) -> bool {
    forall|i: int, j: int| 0 <= i < j < s.len() ==> !file_truoc(#[trigger] s[j], #[trigger] s[i])
}

proof fn chen_file_thu_tu(s: Seq<FileV>, x: FileV)
    requires
        theo_thu_tu(s),
    ensures
        theo_thu_tu(chen_file(s, x)),
    decreases s.len(),
{
    let r = chen_file(s, x);
    chen_file_dai(s, x);
    if s.len() == 0 || !file_truoc(x, s.last()) {
        assert forall|i: int, j: int| 0 <= i < j < r.len() implies !file_truoc(#[trigger] r[j], #[trigger] r[i]) by {
            if j == s.len() && i < s.len() - 1 {
                let l = s[s.len() - 1];
                assert(!file_truoc(l, s[i]));
                if file_truoc(x, s[i]) {
                    truoc_hay_bang(x, s[i], l);
                }
            }
        }
    } else {
        let d = s.drop_last();
        assert(theo_thu_tu(d)) by {
            assert forall|i: int, j: int| 0 <= i < j < d.len() implies !file_truoc(#[trigger] d[j], #[trigger] d[i]) by {
                assert(!file_truoc(s[j], s[i]));
            }
        }
        chen_file_thu_tu(d, x);
        let g = chen_file(d, x);
        let l = s[s.len() - 1];
        assert forall|i: int, j: int| 0 <= i < j < r.len() implies !file_truoc(#[trigger] r[j], #[trigger] r[i]) by {
            if j == g.len() {
                assert(r[j] == l);
                assert(r[i] == g[i]);
                chen_file_tu(d, x, i);
                if g[i] == x {
                    truoc_la_thu_tu(x.ngay, l.ngay, x.ngay);
                    truoc_la_thu_tu(x.ten, l.ten, x.ten);
                } else {
                    assert(d.contains(g[i]));
                    let k = choose|k: int| 0 <= k < d.len() && d[k] == g[i];
                    assert(s[k] == r[i]);
                    assert(s[s.len() - 1] == r[j]);
                    assert(!file_truoc(s[s.len() - 1], s[k]));
                }
            } else {
                assert(!file_truoc(g[j], g[i]));
            }
        }
    }
}

proof fn truoc_hay_bang(x: FileV, a: FileV, l: FileV)
    requires
        file_truoc(x, a),
        !file_truoc(l, a),
    ensures
        file_truoc(x, l),
{
    truoc_la_thu_tu(x.ngay, a.ngay, l.ngay);
    truoc_la_thu_tu(a.ngay, l.ngay, x.ngay);
    truoc_la_thu_tu(l.ngay, a.ngay, x.ngay);
    truoc_la_thu_tu(x.ten, a.ten, l.ten);
    truoc_la_thu_tu(a.ten, l.ten, x.ten);
    truoc_la_thu_tu(l.ten, a.ten, x.ten);
}

/// The files that stay are in order, the oldest day first: so those beyond the bound go oldest first.
pub proof fn con_lai_theo_thu_tu(ds: Seq<MucTmV>, moc: Seq<char>)
    ensures
        theo_thu_tu(phan_loai(ds, moc).1),
    decreases ds.len(),
{
    if ds.len() > 0 {
        con_lai_theo_thu_tu(ds.drop_last(), moc);
        let f = ds.last();
        if let Some(ngay) = ngay_cua(f.ten) {
            if truoc_tu_dien(moc, ngay) {
                chen_file_thu_tu(phan_loai(ds.drop_last(), moc).1, FileV { ngay, ten: f.ten, dai: f.dai });
            }
        }
    }
}

/// A clean-up deletes nothing but log files: of the bound's day or before it, or of a day before today.
pub proof fn don_chi_xoa_nhat_ky(ds: Seq<MucTmV>, moc: Seq<char>, hom_nay: Seq<char>, tran: u64, l: Seq<(Seq<char>, bool)>, i: int)
    requires
        don_dung(ds, moc, hom_nay, tran, l),
        0 <= i < l.len(),
    ensures
        ngay_cua(l[i].0) is Some,
        !truoc_tu_dien(moc, ngay_cua(l[i].0)->0) || truoc_tu_dien(ngay_cua(l[i].0)->0, hom_nay),
        exists|k: int| 0 <= k < ds.len() && (#[trigger] ds[k]).ten == l[i].0,
{
    let (cu, con) = phan_loai(ds, moc);
    let a = cu.len() as int;
    phan_loai_theo_ngay(ds, moc, l[i].0);
    if i < a {
        assert(cu[i] == l[i].0);
        assert(cu.contains(l[i].0));
    } else {
        let m = l.subrange(a, l.len() as int);
        khong_xoa_file_hom_nay(con, crate::nhat_ky::tong_dai(con) as int, hom_nay, tran, m, i - a);
        assert(m[i - a] == l[i]);
        let f = con[i - a];
        assert(f.ten == l[i].0);
    }
}

} // verus!
