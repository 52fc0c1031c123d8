//! The test page: a PDF of one page, built so that its table of objects is right.
use crate::chu;
use vstd::prelude::*;
use vstd::string::*;
use vstd::utf8::encode_utf8;

verus! {

pub open spec fn noi_dung() -> Seq<char> {
    "BT /F1 20 Tf 40 520 Td (In thu - Incokit Print Agent) Tj 0 -30 Td /F1 12 Tf (Neu thay trang nay, may in da nhan lenh.) Tj ET"@
}

/// The five objects of the document.
pub open spec fn doi_tuong(i: int) -> Seq<char> {
    if i == 0 {
        "<< /Type /Catalog /Pages 2 0 R >>"@
    } else if i == 1 {
        "<< /Type /Pages /Kids [3 0 R] /Count 1 >>"@
    } else if i == 2 {
        "<< /Type /Page /Parent 2 0 R /MediaBox [0 0 420 595] /Resources << /Font << /F1 5 0 R >> >> /Contents 4 0 R >>"@
    } else if i == 3 {
        "<< /Length "@ + chu::thap_phan(noi_dung().len()) + " >>\nstream\n"@ + noi_dung() + "\nendstream"@
    } else {
        "<< /Type /Font /Subtype /Type1 /BaseFont /Helvetica >>"@
    }
}

/// The document up to its object number `n`, which is not in it.
pub open spec fn than(n: int) -> Seq<char>
    decreases n,
{
    if n <= 0 {
        "%PDF-1.4\n"@
    } else {
        than(n - 1) + chu::thap_phan(n as nat) + " 0 obj\n"@ + doi_tuong(n - 1) + "\nendobj\n"@
    }
}

/// Where object number `i`, counted from zero, begins.
pub open spec fn vi_tri_doi_tuong(i: int) -> nat {
    than(i).len()
}

/// The lines of the table for the first `n` objects.
pub open spec fn bang_vi_tri(n: int) -> Seq<char>
    decreases n,
{
    if n <= 0 {
        Seq::empty()
    } else {
        bang_vi_tri(n - 1) + chu::chu_so_cuoi(vi_tri_doi_tuong(n - 1), 10, 10) + " 00000 n \n"@
    }
}

/// The whole document.
pub open spec fn tai_lieu() -> Seq<char> {
    than(5) + "xref\n0 6\n0000000000 65535 f \n"@ + bang_vi_tri(5) + "trailer\n<< /Size 6 /Root 1 0 R >>\nstartxref\n"@
        + chu::thap_phan(than(5).len()) + "\n%%EOF\n"@
}

fn doi_tuong_so(i: u64) -> (r: String)
    requires
        i < 5,
    ensures
        r@ == doi_tuong(i as int),
{
    if i == 0 {
        "<< /Type /Catalog /Pages 2 0 R >>".to_owned()
    } else if i == 1 {
        "<< /Type /Pages /Kids [3 0 R] /Count 1 >>".to_owned()
    } else if i == 2 {
        "<< /Type /Page /Parent 2 0 R /MediaBox [0 0 420 595] /Resources << /Font << /F1 5 0 R >> >> /Contents 4 0 R >>".to_owned()
    } else if i == 3 {
        let nd = "BT /F1 20 Tf 40 520 Td (In thu - Incokit Print Agent) Tj 0 -30 Td /F1 12 Tf (Neu thay trang nay, may in da nhan lenh.) Tj ET";
        let mut s = "<< /Length ".to_owned();
        s.append(chu::so_thap_phan(nd.unicode_len() as u64).as_str());
        s.append(" >>\nstream\n");
        s.append(nd);
        s.append("\nendstream");
        s
    } else {
        "<< /Type /Font /Subtype /Type1 /BaseFont /Helvetica >>".to_owned()
    }
}

/// The test page.
pub fn pdf_in_thu() -> (r: Vec<u8>)
    ensures
        r@ == encode_utf8(tai_lieu()),
{
    let mut pdf = "%PDF-1.4\n".to_owned();
    let mut bang = String::new();
    let mut i: u64 = 0;
    while i < 5
        invariant
            i <= 5,
            pdf@ == than(i as int),
            bang@ == bang_vi_tri(i as int),
        decreases 5 - i,
    {
        let o: usize = pdf.as_str().unicode_len();
        bang.append(chu::so_co_dinh(o as u64, 10, 10).as_str());
        bang.append(" 00000 n \n");
        pdf.append(chu::so_thap_phan(i + 1).as_str());
        pdf.append(" 0 obj\n");
        pdf.append(doi_tuong_so(i).as_str());
        pdf.append("\nendobj\n");
        i = i + 1;
    }
    let xref: usize = pdf.as_str().unicode_len();
    pdf.append("xref\n0 6\n0000000000 65535 f \n");
    pdf.append(bang.as_str());
    pdf.append("trailer\n<< /Size 6 /Root 1 0 R >>\nstartxref\n");
    pdf.append(chu::so_thap_phan(xref as u64).as_str());
    pdf.append("\n%%EOF\n");
    pdf.as_str().as_bytes_vec()
}

/// Where the table says an object begins, the object begins: its number and "obj" stand there.
pub proof fn bang_chi_dung_cho(i: int)
    requires
        0 <= i < 5,
    ensures
        chu::khop_tai(tai_lieu(), chu::thap_phan((i + 1) as nat) + " 0 obj\n"@, vi_tri_doi_tuong(i) as int),
{
    let dau = chu::thap_phan((i + 1) as nat) + " 0 obj\n"@;
    let p = vi_tri_doi_tuong(i) as int;
    than_la_dau(i + 1, 5);
    let t = than(i + 1);
    assert(t =~= than(i) + (dau + (doi_tuong(i) + "\nendobj\n"@)));
    assert(t.subrange(p, p + dau.len()) =~= dau);
    let d = tai_lieu();
    assert(d.subrange(0, than(5).len() as int) =~= than(5));
    assert(d.subrange(p, p + dau.len()) =~= t.subrange(p, p + dau.len())) by {
        assert forall|k: int| 0 <= k < t.len() implies d[k] == t[k] by {
            assert(d[k] == than(5)[k]);
            assert(than(5).subrange(0, t.len() as int)[k] == t[k]);
        }
    }
}

proof fn than_la_dau(a: int, b: int)
    requires
        0 <= a <= b,
    ensures
        than(a).len() <= than(b).len(),
        than(b).subrange(0, than(a).len() as int) == than(a),
    decreases b - a,
{
    if a < b {
        than_la_dau(a, b - 1);
        assert(than(b).subrange(0, than(a).len() as int) =~= than(b - 1).subrange(0, than(a).len() as int));
    } else {
        assert(than(b).subrange(0, than(a).len() as int) =~= than(a));
    }
}

/// The document starts with its version and ends with its end mark; behind "startxref" stands the place at which the
/// table of objects begins.
pub proof fn dau_va_cuoi_tai_lieu()
    ensures
        chu::bat_dau_bang(tai_lieu(), "%PDF-1.4\n"@),
        chu::khop_tai(tai_lieu(), "xref\n"@, than(5).len() as int),
        chu::ket_thuc_bang(tai_lieu(), "startxref\n"@ + chu::thap_phan(than(5).len()) + "\n%%EOF\n"@),
{
    reveal_strlit("xref\n0 6\n0000000000 65535 f \n");
    reveal_strlit("xref\n");
    reveal_strlit("trailer\n<< /Size 6 /Root 1 0 R >>\nstartxref\n");
    reveal_strlit("startxref\n");
    let d = tai_lieu();
    let t = than(5);
    let n = t.len() as int;
    than_la_dau(0, 5);
    let p = "%PDF-1.4\n"@;
    assert(d.subrange(0, n) =~= t);
    assert(d.subrange(0, p.len() as int) =~= t.subrange(0, p.len() as int));
    let x = "xref\n0 6\n0000000000 65535 f \n"@;
    assert(d.subrange(n, n + 5) =~= x.subrange(0, 5));
    assert(x.subrange(0, 5) =~= "xref\n"@);
    let tr = "trailer\n<< /Size 6 /Root 1 0 R >>\nstartxref\n"@;
    let e = "startxref\n"@ + chu::thap_phan(t.len()) + "\n%%EOF\n"@;
    let s = tr.subrange(0, tr.len() - 10);
    assert(tr =~= s + "startxref\n"@);
    let dau = t + x + bang_vi_tri(5) + s;
    assert(d =~= dau + e);
    assert(d.subrange(d.len() - e.len(), d.len() as int) =~= e);
}

} // verus!
