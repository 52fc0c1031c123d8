//! How the settings file is read: what a line sets, and what makes no difference.
use crate::chu;
use crate::config::{
    bo_bom, bo_cr, cac_dong, doc_config, dong_bo_qua, dong_section, gan_cua, gia_tri_cua,
    la_ten, noi_dong_cuoi, parse_config_voi, ten_khac_nhau, trong_agent, CauHinh, Config, LoiCauHinh, TruongBatBuoc,
};
use vstd::prelude::*;
use vstd::string::*;

verus! {

/// White space within a line, or nothing.
pub open spec fn trang(s: Seq<char>) -> bool {
    forall|i: int| 0 <= i < s.len() ==> chu::la_khoang_trang(#[trigger] s[i]) && s[i] != '\n'
}

/// A text without white space around it.
pub open spec fn gon(s: Seq<char>) -> bool {
    s.len() > 0 ==> !chu::la_khoang_trang(s[0]) && !chu::la_khoang_trang(s[s.len() - 1])
}

proof fn dau_trang(a: Seq<char>, x: Seq<char>)
    requires
        trang(a),
    ensures
        chu::bo_trang_dau(a + x) == chu::bo_trang_dau(x),
    decreases a.len(),
{
    if a.len() == 0 {
        assert(a + x =~= x);
    } else {
        let d = a.subrange(1, a.len() as int);
        assert(chu::la_khoang_trang(a[0]));
        assert forall|i: int| 0 <= i < d.len() implies chu::la_khoang_trang(#[trigger] d[i]) && d[i] != '\n' by {
            assert(d[i] == a[i + 1]);
        }
        dau_trang(d, x);
        assert((a + x).subrange(1, (a + x).len() as int) =~= d + x);
    }
}

proof fn cuoi_trang(x: Seq<char>, e: Seq<char>)
    requires
        trang(e),
    ensures
        chu::bo_trang_cuoi(x + e) == chu::bo_trang_cuoi(x),
    decreases e.len(),
{
    let s = x + e;
    if e.len() == 0 {
        assert(s =~= x);
    } else {
        let d = e.subrange(0, e.len() - 1);
        assert(s[s.len() - 1] == e[e.len() - 1]);
        assert forall|i: int| 0 <= i < d.len() implies chu::la_khoang_trang(#[trigger] d[i]) && d[i] != '\n' by {
            assert(d[i] == e[i]);
        }
        cuoi_trang(x, d);
        assert(s.subrange(0, s.len() - 1) =~= x + d);
    }
}

/// White space around a text is taken off, and nothing else.
pub proof fn bo_trang_quanh(a: Seq<char>, x: Seq<char>, e: Seq<char>)
    requires
        trang(a),
        gon(x),
        trang(e),
    ensures
        chu::bo_trang(a + x + e) == x,
{
    assert(a + x + e =~= a + (x + e));
    dau_trang(a, x + e);
    if x.len() == 0 {
        assert(x + e =~= e + x);
        dau_trang(e, x);
        assert(chu::bo_trang_dau(x) == x);
    } else {
        assert((x + e)[0] == x[0]);
        cuoi_trang(x, e);
    }
}

/// The line that sets `ten` to `v`, with white space wherever it may stand.
pub open spec fn dong_dat(c: Seq<char>, ten: Seq<char>, a: Seq<char>, b: Seq<char>, v: Seq<char>, e: Seq<char>) -> Seq<char> {
    c + ten + a + seq!['='] + b + v + e
}

/// White space around a line, around the name and around `=` makes no difference: the line sets the name to
/// the value, with none of it at all too. Only the first `=` counts.
pub proof fn dong_dat_ten_thanh_gia_tri(
    c: Seq<char>,
    ten: Seq<char>,
    a: Seq<char>,
    b: Seq<char>,
    v: Seq<char>,
    e: Seq<char>,
)
    requires
        trang(c),
        la_ten(ten),
        trang(a),
        trang(b),
        gon(v),
        trang(e),
    ensures
        ({
            let d = chu::bo_trang(dong_dat(c, ten, a, b, v, e));
            !dong_bo_qua(d) && !dong_section(d) && gan_cua(d) == Some((ten, v))
        }),
{
    let l = dong_dat(c, ten, a, b, v, e);
    let bang: Seq<char> = seq!['='];
    let x = if v.len() > 0 {
        ten + a + bang + b + v
    } else {
        ten + a + bang
    };
    let duoi = if v.len() > 0 {
        e
    } else {
        b + e
    };
    assert(l =~= c + x + duoi);
    assert(trang(duoi)) by {
        assert forall|i: int| 0 <= i < duoi.len() implies chu::la_khoang_trang(#[trigger] duoi[i]) && duoi[i] != '\n' by {
            if v.len() == 0 {
                if i < b.len() {
                    assert(duoi[i] == b[i]);
                } else {
                    assert(duoi[i] == e[i - b.len()]);
                }
            }
        }
    }
    assert(x[0] == ten[0]);
    assert(!chu::la_khoang_trang('='));
    if v.len() > 0 {
        assert(x[x.len() - 1] == v[v.len() - 1]);
    } else {
        assert(x[x.len() - 1] == '=');
    }
    bo_trang_quanh(c, x, duoi);
    let n = (ten.len() + a.len()) as int;
    assert(x[n] == '=');
    assert forall|k: int| 0 <= k < n implies x[k] != '=' by {
        if k < ten.len() {
            assert(x[k] == ten[k]);
        } else {
            assert(x[k] == a[k - ten.len()]);
            assert(chu::la_khoang_trang(a[k - ten.len()]));
        }
    }
    chu::vi_tri_ky_tu_la(x, '=', 0, n);
    let r = Seq::<char>::empty();
    assert(x.subrange(0, n) =~= r + ten + a);
    bo_trang_quanh(r, ten, a);
    if v.len() > 0 {
        assert(x.subrange(n + 1, x.len() as int) =~= b + v + r);
        bo_trang_quanh(b, v, r);
    } else {
        assert(x.subrange(n + 1, x.len() as int) =~= r + v + r);
        bo_trang_quanh(r, v, r);
    }
}

/// In the section such a line sets its name and no other; outside it nothing is set. It neither opens nor
/// closes the section.
pub proof fn dong_dat_trong_section(
    p: Seq<Seq<char>>,
    c: Seq<char>,
    ten: Seq<char>,
    a: Seq<char>,
    b: Seq<char>,
    v: Seq<char>,
    e: Seq<char>,
    k: Seq<char>,
)
    requires
        trang(c),
        la_ten(ten),
        trang(a),
        trang(b),
        gon(v),
        trang(e),
    ensures
        trong_agent(p.push(dong_dat(c, ten, a, b, v, e))) == trong_agent(p),
        gia_tri_cua(p.push(dong_dat(c, ten, a, b, v, e)), k) == (if trong_agent(p) && k == ten {
            v
        } else {
            gia_tri_cua(p, k)
        }),
{
    let l = dong_dat(c, ten, a, b, v, e);
    dong_dat_ten_thanh_gia_tri(c, ten, a, b, v, e);
    assert(p.push(l).drop_last() =~= p);
    assert(p.push(l).last() == l);
}

/// A name in square brackets, with white space around them or not, opens the section of that name and closes
/// any other; only `agent` is the agent's. It sets nothing.
pub proof fn dong_mo_section(p: Seq<Seq<char>>, c: Seq<char>, ten: Seq<char>, e: Seq<char>, k: Seq<char>)
    requires
        trang(c),
        trang(e),
    ensures
        trong_agent(p.push(c + (seq!['['] + ten + seq![']']) + e)) == (ten == "agent"@),
        gia_tri_cua(p.push(c + (seq!['['] + ten + seq![']']) + e), k) == gia_tri_cua(p, k),
{
    let x = seq!['['] + ten + seq![']'];
    let l = c + x + e;
    assert(x[0] == '[' && x[x.len() - 1] == ']');
    bo_trang_quanh(c, x, e);
    assert(x.subrange(1, x.len() - 1) =~= ten);
    assert(p.push(l).drop_last() =~= p);
    assert(p.push(l).last() == l);
}

/// An empty line and a line that starts with `;` or `#`, behind white space or not, change nothing.
pub proof fn dong_ghi_chu(p: Seq<Seq<char>>, l: Seq<char>, k: Seq<char>)
    requires
        chu::bo_trang(l).len() == 0 || chu::bo_trang(l)[0] == ';' || chu::bo_trang(l)[0] == '#',
    ensures
        trong_agent(p.push(l)) == trong_agent(p),
        gia_tri_cua(p.push(l), k) == gia_tri_cua(p, k),
{
    assert(p.push(l).drop_last() =~= p);
    assert(p.push(l).last() == l);
}

/// Before the first line the section is not open and nothing is set.
pub proof fn chua_co_dong_nao(k: Seq<char>)
    ensures
        !trong_agent(Seq::empty()),
        gia_tri_cua(Seq::empty(), k).len() == 0,
{
}

/// Lines that differ only in the white space around them, such as those that end in a carriage return, read
/// the same.
pub proof fn khoang_trang_quanh_dong(p: Seq<Seq<char>>, q: Seq<Seq<char>>, k: Seq<char>)
    requires
        p.len() == q.len(),
        forall|i: int| 0 <= i < p.len() ==> chu::bo_trang(#[trigger] p[i]) == chu::bo_trang(q[i]),
    ensures
        trong_agent(p) == trong_agent(q),
        gia_tri_cua(p, k) == gia_tri_cua(q, k),
    decreases p.len(),
{
    if p.len() > 0 {
        assert(chu::bo_trang(p[p.len() - 1]) == chu::bo_trang(q[p.len() - 1]));
        assert forall|i: int| 0 <= i < p.drop_last().len() implies chu::bo_trang(#[trigger] p.drop_last()[i]) == chu::bo_trang(
            q.drop_last()[i],
        ) by {
            assert(p.drop_last()[i] == p[i]);
        }
        khoang_trang_quanh_dong(p.drop_last(), q.drop_last(), k);
    }
}

/// A byte order mark in front makes no difference.
pub proof fn bom_khong_doi_gi(s: Seq<char>, token_kem: Seq<char>)
    ensures
        doc_config(seq!['\u{feff}'] + s, token_kem) == doc_config(s, token_kem),
{
    let b = seq!['\u{feff}'] + s;
    assert(b.subrange(1, b.len() as int) =~= s);
}

/// Every line of whole lines is a line of the text, without its line feed and a carriage return before it.
pub proof fn them_dong_vao_file(x: Seq<char>, l: Seq<char>)
    requires
        x.len() == 0 || x[x.len() - 1] == '\n',
        forall|i: int| 0 <= i < l.len() ==> l[i] != '\n',
    ensures
        cac_dong(x + (l + seq!['\n'])) == cac_dong(x).push(bo_cr(l)),
        cac_dong(Seq::<char>::empty()).len() == 0,
{
    noi_dong_cuoi(x, l);
}

/// Which of the settings a file has to name: the server, the organisation and the printer.
pub open spec fn du_bat_buoc(c: CauHinh) -> bool {
    c.server_url.len() > 0 && c.org_id.len() > 0 && c.printer_name.len() > 0
}

/// A file that can be read gives all that must be named, and the tray "tray-1" and the paper "A5" where it
/// names none; a file without the section, or without something that must be named, is refused for the first
/// of these that is missing.
pub proof fn doc_duoc_la_du(s: Seq<char>, token_kem: Seq<char>)
    ensures
        doc_config(s, token_kem) matches Ok(c) ==> du_bat_buoc(c) && c.tray.len() > 0 && c.paper_size.len() > 0,
        !chu::co_chua(bo_bom(s), "[agent]"@) ==> doc_config(s, token_kem) == Err::<CauHinh, LoiCauHinh>(
            LoiCauHinh::ThieuSection,
        ),
        chu::co_chua(bo_bom(s), "[agent]"@) ==> ({
            let ds = cac_dong(bo_bom(s));
            let r = doc_config(s, token_kem);
            &&& gia_tri_cua(ds, "server_url"@).len() == 0 ==> r == Err::<CauHinh, LoiCauHinh>(
                LoiCauHinh::ThieuTruong(TruongBatBuoc::ServerUrl),
            )
            &&& gia_tri_cua(ds, "server_url"@).len() > 0 && gia_tri_cua(ds, "org_id"@).len() == 0 ==> r == Err::<
                CauHinh,
                LoiCauHinh,
            >(LoiCauHinh::ThieuTruong(TruongBatBuoc::OrgId))
            &&& gia_tri_cua(ds, "server_url"@).len() > 0 && gia_tri_cua(ds, "org_id"@).len() > 0 && gia_tri_cua(
                ds,
                "printer_name"@,
            ).len() == 0 ==> r == Err::<CauHinh, LoiCauHinh>(LoiCauHinh::ThieuTruong(TruongBatBuoc::PrinterName))
            &&& gia_tri_cua(ds, "server_url"@).len() > 0 && gia_tri_cua(ds, "org_id"@).len() > 0 && gia_tri_cua(
                ds,
                "printer_name"@,
            ).len() > 0 ==> (r matches Ok(c) && c.server_url == gia_tri_cua(ds, "server_url"@) && c.org_id == gia_tri_cua(
                ds,
                "org_id"@,
            ) && c.printer_name == gia_tri_cua(ds, "printer_name"@) && (gia_tri_cua(ds, "tray"@).len() > 0 ==> c.tray
                == gia_tri_cua(ds, "tray"@)) && (gia_tri_cua(ds, "tray"@).len() == 0 ==> c.tray == "tray-1"@) && (
            gia_tri_cua(ds, "paper_size"@).len() > 0 ==> c.paper_size == gia_tri_cua(ds, "paper_size"@)) && (gia_tri_cua(
                ds,
                "paper_size"@,
            ).len() == 0 ==> c.paper_size == "A5"@) && (gia_tri_cua(ds, "token"@).len() > 0 ==> c.token == gia_tri_cua(
                ds,
                "token"@,
            )) && (gia_tri_cua(ds, "token"@).len() == 0 ==> c.token == token_kem))
        }),
{
    reveal_strlit("tray-1");
    reveal_strlit("A5");
}

/// One more line at the end of a file that can be read, in the open section: it sets its own name and leaves
/// the rest, whatever white space stands in it.
pub proof fn them_dong_doi_mot_gia_tri(
    x: Seq<char>,
    c: Seq<char>,
    ten: Seq<char>,
    a: Seq<char>,
    b: Seq<char>,
    v: Seq<char>,
    e: Seq<char>,
    token_kem: Seq<char>,
)
    requires
        doc_config(x, token_kem) is Ok,
        bo_bom(x) == x,
        x[x.len() - 1] == '\n',
        trong_agent(cac_dong(x)),
        trang(c),
        la_ten(ten),
        trang(a),
        trang(b),
        gon(v),
        v.len() > 0,
        forall|i: int| 0 <= i < v.len() ==> v[i] != '\n',
        trang(e),
    ensures
        ({
            let cu = doc_config(x, token_kem)->Ok_0;
            doc_config(x + (dong_dat(c, ten, a, b, v, e) + seq!['\n']), token_kem) == Ok::<CauHinh, LoiCauHinh>(
                CauHinh {
                    server_url: if ten == "server_url"@ {
                        v
                    } else {
                        cu.server_url
                    },
                    token: if ten == "token"@ {
                        v
                    } else {
                        cu.token
                    },
                    org_id: if ten == "org_id"@ {
                        v
                    } else {
                        cu.org_id
                    },
                    printer_name: if ten == "printer_name"@ {
                        v
                    } else {
                        cu.printer_name
                    },
                    tray: if ten == "tray"@ {
                        v
                    } else {
                        cu.tray
                    },
                    paper_size: if ten == "paper_size"@ {
                        v
                    } else {
                        cu.paper_size
                    },
                },
            )
        }),
{
    let l = dong_dat(c, ten, a, b, v, e);
    let y = x + (l + seq!['\n']);
    assert(x.len() > 0) by {
        chua_co_dong_nao("server_url"@);
        if x.len() == 0 {
            assert(cac_dong(x) =~= Seq::empty());
        }
    }
    assert forall|i: int| 0 <= i < l.len() implies l[i] != '\n' by {
        let n1 = c.len() as int;
        let n2 = n1 + ten.len();
        let n3 = n2 + a.len();
        let n4 = n3 + 1 + b.len();
        let n5 = n4 + v.len();
        if i < n1 {
            assert(l[i] == c[i]);
        } else if i < n2 {
            assert(l[i] == ten[i - n1]);
        } else if i < n3 {
            assert(l[i] == a[i - n2]);
        } else if i == n3 {
            assert(l[i] == '=');
        } else if i < n4 {
            assert(l[i] == b[i - n3 - 1]);
        } else if i < n5 {
            assert(l[i] == v[i - n4]);
        } else {
            assert(l[i] == e[i - n5]);
        }
    }
    noi_dong_cuoi(x, l);
    assert(y[0] == x[0]);
    assert(bo_bom(y) == y) by {
        if x[0] == '\u{feff}' {
            bo_bom_ngan(x.subrange(1, x.len() as int));
        }
    }
    let p = cac_dong(x);
    assert(chu::co_chua(y, "[agent]"@)) by {
        let i = choose|i: int| chu::khop_tai(x, "[agent]"@, i);
        let n = "[agent]"@.len();
        assert(y.subrange(i, i + n) =~= x.subrange(i, i + n));
        assert(chu::khop_tai(y, "[agent]"@, i));
    }
    let q1 = p.push(bo_cr(l));
    let q2 = p.push(l);
    bo_cr_chi_bo_trang(l);
    ten_khac_nhau();
    cung_gia_tri(q1, q2, p, l, "server_url"@);
    cung_gia_tri(q1, q2, p, l, "token"@);
    cung_gia_tri(q1, q2, p, l, "org_id"@);
    cung_gia_tri(q1, q2, p, l, "printer_name"@);
    cung_gia_tri(q1, q2, p, l, "tray"@);
    cung_gia_tri(q1, q2, p, l, "paper_size"@);
    dong_dat_trong_section(p, c, ten, a, b, v, e, "server_url"@);
    dong_dat_trong_section(p, c, ten, a, b, v, e, "token"@);
    dong_dat_trong_section(p, c, ten, a, b, v, e, "org_id"@);
    dong_dat_trong_section(p, c, ten, a, b, v, e, "printer_name"@);
    dong_dat_trong_section(p, c, ten, a, b, v, e, "tray"@);
    dong_dat_trong_section(p, c, ten, a, b, v, e, "paper_size"@);
}

proof fn bo_bom_ngan(s: Seq<char>)
    ensures
        bo_bom(s).len() <= s.len(),
    decreases s.len(),
{
    if s.len() > 0 && s[0] == '\u{feff}' {
        bo_bom_ngan(s.subrange(1, s.len() as int));
    }
}

proof fn cung_gia_tri(q1: Seq<Seq<char>>, q2: Seq<Seq<char>>, p: Seq<Seq<char>>, l: Seq<char>, k: Seq<char>)
    requires
        q1 == p.push(bo_cr(l)),
        q2 == p.push(l),
        chu::bo_trang(bo_cr(l)) == chu::bo_trang(l),
    ensures
        gia_tri_cua(q1, k) == gia_tri_cua(q2, k),
{
    khoang_trang_quanh_dong(q1, q2, k);
}

/// The carriage return that is taken off a line is white space at its end.
proof fn bo_cr_chi_bo_trang(l: Seq<char>)
    ensures
        chu::bo_trang(bo_cr(l)) == chu::bo_trang(l),
{
    if l.len() > 0 && l[l.len() - 1] == '\r' {
        let d = bo_cr(l);
        let cr: Seq<char> = seq!['\r'];
        assert(l =~= d + cr);
        assert(chu::la_khoang_trang('\r'));
        assert(trang(cr)) by {
            assert forall|i: int| 0 <= i < cr.len() implies chu::la_khoang_trang(#[trigger] cr[i]) && cr[i] != '\n' by {
                assert(cr[i] == '\r');
            }
        }
        dau_giu_cuoi(d, cr);
    }
}

proof fn dau_giu_cuoi(d: Seq<char>, e: Seq<char>)
    requires
        trang(e),
    ensures
        chu::bo_trang(d + e) == chu::bo_trang(d),
    decreases d.len(),
{
    if d.len() > 0 && chu::la_khoang_trang(d[0]) {
        let t = d.subrange(1, d.len() as int);
        dau_giu_cuoi(t, e);
        assert((d + e)[0] == d[0]);
        assert((d + e).subrange(1, (d + e).len() as int) =~= t + e);
    } else if d.len() > 0 {
        assert((d + e)[0] == d[0]);
        cuoi_trang(d, e);
    } else {
        assert(d + e =~= e + d);
        dau_trang(e, d);
    }
}

/// Reading a file gives the settings that one more line at its end names: whatever `parse_config_voi` gives for a
/// file that could be read before, with one more line in the open section, has that line's value under its name and
/// the other settings as they were, whatever white space stands in the line.
pub proof fn doc_lai_file_them_dong(
    x: Seq<char>,
    c: Seq<char>,
    ten: Seq<char>,
    a: Seq<char>,
    b: Seq<char>,
    v: Seq<char>,
    e: Seq<char>,
    text: &str,
    token_kem: &str,
    r: Result<Config, LoiCauHinh>,
)
    requires
        call_ensures(parse_config_voi, (text, token_kem), r),
        text@ == x + (dong_dat(c, ten, a, b, v, e) + seq!['\n']),
        doc_config(x, token_kem@) is Ok,
        bo_bom(x) == x,
        x[x.len() - 1] == '\n',
        trong_agent(cac_dong(x)),
        trang(c),
        la_ten(ten),
        trang(a),
        trang(b),
        gon(v),
        v.len() > 0,
        forall|i: int| 0 <= i < v.len() ==> v[i] != '\n',
        trang(e),
    ensures
        r is Ok,
        ten == "server_url"@ ==> r->Ok_0@.server_url == v,
        ten == "org_id"@ ==> r->Ok_0@.org_id == v,
        ten == "printer_name"@ ==> r->Ok_0@.printer_name == v,
        ten == "tray"@ ==> r->Ok_0@.tray == v,
        ten == "paper_size"@ ==> r->Ok_0@.paper_size == v,
        ten == "token"@ ==> r->Ok_0@.token == v,
        ten != "printer_name"@ ==> r->Ok_0@.printer_name == doc_config(x, token_kem@)->Ok_0.printer_name,
        ten != "server_url"@ ==> r->Ok_0@.server_url == doc_config(x, token_kem@)->Ok_0.server_url,
{
    them_dong_doi_mot_gia_tri(x, c, ten, a, b, v, e, token_kem@);
}

} // verus!
