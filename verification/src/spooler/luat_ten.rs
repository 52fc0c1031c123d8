//! Which job in the queue is an order's, and what a document's name tells.
use crate::chu;
use crate::job::{co_duoi_pdf, ten_dung_mau_boc_lai_duoc};
use crate::spooler::kieu::JobHangDoi;
use crate::spooler::ten_job::{
    cua_app, id_ranh_tai, id_tu_ten_cua_server, khong_phan_cach, la_cuid, la_doan_ten, la_id, la_job_cua_lan_in, la_ms, la_so_loai,
    la_in_thu, la_thu_muc, la_token, la_uuid, sau_thu_muc, so_hoa_don_trong, ten_cua_server, ten_file_cua, thuoc_ve, ung_vien,
    vi_tri_job,
};
use vstd::prelude::*;
use vstd::string::*;

verus! {

/// A document whose name holds the id, with no digit behind it, is the order's, whatever stands around it; a
/// document that does not hold the id, or holds it only with a digit behind it, is not.
pub proof fn thuoc_ve_khi_nao(j: JobHangDoi, a: Seq<char>, id: Seq<char>, b: Seq<char>)
    requires
        id.len() > 0,
    ensures
        j.document@ == a + id + b && (b.len() == 0 || !chu::la_chu_so(b[0])) ==> thuoc_ve(j, id),
        !chu::co_chua(j.document@, id) ==> !thuoc_ve(j, id),
        (forall|i: int| chu::khop_tai(j.document@, id, i) ==> i + id.len() < j.document@.len() && chu::la_chu_so(
            #[trigger] j.document@[i + id.len()],
        )) ==> !thuoc_ve(j, id),
        !thuoc_ve(j, Seq::empty()),
{
    let s = j.document@;
    if s == a + id + b && (b.len() == 0 || !chu::la_chu_so(b[0])) {
        let i = a.len() as int;
        assert(s.subrange(i, i + id.len()) =~= id);
        assert(chu::khop_tai(s, id, i));
        if b.len() > 0 {
            assert(s[i + id.len()] == b[0]);
        }
        assert(id_ranh_tai(s, id, i));
    }
    if thuoc_ve(j, id) {
        let i = choose|i: int| id_ranh_tai(s, id, i);
        assert(chu::khop_tai(s, id, i));
    }
}

/// The job of an order is named exactly where one and only one job holds its id and was submitted no more than
/// two seconds before the order.
pub proof fn job_cua_lan_in_la_duy_nhat(jobs: Seq<JobHangDoi>, id: Seq<char>, sau: i64, i: int)
    requires
        0 <= i < jobs.len(),
    ensures
        vi_tri_job(jobs, id, sau) == Some(i) <==> thuoc_ve(jobs[i], id) && jobs[i].submitted_epoch_secs + 2 >= sau && (forall|k: int|
            0 <= k < jobs.len() && k != i ==> !(thuoc_ve(#[trigger] jobs[k], id) && jobs[k].submitted_epoch_secs + 2 >= sau)),
        vi_tri_job(jobs, id, sau) matches Some(x) ==> 0 <= x < jobs.len() && thuoc_ve(jobs[x], id),
{
    if vi_tri_job(jobs, id, sau) is Some {
        let x = vi_tri_job(jobs, id, sau)->0;
        assert(la_job_cua_lan_in(jobs, id, sau, x));
        assert(ung_vien(jobs[x], id, sau));
        if x == i {
            assert forall|k: int| 0 <= k < jobs.len() && k != i implies !(thuoc_ve(#[trigger] jobs[k], id)
                && jobs[k].submitted_epoch_secs + 2 >= sau) by {
                assert(!ung_vien(jobs[k], id, sau));
            }
        }
    }
    if thuoc_ve(jobs[i], id) && jobs[i].submitted_epoch_secs + 2 >= sau && (forall|k: int|
        0 <= k < jobs.len() && k != i ==> !(thuoc_ve(#[trigger] jobs[k], id) && jobs[k].submitted_epoch_secs + 2 >= sau)) {
        assert forall|k: int| 0 <= k < jobs.len() && k != i implies !ung_vien(#[trigger] jobs[k], id, sau) by {
            assert(!(thuoc_ve(jobs[k], id) && jobs[k].submitted_epoch_secs + 2 >= sau));
        }
        assert(la_job_cua_lan_in(jobs, id, sau, i));
        let x = vi_tri_job(jobs, id, sau)->0;
        assert(la_job_cua_lan_in(jobs, id, sau, x));
        assert(ung_vien(jobs[x], id, sau));
    }
}

/// Ids in the forms of the servers are ids: a time in milliseconds and a number; a UUID or a short id and a time;
/// a token, a time and a number.
pub proof fn cac_dang_id(dau: Seq<char>, ms: Seq<char>, so: Seq<char>)
    requires
        la_ms(ms),
    ensures
        la_so_loai(so) ==> la_id(ms + seq!['-'] + so),
        la_uuid(dau) || la_cuid(dau) ==> la_id(dau + seq!['-'] + ms),
        la_token(dau) && la_so_loai(so) ==> la_id(dau + seq!['-'] + ms + seq!['-'] + so),
{
    if la_so_loai(so) {
        let s = ms + seq!['-'] + so;
        assert forall|k: int| 0 <= k < 13 implies s[k] != '-' by {
            assert(s[k] == ms[k]);
            assert(chu::la_chu_so(ms[k]));
        }
        chu::vi_tri_ky_tu_la(s, '-', 0, 13);
        assert(s.subrange(0, 13) =~= ms);
        assert(s.subrange(14, s.len() as int) =~= so);
    }
    if la_uuid(dau) || la_cuid(dau) {
        let s = dau + seq!['-'] + ms;
        let n = dau.len() as int;
        assert forall|k: int| n < k < s.len() implies s[k] != '-' by {
            assert(s[k] == ms[k - n - 1]);
            assert(chu::la_chu_so(ms[k - n - 1]));
        }
        chu::vi_tri_cuoi_la(s, '-', s.len() as int, n);
        assert(s.subrange(0, n) =~= dau);
        assert(s.subrange(n + 1, s.len() as int) =~= ms);
    }
    if la_token(dau) && la_so_loai(so) {
        let s = dau + seq!['-'] + ms + seq!['-'] + so;
        let i = dau.len() as int;
        let j = i + 14;
        assert forall|k: int| j < k < s.len() implies s[k] != '-' by {
            assert(s[k] == so[k - j - 1]);
            assert(chu::la_chu_so(so[k - j - 1]));
        }
        chu::vi_tri_cuoi_la(s, '-', s.len() as int, j);
        assert(s.subrange(j + 1, s.len() as int) =~= so);
        let d = s.subrange(0, j);
        assert forall|k: int| i < k < d.len() implies d[k] != '-' by {
            assert(d[k] == ms[k - i - 1]);
            assert(chu::la_chu_so(ms[k - i - 1]));
        }
        assert(d[i] == '-');
        chu::vi_tri_cuoi_la(d, '-', j, i);
        assert(s.subrange(i + 1, j) =~= ms);
        assert(s.subrange(0, i) =~= dau);
    }
}

/// Every id holds a time of thirteen digits, set off by a dash: at its start before a number, or at its end, or
/// before the number at its end.
pub proof fn id_nao_cung_co_ms(id: Seq<char>)
    requires
        la_id(id),
    ensures
        (id.len() > 14 && la_ms(id.subrange(0, 13)) && id[13] == '-' && la_so_loai(id.subrange(14, id.len() as int))) || (id.len() > 14
            && id[id.len() - 14] == '-' && la_ms(id.subrange(id.len() - 13, id.len() as int))) || (exists|j: int|
            15 <= j < id.len() && #[trigger] id[j] == '-' && id[j - 14] == '-' && la_ms(id.subrange(j - 13, j)) && la_so_loai(
                id.subrange(j + 1, id.len() as int),
            )),
{
    let n = id.len() as int;
    chu::vi_tri_ky_tu_la_dau(id, '-', 0);
    chu::vi_tri_cuoi_la_cuoi(id, '-', n);
    if let Some(j) = chu::vi_tri_cuoi(id, '-', n) {
        let d = id.subrange(0, j);
        chu::vi_tri_cuoi_la_cuoi(d, '-', j);
        if let Some(i) = chu::vi_tri_cuoi(d, '-', j) {
            assert(d[i] == id[i]);
            if la_so_loai(id.subrange(j + 1, n)) && la_ms(id.subrange(i + 1, j)) && la_token(id.subrange(0, i)) {
                assert(i + 1 == j - 13);
                assert(id[j] == '-');
            }
        }
    }
}

/// The number of an invoice is read back from the name that the server gives its document, in any directory.
pub proof fn so_hoa_don_tu_ten(dir: Seq<char>, so: Seq<char>, khach: Seq<char>, id: Seq<char>, pdf: Seq<char>)
    requires
        la_thu_muc(dir),
        la_doan_ten(so),
        la_doan_ten(khach),
        la_id(id),
        khong_phan_cach(id),
        pdf.len() == 4 && co_duoi_pdf(pdf),
    ensures
        so_hoa_don_trong(dir + (ten_cua_server(so, khach, id) + pdf)) == Some(so),
        cua_app(dir + (ten_cua_server(so, khach, id) + pdf)),
{
    reveal_strlit("AI-");
    reveal_strlit("-");
    let ten = ten_cua_server(so, khach, id) + pdf;
    let doc = dir + ten;
    id_tu_ten_cua_server(dir, so, khach, id, pdf);
    assert(id.len() > 0) by {
        id_nao_cung_co_ms(id);
    }
    assert(ten =~= "AI-"@ + so + seq!['-'] + khach + seq!['-'] + id + pdf);
    assert(khong_phan_cach(ten)) by {
        assert forall|i: int| 0 <= i < ten.len() implies #[trigger] ten[i] != '\\' && ten[i] != '/' by {
            let n1 = 3 + so.len() as int;
            let n2 = n1 + 1 + khach.len();
            let n3 = n2 + 1 + id.len();
            if i < 3 {
                assert(ten[i] == "AI-"@[i]);
            } else if i < n1 {
                assert(ten[i] == so[i - 3]);
            } else if i == n1 || i == n2 {
                assert(ten[i] == '-');
            } else if i < n2 {
                assert(ten[i] == khach[i - n1 - 1]);
            } else if i < n3 {
                assert(ten[i] == id[i - n2 - 1]);
            } else {
                assert(ten[i] == pdf[i - n3]);
            }
        }
    }
    sau_thu_muc(dir, ten, doc.len() as int);
    assert(ten_file_cua(doc) =~= ten);
    ten_dung_mau_boc_lai_duoc(so, khach, id, pdf);
}

/// A test page is told by how its file's name starts, in any directory, and counts as the agent's.
pub proof fn in_thu_theo_ten(dir: Seq<char>, x: Seq<char>)
    requires
        la_thu_muc(dir),
        khong_phan_cach(x),
    ensures
        la_in_thu(dir + ("print-agent-in-thu-"@ + x)),
        cua_app(dir + ("print-agent-in-thu-"@ + x)),
{
    reveal_strlit("print-agent-in-thu-");
    let m = "print-agent-in-thu-"@;
    let ten = m + x;
    assert(khong_phan_cach(ten)) by {
        assert forall|i: int| 0 <= i < ten.len() implies #[trigger] ten[i] != '\\' && ten[i] != '/' by {
            if i < m.len() {
                assert(ten[i] == m[i]);
            } else {
                assert(ten[i] == x[i - m.len()]);
            }
        }
    }
    let doc = dir + ten;
    sau_thu_muc(dir, ten, doc.len() as int);
    assert(ten_file_cua(doc) =~= ten);
    assert(ten.subrange(0, m.len() as int) =~= m);
}

} // verus!
