//! What the order to print a job asks for, and what the report on it says.
use crate::config::{CauHinh, Config};
use crate::gia_tri::{vi_tri_truong, Gt};
use crate::job::{
    base64_cua, chuan_bi, co_duoi_pdf, giai_ma_cua, hoa_don_cua, id_tho, la_so, lenh_cua, lenh_tu_job, nhan_cua, rut_gon, rut_gon_bo_token,
    ten_dung_mau_boc_lai_duoc, ten_tho, JobEnvelope, JobIn, KetQua, KetQuaInV, KetQuaV, LenhIn, LyDoV,
};
use crate::su_co::MaSuCo;
use vstd::prelude::*;
use vstd::string::*;

verus! {

/// The order for a job whose PDF decoded prints that PDF, on the printer of the settings, under the job's id
/// and name, as many copies as the job asks for, on its paper and from its tray; what the job leaves open is
/// one copy and the paper and the tray of the settings.
pub proof fn lenh_theo_job(job: JobIn, b: Seq<u8>, cfg: CauHinh)
    ensures
        lenh_cua(job, Ok(b), cfg) is Ok,
        lenh_cua(job, Ok(b), cfg)->Ok_0.pdf == b,
        lenh_cua(job, Ok(b), cfg)->Ok_0.may_in == cfg.printer_name,
        lenh_cua(job, Ok(b), cfg)->Ok_0.job_id == job.id@,
        job.copies matches Some(n) ==> lenh_cua(job, Ok(b), cfg)->Ok_0.so_ban == n,
        job.copies is None ==> lenh_cua(job, Ok(b), cfg)->Ok_0.so_ban == 1,
        job.paper_size matches Some(s) ==> lenh_cua(job, Ok(b), cfg)->Ok_0.kho_giay == s@,
        job.paper_size is None ==> lenh_cua(job, Ok(b), cfg)->Ok_0.kho_giay == cfg.paper_size,
        job.tray matches Some(s) ==> lenh_cua(job, Ok(b), cfg)->Ok_0.khay == s@,
        job.tray is None ==> lenh_cua(job, Ok(b), cfg)->Ok_0.khay == cfg.tray,
        job.name matches Some(s) ==> lenh_cua(job, Ok(b), cfg)->Ok_0.ten == Some(s@),
        job.name is None ==> lenh_cua(job, Ok(b), cfg)->Ok_0.ten is None,
{
}

/// A job that cannot be printed is answered at once, under its own id, with the error: one whose PDF does not
/// decode as a broken PDF, one that cannot be read under the id that stands in the message.
pub proof fn job_hong_duoc_tra_loi(payload: Gt, doc: Result<JobEnvelope, String>, cfg: CauHinh)
    ensures
        chuan_bi(payload, doc, cfg) is Ok <==> doc is Ok && base64_cua(doc->Ok_0.job.pdf_base64@) is Ok,
        chuan_bi(payload, doc, cfg) matches Err(k) ==> k.trang_thai == "loi"@ && k.loi_cuoi is Some && k.ban_da_in is None
            && k.con_trong_hang_doi is None,
        chuan_bi(payload, doc, cfg) matches Err(k) ==> (doc matches Ok(env) ==> k.job_id == env.job.id@ && k.loai == Some(
            MaSuCo::LoiPdf,
        ) && k.loi_cuoi == Some("base64 lỗi: "@ + base64_cua(env.job.pdf_base64@)->Err_0)),
        chuan_bi(payload, doc, cfg) matches Err(k) ==> (doc matches Err(e) ==> k.job_id == id_tho(payload) && k.loai is None
            && k.loi_cuoi == Some("payload sai: "@ + e@)),
{
}

/// Two jobs that differ only in the copies they ask for get orders that differ only in the copies.
pub proof fn so_ban_chi_doi_so_ban(a: JobIn, b: JobIn, pdf: Seq<u8>, cfg: CauHinh)
    requires
        a.id@ == b.id@,
        a.name == b.name,
        a.paper_size == b.paper_size,
        a.tray == b.tray,
        a.copies is Some,
        b.copies is Some,
        a.copies->0 != b.copies->0,
    ensures
        ({
            let x = lenh_cua(a, Ok(pdf), cfg)->Ok_0;
            let y = lenh_cua(b, Ok(pdf), cfg)->Ok_0;
            x.so_ban != y.so_ban && x.pdf == y.pdf && x.may_in == y.may_in && x.kho_giay == y.kho_giay && x.khay == y.khay
                && x.job_id == y.job_id && x.ten == y.ten
        }),
{
}

/// The report tells what printing came to: printed exactly where it was seen to print, an error exactly where
/// nothing came out, and else that it is not known; the words, the kind and, where it is not known, the copies
/// that came out are those of the reason.
pub proof fn bao_dung_ket_qua(id: Seq<char>, kq: KetQuaInV)
    ensures
        KetQuaV::cua(id, kq).job_id == id,
        KetQuaV::cua(id, kq).trang_thai == "da_in"@ <==> kq is DaIn,
        KetQuaV::cua(id, kq).trang_thai == "loi"@ <==> kq is Loi,
        KetQuaV::cua(id, kq).trang_thai == "khong_ro"@ <==> kq is KhongRo,
        KetQuaV::cua(id, kq).con_trong_hang_doi is None,
        kq is DaIn ==> KetQuaV::cua(id, kq).loi_cuoi is None && KetQuaV::cua(id, kq).loai is None && KetQuaV::cua(
            id,
            kq,
        ).ban_da_in is None,
        kq matches KetQuaInV::Loi(l) ==> KetQuaV::cua(id, kq).loi_cuoi == Some(l.chu) && KetQuaV::cua(id, kq).loai == l.loai
            && KetQuaV::cua(id, kq).ban_da_in is None,
        kq matches KetQuaInV::KhongRo(l) ==> KetQuaV::cua(id, kq).loi_cuoi == Some(l.chu) && KetQuaV::cua(id, kq).loai
            == l.loai && KetQuaV::cua(id, kq).ban_da_in == l.ban_da_in,
{
    reveal_strlit("da_in");
    reveal_strlit("loi");
    reveal_strlit("khong_ro");
    assert("da_in"@.len() == 5 && "loi"@.len() == 3 && "khong_ro"@.len() == 8);
}

/// The message of a report can be read back: every field that is known stands in it under its name, what is
/// not known does not, and of the copies nothing is told.
pub proof fn ban_tin_doc_lai_duoc(k: KetQuaV)
    ensures
        k.gia_tri().truong("jobId"@) == Some(Gt::Chuoi(k.job_id)),
        k.gia_tri().truong("trangThai"@) == Some(Gt::Chuoi(k.trang_thai)),
        k.loi_cuoi matches Some(s) ==> k.gia_tri().truong("loiCuoi"@) == Some(Gt::Chuoi(s)),
        k.loi_cuoi is None ==> k.gia_tri().truong("loiCuoi"@) is None,
        k.loai matches Some(m) ==> k.gia_tri().truong("loai"@) == Some(Gt::Chuoi(m.ma_cua())),
        k.loai is None ==> k.gia_tri().truong("loai"@) is None,
        k.con_trong_hang_doi matches Some(b) ==> k.gia_tri().truong("conTrongHangDoi"@) == Some(Gt::Bool(b)),
        k.con_trong_hang_doi is None ==> k.gia_tri().truong("conTrongHangDoi"@) is None,
        k.gia_tri()->DoiTuong_0.len() <= 5,
        (KetQuaV { ban_da_in: None, ..k }).gia_tri() == k.gia_tri(),
{
    reveal_strlit("jobId");
    reveal_strlit("trangThai");
    reveal_strlit("loiCuoi");
    reveal_strlit("loai");
    reveal_strlit("conTrongHangDoi");
    assert("jobId"@.len() == 5 && "trangThai"@.len() == 9 && "loiCuoi"@.len() == 7 && "loai"@.len() == 4
        && "conTrongHangDoi"@.len() == 15);
    reveal_with_fuel(vi_tri_truong, 7);
}

/// The reason in full holds the words and, where a kind is known, its code behind them in square brackets.
pub proof fn chu_day_du_giu_chu_va_ma(l: LyDoV)
    ensures
        l.loai is None ==> l.chu_day_du() == l.chu,
        l.loai matches Some(m) ==> l.chu_day_du() == l.chu + (seq![' ', '['] + m.ma_cua() + seq![']']),
{
    reveal_strlit(" [");
    reveal_strlit("]");
    if let Some(m) = l.loai {
        assert(l.chu_day_du() =~= l.chu + (seq![' ', '['] + m.ma_cua() + seq![']']));
    }
}

/// The customer in a file name of the server's form is read back as it stands, but for "Khong_ro", by which the
/// server says that it knows none; a name without a customer's part has none.
pub proof fn khach_doc_lai(so: Seq<char>, khach: Seq<char>, id: Seq<char>, pdf: Seq<char>)
    requires
        so.len() > 0,
        khach.len() > 0,
        id.len() > 0,
        pdf.len() == 4 && co_duoi_pdf(pdf),
        forall|i: int| 0 <= i < so.len() ==> so[i] != '-',
    ensures
        khach != "Khong_ro"@ ==> hoa_don_cua("AI-"@ + so + seq!['-'] + khach + seq!['-'] + id + pdf, id) == Some(
            (so, Some(khach)),
        ),
        khach == "Khong_ro"@ ==> hoa_don_cua("AI-"@ + so + seq!['-'] + khach + seq!['-'] + id + pdf, id) == Some(
            (so, None::<Seq<char>>),
        ),
{
    ten_dung_mau_boc_lai_duoc(so, khach, id, pdf);
}

/// The label of a job: the invoice and the customer where the suggested name tells them, and else the id, of which
/// the token is never shown.
pub proof fn nhan_theo_ten(id: Seq<char>, name: Option<Seq<char>>, token: Seq<char>, ms: Seq<char>, so: Seq<char>)
    ensures
        name matches Some(n) ==> (hoa_don_cua(n, id) matches Some(x) ==> nhan_cua(id, name) == x),
        name is None || hoa_don_cua(name->0, id) is None ==> nhan_cua(id, name) == (rut_gon(id), None::<Seq<char>>),
        name is None && token.len() > 0 && la_so(ms) && la_so(so) && id == token + seq!['-'] + ms + seq!['-'] + so ==> nhan_cua(
            id,
            name,
        ).0 == ms + seq!['-'] + so,
{
    if token.len() > 0 && la_so(ms) && la_so(so) {
        rut_gon_bo_token(token, ms, so);
    }
}

/// The id and the suggested name in a message are those of its job, as they stand; without them the id is empty and
/// there is no name.
pub proof fn id_va_ten_trong_ban_tin(payload: Gt, j: Gt)
    requires
        payload.truong("job"@) == Some(j),
    ensures
        j.truong("id"@) matches Some(Gt::Chuoi(s)) ==> id_tho(payload) == s,
        !(j.truong("id"@) matches Some(Gt::Chuoi(s))) ==> id_tho(payload).len() == 0,
        j.truong("name"@) matches Some(Gt::Chuoi(s)) ==> ten_tho(payload) == Some(s),
        !(j.truong("name"@) matches Some(Gt::Chuoi(s))) ==> ten_tho(payload) is None,
{
}

/// The view of an order and of a report tells every field: what differs in a field differs in the view.
pub proof fn view_giu_moi_truong(a: KetQua, l: LenhIn, pdf: Result<Vec<u8>, String>)
    ensures
        a@.job_id == a.job_id@ && a@.trang_thai == a.trang_thai@ && a@.loai == a.loai,
        a@.con_trong_hang_doi == a.con_trong_hang_doi && a@.ban_da_in == a.ban_da_in,
        a.loi_cuoi matches Some(s) ==> a@.loi_cuoi == Some(s@),
        a.loi_cuoi is None ==> a@.loi_cuoi is None,
        l@.pdf == l.pdf@ && l@.may_in == l.may_in@ && l@.kho_giay == l.kho_giay@ && l@.khay == l.khay@,
        l@.so_ban == l.so_ban && l@.job_id == l.job_id@,
        l.ten matches Some(s) ==> l@.ten == Some(s@),
        l.ten is None ==> l@.ten is None,
        pdf matches Ok(b) ==> giai_ma_cua(pdf) == Ok::<Seq<u8>, Seq<char>>(b@),
        pdf matches Err(e) ==> giai_ma_cua(pdf) == Err::<Seq<u8>, Seq<char>>(e@),
{
}

/// Whatever order `lenh_tu_job` gives for a job whose PDF decoded asks for the copies, the paper and the tray that the
/// job names, and for one copy and those of the settings where it names none.
pub proof fn lenh_tu_job_theo_job(job: JobIn, pdf: Result<Vec<u8>, String>, cfg: &Config, r: Result<LenhIn, KetQua>)
    requires
        call_ensures(lenh_tu_job, (job, pdf, cfg), r),
        pdf is Ok,
    ensures
        r is Ok,
        r->Ok_0.pdf@ == pdf->Ok_0@,
        job.copies matches Some(n) ==> r->Ok_0.so_ban == n,
        job.copies is None ==> r->Ok_0.so_ban == 1,
        job.paper_size matches Some(s) ==> r->Ok_0.kho_giay@ == s@,
        job.paper_size is None ==> r->Ok_0.kho_giay@ == cfg.paper_size@,
        job.tray matches Some(s) ==> r->Ok_0.khay@ == s@,
        job.tray is None ==> r->Ok_0.khay@ == cfg.tray@,
        r->Ok_0.may_in@ == cfg.printer_name@,
        r->Ok_0.job_id@ == job.id@,
{
}

} // verus!
