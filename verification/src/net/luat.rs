//! What the messages tell the server, and how the connection is kept, told by what can be read back.
use crate::bao_cao::{cau_hinh_cua, ket_qua_huy_cua, su_co_cua, thong_tin_app, trang_thai_cua, HoTro};
use crate::chu;
use crate::config::{CauHinh, Config};
use crate::gia_tri::{vi_tri_truong, GiaTri, Gt};
use crate::hop_thu_di::CanHoTro;
use crate::job::{base64_cua, id_tho, JobEnvelope, KetQuaV};
use crate::net::viec::{
    dong_ket_qua, kem_vi_tri, thu_ket_qua, tiep_cua, tt_sau_ket_qua, viec_dung, BaoCaoV, BuocViec,
};
use crate::net::{
    ack_cua, ack_nhat_ky, bo_ngoac_cuoi, bo_ngoac_dau, chi_tiet_mat, cho_goc, cho_noi_lai, dong_gui_cua, lo_gui_cua,
    ly_do_theo, nen_doc_may_in, nen_hoi_hang_doi, noi_bang_trang, thu_sau_theo_doi, trang_thai_sau_cau_hinh,
    tt_sau_theo_doi, NhipV,
};
use crate::nhat_ky::DongGuiV;
use crate::spooler::kieu::QuanSatV;
use crate::state::{DaiV, LoaiDai, TrangThaiChung, TtV};
use crate::su_co::MaSuCo;
use crate::theo_doi_tiep::{KetLuanTiep, TiepV};
use crate::thoi_gian;
use vstd::prelude::*;
use vstd::string::*;

verus! {

proof fn ten_truong_khac_nhau()
    ensures
        "jobId"@.len() == 5,
        "loai"@.len() == 4,
        "mayIn"@.len() == 5,
        "luc"@.len() == 3,
        "chiTiet"@.len() == 7,
        "trangThai"@.len() == 9,
        "suKien"@.len() == 6,
        "noiDung"@.len() == 7,
        "dong"@.len() == 4,
        "boQua"@.len() == 5,
        "phienBan"@.len() == 8,
        "jobId"@[0] == 'j',
        "mayIn"@[0] == 'm',
        "noiDung"@[0] == 'n',
        "dong"@[0] == 'd',
        "boQua"@[0] == 'b',
{
    reveal_strlit("jobId");
    reveal_strlit("loai");
    reveal_strlit("mayIn");
    reveal_strlit("luc");
    reveal_strlit("chiTiet");
    reveal_strlit("trangThai");
    reveal_strlit("suKien");
    reveal_strlit("noiDung");
    reveal_strlit("dong");
    reveal_strlit("boQua");
    reveal_strlit("phienBan");
}

/// A message of trouble with a job can be read back: the job, the code of the trouble, the printer, the time,
/// and the detail exactly where there is one.
pub proof fn su_co_doc_lai_duoc(id: Seq<char>, loai: MaSuCo, ct: Option<Seq<char>>, may_in: Seq<char>, luc: u64)
    ensures
        su_co_cua(id, loai, ct, may_in, luc).truong("jobId"@) == Some(Gt::Chuoi(id)),
        su_co_cua(id, loai, ct, may_in, luc).truong("loai"@) == Some(Gt::Chuoi(loai.ma_cua())),
        su_co_cua(id, loai, ct, may_in, luc).truong("mayIn"@) == Some(Gt::Chuoi(may_in)),
        su_co_cua(id, loai, ct, may_in, luc).truong("luc"@) == Some(Gt::Chuoi(thoi_gian::iso_chu(luc as int))),
        ct matches Some(s) ==> su_co_cua(id, loai, ct, may_in, luc).truong("chiTiet"@) == Some(Gt::Chuoi(s)),
        ct is None ==> su_co_cua(id, loai, ct, may_in, luc).truong("chiTiet"@) is None,
{
    ten_truong_khac_nhau();
    reveal_with_fuel(vi_tri_truong, 6);
}

/// A message of the printer's state can be read back: the code, the printer, the time, and the detail exactly
/// where there is one.
pub proof fn trang_thai_doc_lai_duoc(ma: MaSuCo, ct: Option<Seq<char>>, may_in: Seq<char>, luc: u64)
    ensures
        trang_thai_cua(ma, ct, may_in, luc).truong("trangThai"@) == Some(Gt::Chuoi(ma.ma_cua())),
        trang_thai_cua(ma, ct, may_in, luc).truong("mayIn"@) == Some(Gt::Chuoi(may_in)),
        trang_thai_cua(ma, ct, may_in, luc).truong("luc"@) == Some(Gt::Chuoi(thoi_gian::iso_chu(luc as int))),
        ct matches Some(s) ==> trang_thai_cua(ma, ct, may_in, luc).truong("chiTiet"@) == Some(Gt::Chuoi(s)),
        ct is None ==> trang_thai_cua(ma, ct, may_in, luc).truong("chiTiet"@) is None,
        trang_thai_cua(ma, ct, may_in, luc).truong("jobId"@) is None,
{
    ten_truong_khac_nhau();
    reveal_with_fuel(vi_tri_truong, 6);
}

/// A batch of the log holds its lines in their order, each with its time, its event and its words, and how many
/// were left out.
pub proof fn lo_nhat_ky_doc_lai_duoc(lo: Seq<DongGuiV>, bo_qua: u64, i: int)
    requires
        0 <= i < lo.len(),
    ensures
        lo_gui_cua(lo, bo_qua).truong("boQua"@) == Some(Gt::So(bo_qua as int)),
        lo_gui_cua(lo, bo_qua).truong("dong"@) is Some,
        lo_gui_cua(lo, bo_qua).truong("dong"@)->0 is Mang,
        lo_gui_cua(lo, bo_qua).truong("dong"@)->0->Mang_0.len() == lo.len(),
        lo_gui_cua(lo, bo_qua).truong("dong"@)->0->Mang_0[i].truong("luc"@) == Some(
            Gt::Chuoi(thoi_gian::iso_chu(lo[i].luc as int)),
        ),
        lo_gui_cua(lo, bo_qua).truong("dong"@)->0->Mang_0[i].truong("suKien"@) == Some(Gt::Chuoi(lo[i].su_kien)),
        lo_gui_cua(lo, bo_qua).truong("dong"@)->0->Mang_0[i].truong("noiDung"@) == Some(Gt::Chuoi(lo[i].noi_dung)),
{
    ten_truong_khac_nhau();
    reveal_with_fuel(vi_tri_truong, 5);
    assert(lo_gui_cua(lo, bo_qua).truong("dong"@)->0->Mang_0[i] == dong_gui_cua(lo[i]));
}

/// What the server understands is what it lists under "hoTro", each feature by its own name; without such a
/// list it understands nothing.
pub proof fn ho_tro_theo_danh_sach(ds: Seq<Gt>, payload: Gt)
    ensures
        payload.truong("hoTro"@) == Some(Gt::Mang(ds)) ==> {
            &&& cau_hinh_cua(payload).khong_ro <==> ds.contains(Gt::Chuoi("khong_ro"@))
            &&& cau_hinh_cua(payload).su_co <==> ds.contains(Gt::Chuoi("su_co"@))
            &&& cau_hinh_cua(payload).trang_thai_may_in <==> ds.contains(Gt::Chuoi("trang_thai_may_in"@))
            &&& cau_hinh_cua(payload).nhat_ky_app <==> ds.contains(Gt::Chuoi("nhat_ky_app"@))
            &&& cau_hinh_cua(payload).hang_doi <==> ds.contains(Gt::Chuoi("hang_doi"@))
        },
        !(payload.truong("hoTro"@) matches Some(Gt::Mang(x))) ==> cau_hinh_cua(payload) == (HoTro {
            khong_ro: false,
            su_co: false,
            trang_thai_may_in: false,
            nhat_ky_app: false,
            hang_doi: false,
        }),
{
}

/// A reply to a request says something exactly where it names an invoice and says yes or no, and then what it
/// says; what it leaves out is empty.
pub proof fn tra_loi_huy_doc_dung(g: Gt)
    ensures
        ket_qua_huy_cua(g) is Some <==> (g.truong("id"@) matches Some(Gt::Chuoi(a))) && (g.truong("ok"@) matches Some(
            Gt::Bool(b),
        )),
        ket_qua_huy_cua(g) matches Some(k) ==> g.truong("id"@) == Some(Gt::Chuoi(k.id)) && g.truong("ok"@) == Some(
            Gt::Bool(k.ok),
        ),
        ket_qua_huy_cua(g) matches Some(k) ==> (k.cach.len() > 0 ==> g.truong("cach"@) == Some(Gt::Chuoi(k.cach))) && (
        k.loi.len() > 0 ==> g.truong("loi"@) == Some(Gt::Chuoi(k.loi))) && (k.noi_dung.len() > 0 ==> g.truong("noiDung"@)
            == Some(Gt::Chuoi(k.noi_dung))),
        ket_qua_huy_cua(g) matches Some(k) ==> (g.truong("cach"@) matches Some(Gt::Chuoi(s)) ==> k.cach == s) && (g.truong(
            "loi"@,
        ) matches Some(Gt::Chuoi(s)) ==> k.loi == s) && (g.truong("noiDung"@) matches Some(Gt::Chuoi(s)) ==> k.noi_dung == s),
{
}

/// A batch of the log was taken exactly where the reply says so; else the server's words tell why.
pub proof fn ack_nhat_ky_dung(g: Gt)
    ensures
        ack_nhat_ky(g) is Ok <==> g.truong("ok"@) == Some(Gt::Bool(true)),
        ack_nhat_ky(g) matches Err(e) ==> (g.truong("loi"@) matches Some(Gt::Chuoi(s)) ==> e == s),
        ack_nhat_ky(g) matches Err(e) ==> (!(g.truong("loi"@) matches Some(Gt::Chuoi(s))) ==> e == "ack khong ok"@),
{
}

/// The pauses of sending the log, in milliseconds: three seconds after a batch that was taken and was not full,
/// none after a full one; after a failure, in which the batch goes back, twice as long each time, a minute at
/// most, until a batch is taken. A failure is noted where it is another than the last, and the first success
/// after failures is noted.
pub proof fn nhip_gui_nhat_ky(n: NhipV, e: Seq<char>, so: nat)
    ensures
        n.sau_lo(Ok(()), so).0 == (NhipV { nghi_ms: 3_000, loi_truoc: None }),
        !n.sau_lo(Ok(()), so).1.tra_lai,
        n.sau_lo(Ok(()), so).1.ghi <==> n.loi_truoc is Some,
        so < 500 ==> n.sau_lo(Ok(()), so).1.ngu_ms == 3_000,
        so >= 500 ==> n.sau_lo(Ok(()), so).1.ngu_ms == 0,
        n.sau_lo(Err(e), so).1.tra_lai,
        n.sau_lo(Err(e), so).1.ghi <==> n.loi_truoc != Some(e),
        n.sau_lo(Err(e), so).1.ngu_ms == n.nghi_ms,
        n.sau_lo(Err(e), so).0.loi_truoc == Some(e),
        n.nghi_ms <= 30_000 ==> n.sau_lo(Err(e), so).0.nghi_ms == 2 * n.nghi_ms,
        n.nghi_ms > 30_000 ==> n.sau_lo(Err(e), so).0.nghi_ms == 60_000,
{
}

/// The pause before a try doubles each time, from one second to thirty at most.
pub proof fn cho_gap_doi(lan: u32)
    ensures
        cho_goc(0) == 1_000,
        lan < u32::MAX && 2 * cho_goc(lan) <= 30_000 ==> cho_goc((lan + 1) as u32) == 2 * cho_goc(lan),
        lan < u32::MAX && 2 * cho_goc(lan) > 30_000 ==> cho_goc((lan + 1) as u32) == 30_000,
        1_000 <= cho_goc(lan) <= 30_000,
{
}

/// Texts are joined with one blank between each two, and nothing around them.
pub proof fn noi_them_mot(ds: Seq<Seq<char>>, x: Seq<char>)
    ensures
        noi_bang_trang(Seq::empty()).len() == 0,
        noi_bang_trang(seq![x]) == x,
        ds.len() > 0 ==> noi_bang_trang(ds.push(x)) == noi_bang_trang(ds) + seq![' '] + x,
{
    reveal_strlit(" ");
    assert(" "@ =~= seq![' ']);
    if ds.len() > 0 {
        assert(ds.push(x).drop_last() =~= ds);
    }
}

/// A refusal of the server is an error that holds "ConnectError frame:", and no other; its reason is the message
/// of the JSON behind it where there is one, and else what stands behind it, without the white space and the
/// quotation marks around it.
pub proof fn ly_do_tu_choi_dung(s: Seq<char>, r: Seq<char>, message: Option<Seq<char>>)
    ensures
        ly_do_theo(s, message) is Some <==> chu::co_chua(s, "ConnectError frame:"@),
        message is Some && chu::co_chua(s, "ConnectError frame:"@) ==> ly_do_theo(s, message) == message,
        message is None && s == "ConnectError frame:"@ + r ==> ly_do_theo(s, message) == Some(
            bo_ngoac_cuoi(bo_ngoac_dau(chu::bo_trang(r))),
        ),
{
    let m = "ConnectError frame:"@;
    reveal_strlit("ConnectError frame:");
    chu::vi_tri_dau_la_dau(s, m, 0);
    if let Some(i) = chu::vi_tri_dau(s, m, 0) {
        assert(chu::khop_tai(s, m, i));
    } else if chu::co_chua(s, m) {
        let i = choose|i: int| chu::khop_tai(s, m, i);
        assert(0 <= i);
    }
    if s == m + r {
        assert(s.subrange(0, m.len() as int) =~= m);
        assert(chu::khop_tai(s, m, 0));
        assert(s.subrange(m.len() as int, s.len() as int) =~= r);
    }
}

/// Quotation marks around a text are taken off, and nothing else.
pub proof fn bo_ngoac_quanh(x: Seq<char>)
    requires
        x.len() > 0 ==> x[0] != '"' && x[x.len() - 1] != '"',
    ensures
        bo_ngoac_cuoi(bo_ngoac_dau(seq!['"'] + x + seq!['"'])) == x,
        bo_ngoac_cuoi(bo_ngoac_dau(x)) == x,
{
    let q = seq!['"'] + x + seq!['"'];
    let y = x + seq!['"'];
    assert(q.subrange(1, q.len() as int) =~= y);
    assert(q[0] == '"');
    if x.len() > 0 {
        assert(y[0] == x[0]);
        assert(bo_ngoac_dau(y) == y);
        assert(y.subrange(0, y.len() - 1) =~= x);
        assert(bo_ngoac_dau(q) == y);
        assert(y[y.len() - 1] == '"');
        assert(bo_ngoac_cuoi(y) == bo_ngoac_cuoi(x));
    } else {
        assert(y.subrange(1, y.len() as int) =~= x);
        assert(bo_ngoac_dau(y) == bo_ngoac_dau(x));
        assert(bo_ngoac_dau(q) == bo_ngoac_dau(y));
    }
}

/// What is told of a job of which all trace was lost names the invoice and fits what happened to it.
pub proof fn chi_tiet_mat_theo_cach(j: TiepV, kl: KetLuanTiep)
    requires
        !(kl is DaIn),
    ensures
        kl is Mat ==> (j.su_co_luc_roi matches Some(m) ==> chi_tiet_mat(j, kl) == "Hoá đơn "@ + j.so_hoa_don
            + " đã rời hàng đợi Windows đúng lúc máy in báo "@ + m.nhan_cua()
            + " — có thể đang nằm trong bộ nhớ máy in; khắc phục xong đợi vài phút, chỉ in lại nếu vẫn không thấy ra"@),
        kl is Mat && j.su_co_luc_roi is None && j.usb is Some ==> chi_tiet_mat(j, kl) == "Hoá đơn "@ + j.so_hoa_don
            + " đã gửi xuống máy in USB nhưng app không thấy máy in nó (máy bị tắt / lệnh bị huỷ trên máy?) — kiểm khay giấy, in lại nếu chưa có"@,
        kl is Mat && j.su_co_luc_roi is None && j.usb is None ==> chi_tiet_mat(j, kl) == "Hoá đơn "@ + j.so_hoa_don
            + " không còn trong hàng đợi Windows mà app không thấy in (bị xoá/huỷ?) — kiểm khay giấy, in lại nếu chưa có"@,
        kl is HetHan && j.usb is Some ==> chi_tiet_mat(j, kl) == "Hoá đơn "@ + j.so_hoa_don
            + " theo dõi quá 12 giờ, máy in USB vẫn chưa in xong (hoá đơn nằm trong bộ nhớ máy in) — kiểm máy in và khay giấy, in lại nếu chưa có"@,
        kl is HetHan && j.usb is None ==> chi_tiet_mat(j, kl) == "Hoá đơn "@ + j.so_hoa_don
            + " theo dõi quá 12 giờ không thấy in (vẫn nằm trong hàng đợi Windows) — kiểm máy in và khay giấy, in lại nếu chưa có"@,
{
}

/// The letter after watching a job further: where it was seen to print, the report "printed" under its id, only
/// to a server that knows of open outcomes; else a message that it is not confirmed, of the job's own printer,
/// only to a server that knows of trouble. It never says that the job failed.
pub proof fn thu_theo_doi_dung(j: TiepV, kl: KetLuanTiep, mac_dinh: Seq<char>, luc: u64)
    ensures
        ({
            let t = thu_sau_theo_doi(j, kl, mac_dinh, luc);
            &&& t.gia_tri.truong("jobId"@) == Some(Gt::Chuoi(j.job_id))
            &&& kl is DaIn ==> t.su_kien == "ket-qua"@ && t.can == CanHoTro::KhongRo && t.gia_tri.truong("trangThai"@) == Some(
                Gt::Chuoi("da_in"@),
            ) && (j.ghi_chu matches Some(s) ==> t.gia_tri.truong("loiCuoi"@) == Some(Gt::Chuoi(s)))
            &&& !(kl is DaIn) ==> t.su_kien == "su-co"@ && t.can == CanHoTro::SuCo && t.gia_tri.truong("loai"@) == Some(
                Gt::Chuoi("khong_xac_nhan"@),
            ) && t.gia_tri.truong("chiTiet"@) == Some(Gt::Chuoi(chi_tiet_mat(j, kl)))
            &&& !(kl is DaIn) && j.may_in.len() > 0 ==> t.gia_tri.truong("mayIn"@) == Some(Gt::Chuoi(j.may_in))
            &&& !(kl is DaIn) && j.may_in.len() == 0 ==> t.gia_tri.truong("mayIn"@) == Some(Gt::Chuoi(mac_dinh))
        }),
{
    if kl is DaIn {
        let k = KetQuaV { loi_cuoi: j.ghi_chu, ..KetQuaV::da_in(j.job_id) };
        crate::job::luat::ban_tin_doc_lai_duoc(k);
    } else {
        su_co_doc_lai_duoc(
            j.job_id,
            MaSuCo::KhongXacNhan,
            Some(chi_tiet_mat(j, kl)),
            if j.may_in.len() == 0 {
                mac_dinh
            } else {
                j.may_in
            },
            luc,
        );
    }
}

/// The screen after watching a job further: where it was seen to print its line says so and its strip goes away,
/// and no other line or strip changes; else its strip is open, and tells of the printer's trouble only where
/// the job is gone and left the queue in that trouble.
pub proof fn man_hinh_sau_theo_doi(tt: TtV, j: TiepV, kl: KetLuanTiep, i: int, x: DaiV)
    requires
        tt.dai_jobs.len() <= 5,
        0 <= i < tt.jobs.len(),
        tt.dai_jobs.contains(x),
    ensures
        tt_sau_theo_doi(tt, j, kl).jobs.len() == tt.jobs.len(),
        tt.jobs[i].job_id != j.job_id ==> tt_sau_theo_doi(tt, j, kl).jobs[i] == tt.jobs[i],
        kl is DaIn && tt.jobs[i].job_id == j.job_id ==> tt_sau_theo_doi(tt, j, kl).jobs[i].trang_thai == "da_in"@
            && tt_sau_theo_doi(tt, j, kl).jobs[i].loai is None && tt_sau_theo_doi(tt, j, kl).jobs[i].sau_khac_phuc,
        kl is DaIn ==> (tt_sau_theo_doi(tt, j, kl).dai_jobs.contains(x) <==> x.job_id != j.job_id),
        !(kl is DaIn) ==> tt_sau_theo_doi(tt, j, kl).jobs[i].trang_thai == tt.jobs[i].trang_thai,
        !(kl is DaIn) ==> tt_sau_theo_doi(tt, j, kl).dai_jobs.len() > 0,
        !(kl is DaIn) ==> ({
            let d = tt_sau_theo_doi(tt, j, kl).dai_jobs.last();
            &&& d.loai_dai == LoaiDai::KhongRo && d.job_id == j.job_id && d.so_hoa_don == j.so_hoa_don
            &&& kl is Mat && j.su_co_luc_roi is Some ==> d.ma == j.su_co_luc_roi && d.ngoai_hang_doi
            &&& kl is HetHan || j.su_co_luc_roi is None ==> d.ma == Some(MaSuCo::KhongXacNhan) && !d.ngoai_hang_doi
        }),
        tt_sau_theo_doi(tt, j, kl).may_in == tt.may_in,
        tt_sau_theo_doi(tt, j, kl).da_noi == tt.da_noi,
{
    if kl is DaIn {
        let p = |d: DaiV| d.job_id != j.job_id;
        crate::day::giu_dung(tt.dai_jobs, p);
        let g = crate::day::giu(tt.dai_jobs, p);
        assert(tt_sau_theo_doi(tt, j, kl).dai_jobs == g);
        let k = choose|k: int| 0 <= k < tt.dai_jobs.len() && tt.dai_jobs[k] == x;
        assert(p(tt.dai_jobs[k]) ==> g.contains(x));
        if g.contains(x) {
            let m = choose|m: int| 0 <= m < g.len() && g[m] == x;
            assert(p(g[m]));
        }
    } else {
        crate::state::luat::mat_dau_co_dai(
            tt,
            j.job_id,
            j.so_hoa_don,
            if kl is Mat {
                j.su_co_luc_roi
            } else {
                None
            },
            i,
        );
    }
}

/// Only an open report tells whether the job is still in the queue: yes exactly where it is and no copy came
/// out. Nothing else of the report changes.
pub proof fn vi_tri_chi_khi_khong_ro(kq: KetQuaV, con: bool)
    ensures
        kq.trang_thai != "khong_ro"@ ==> kem_vi_tri(kq, con) == kq,
        kq.trang_thai == "khong_ro"@ ==> (kem_vi_tri(kq, con).con_trong_hang_doi == Some(true) <==> con && kq.ban_da_in is None),
        kq.trang_thai == "khong_ro"@ ==> (kem_vi_tri(kq, con).con_trong_hang_doi == Some(false) <==> !con || kq.ban_da_in is Some),
        kem_vi_tri(kq, con).job_id == kq.job_id && kem_vi_tri(kq, con).trang_thai == kq.trang_thai && kem_vi_tri(
            kq,
            con,
        ).loi_cuoi == kq.loi_cuoi && kem_vi_tri(kq, con).loai == kq.loai && kem_vi_tri(kq, con).ban_da_in == kq.ban_da_in,
{
}

/// The letter of a report is the event "ket-qua" with its job and state; an open one goes only to a server that
/// knows of open outcomes, any other to every server.
pub proof fn thu_ket_qua_dung(kq: KetQuaV)
    ensures
        thu_ket_qua(kq).su_kien == "ket-qua"@,
        thu_ket_qua(kq).gia_tri.truong("jobId"@) == Some(Gt::Chuoi(kq.job_id)),
        thu_ket_qua(kq).gia_tri.truong("trangThai"@) == Some(Gt::Chuoi(kq.trang_thai)),
        thu_ket_qua(kq).can == CanHoTro::KhongRo <==> kq.trang_thai == "khong_ro"@,
        thu_ket_qua(kq).can == CanHoTro::KhongCan <==> kq.trang_thai != "khong_ro"@,
{
    crate::job::luat::ban_tin_doc_lai_duoc(kq);
}

/// The line of a report carries the invoice, the customer, the state, the code, the copies and the time, and is
/// the first on the screen.
pub proof fn dong_bao_cao_len_dau(tt: TtV, id: Seq<char>, nhan: (Seq<char>, Option<Seq<char>>), kq: KetQuaV, luc: Seq<char>)
    requires
        tt.dai_jobs.len() <= 5,
        kq.trang_thai == "loi"@ || kq.trang_thai == "khong_ro"@ || kq.trang_thai == "da_in"@,
    ensures
        tt_sau_ket_qua(tt, id, nhan, kq, luc).jobs.len() > 0,
        ({
            let j = tt_sau_ket_qua(tt, id, nhan, kq, luc).jobs[0];
            j.job_id == id && j.so_hoa_don == nhan.0 && j.khach == nhan.1 && j.trang_thai == kq.trang_thai && j.loai == kq.loai
                && j.ban_da_in == kq.ban_da_in && j.luc == luc && !j.sau_khac_phuc
        }),
        kq.trang_thai != "da_in"@ ==> ({
            let d = tt_sau_ket_qua(tt, id, nhan, kq, luc).dai_jobs.last();
            &&& d.ma == kq.loai && d.so_hoa_don == nhan.0 && d.job_id == id
            &&& kq.trang_thai == "loi"@ ==> d.loai_dai == LoaiDai::Loi
            &&& kq.trang_thai == "khong_ro"@ ==> d.loai_dai == LoaiDai::KhongRo && d.ban_da_in == kq.ban_da_in
                && d.ngoai_hang_doi == (kq.con_trong_hang_doi == Some(false))
        }),
        tt_sau_ket_qua(tt, id, nhan, kq, luc).may_in == tt.may_in,
{
    crate::state::them_job_len_dau(tt, dong_ket_qua(id, nhan, kq, luc));
    if kq.trang_thai != "da_in"@ {
        crate::state::luat::khong_in_thi_co_dai(
            tt.dai_jobs,
            id,
            nhan.0,
            kq.trang_thai,
            kq.loai,
            kq.con_trong_hang_doi == Some(false),
            kq.ban_da_in,
        );
    }
}

/// A job is watched further exactly where the report says that it is open and still in the queue, and what it is
/// known by was seen; with its own id, invoice, printer, code, what it is known by, and what the device said.
pub proof fn theo_doi_tiep_khi_nao(id: Seq<char>, so: Seq<char>, may_in: Seq<char>, kq: KetQuaV, bc: BaoCaoV, luc: u64)
    ensures
        tiep_cua(id, so, may_in, kq, bc, luc) is Some <==> kq.trang_thai == "khong_ro"@ && kq.con_trong_hang_doi == Some(true)
            && bc.con_trong_hang_doi is Some,
        tiep_cua(id, so, may_in, kq, bc, luc) matches Some(t) ==> t.job_id == id && t.so_hoa_don == so && t.may_in == may_in
            && t.loai == kq.loai && t.luc == luc && Some(t.bang_chung) == bc.con_trong_hang_doi && t.usb == bc.trong_may_in_usb
            && t.su_co_luc_roi is None && t.ghi_chu is None,
{
}

/// Trouble seen while a job is watched: told to the server under the job's id and printer, once for each kind,
/// and only to a server that knows of trouble; an empty detail is left out. What was seen is remembered.
pub proof fn thay_su_co_thi_bao(b: BaoCaoV, loai: MaSuCo, ct: Seq<char>, luc: u64)
    ensures
        b.thu_su_co(loai, ct, luc).su_kien == "su-co"@,
        b.thu_su_co(loai, ct, luc).can == CanHoTro::SuCo,
        b.thu_su_co(loai, ct, luc).gia_tri.truong("jobId"@) == Some(Gt::Chuoi(b.job_id)),
        b.thu_su_co(loai, ct, luc).gia_tri.truong("loai"@) == Some(Gt::Chuoi(loai.ma_cua())),
        b.thu_su_co(loai, ct, luc).gia_tri.truong("mayIn"@) == Some(Gt::Chuoi(b.may_in)),
        ct.len() > 0 ==> b.thu_su_co(loai, ct, luc).gia_tri.truong("chiTiet"@) == Some(Gt::Chuoi(ct)),
        ct.len() == 0 ==> b.thu_su_co(loai, ct, luc).gia_tri.truong("chiTiet"@) is None,
        b.sau(QuanSatV::SuCo { loai, chi_tiet: ct }, b.bo_loc).da_thay_su_co,
{
    su_co_doc_lai_duoc(
        b.job_id,
        loai,
        if ct.len() == 0 {
            None
        } else {
            Some(ct)
        },
        b.may_in,
        luc,
    );
}

/// What is seen of a job while it is printed is remembered, each thing in its own place and the rest as it was:
/// that it is still in the queue and what it is known by, that it is in a USB printer and what that said, the
/// printer's state.
pub proof fn thay_gi_nho_nay(b: BaoCaoV, qs: QuanSatV)
    ensures
        ({
            let c = b.sau(qs, b.bo_loc);
            &&& c.job_id == b.job_id && c.so_hoa_don == b.so_hoa_don && c.may_in == b.may_in
            &&& (qs matches QuanSatV::ConTrongHangDoi(x)) ==> c.con_trong_hang_doi == Some(qs->ConTrongHangDoi_0)
                && c.trong_may_in_usb == b.trong_may_in_usb
            &&& qs is TrongMayInUsb ==> c.con_trong_hang_doi == Some(qs->bang_chung) && c.trong_may_in_usb == Some(
                (qs->da_thay_loi, qs->da_thay_in),
            )
            &&& qs is MayIn ==> c.may_in_da_chuyen == Some(qs->ma)
            &&& !(qs is MayIn) ==> c.may_in_da_chuyen == b.may_in_da_chuyen
            &&& !(qs is SuCo) ==> c.da_thay_su_co == b.da_thay_su_co
            &&& qs is DaRoiHangDoi || qs is SuCo || qs is MayIn ==> c.con_trong_hang_doi == b.con_trong_hang_doi
                && c.trong_may_in_usb == b.trong_may_in_usb
        }),
{
}

/// A whole order that could be read and decoded. The check is made once. Where it refuses, nothing is printed and
/// the report is an error under the job's id with the refusal's kind. Where it allows, the job's own PDF is printed
/// on the configured printer, as many copies as the job asks for and one where it asks for none, on its own paper and
/// tray where it names them; and the report says printed, failed or open exactly as printing did.
pub proof fn ca_viec_dung_theo_job(
    payload: Gt,
    doc: Result<JobEnvelope, String>,
    cfg: CauHinh,
    l: Seq<BuocViec>,
    m: int,
    bc: BaoCaoV,
    kq: KetQuaV,
    luc_ms: u64,
)
    requires
        viec_dung(payload, doc, cfg, l, m, bc, kq, luc_ms),
        doc is Ok,
        base64_cua(doc->Ok_0.job.pdf_base64@) is Ok,
    ensures
        l[1] is Kiem,
        l[m] is Gui,
        l[m]->Gui_0.su_kien == "ket-qua"@,
        l[m]->Gui_0.gia_tri.truong("jobId"@) == Some(Gt::Chuoi(doc->Ok_0.job.id@)),
        l[1] matches BuocViec::Kiem(Err(x)) ==> m == 2 && l[m]->Gui_0.gia_tri.truong("trangThai"@) == Some(Gt::Chuoi("loi"@))
            && (x.0.loai matches Some(c) ==> l[m]->Gui_0.gia_tri.truong("loai"@) == Some(Gt::Chuoi(c.ma_cua()))),
        l[1] matches BuocViec::Kiem(Ok(nen)) ==> m == 3 && l[2] is In && l[2]->In_nen == nen,
        l[1] matches BuocViec::Kiem(Ok(nen)) ==> ({
            let job = doc->Ok_0.job;
            let lenh = l[2]->In_lenh;
            &&& Ok::<Seq<u8>, Seq<char>>(lenh.pdf) == base64_cua(job.pdf_base64@)
            &&& lenh.job_id == job.id@ && lenh.may_in == cfg.printer_name
            &&& lenh.so_ban == (if job.copies is Some {
                job.copies->0
            } else {
                1u32
            })
            &&& job.paper_size matches Some(s) ==> lenh.kho_giay == s@
            &&& job.paper_size is None ==> lenh.kho_giay == cfg.paper_size
            &&& job.tray matches Some(s) ==> lenh.khay == s@
            &&& job.tray is None ==> lenh.khay == cfg.tray
        }),
        l[1] matches BuocViec::Kiem(Ok(nen)) ==> ({
            let tt = l[m]->Gui_0.gia_tri.truong("trangThai"@);
            &&& tt == Some(Gt::Chuoi("da_in"@)) <==> l[2]->In_kq is DaIn
            &&& tt == Some(Gt::Chuoi("loi"@)) <==> l[2]->In_kq is Loi
            &&& tt == Some(Gt::Chuoi("khong_ro"@)) <==> l[2]->In_kq is KhongRo
        }),
        l[m]->Gui_0.gia_tri.truong("conTrongHangDoi"@) == Some(Gt::Bool(true)) ==> bc.con_trong_hang_doi is Some,
{
    let a = l.subrange(0, m + 2);
    let d = a.subrange(1, m);
    assert(a[m] == l[m] && a[m + 1] == l[m + 1] && a[0] == l[0]);
    crate::job::luat::lenh_theo_job(doc->Ok_0.job, base64_cua(doc->Ok_0.job.pdf_base64@)->Ok_0, cfg);
    assert(d[0] == l[1]);
    if m == 3 {
        assert(d[1] == l[2]);
        crate::job::luat::bao_dung_ket_qua(doc->Ok_0.job.id@, l[2]->In_kq);
    }
    let xong = kem_vi_tri(kq, bc.con_trong_hang_doi is Some);
    crate::job::luat::ban_tin_doc_lai_duoc(xong);
    crate::job::trang_thai_khac_nhau();
}

/// An order that could not be read or decoded: nothing is checked and nothing printed, and the report is an error,
/// under the job's id where the message could be read and else under the id that stands in it.
pub proof fn ca_viec_hong_khong_in(
    payload: Gt,
    doc: Result<JobEnvelope, String>,
    cfg: CauHinh,
    l: Seq<BuocViec>,
    m: int,
    bc: BaoCaoV,
    kq: KetQuaV,
    luc_ms: u64,
)
    requires
        viec_dung(payload, doc, cfg, l, m, bc, kq, luc_ms),
        doc is Err || base64_cua(doc->Ok_0.job.pdf_base64@) is Err,
    ensures
        m == 1,
        l.len() == 4,
        l[0] is GhiBatDau && l[1] is Gui && l[2] is GhiKetQua && l[3] is BayGio,
        l[1]->Gui_0.su_kien == "ket-qua"@,
        l[1]->Gui_0.gia_tri.truong("trangThai"@) == Some(Gt::Chuoi("loi"@)),
        doc matches Ok(env) ==> l[1]->Gui_0.gia_tri.truong("jobId"@) == Some(Gt::Chuoi(env.job.id@)),
        doc is Err ==> l[1]->Gui_0.gia_tri.truong("jobId"@) == Some(Gt::Chuoi(id_tho(payload))),
{
    let a = l.subrange(0, m + 2);
    let d = a.subrange(1, m);
    assert(a[m] == l[m] && a[m + 1] == l[m + 1] && a[0] == l[0]);
    crate::job::luat::job_hong_duoc_tra_loi(payload, doc, cfg);
    let xong = kem_vi_tri(kq, bc.con_trong_hang_doi is Some);
    crate::job::luat::ban_tin_doc_lai_duoc(xong);
    crate::job::trang_thai_khac_nhau();
}

/// An acknowledgement is the first value that came; where that is a list that is not empty, its first item; and
/// nothing where nothing came.
pub proof fn ack_la_gia_tri_dau(ds: Seq<GiaTri>)
    ensures
        ds.len() == 0 ==> ack_cua(ds) == Gt::Rong,
        ds.len() > 0 && !(ds[0] is Mang) ==> ack_cua(ds) == ds[0]@,
        ds.len() > 0 ==> (ds[0] matches GiaTri::Mang(v) ==> (v@.len() > 0 ==> ack_cua(ds) == v@[0]@) && (v@.len() == 0
            ==> ack_cua(ds) == ds[0]@)),
{
}

/// The screen after something was seen while a job prints: new trouble of a kind that was not told yet puts up the
/// job's strip, which is none of an outcome; a job that left the queue is told to wait for the printer; anything
/// else changes nothing.
pub proof fn man_hinh_trong_luc_in(b: BaoCaoV, tt: TtV, qs: QuanSatV, i: int)
    requires
        tt.dai_jobs.len() <= 5,
        0 <= i < tt.jobs.len(),
    ensures
        qs matches QuanSatV::SuCo { loai, chi_tiet } ==> (b.bo_loc.da_bao(loai) ==> b.tt_sau(tt, qs) == tt),
        qs matches QuanSatV::SuCo { loai, chi_tiet } ==> (!b.bo_loc.da_bao(loai) ==> b.tt_sau(tt, qs).dai_jobs.len() > 0 && ({
            let d = b.tt_sau(tt, qs).dai_jobs.last();
            d.loai_dai == LoaiDai::DangTheoDoi && d.ma == Some(loai) && d.job_id == b.job_id && d.so_hoa_don == b.so_hoa_don
                && !d.ngoai_hang_doi && d.ban_da_in is None
        }) && b.tt_sau(tt, qs).jobs == tt.jobs),
        qs is DaRoiHangDoi ==> b.tt_sau(tt, qs).dai_jobs == tt.dai_jobs,
        qs is DaRoiHangDoi && tt.jobs[i].job_id == b.job_id && tt.jobs[i].trang_thai == "dang_gui"@ ==> b.tt_sau(tt, qs).jobs[i].trang_thai
            == "cho_may_in"@,
        qs is DaRoiHangDoi && tt.jobs[i].job_id != b.job_id ==> b.tt_sau(tt, qs).jobs[i] == tt.jobs[i],
        !(qs is SuCo) && !(qs is DaRoiHangDoi) ==> b.tt_sau(tt, qs) == tt,
{
    if let QuanSatV::SuCo { loai, chi_tiet } = qs {
        if !b.bo_loc.da_bao(loai) {
            let d = DaiV {
                loai_dai: LoaiDai::DangTheoDoi,
                ma: Some(loai),
                so_hoa_don: b.so_hoa_don,
                job_id: b.job_id,
                ngoai_hang_doi: false,
                ban_da_in: None,
            };
            crate::state::luat::dai_moi_la_cuoi(tt.dai_jobs, d);
        }
    }
}

/// The printer is read while no job is being printed, and while one is only once that has taken twenty seconds; the
/// queue is asked for on every new connection, and on the same one every thirty seconds.
pub proof fn doc_va_hoi_khi_nao(tu: Option<u64>, t: u64, da_hoi: Option<u64>, the_he: u64, luc: u64, doc: bool, hoi: bool)
    requires
        call_ensures(nen_doc_may_in, (tu, t), doc),
        call_ensures(nen_hoi_hang_doi, (da_hoi, the_he, luc, t), hoi),
    ensures
        tu is None ==> doc,
        tu matches Some(x) ==> (doc <==> t >= x + 20_000),
        da_hoi != Some(the_he) ==> hoi,
        da_hoi == Some(the_he) ==> (hoi <==> t >= luc + 30_000),
{
}

/// After the server has said what it understands it is sent what was just read, as read while idle, and else the
/// latest that is known, as not; and nothing exactly where neither is there.
pub proof fn gui_gi_sau_cau_hinh(
    doc: Option<(MaSuCo, Option<String>)>,
    tt: &TrangThaiChung,
    r: Option<(MaSuCo, Option<String>, bool)>,
)
    requires
        call_ensures(trang_thai_sau_cau_hinh, (doc, tt), r),
    ensures
        r is None <==> doc is None && tt@.may_in is None,
        doc matches Some(x) ==> (r->0).0 == x.0 && (r->0).2,
        doc is None ==> (tt@.may_in matches Some(x) ==> (r->0).0 == x.0 && !(r->0).2),
{
}

/// The pause before a try is between its plain length and a quarter more, whatever chance adds.
pub proof fn cho_noi_lai_trong_khoang(lan: u32, ngau_nhien: u64, r: u64)
    requires
        call_ensures(cho_noi_lai, (lan, ngau_nhien), r),
    ensures
        cho_goc(lan) <= r <= cho_goc(lan) + cho_goc(lan) / 4,
        1_000 <= r <= 37_500,
        ngau_nhien == 0 ==> r == cho_goc(lan),
{
    let k = cho_goc(lan) as int / 4 + 1;
    assert(0int % k == 0) by (nonlinear_arith)
        requires
            k > 0,
    ;
}

/// What the agent tells of itself: the printer, the tray and the paper of its settings and the computer's name, each
/// under its own name. The token is not among them.
pub proof fn thong_tin_app_doc_lai_duoc(cfg: &Config, may: &str, r: GiaTri)
    requires
        call_ensures(thong_tin_app, (cfg, may), r),
    ensures
        r@.truong("mayIn"@) == Some(Gt::Chuoi(cfg@.printer_name)),
        r@.truong("khay"@) == Some(Gt::Chuoi(cfg@.tray)),
        r@.truong("khoGiay"@) == Some(Gt::Chuoi(cfg@.paper_size)),
        r@.truong("may"@) == Some(Gt::Chuoi(may@)),
        r@->DoiTuong_0.len() == 5,
        r@.truong("token"@) is None,
{
    ten_truong_khac_nhau();
    reveal_strlit("khay");
    reveal_strlit("khoGiay");
    reveal_strlit("may");
    reveal_strlit("token");
    assert("khay"@.len() == 4 && "khoGiay"@.len() == 7 && "may"@.len() == 3 && "token"@.len() == 5 && "token"@[0] == 't');
    reveal_with_fuel(vi_tri_truong, 7);
}

} // verus!
