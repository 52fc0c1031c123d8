//! How the program is called, under which name the file is printed, and what is told of a failure.
use crate::chu;
use crate::job::{co_duoi_pdf, KetQuaInV};
use crate::printing::{
    bo_cham_dau, cho_dung, id_sach, khi_sumatra_loi, ky_tu_an_toan, loc_ten, loi_sumatra, ma_chu, sau_ban,
    so_ban, ten_file_cua, ten_sach, BuocIn, KetQuaChoV, LenhFileV,
};
use crate::su_co::luat::tu_o_dau_cung_duoc;
use crate::su_co::MaSuCo;
use vstd::prelude::*;
use vstd::string::*;

verus! {

/// The program is called with the printer behind "-print-to", the paper and the tray behind "-print-settings",
/// without a window, and the file last. A tray "tray-x" is the tray called "Tray x"; any other text is the
/// tray's own name.
pub proof fn doi_so_cua_lenh(c: LenhFileV, x: Seq<char>)
    ensures
        c.argv().len() == 7,
        c.argv()[0] == c.sumatra,
        c.argv()[1] == "-print-to"@ && c.argv()[2] == c.printer,
        c.argv()[3] == "-print-settings"@ && c.argv()[5] == "-silent"@,
        c.argv()[6] == c.duong_dan,
        c.tray == "tray-"@ + x ==> c.argv()[4] == "paper="@ + c.paper_size + ","@ + ("bin=Tray "@ + x),
        !chu::bat_dau_bang(c.tray, "tray-"@) ==> c.argv()[4] == "paper="@ + c.paper_size + ","@ + ("bin="@ + c.tray),
{
    reveal_strlit("tray-");
    if c.tray == "tray-"@ + x {
        assert(c.tray.subrange(0, 5) =~= "tray-"@);
        assert(c.tray.subrange(5, c.tray.len() as int) =~= x);
    }
}

/// How long was slept in all.
pub open spec fn tong_ngu(l: Seq<BuocIn>) -> int
    decreases l.len(),
{
    if l.len() == 0 {
        0
    } else {
        (match l[0] {
            BuocIn::Ngu(n) => n as int,
            _ => 0,
        }) + tong_ngu(l.subrange(1, l.len() as int))
    }
}

/// Waiting for the program: it is killed, once and as the last thing, exactly where it did not end by itself;
/// "too late" is told only once it was waited for as long as it may take, and it is not waited for longer than
/// one look more. An answer that cannot be had is told in its own words.
pub proof fn cho_den_han(da_cho: int, han: u64, chu_ky: u64, l: Seq<BuocIn>, kq: KetQuaChoV)
    requires
        cho_dung(da_cho, han, chu_ky, l, kq),
        0 <= da_cho < han + chu_ky,
    ensures
        l.len() > 0,
        kq is Xong <==> !(l.last() is Giet),
        forall|k: int| 0 <= k < l.len() - 1 ==> !(#[trigger] l[k] is Giet),
        kq is QuaHan ==> da_cho + tong_ngu(l) >= han,
        da_cho + tong_ngu(l) < han + chu_ky,
        kq matches KetQuaChoV::Xong(k) ==> l.last() == BuocIn::ThuCho(Ok(Some(k))),
        kq matches KetQuaChoV::LoiCho(e) ==> l.len() >= 2 && l[l.len() - 2] == BuocIn::ThuCho(Err(e)),
        forall|k: int| 0 <= k < l.len() ==> (#[trigger] l[k] matches BuocIn::Ngu(n) ==> n == chu_ky),
    decreases l.len(),
{
    reveal_with_fuel(tong_ngu, 3);
    let d1 = l.subrange(1, l.len() as int);
    if l[0] matches BuocIn::ThuCho(Ok(None)) && da_cho < han {
        let d = l.subrange(2, l.len() as int);
        assert(d1.subrange(1, d1.len() as int) =~= d);
        assert(d1[0] == l[1]);
        cho_den_han(da_cho + chu_ky, han, chu_ky, d, kq);
        assert(l.last() == d.last());
        assert forall|k: int| 0 <= k < l.len() - 1 implies !(#[trigger] l[k] is Giet) by {
            if k >= 2 {
                assert(l[k] == d[k - 2]);
            }
        }
        assert forall|k: int| 0 <= k < l.len() implies (#[trigger] l[k] matches BuocIn::Ngu(n) ==> n == chu_ky) by {
            if k >= 2 {
                assert(l[k] == d[k - 2]);
            }
        }
        if kq is LoiCho {
            assert(l[l.len() - 2] == d[d.len() - 2]);
        }
        assert(tong_ngu(l) == chu_ky + tong_ngu(d));
    } else {
        assert(d1.len() <= 1);
        if d1.len() == 1 {
            assert(d1[0] == l[1]);
            assert(d1.subrange(1, 1).len() == 0);
        }
        assert(tong_ngu(l) == 0);
    }
}

/// What is told of a program: nothing exactly where it ended well; else its exit and its own words, or how many
/// seconds it was given, or why it could not be waited for.
pub proof fn noi_cua_sumatra(kq: KetQuaChoV, loi_ra: Seq<char>, han: u64)
    ensures
        loi_sumatra(kq, loi_ra, han) is None <==> (kq matches KetQuaChoV::Xong(k) && k.thanh_cong),
        kq matches KetQuaChoV::Xong(k) ==> (!k.thanh_cong ==> loi_sumatra(kq, loi_ra, han) == Some(
            "SumatraPDF lỗi (exit "@ + ma_chu(k.ma) + "): "@ + chu::bo_trang(loi_ra),
        )),
        kq is QuaHan ==> loi_sumatra(kq, loi_ra, han) == Some(
            "SumatraPDF quá "@ + chu::thap_phan((han / 1000) as nat) + " s chưa xong — đã dừng tiến trình"@,
        ),
        kq matches KetQuaChoV::LoiCho(e) ==> loi_sumatra(kq, loi_ra, han) == Some("không chờ được SumatraPDF: "@ + e),
        ma_chu(None) == "None"@,
        forall|n: i32| n >= 0 ==> #[trigger] ma_chu(Some(n)) == "Some("@ + chu::thap_phan(n as nat) + ")"@,
        forall|n: i32| n < 0 ==> #[trigger] ma_chu(Some(n)) == "Some("@ + ("-"@ + chu::thap_phan((-n) as nat)) + ")"@,
{
}

/// A program that went wrong changes no outcome into another: printed stays printed, open stays open with its
/// words, and an error stays one, with the program's failure told before the spooler's words. The kind is the
/// spooler's where it knows one, and else the program's failure.
pub proof fn sumatra_loi_khong_doi_ket_qua(mo_ta: Seq<char>, kq: KetQuaInV)
    ensures
        khi_sumatra_loi(mo_ta, kq) is DaIn <==> kq is DaIn,
        khi_sumatra_loi(mo_ta, kq) is KhongRo <==> kq is KhongRo,
        khi_sumatra_loi(mo_ta, kq) is Loi <==> kq is Loi,
        kq matches KetQuaInV::KhongRo(l) ==> khi_sumatra_loi(mo_ta, kq)->KhongRo_0.chu == l.chu && khi_sumatra_loi(
            mo_ta,
            kq,
        )->KhongRo_0.ban_da_in == l.ban_da_in,
        kq matches KetQuaInV::KhongRo(l) ==> (l.loai == Some(MaSuCo::KhongXacNhan) ==> khi_sumatra_loi(mo_ta, kq)->KhongRo_0.loai
            == Some(MaSuCo::LoiSumatra)) && (l.loai != Some(MaSuCo::KhongXacNhan) ==> khi_sumatra_loi(
            mo_ta,
            kq,
        )->KhongRo_0.loai == l.loai),
        kq matches KetQuaInV::Loi(l) ==> khi_sumatra_loi(mo_ta, kq)->Loi_0.chu == mo_ta + "; spooler: "@ + l.chu,
        kq matches KetQuaInV::Loi(l) ==> (l.loai is Some ==> khi_sumatra_loi(mo_ta, kq)->Loi_0.loai == l.loai) && (l.loai is None
            ==> khi_sumatra_loi(mo_ta, kq)->Loi_0.loai == Some(MaSuCo::LoiSumatra)),
{
}

/// A copy that failed after `lan` others were printed leaves the order open: it tells how many of how many came
/// out, whether the failed one reached the printer, and why it failed. Before any copy was printed, and where
/// a copy did not fail, the outcome stays.
pub proof fn ban_sau_loi_thi_khong_ro(lan: u32, copies: u32, kq: KetQuaInV)
    ensures
        lan == 0 || !(kq is Loi) ==> sau_ban(lan, copies, kq) == kq,
        lan > 0 ==> (kq matches KetQuaInV::Loi(l) ==> sau_ban(lan, copies, kq) is KhongRo && sau_ban(lan, copies, kq)->KhongRo_0.loai
            == l.loai && sau_ban(lan, copies, kq)->KhongRo_0.ban_da_in == Some(
            (
                lan,
                if copies == 0 {
                    1
                } else {
                    copies
                },
            ),
        )),
        lan > 0 && copies > 0 ==> (kq matches KetQuaInV::Loi(l) ==> (l.loai == Some(MaSuCo::LoiSumatra) ==> sau_ban(
            lan,
            copies,
            kq,
        )->KhongRo_0.chu == "Đã in "@ + chu::thap_phan(lan as nat) + "/"@ + chu::thap_phan(copies as nat)
            + " bản — bản còn lại CHƯA in"@ + " ("@ + "chưa gửi xuống máy in"@ + "): "@ + l.chu)),
        lan > 0 && copies > 0 ==> (kq matches KetQuaInV::Loi(l) ==> (l.loai != Some(MaSuCo::LoiSumatra) ==> sau_ban(
            lan,
            copies,
            kq,
        )->KhongRo_0.chu == "Đã in "@ + chu::thap_phan(lan as nat) + "/"@ + chu::thap_phan(copies as nat)
            + " bản — bản còn lại CHƯA in"@ + " ("@ + "đã gỡ khỏi hàng đợi"@ + "): "@ + l.chu)),
        so_ban(copies) >= 1,
        copies >= 1 ==> so_ban(copies) == copies,
{
}

/// A program that could not be called is told by its path and why, as a failure of the program.
pub proof fn khong_goi_duoc_la_loi_sumatra(c: LenhFileV, e: Seq<char>)
    ensures
        c.ly_do_khong_goi(e).chu == "không gọi được SumatraPDF ("@ + c.sumatra + "): "@ + e,
        c.ly_do_khong_goi(e).loai == Some(MaSuCo::LoiSumatra),
        c.ly_do_khong_goi(e).ban_da_in is None,
{
}

proof fn bo_cham_dau_dung(s: Seq<char>)
    ensures
        bo_cham_dau(s).len() > 0 ==> bo_cham_dau(s)[0] != '.',
        bo_cham_dau(s).len() <= s.len(),
    decreases s.len(),
{
    if s.len() > 0 && s[0] == '.' {
        bo_cham_dau_dung(s.subrange(1, s.len() as int));
    }
}

/// A text of which every character may stand in a file name is kept as it is, character by character, and any
/// other character becomes an underscore.
pub proof fn loc_ten_tung_ky_tu(s: Seq<char>, cham: bool)
    ensures
        loc_ten(s, cham).len() == s.len(),
        forall|i: int| 0 <= i < s.len() && ky_tu_an_toan(s[i], cham) ==> #[trigger] loc_ten(s, cham)[i] == s[i],
        forall|i: int| 0 <= i < s.len() && !ky_tu_an_toan(s[i], cham) ==> #[trigger] loc_ten(s, cham)[i] == '_',
        (forall|i: int| 0 <= i < s.len() ==> ky_tu_an_toan(#[trigger] s[i], cham)) ==> loc_ten(s, cham) == s,
        !ky_tu_an_toan('/', cham) && !ky_tu_an_toan('\\', cham) && !ky_tu_an_toan(':', cham) && !ky_tu_an_toan(' ', cham),
        ky_tu_an_toan('.', cham) <==> cham,
        forall|c: char| ('a' <= c && c <= 'z') || ('A' <= c && c <= 'Z') || ('0' <= c && c <= '9') || c == '-' || c == '_'
            ==> #[trigger] ky_tu_an_toan(c, cham),
        forall|c: char| c > 'z' ==> !#[trigger] ky_tu_an_toan(c, cham),
{
    if forall|i: int| 0 <= i < s.len() ==> ky_tu_an_toan(#[trigger] s[i], cham) {
        assert(loc_ten(s, cham) =~= s);
    }
}

/// Whatever the server suggests, the file's name ends in ".pdf" and does not start with a dot.
pub proof fn ten_file_la_pdf(job_id: Seq<char>, ten: Option<Seq<char>>, id_ngan: Seq<char>)
    ensures
        co_duoi_pdf(ten_file_cua(job_id, ten, id_ngan)),
        ten_file_cua(job_id, ten, id_ngan)[0] != '.',
{
    reveal_strlit(".pdf");
    reveal_strlit("print-agent-");
    let r = ten_file_cua(job_id, ten, id_ngan);
    let n = r.len() as int;
    if let Some(t) = ten {
        let l = loc_ten(chu::bo_trang(t), true);
        bo_cham_dau_dung(l);
        let s = bo_cham_dau(l);
        if r == ten_sach(t) && !co_duoi_pdf(s) {
            assert(ten_sach(t) == s + ".pdf"@);
            let m = ten_sach(t).len() as int;
            assert(ten_sach(t)[m - 4] == '.' && ten_sach(t)[m - 3] == 'p' && ten_sach(t)[m - 2] == 'd' && ten_sach(t)[m - 1]
                == 'f');
        }
    }
    if r == "print-agent-"@ + id_sach(job_id) + "-"@ + id_ngan + ".pdf"@ {
        assert(r[n - 4] == '.' && r[n - 3] == 'p' && r[n - 2] == 'd' && r[n - 1] == 'f');
        assert(r[0] == 'p');
    }
}

/// The file's name holds the job's id, by which the job is found in the printer's queue, whatever the server
/// suggests.
pub proof fn ten_file_chua_id(job_id: Seq<char>, ten: Option<Seq<char>>, id_ngan: Seq<char>)
    requires
        job_id.len() > 0,
        forall|k: int| 0 <= k < job_id.len() ==> ky_tu_an_toan(#[trigger] job_id[k], false),
    ensures
        chu::co_chua(ten_file_cua(job_id, ten, id_ngan), job_id),
{
    loc_ten_tung_ky_tu(job_id, false);
    let d = "print-agent-"@;
    let e = "-"@ + id_ngan + ".pdf"@;
    assert("print-agent-"@ + id_sach(job_id) + "-"@ + id_ngan + ".pdf"@ =~= d + job_id + e);
    tu_o_dau_cung_duoc(d, job_id, e);
}

/// A suggestion that is safe as it stands, holds the id, ends in ".pdf" and is not too long is the file's name.
pub proof fn ten_tot_duoc_giu(job_id: Seq<char>, t: Seq<char>, id_ngan: Seq<char>)
    requires
        job_id.len() > 0,
        4 < t.len() <= 200,
        t[0] != '.',
        co_duoi_pdf(t),
        chu::co_chua(t, job_id),
        forall|k: int| 0 <= k < t.len() ==> ky_tu_an_toan(#[trigger] t[k], true),
    ensures
        ten_file_cua(job_id, Some(t), id_ngan) == t,
{
    loc_ten_tung_ky_tu(t, true);
    assert(ky_tu_an_toan(t[0], true) && ky_tu_an_toan(t[t.len() - 1], true));
    assert(chu::bo_trang(t) == t);
}

/// Where the server suggests nothing, or a name that lacks the id or is too long, the file is called by the id
/// and the short id of its own.
pub proof fn ten_xau_khong_dung(job_id: Seq<char>, ten: Option<Seq<char>>, id_ngan: Seq<char>)
    requires
        ten matches Some(t) ==> job_id.len() == 0 || !chu::co_chua(ten_sach(t), job_id) || ten_sach(t).len() > 200,
    ensures
        job_id.len() > 0 ==> ten_file_cua(job_id, ten, id_ngan) == "print-agent-"@ + loc_ten(job_id, false) + "-"@ + id_ngan
            + ".pdf"@,
        job_id.len() == 0 ==> ten_file_cua(job_id, ten, id_ngan) == "print-agent-"@ + "unknown"@ + "-"@ + id_ngan + ".pdf"@,
{
}

} // verus!
