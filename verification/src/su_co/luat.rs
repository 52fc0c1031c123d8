//! What the spooler's numbers and a driver's words come to.
use crate::chu;
use crate::su_co::{
    bo_dau_chuoi, chi_tiet_tinh_trang, ghep_ten, goc_cua, hang, hon, ma_tinh_trang, ma_uu_tien, mo_ta_cua, ten_cac_co, thuong_chuoi,
    tinh_chinh, Bang, MaSuCo, MucDo,
};
use vstd::prelude::*;
use vstd::string::*;

verus! {

/// One reading of a printer in bare numbers: out of paper by its own bit or that of a paper problem; else a
/// jam; else offline by any of three bits or by its attributes; else an open door; else in need of someone or
/// paused; else a plain error; else low toner; and well exactly where none of these bits is up.
pub proof fn tinh_trang_theo_bit(s: u32, a: u32)
    ensures
        ma_tinh_trang(s, a) == MaSuCo::HetGiay <==> s & 0x10 != 0 || s & 0x40 != 0,
        ma_tinh_trang(s, a) == MaSuCo::KetGiay <==> s & 0x10 == 0 && s & 0x40 == 0 && s & 0x8 != 0,
        ma_tinh_trang(s, a) == MaSuCo::Offline <==> s & 0x10 == 0 && s & 0x40 == 0 && s & 0x8 == 0 && (s & 0x80 != 0 || s
            & 0x1000 != 0 || s & 0x80_0000 != 0 || a & 0x400 != 0),
        ma_tinh_trang(s, a) == MaSuCo::MoNap <==> s & 0x10 == 0 && s & 0x40 == 0 && s & 0x8 == 0 && s & 0x80 == 0 && s
            & 0x1000 == 0 && s & 0x80_0000 == 0 && a & 0x400 == 0 && s & 0x40_0000 != 0,
        ma_tinh_trang(s, a) == MaSuCo::CanXuLy <==> s & 0x10 == 0 && s & 0x40 == 0 && s & 0x8 == 0 && s & 0x80 == 0 && s
            & 0x1000 == 0 && s & 0x80_0000 == 0 && a & 0x400 == 0 && s & 0x40_0000 == 0 && (s & 0x10_0000 != 0 || s & 0x1
            != 0),
        ma_tinh_trang(s, a) == MaSuCo::LoiMayIn <==> s & 0x10 == 0 && s & 0x40 == 0 && s & 0x8 == 0 && s & 0x80 == 0 && s
            & 0x1000 == 0 && s & 0x80_0000 == 0 && a & 0x400 == 0 && s & 0x40_0000 == 0 && s & 0x10_0000 == 0 && s & 0x1
            == 0 && s & 0x2 != 0,
        ma_tinh_trang(s, a) == MaSuCo::HetMuc <==> s & 0x10 == 0 && s & 0x40 == 0 && s & 0x8 == 0 && s & 0x80 == 0 && s
            & 0x1000 == 0 && s & 0x80_0000 == 0 && a & 0x400 == 0 && s & 0x40_0000 == 0 && s & 0x10_0000 == 0 && s & 0x1
            == 0 && s & 0x2 == 0 && (s & 0x4_0000 != 0 || s & 0x2_0000 != 0),
        ma_tinh_trang(s, a) == MaSuCo::BinhThuong <==> s & 0x10 == 0 && s & 0x40 == 0 && s & 0x8 == 0 && s & 0x80 == 0 && s
            & 0x1000 == 0 && s & 0x80_0000 == 0 && a & 0x400 == 0 && s & 0x40_0000 == 0 && s & 0x10_0000 == 0 && s & 0x1
            == 0 && s & 0x2 == 0 && s & 0x4_0000 == 0 && s & 0x2_0000 == 0,
{
}

/// A job's status in bare numbers: out of paper, else offline, else in need of someone, else an error by
/// either of two bits; no trouble exactly where none of these bits is up.
pub proof fn ma_job_theo_bit(s: u32)
    ensures
        ma_uu_tien(s, Bang::Job) == Some(MaSuCo::HetGiay) <==> s & 0x40 != 0,
        ma_uu_tien(s, Bang::Job) == Some(MaSuCo::Offline) <==> s & 0x40 == 0 && s & 0x20 != 0,
        ma_uu_tien(s, Bang::Job) == Some(MaSuCo::CanXuLy) <==> s & 0x40 == 0 && s & 0x20 == 0 && s & 0x400 != 0,
        ma_uu_tien(s, Bang::Job) == Some(MaSuCo::LoiMayIn) <==> s & 0x40 == 0 && s & 0x20 == 0 && s & 0x400 == 0 && (s & 0x2
            != 0 || s & 0x200 != 0),
        ma_uu_tien(s, Bang::Job) is None <==> s & 0x40 == 0 && s & 0x20 == 0 && s & 0x400 == 0 && s & 0x2 == 0 && s & 0x200
            == 0,
{
}

/// The order of the codes: what a person can mend at once comes first, a warning after every fault of the
/// printer, and "all is well" after everything.
pub proof fn thu_tu_cac_ma(m: MaSuCo)
    ensures
        hang(MaSuCo::HetGiay) < hang(MaSuCo::KetGiay) < hang(MaSuCo::Offline) < hang(MaSuCo::MoNap) < hang(MaSuCo::CanXuLy),
        hang(MaSuCo::CanXuLy) < hang(MaSuCo::LoiMayIn) < hang(MaSuCo::HetMuc),
        m == MaSuCo::KhongTimThayMayIn || m == MaSuCo::LoiSumatra || m == MaSuCo::LoiPdf || m == MaSuCo::KhongXacNhan
            ==> hang(MaSuCo::HetMuc) < hang(m) < hang(MaSuCo::BinhThuong),
        hon(MaSuCo::HetGiay, m) == MaSuCo::HetGiay && hon(m, MaSuCo::HetGiay) == MaSuCo::HetGiay,
{
}

/// How grave the codes are: only low toner is a warning, only "all is well" is no trouble, and everything else
/// keeps a job from being printed. Trouble in the printer itself is what a person can mend there.
pub proof fn muc_cac_ma(m: MaSuCo)
    ensures
        m.muc_cua() == MucDo::CanhBao <==> m == MaSuCo::HetMuc,
        m.muc_cua() == MucDo::ThongTin <==> m == MaSuCo::BinhThuong,
        m.chan() <==> m.muc_cua() == MucDo::Loi,
        m.chan() <==> m != MaSuCo::HetMuc && m != MaSuCo::BinhThuong,
        m.o_may_in() <==> hang(m) <= hang(MaSuCo::HetMuc),
        m.o_may_in() && m.chan() ==> m.chan_cap_may(),
        m.chan_cap_may() <==> (m.o_may_in() && m != MaSuCo::HetMuc) || m == MaSuCo::KhongTimThayMayIn,
        m.cho_may() <==> (m.o_may_in() && m != MaSuCo::HetMuc && m != MaSuCo::LoiMayIn) || m == MaSuCo::KhongTimThayMayIn,
{
}

/// A code goes over the wire under its own name, and no two share one.
pub proof fn ma_tren_day_rieng(m: MaSuCo, n: MaSuCo)
    ensures
        m.ma_cua() == "het_giay"@ <==> m == MaSuCo::HetGiay,
        m.ma_cua() == "ket_giay"@ <==> m == MaSuCo::KetGiay,
        m.ma_cua() == "offline"@ <==> m == MaSuCo::Offline,
        m.ma_cua() == "mo_nap"@ <==> m == MaSuCo::MoNap,
        m.ma_cua() == "het_muc"@ <==> m == MaSuCo::HetMuc,
        m.ma_cua() == "can_xu_ly"@ <==> m == MaSuCo::CanXuLy,
        m.ma_cua() == "loi_may_in"@ <==> m == MaSuCo::LoiMayIn,
        m.ma_cua() == "khong_tim_thay_may_in"@ <==> m == MaSuCo::KhongTimThayMayIn,
        m.ma_cua() == "loi_sumatra"@ <==> m == MaSuCo::LoiSumatra,
        m.ma_cua() == "loi_pdf"@ <==> m == MaSuCo::LoiPdf,
        m.ma_cua() == "khong_xac_nhan"@ <==> m == MaSuCo::KhongXacNhan,
        m.ma_cua() == "binh_thuong"@ <==> m == MaSuCo::BinhThuong,
        m.ma_cua() == n.ma_cua() ==> m == n,
{
    reveal_strlit("het_giay");
    reveal_strlit("ket_giay");
    reveal_strlit("offline");
    reveal_strlit("mo_nap");
    reveal_strlit("het_muc");
    reveal_strlit("can_xu_ly");
    reveal_strlit("loi_may_in");
    reveal_strlit("khong_tim_thay_may_in");
    reveal_strlit("loi_sumatra");
    reveal_strlit("loi_pdf");
    reveal_strlit("khong_xac_nhan");
    reveal_strlit("binh_thuong");
    assert("het_giay"@.len() == 8 && "ket_giay"@.len() == 8 && "offline"@.len() == 7 && "mo_nap"@.len() == 6
        && "het_muc"@.len() == 7 && "can_xu_ly"@.len() == 9 && "loi_may_in"@.len() == 10
        && "khong_tim_thay_may_in"@.len() == 21 && "loi_sumatra"@.len() == 11 && "loi_pdf"@.len() == 7
        && "khong_xac_nhan"@.len() == 14 && "binh_thuong"@.len() == 11);
    assert("het_giay"@[0] == 'h' && "ket_giay"@[0] == 'k' && "offline"@[0] == 'o' && "het_muc"@[0] == 'h' && "loi_pdf"@[0]
        == 'l' && "loi_sumatra"@[0] == 'l' && "binh_thuong"@[0] == 'b');
}

/// What people read of a code, and what they are told to do.
pub proof fn chu_cho_nguoi_doc(m: MaSuCo)
    ensures
        m == MaSuCo::HetGiay ==> m.nhan_cua() == "Hết giấy"@ && m.huong_dan_cua() == "Nạp giấy vào khay"@,
        m == MaSuCo::KetGiay ==> m.nhan_cua() == "Kẹt giấy"@ && m.huong_dan_cua() == "Gỡ giấy kẹt rồi đóng nắp"@,
        m == MaSuCo::Offline ==> m.nhan_cua() == "Máy in offline / mất kết nối máy in"@ && m.huong_dan_cua()
            == "Bật máy in, kiểm dây mạng/USB"@,
        m == MaSuCo::MoNap ==> m.nhan_cua() == "Nắp máy in đang mở"@ && m.huong_dan_cua() == "Đóng nắp máy in"@,
        m == MaSuCo::HetMuc ==> m.nhan_cua() == "Hết mực / sắp hết mực"@ && m.huong_dan_cua() == "Chuẩn bị thay mực"@,
        m == MaSuCo::CanXuLy ==> m.nhan_cua() == "Máy in cần người xử lý"@ && m.huong_dan_cua()
            == "Xem đèn/màn hình máy in: nạp giấy, gỡ giấy kẹt, đóng nắp"@,
        m == MaSuCo::LoiMayIn ==> m.nhan_cua() == "Máy in báo lỗi"@ && m.huong_dan_cua()
            == "Xem màn hình máy in, tắt/bật lại máy in"@,
        m == MaSuCo::KhongTimThayMayIn ==> m.nhan_cua() == "Không tìm thấy máy in trong Windows"@ && m.huong_dan_cua()
            == "Chọn lại máy in trong app"@,
        m == MaSuCo::LoiSumatra ==> m.nhan_cua() == "Không gọi được / SumatraPDF lỗi"@ && m.huong_dan_cua()
            == "Báo kỹ thuật: SumatraPDF lỗi"@,
        m == MaSuCo::LoiPdf ==> m.nhan_cua() == "File PDF hỏng"@ && m.huong_dan_cua() == "Báo kỹ thuật: file PDF hỏng"@,
        m == MaSuCo::KhongXacNhan ==> m.nhan_cua() == "Đã gửi máy in nhưng không xác nhận được đã in"@ && m.huong_dan_cua()
            == "Xem khay giấy"@,
        m == MaSuCo::BinhThuong ==> m.nhan_cua() == "Máy in bình thường (đã hết sự cố)"@ && m.huong_dan_cua() == ""@,
{
}

/// The words of a driver name a lack of paper.
pub open spec fn noi_het_giay(s: Seq<char>) -> bool {
    chu::co_chua(s, "paper out"@) || chu::co_chua(s, "out of paper"@) || chu::co_chua(s, "paper empty"@) || chu::co_chua(
        s,
        "load paper"@,
    ) || chu::co_chua(s, "het giay"@)
}

/// The words of a driver name a jam.
pub open spec fn noi_ket_giay(s: Seq<char>) -> bool {
    chu::co_chua(s, "jam"@) || chu::co_chua(s, "ket giay"@)
}

/// The words of a driver name a lost connection.
pub open spec fn noi_offline(s: Seq<char>) -> bool {
    chu::co_chua(s, "offline"@) || chu::co_chua(s, "not connected"@) || chu::co_chua(s, "mat ket noi"@)
}

/// The words of a driver name an open cover.
pub open spec fn noi_mo_nap(s: Seq<char>) -> bool {
    chu::co_chua(s, "door open"@) || chu::co_chua(s, "cover open"@) || chu::co_chua(s, "lid open"@) || chu::co_chua(
        s,
        "mo nap"@,
    )
}

/// The words of a driver name low toner.
pub open spec fn noi_het_muc(s: Seq<char>) -> bool {
    chu::co_chua(s, "toner low"@) || chu::co_chua(s, "ink low"@) || chu::co_chua(s, "low toner"@) || chu::co_chua(
        s,
        "sap het muc"@,
    )
}

/// A driver's words make a general code specific: the lack of paper before a jam, a jam before a lost
/// connection, that before an open cover, that before low toner; where they name nothing the code stays. "Out
/// of paper" becomes a jam exactly where they name a jam and no lack of paper. No other code changes.
pub proof fn tinh_chinh_theo_tu(ma: MaSuCo, chu: Seq<char>)
    requires
        chu::bo_trang(chu).len() > 0,
    ensures
        ({
            let s = bo_dau_chuoi(thuong_chuoi(chu));
            let r = tinh_chinh(ma, chu);
            let chung = ma == MaSuCo::LoiMayIn || ma == MaSuCo::CanXuLy;
            &&& chung && noi_het_giay(s) ==> r == MaSuCo::HetGiay
            &&& chung && !noi_het_giay(s) && noi_ket_giay(s) ==> r == MaSuCo::KetGiay
            &&& chung && !noi_het_giay(s) && !noi_ket_giay(s) && noi_offline(s) ==> r == MaSuCo::Offline
            &&& chung && !noi_het_giay(s) && !noi_ket_giay(s) && !noi_offline(s) && noi_mo_nap(s) ==> r == MaSuCo::MoNap
            &&& chung && !noi_het_giay(s) && !noi_ket_giay(s) && !noi_offline(s) && !noi_mo_nap(s) && noi_het_muc(s) ==> r
                == MaSuCo::HetMuc
            &&& chung && !noi_het_giay(s) && !noi_ket_giay(s) && !noi_offline(s) && !noi_mo_nap(s) && !noi_het_muc(s) ==> r
                == ma
            &&& ma == MaSuCo::HetGiay ==> (r == MaSuCo::KetGiay <==> noi_ket_giay(s) && !noi_het_giay(s))
            &&& !chung && ma != MaSuCo::HetGiay ==> r == ma
        }),
{
}

/// A word of a driver counts wherever it stands, between any other words.
pub proof fn tu_o_dau_cung_duoc(a: Seq<char>, tu: Seq<char>, b: Seq<char>)
    ensures
        chu::co_chua(a + tu + b, tu),
{
    let s = a + tu + b;
    let i = a.len() as int;
    assert(s.subrange(i, i + tu.len()) =~= tu);
    assert(chu::khop_tai(s, tu, i));
}

/// Every marked vowel becomes its plain one, the barred d a plain d, and every letter of plain text stays.
pub proof fn chu_goc_cua_nguyen_am(i: int, c: char)
    ensures
        0 <= i < "àáạảãâầấậẩẫăằắặẳẵ"@.len() ==> goc_cua("àáạảãâầấậẩẫăằắặẳẵ"@[i]) == 'a',
        0 <= i < "èéẹẻẽêềếệểễ"@.len() ==> goc_cua("èéẹẻẽêềếệểễ"@[i]) == 'e',
        0 <= i < "ìíịỉĩ"@.len() ==> goc_cua("ìíịỉĩ"@[i]) == 'i',
        0 <= i < "òóọỏõôồốộổỗơờớợởỡ"@.len() ==> goc_cua("òóọỏõôồốộổỗơờớợởỡ"@[i]) == 'o',
        0 <= i < "ùúụủũưừứựửữ"@.len() ==> goc_cua("ùúụủũưừứựửữ"@[i]) == 'u',
        0 <= i < "ỳýỵỷỹ"@.len() ==> goc_cua("ỳýỵỷỹ"@[i]) == 'y',
        goc_cua('đ') == 'd',
        c <= '\u{7f}' ==> goc_cua(c) == c,
{
    reveal_strlit("àáạảãâầấậẩẫăằắặẳẵ");
    reveal_strlit("èéẹẻẽêềếệểễ");
    reveal_strlit("ìíịỉĩ");
    reveal_strlit("òóọỏõôồốộổỗơờớợởỡ");
    reveal_strlit("ùúụủũưừứựửữ");
    reveal_strlit("ỳýỵỷỹ");
}

/// `x` stands in a text joined of flags' names where it stood before, and a flag that is up adds its own.
proof fn ghep_giu(truoc: Seq<char>, bat: bool, ten: Seq<char>, x: Seq<char>)
    ensures
        chu::co_chua(truoc, x) ==> chu::co_chua(ghep_ten(truoc, bat, ten), x),
        bat ==> chu::co_chua(ghep_ten(truoc, bat, ten), ten),
{
    let e = Seq::<char>::empty();
    let r = ghep_ten(truoc, bat, ten);
    if bat {
        if truoc.len() == 0 {
            assert(r =~= e + ten + e);
            tu_o_dau_cung_duoc(e, ten, e);
            if chu::co_chua(truoc, x) {
                let i = choose|i: int| chu::khop_tai(truoc, x, i);
                assert(r.subrange(i, i + x.len()) =~= x);
                assert(chu::khop_tai(r, x, i));
            }
        } else {
            assert(r =~= (truoc + "|"@) + ten + e);
            tu_o_dau_cung_duoc(truoc + "|"@, ten, e);
            if chu::co_chua(truoc, x) {
                let i = choose|i: int| chu::khop_tai(truoc, x, i);
                assert(r.subrange(i, i + x.len()) =~= truoc.subrange(i, i + x.len()));
                assert(chu::khop_tai(r, x, i));
            }
        }
    }
}

/// `x` stays in the description of a printer's status once it is in one of the parts it is joined of.
#[verifier::rlimit(40)]
proof fn ten_may_in_co(s: u32, x: Seq<char>)
    ensures
        s & 0x10 != 0 && x == "PAPER_OUT"@ ==> chu::co_chua(ten_cac_co(Bang::MayIn, s), x),
        s & 0x40 != 0 && x == "PAPER_PROBLEM"@ ==> chu::co_chua(ten_cac_co(Bang::MayIn, s), x),
        s & 0x8 != 0 && x == "PAPER_JAM"@ ==> chu::co_chua(ten_cac_co(Bang::MayIn, s), x),
        s & 0x80 != 0 && x == "OFFLINE"@ ==> chu::co_chua(ten_cac_co(Bang::MayIn, s), x),
        s & 0x1000 != 0 && x == "NOT_AVAILABLE"@ ==> chu::co_chua(ten_cac_co(Bang::MayIn, s), x),
        s & 0x80_0000 != 0 && x == "SERVER_UNKNOWN"@ ==> chu::co_chua(ten_cac_co(Bang::MayIn, s), x),
        s & 0x40_0000 != 0 && x == "DOOR_OPEN"@ ==> chu::co_chua(ten_cac_co(Bang::MayIn, s), x),
        s & 0x4_0000 != 0 && x == "NO_TONER"@ ==> chu::co_chua(ten_cac_co(Bang::MayIn, s), x),
        s & 0x2_0000 != 0 && x == "TONER_LOW"@ ==> chu::co_chua(ten_cac_co(Bang::MayIn, s), x),
        s & 0x10_0000 != 0 && x == "USER_INTERVENTION"@ ==> chu::co_chua(ten_cac_co(Bang::MayIn, s), x),
        s & 0x1 != 0 && x == "PAUSED"@ ==> chu::co_chua(ten_cac_co(Bang::MayIn, s), x),
        s & 0x2 != 0 && x == "ERROR"@ ==> chu::co_chua(ten_cac_co(Bang::MayIn, s), x),
{
    let s0 = Seq::<char>::empty();
    let s1 = ghep_ten(s0, s & 0x10 != 0, "PAPER_OUT"@);
    let s2 = ghep_ten(s1, s & 0x40 != 0, "PAPER_PROBLEM"@);
    let s3 = ghep_ten(s2, s & 0x8 != 0, "PAPER_JAM"@);
    let s4 = ghep_ten(s3, s & 0x80 != 0, "OFFLINE"@);
    let s5 = ghep_ten(s4, s & 0x1000 != 0, "NOT_AVAILABLE"@);
    let s6 = ghep_ten(s5, s & 0x80_0000 != 0, "SERVER_UNKNOWN"@);
    let s7 = ghep_ten(s6, s & 0x40_0000 != 0, "DOOR_OPEN"@);
    let s8 = ghep_ten(s7, s & 0x4_0000 != 0, "NO_TONER"@);
    let s9 = ghep_ten(s8, s & 0x2_0000 != 0, "TONER_LOW"@);
    let s10 = ghep_ten(s9, s & 0x10_0000 != 0, "USER_INTERVENTION"@);
    let s11 = ghep_ten(s10, s & 0x1 != 0, "PAUSED"@);
    ghep_giu(s0, s & 0x10 != 0, "PAPER_OUT"@, x);
    ghep_giu(s1, s & 0x40 != 0, "PAPER_PROBLEM"@, x);
    ghep_giu(s2, s & 0x8 != 0, "PAPER_JAM"@, x);
    ghep_giu(s3, s & 0x80 != 0, "OFFLINE"@, x);
    ghep_giu(s4, s & 0x1000 != 0, "NOT_AVAILABLE"@, x);
    ghep_giu(s5, s & 0x80_0000 != 0, "SERVER_UNKNOWN"@, x);
    ghep_giu(s6, s & 0x40_0000 != 0, "DOOR_OPEN"@, x);
    ghep_giu(s7, s & 0x4_0000 != 0, "NO_TONER"@, x);
    ghep_giu(s8, s & 0x2_0000 != 0, "TONER_LOW"@, x);
    ghep_giu(s9, s & 0x10_0000 != 0, "USER_INTERVENTION"@, x);
    ghep_giu(s10, s & 0x1 != 0, "PAUSED"@, x);
    ghep_giu(s11, s & 0x2 != 0, "ERROR"@, x);
}

/// `x` stands in a description wherever it stands among the flags' names; the number stands at its end.
proof fn mo_ta_co_ten(bang: Bang, s: u32, x: Seq<char>)
    requires
        chu::co_chua(ten_cac_co(bang, s), x),
        x.len() > 0,
    ensures
        chu::co_chua(mo_ta_cua(bang, s), x),
{
    let ten = ten_cac_co(bang, s);
    let i = choose|i: int| chu::khop_tai(ten, x, i);
    assert(ten.len() > 0);
    let d = (if bang == Bang::MayIn {
        "PRINTER_STATUS"@
    } else {
        "JOB_STATUS"@
    }) + " "@;
    let r = mo_ta_cua(bang, s);
    assert(r =~= d + ten + (" (0x"@ + chu::hex_8(s) + ")"@));
    assert(r.subrange(d.len() + i, d.len() + i + x.len()) =~= ten.subrange(i, i + x.len()));
    assert(chu::khop_tai(r, x, d.len() + i));
}

/// The description of a printer's status names every bit of trouble that is up, and ends in the whole number,
/// so that a bit without a name can be read too; where none is up it holds a dash.
#[verifier::rlimit(40)]
pub proof fn mo_ta_may_in_du_ten(s: u32)
    ensures
        s & 0x10 != 0 ==> chu::co_chua(mo_ta_cua(Bang::MayIn, s), "PAPER_OUT"@),
        s & 0x40 != 0 ==> chu::co_chua(mo_ta_cua(Bang::MayIn, s), "PAPER_PROBLEM"@),
        s & 0x8 != 0 ==> chu::co_chua(mo_ta_cua(Bang::MayIn, s), "PAPER_JAM"@),
        s & 0x80 != 0 ==> chu::co_chua(mo_ta_cua(Bang::MayIn, s), "OFFLINE"@),
        s & 0x1000 != 0 ==> chu::co_chua(mo_ta_cua(Bang::MayIn, s), "NOT_AVAILABLE"@),
        s & 0x80_0000 != 0 ==> chu::co_chua(mo_ta_cua(Bang::MayIn, s), "SERVER_UNKNOWN"@),
        s & 0x40_0000 != 0 ==> chu::co_chua(mo_ta_cua(Bang::MayIn, s), "DOOR_OPEN"@),
        s & 0x4_0000 != 0 ==> chu::co_chua(mo_ta_cua(Bang::MayIn, s), "NO_TONER"@),
        s & 0x2_0000 != 0 ==> chu::co_chua(mo_ta_cua(Bang::MayIn, s), "TONER_LOW"@),
        s & 0x10_0000 != 0 ==> chu::co_chua(mo_ta_cua(Bang::MayIn, s), "USER_INTERVENTION"@),
        s & 0x1 != 0 ==> chu::co_chua(mo_ta_cua(Bang::MayIn, s), "PAUSED"@),
        s & 0x2 != 0 ==> chu::co_chua(mo_ta_cua(Bang::MayIn, s), "ERROR"@),
        ma_tinh_trang(s, 0) == MaSuCo::BinhThuong ==> mo_ta_cua(Bang::MayIn, s) == "PRINTER_STATUS"@ + " "@ + "-"@ + " (0x"@
            + chu::hex_8(s) + ")"@,
        chu::ket_thuc_bang(mo_ta_cua(Bang::MayIn, s), chu::hex_8(s) + ")"@),
        chu::bat_dau_bang(mo_ta_cua(Bang::MayIn, s), "PRINTER_STATUS"@),
{
    reveal_strlit("PAPER_OUT");
    reveal_strlit("PAPER_PROBLEM");
    reveal_strlit("PAPER_JAM");
    reveal_strlit("OFFLINE");
    reveal_strlit("NOT_AVAILABLE");
    reveal_strlit("SERVER_UNKNOWN");
    reveal_strlit("DOOR_OPEN");
    reveal_strlit("NO_TONER");
    reveal_strlit("TONER_LOW");
    reveal_strlit("USER_INTERVENTION");
    reveal_strlit("PAUSED");
    reveal_strlit("ERROR");
    assert forall|x: Seq<char>| x.len() > 0 && #[trigger] chu::co_chua(ten_cac_co(Bang::MayIn, s), x) implies chu::co_chua(
        mo_ta_cua(Bang::MayIn, s),
        x,
    ) by {
        mo_ta_co_ten(Bang::MayIn, s, x);
    }
    ten_may_in_co(s, "PAPER_OUT"@);
    ten_may_in_co(s, "PAPER_PROBLEM"@);
    ten_may_in_co(s, "PAPER_JAM"@);
    ten_may_in_co(s, "OFFLINE"@);
    ten_may_in_co(s, "NOT_AVAILABLE"@);
    ten_may_in_co(s, "SERVER_UNKNOWN"@);
    ten_may_in_co(s, "DOOR_OPEN"@);
    ten_may_in_co(s, "NO_TONER"@);
    ten_may_in_co(s, "TONER_LOW"@);
    ten_may_in_co(s, "USER_INTERVENTION"@);
    ten_may_in_co(s, "PAUSED"@);
    ten_may_in_co(s, "ERROR"@);
    mo_ta_dau_cuoi(Bang::MayIn, s);
    assert(0u32 & 0x400 == 0) by (bit_vector);
}

proof fn mo_ta_dau_cuoi(bang: Bang, s: u32)
    ensures
        chu::ket_thuc_bang(mo_ta_cua(bang, s), chu::hex_8(s) + ")"@),
        bang == Bang::MayIn ==> chu::bat_dau_bang(mo_ta_cua(bang, s), "PRINTER_STATUS"@),
        bang == Bang::Job ==> chu::bat_dau_bang(mo_ta_cua(bang, s), "JOB_STATUS"@),
{
    let ten = ten_cac_co(bang, s);
    let d = if bang == Bang::MayIn {
        "PRINTER_STATUS"@
    } else {
        "JOB_STATUS"@
    };
    let g = " "@ + (if ten.len() == 0 {
        "-"@
    } else {
        ten
    }) + " (0x"@;
    let e = chu::hex_8(s) + ")"@;
    let r = mo_ta_cua(bang, s);
    assert(r =~= d + g + e);
    assert(r.subrange(0, d.len() as int) =~= d);
    assert(r.subrange(r.len() - e.len(), r.len() as int) =~= e);
}

/// The description of a job's status names every bit of trouble that is up, and ends in the whole number.
pub proof fn mo_ta_job_du_ten(s: u32)
    ensures
        s & 0x40 != 0 ==> chu::co_chua(mo_ta_cua(Bang::Job, s), "PAPEROUT"@),
        s & 0x20 != 0 ==> chu::co_chua(mo_ta_cua(Bang::Job, s), "OFFLINE"@),
        s & 0x400 != 0 ==> chu::co_chua(mo_ta_cua(Bang::Job, s), "USER_INTERVENTION"@),
        s & 0x2 != 0 ==> chu::co_chua(mo_ta_cua(Bang::Job, s), "ERROR"@),
        s & 0x200 != 0 ==> chu::co_chua(mo_ta_cua(Bang::Job, s), "BLOCKED_DEVQ"@),
        ma_uu_tien(s, Bang::Job) is None ==> mo_ta_cua(Bang::Job, s) == "JOB_STATUS"@ + " "@ + "-"@ + " (0x"@ + chu::hex_8(s)
            + ")"@,
        chu::ket_thuc_bang(mo_ta_cua(Bang::Job, s), chu::hex_8(s) + ")"@),
        chu::bat_dau_bang(mo_ta_cua(Bang::Job, s), "JOB_STATUS"@),
{
    reveal_strlit("PAPEROUT");
    reveal_strlit("OFFLINE");
    reveal_strlit("USER_INTERVENTION");
    reveal_strlit("ERROR");
    reveal_strlit("BLOCKED_DEVQ");
    assert forall|x: Seq<char>| x.len() > 0 && #[trigger] chu::co_chua(ten_cac_co(Bang::Job, s), x) implies chu::co_chua(
        mo_ta_cua(Bang::Job, s),
        x,
    ) by {
        mo_ta_co_ten(Bang::Job, s, x);
    }
    ten_job_co(s, "PAPEROUT"@);
    ten_job_co(s, "OFFLINE"@);
    ten_job_co(s, "USER_INTERVENTION"@);
    ten_job_co(s, "ERROR"@);
    ten_job_co(s, "BLOCKED_DEVQ"@);
    mo_ta_dau_cuoi(Bang::Job, s);
}

proof fn ten_job_co(s: u32, x: Seq<char>)
    ensures
        s & 0x40 != 0 && x == "PAPEROUT"@ ==> chu::co_chua(ten_cac_co(Bang::Job, s), x),
        s & 0x20 != 0 && x == "OFFLINE"@ ==> chu::co_chua(ten_cac_co(Bang::Job, s), x),
        s & 0x400 != 0 && x == "USER_INTERVENTION"@ ==> chu::co_chua(ten_cac_co(Bang::Job, s), x),
        s & 0x2 != 0 && x == "ERROR"@ ==> chu::co_chua(ten_cac_co(Bang::Job, s), x),
        s & 0x200 != 0 && x == "BLOCKED_DEVQ"@ ==> chu::co_chua(ten_cac_co(Bang::Job, s), x),
{
    let s0 = Seq::<char>::empty();
    let s1 = ghep_ten(s0, s & 0x40 != 0, "PAPEROUT"@);
    let s2 = ghep_ten(s1, s & 0x20 != 0, "OFFLINE"@);
    let s3 = ghep_ten(s2, s & 0x400 != 0, "USER_INTERVENTION"@);
    let s4 = ghep_ten(s3, s & 0x2 != 0, "ERROR"@);
    ghep_giu(s0, s & 0x40 != 0, "PAPEROUT"@, x);
    ghep_giu(s1, s & 0x20 != 0, "OFFLINE"@, x);
    ghep_giu(s2, s & 0x400 != 0, "USER_INTERVENTION"@, x);
    ghep_giu(s3, s & 0x2 != 0, "ERROR"@, x);
    ghep_giu(s4, s & 0x200 != 0, "BLOCKED_DEVQ"@, x);
}

/// The detail of one reading: none exactly where all is well; it says that the printer is set to work offline
/// where only its attributes tell so, and that its queue is paused where nothing else asks for someone; it
/// always holds the description of the status.
pub proof fn chi_tiet_noi_ly_do(s: u32, a: u32)
    ensures
        chi_tiet_tinh_trang(s, a) is None <==> ma_tinh_trang(s, a) == MaSuCo::BinhThuong,
        ma_tinh_trang(s, a) == MaSuCo::Offline && s & 0x80 == 0 && s & 0x1000 == 0 && s & 0x80_0000 == 0
            ==> chi_tiet_tinh_trang(s, a) == Some(
            "Máy in đang để chế độ 'Use Printer Offline'"@ + "; "@ + mo_ta_cua(Bang::MayIn, s) + ", Attributes 0x"@
                + chu::hex_8(a),
        ),
        ma_tinh_trang(s, a) == MaSuCo::Offline && (s & 0x80 != 0 || s & 0x1000 != 0 || s & 0x80_0000 != 0)
            ==> chi_tiet_tinh_trang(s, a) == Some(mo_ta_cua(Bang::MayIn, s)),
        ma_tinh_trang(s, a) == MaSuCo::CanXuLy && s & 0x10_0000 == 0 ==> chi_tiet_tinh_trang(s, a) == Some(
            "Hàng đợi máy in đang tạm dừng (Pause)"@ + "; "@ + mo_ta_cua(Bang::MayIn, s),
        ),
        ma_tinh_trang(s, a) == MaSuCo::CanXuLy && s & 0x10_0000 != 0 ==> chi_tiet_tinh_trang(s, a) == Some(
            mo_ta_cua(Bang::MayIn, s),
        ),
        ma_tinh_trang(s, a) != MaSuCo::CanXuLy && ma_tinh_trang(s, a) != MaSuCo::Offline && ma_tinh_trang(s, a)
            != MaSuCo::BinhThuong ==> chi_tiet_tinh_trang(s, a) == Some(mo_ta_cua(Bang::MayIn, s)),
{
}

} // verus!
