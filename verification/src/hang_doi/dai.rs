//! What the strip above the lines says, whatever the printer's state.
use crate::chu;
use crate::hang_doi::khoi::{chu_theo_ma, dai_tam_giu_cua};
use crate::su_co::MaSuCo;
use vstd::prelude::*;

verus! {

/// The words "in lại" (print again) stand in `s` at `i`, in letters of either case.
pub open spec fn in_lai_tai(s: Seq<char>, i: int) -> bool {
    &&& 0 <= i && i + 6 <= s.len()
    &&& s[i] == 'i' || s[i] == 'I'
    &&& s[i + 1] == 'n' || s[i + 1] == 'N'
    &&& s[i + 2] == ' '
    &&& s[i + 3] == 'l' || s[i + 3] == 'L'
    &&& s[i + 4] == 'ạ' || s[i + 4] == 'Ạ'
    &&& s[i + 5] == 'i' || s[i + 5] == 'I'
}

/// The word "sắp" (about to) stands in `s` at `i`.
pub open spec fn sap_tai(s: Seq<char>, i: int) -> bool {
    0 <= i && i + 3 <= s.len() && s[i] == 's' && s[i + 1] == 'ắ' && s[i + 2] == 'p'
}

/// Neither stands in `s`, or, where `sap`, not the first.
pub open spec fn sach(s: Seq<char>, sap: bool) -> bool {
    forall|i: int| !#[trigger] in_lai_tai(s, i) && (sap || !sap_tai(s, i))
}

spec fn sach_tu(s: Seq<char>, sap: bool, tu: int) -> bool
    decreases s.len() - tu,
{
    tu >= s.len() || (!in_lai_tai(s, tu) && (sap || !sap_tai(s, tu)) && sach_tu(s, sap, tu + 1))
}

proof fn sach_tu_dau(s: Seq<char>, sap: bool, tu: int)
    requires
        sach_tu(s, sap, tu),
    ensures
        forall|i: int| tu <= i ==> !#[trigger] in_lai_tai(s, i) && (sap || !sap_tai(s, i)),
    decreases s.len() - tu,
{
    if tu < s.len() {
        sach_tu_dau(s, sap, tu + 1);
    }
}

/// The two characters may stand side by side in one of the words.
spec fn noi_tiep_tu(x: char, y: char) -> bool {
    ||| (x == 'i' || x == 'I') && (y == 'n' || y == 'N')
    ||| (x == 'n' || x == 'N') && y == ' '
    ||| x == ' ' && (y == 'l' || y == 'L')
    ||| (x == 'l' || x == 'L') && (y == 'ạ' || y == 'Ạ')
    ||| (x == 'ạ' || x == 'Ạ') && (y == 'i' || y == 'I')
    ||| x == 's' && y == 'ắ'
    ||| x == 'ắ' && y == 'p'
}

/// Two texts put together hold neither word where neither does and none stands across the seam.
proof fn ghep_sach(a: Seq<char>, b: Seq<char>, sap: bool)
    requires
        sach(a, sap),
        sach(b, sap),
        a.len() > 0,
        b.len() > 0,
        !noi_tiep_tu(a.last(), b[0]),
    ensures
        sach(a + b, sap),
{
    let s = a + b;
    let n = a.len() as int;
    assert(s[n - 1] == a.last() && s[n] == b[0]);
    assert forall|i: int| !#[trigger] in_lai_tai(s, i) && (sap || !sap_tai(s, i)) by {
        assert(!in_lai_tai(a, i) && !in_lai_tai(b, i - n));
        if in_lai_tai(s, i) {
            if i + 6 > n && i < n {
                let k = n - 1 - i;
                assert(k == 0 || k == 1 || k == 2 || k == 3 || k == 4);
            }
        }
        if !sap && sap_tai(s, i) {
            assert(!sap_tai(a, i) && !sap_tai(b, i - n));
            if i + 3 > n && i < n {
                let k = n - 1 - i;
                assert(k == 0 || k == 1);
            }
        }
    }
}

/// A number holds neither word, and ends in a digit.
proof fn so_sach(n: nat)
    ensures
        chu::thap_phan(n).len() > 0,
        chu::toan_chu_so(chu::thap_phan(n)),
    decreases n,
{
    if n >= 10 {
        so_sach(n / 10);
    }
    let s = chu::thap_phan(n);
    assert forall|i: int| 0 <= i < s.len() implies chu::la_chu_so(#[trigger] s[i]) by {
        if n >= 10 {
            if i < s.len() - 1 {
                assert(s[i] == chu::thap_phan(n / 10)[i]);
            }
        }
    }
}

/// The texts for a printer in trouble hold neither word, and no word begins or ends at their seams.
proof fn chu_theo_ma_sach(m: MaSuCo)
    requires
        m.chan(),
    ensures
        ({
            let (ly_do, viec, viec_thuong) = chu_theo_ma(m);
            let giua = viec + " là tự in. Hoá đơn nào không cần nữa: bấm Huỷ TRƯỚC khi "@;
            &&& sach(ly_do, false) && ly_do.len() > 0 && !noi_tiep_tu(' ', ly_do[0])
            &&& sach(giua, false) && giua.len() > 0 && !noi_tiep_tu(' ', giua[0]) && giua.last() == ' '
            &&& sach(viec_thuong, false) && viec_thuong.len() > 0 && !noi_tiep_tu(' ', viec_thuong[0])
        }),
{
    reveal_strlit(" là tự in. Hoá đơn nào không cần nữa: bấm Huỷ TRƯỚC khi ");
    reveal_strlit("máy in Hết giấy");
    reveal_strlit("Nạp giấy");
    reveal_strlit("nạp giấy");
    reveal_strlit("máy in Kẹt giấy");
    reveal_strlit("Gỡ giấy kẹt");
    reveal_strlit("gỡ giấy kẹt");
    reveal_strlit("nắp máy in đang mở");
    reveal_strlit("Đóng nắp");
    reveal_strlit("đóng nắp");
    reveal_strlit("máy in mất kết nối");
    reveal_strlit("Bật lại máy in");
    reveal_strlit("bật lại máy in");
    reveal_strlit("không tìm thấy máy in trong Windows");
    reveal_strlit("Chọn lại máy in trong app");
    reveal_strlit("chọn lại máy in");
    reveal_strlit("Máy in cần người xử lý");
    reveal_strlit("Máy in báo lỗi");
    reveal_strlit("Không gọi được / SumatraPDF lỗi");
    reveal_strlit("File PDF hỏng");
    reveal_strlit("Đã gửi máy in nhưng không xác nhận được đã in");
    reveal_strlit("máy in báo: ");
    reveal_strlit("Xử lý xong máy in");
    reveal_strlit("xử lý máy in");
    let (ly_do, viec, viec_thuong) = chu_theo_ma(m);
    let giua = viec + " là tự in. Hoá đơn nào không cần nữa: bấm Huỷ TRƯỚC khi "@;
    reveal_with_fuel(sach_tu, 83);
    assert(sach_tu(viec_thuong, false, 0));
    sach_tu_dau(viec_thuong, false, 0);
    am_sach(viec_thuong);
    assert(sach_tu(ly_do, false, 0));
    sach_tu_dau(ly_do, false, 0);
    am_sach(ly_do);
    assert(sach_tu(giua, false, 0));
    sach_tu_dau(giua, false, 0);
    am_sach(giua);
}

/// Nothing stands before the start of a text.
proof fn am_sach(s: Seq<char>)
    ensures
        forall|i: int| i < 0 ==> !#[trigger] in_lai_tai(s, i) && !sap_tai(s, i),
{
}

/// A number and a text behind it that begins with a space.
proof fn sau_so_sach(n: nat, b: Seq<char>, sap: bool)
    requires
        sach(b, sap),
        b.len() > 0,
        b[0] == ' ',
    ensures
        sach(chu::thap_phan(n) + b, sap),
{
    so_sach(n);
    let a = chu::thap_phan(n);
    assert(sach(a, sap)) by {
        assert forall|i: int| !#[trigger] in_lai_tai(a, i) && (sap || !sap_tai(a, i)) by {
            if 0 <= i < a.len() {
                assert(chu::la_chu_so(a[i]));
            }
        }
    }
    assert(chu::la_chu_so(a[a.len() - 1]));
    ghep_sach(a, b, sap);
}

/// The strip never tells anybody to print again. It says that printing is about to begin exactly where the
/// printer has just recovered.
pub proof fn dai_khong_bao_in_lai(so: nat, ma: Option<MaSuCo>)
    ensures
        forall|i: int| !#[trigger] in_lai_tai(dai_tam_giu_cua(so, ma), i),
        chu::co_chua(dai_tam_giu_cua(so, ma), "sắp"@) == (ma == Some(MaSuCo::BinhThuong)),
{
    let n = chu::thap_phan(so);
    let s = dai_tam_giu_cua(so, ma);
    reveal_strlit("sắp");
    if ma matches Some(m) && m.chan() {
        let m = ma->0;
        let t1 = " hoá đơn đang chờ — "@;
        let tg = " là tự in. Hoá đơn nào không cần nữa: bấm Huỷ TRƯỚC khi "@;
        let (ly_do, viec, viec_thuong) = chu_theo_ma(m);
        let giua = viec + tg;
        chu_theo_ma_sach(m);
        reveal_strlit(" hoá đơn đang chờ — ");
        reveal_strlit(". ");
        reveal_strlit(".");
        assert(sach(t1, false) && sach(". "@, false) && sach("."@, false)) by {
            reveal_with_fuel(sach_tu, 22);
            assert(sach_tu(t1, false, 0));
            sach_tu_dau(t1, false, 0);
            am_sach(t1);
            assert(sach_tu(". "@, false, 0));
            sach_tu_dau(". "@, false, 0);
            am_sach(". "@);
            assert(sach_tu("."@, false, 0));
            sach_tu_dau("."@, false, 0);
            am_sach("."@);
        }
        ghep_sach(t1, ly_do, false);
        ghep_sach(t1 + ly_do, ". "@, false);
        ghep_sach(t1 + ly_do + ". "@, giua, false);
        ghep_sach(t1 + ly_do + ". "@ + giua, viec_thuong, false);
        ghep_sach(t1 + ly_do + ". "@ + giua + viec_thuong, "."@, false);
        let b = t1 + ly_do + ". "@ + giua + viec_thuong + "."@;
        assert(b[0] == t1[0]);
        sau_so_sach(so, b, false);
        assert(s =~= n + b);
        khong_co_sap(s);
    } else if ma == Some(MaSuCo::BinhThuong) {
        let b = " hoá đơn đang chờ — máy in vừa hết lỗi, hệ thống sắp tự in. Hoá đơn nào không cần nữa: bấm Huỷ NGAY."@;
        reveal_strlit(" hoá đơn đang chờ — máy in vừa hết lỗi, hệ thống sắp tự in. Hoá đơn nào không cần nữa: bấm Huỷ NGAY.");
        assert(sach(b, true)) by {
            reveal_with_fuel(sach_tu, 62);
            assert(sach_tu(b, true, 60));
            assert(sach_tu(b, true, 0));
            sach_tu_dau(b, true, 0);
            am_sach(b);
        }
        sau_so_sach(so, b, true);
        let k = n.len() as int + 49;
        assert(s.subrange(k, k + 3) =~= "sắp"@);
        assert(chu::khop_tai(s, "sắp"@, k));
    } else {
        let b = " hoá đơn đang được giữ lại vì máy in đang lỗi. Xử lý xong máy in là tự in. Hoá đơn nào không cần nữa: bấm Huỷ trước."@;
        reveal_strlit(" hoá đơn đang được giữ lại vì máy in đang lỗi. Xử lý xong máy in là tự in. Hoá đơn nào không cần nữa: bấm Huỷ trước.");
        assert(sach(b, false)) by {
            reveal_with_fuel(sach_tu, 62);
            assert(sach_tu(b, false, 60));
            assert(sach_tu(b, false, 0));
            sach_tu_dau(b, false, 0);
            am_sach(b);
        }
        sau_so_sach(so, b, false);
        khong_co_sap(s);
    }
}

proof fn khong_co_sap(s: Seq<char>)
    requires
        sach(s, false),
    ensures
        !chu::co_chua(s, "sắp"@),
{
    reveal_strlit("sắp");
    assert forall|i: int| !chu::khop_tai(s, "sắp"@, i) by {
        assert(!in_lai_tai(s, i));
        assert(!sap_tai(s, i));
        if chu::khop_tai(s, "sắp"@, i) {
            let t = s.subrange(i, i + 3);
            assert(t[0] == 's' && t[1] == 'ắ' && t[2] == 'p');
        }
    }
}

/// The strip begins with the number of invoices, whatever the printer's state.
pub proof fn dai_bat_dau_bang_so(so: nat, ma: Option<MaSuCo>)
    ensures
        chu::bat_dau_bang(dai_tam_giu_cua(so, ma), chu::thap_phan(so) + " hoá đơn đang "@),
{
    reveal_strlit(" hoá đơn đang ");
    reveal_strlit(" hoá đơn đang chờ — ");
    reveal_strlit(" hoá đơn đang chờ — máy in vừa hết lỗi, hệ thống sắp tự in. Hoá đơn nào không cần nữa: bấm Huỷ NGAY.");
    reveal_strlit(" hoá đơn đang được giữ lại vì máy in đang lỗi. Xử lý xong máy in là tự in. Hoá đơn nào không cần nữa: bấm Huỷ trước.");
    let n = chu::thap_phan(so);
    let s = dai_tam_giu_cua(so, ma);
    let d = n + " hoá đơn đang "@;
    if ma matches Some(m) && m.chan() {
        let t1 = " hoá đơn đang chờ — "@;
        let (ly_do, viec, viec_thuong) = chu_theo_ma(ma->0);
        let c = ly_do + ". "@ + viec
            + " là tự in. Hoá đơn nào không cần nữa: bấm Huỷ TRƯỚC khi "@ + viec_thuong + "."@;
        assert(s =~= n + t1 + c);
    }
    assert(s.subrange(0, d.len() as int) =~= d);
}

/// Where the printer's state is not known, or is only low toner, the strip says the same: the invoices are
/// held back because the printer is in trouble.
pub proof fn dai_khi_khong_ro(so: nat)
    ensures
        dai_tam_giu_cua(so, None) == dai_tam_giu_cua(so, Some(MaSuCo::HetMuc)),
        chu::co_chua(dai_tam_giu_cua(so, None), "đang được giữ lại vì máy in đang lỗi"@),
{
    reveal_strlit("đang được giữ lại vì máy in đang lỗi");
    reveal_strlit(" hoá đơn đang được giữ lại vì máy in đang lỗi. Xử lý xong máy in là tự in. Hoá đơn nào không cần nữa: bấm Huỷ trước.");
    let t = "đang được giữ lại vì máy in đang lỗi"@;
    let s = dai_tam_giu_cua(so, None);
    let k = chu::thap_phan(so).len() as int + 9;
    assert(s.subrange(k, k + t.len()) =~= t);
    assert(chu::khop_tai(s, t, k));
}

} // verus!
