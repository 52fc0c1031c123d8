//! What the lines of the block say of the invoices they stand for.
use crate::bao_cao::{AnhV, MucV};
use crate::chu;
use crate::day::{dem, giu_dung};
use crate::hang_doi::khoi::{
    chen, chen_dong, chu_chua_ro, chu_dang, dai_tam_giu_cua, dong_theo, loat_theo, sap_theo_dong, CheDo, DongV, MauDong, NutDong,
};
use crate::hang_doi::luat::con_lai_dung;
use crate::hang_doi::luat_bam::chen_dong_nguon;
use crate::hang_doi::{
    cac_muc, dem_anh, sau_ket_cuc, tom_tat, HdV, KetCucV, LoaiViec, LoatV, MttV, ThaoTacV, SO_LAN_GUI_TOI_DA, VI_SAO_CHUA_XAC_NHAN,
    VI_SAO_DANG_IN,
};
use crate::su_co::MaSuCo;
use vstd::prelude::*;
use vstd::string::*;

verus! {

/// An invoice that is in the queue, or with which something goes on.
pub open spec fn co_muc(s: HdV, m: MucV) -> bool {
    (s.anh matches Some(a) && cac_muc(a).contains(m)) || exists|i: int|
        0 <= i < s.thao_tac.len() && (#[trigger] s.thao_tac[i]).muc == m
}

/// Every line of the block stands for an invoice of the queue, or for one with which something goes on. It
/// shows that invoice's number, customer and time. Where the server gave words for its state, those are shown
/// as they are; else the line says that it waits, is held back, is being sent, was sent or is not confirmed,
/// each exactly in that state, and shows any other state as it is. Its colour goes by the state alone, and it
/// offers the withdrawal exactly where that is certain to take effect.
pub proof fn dong_noi_trang_thai(s: HdV, da_noi: bool, ma: Option<MaSuCo>, t: u64, k: int) -> (m: MucV)
    requires
        0 <= k < s.khoi_cua(da_noi, ma, t).dong.len(),
    ensures
        co_muc(s, m),
        s.khoi_cua(da_noi, ma, t).dong[k].id == m.id,
        s.khoi_cua(da_noi, ma, t).dong[k].tao == m.tao,
        m.ten_khach is None ==> s.khoi_cua(da_noi, ma, t).dong[k].tieu_de == m.so_hoa_don,
        m.ten_khach matches Some(kh) ==> s.khoi_cua(da_noi, ma, t).dong[k].tieu_de == m.so_hoa_don + " · "@ + kh,
        m.ly_do.len() > 0 ==> s.khoi_cua(da_noi, ma, t).dong[k].trang_thai == m.ly_do,
        m.ly_do.len() == 0 && m.trang_thai == "cho_in"@ && !m.tam_giu ==> s.khoi_cua(da_noi, ma, t).dong[k].trang_thai
            == "Chờ gửi xuống máy in"@,
        m.ly_do.len() == 0 && m.trang_thai == "cho_in"@ && m.tam_giu ==> s.khoi_cua(da_noi, ma, t).dong[k].trang_thai
            == "Tạm giữ — chờ máy in hết lỗi"@,
        m.ly_do.len() == 0 && m.trang_thai == "dang_gui"@ ==> s.khoi_cua(da_noi, ma, t).dong[k].trang_thai
            == "Đang gửi xuống máy in"@,
        m.ly_do.len() == 0 && m.trang_thai == "da_gui"@ ==> s.khoi_cua(da_noi, ma, t).dong[k].trang_thai
            == "Đã gửi — đang chờ máy in"@,
        m.ly_do.len() == 0 && m.trang_thai == "khong_ro"@ ==> s.khoi_cua(da_noi, ma, t).dong[k].trang_thai
            == "Chưa xác nhận đã in — có thể đang nằm trong máy in"@,
        m.ly_do.len() == 0 && m.trang_thai != "cho_in"@ && m.trang_thai != "dang_gui"@ && m.trang_thai != "da_gui"@
            && m.trang_thai != "khong_ro"@ ==> s.khoi_cua(da_noi, ma, t).dong[k].trang_thai == m.trang_thai,
        m.ly_do.len() == 0 && (m.trang_thai == "cho_in"@ || m.trang_thai == "dang_gui"@ || m.trang_thai == "da_gui"@
            || m.trang_thai == "khong_ro"@) ==> (chu::bat_dau_bang(
            s.khoi_cua(da_noi, ma, t).dong[k].trang_thai,
            "Đã gửi"@,
        ) <==> m.trang_thai == "da_gui"@),
        s.khoi_cua(da_noi, ma, t).dong[k].mau == MauDong::TamGiu <==> m.trang_thai == "cho_in"@ && m.tam_giu,
        s.khoi_cua(da_noi, ma, t).dong[k].mau == MauDong::Cho <==> m.trang_thai == "cho_in"@ && !m.tam_giu,
        s.khoi_cua(da_noi, ma, t).dong[k].mau == MauDong::ChuaXacNhan <==> m.trang_thai == "khong_ro"@,
        s.khoi_cua(da_noi, ma, t).dong[k].nut == NutDong::Huy <==> m.huy == "chac_chan"@ && m.trang_thai == "cho_in"@,
        s.khoi_cua(da_noi, ma, t).dong[k].bat_nut <==> s.bam_duoc(da_noi),
        s.khoi_cua(da_noi, ma, t).dong[k].co_nut_bo <==> s.khoi_cua(da_noi, ma, t).dong[k].che_do == CheDo::ViSao && (m.nhom
            == "chua_xac_nhan"@ || m.trang_thai == "khong_ro"@),
        s.khoi_cua(da_noi, ma, t).dong[k].co_nut_huy_lai ==> m.huy == "chac_chan"@ && m.trang_thai == "cho_in"@ && (
        s.khoi_cua(da_noi, ma, t).dong[k].che_do == CheDo::ThatBai || s.khoi_cua(da_noi, ma, t).dong[k].che_do
            == CheDo::ChuaRo),
{
    let a = s.anh->0;
    let bat = s.bam_duoc(da_noi);
    let dong = s.dong_cua_anh(a, bat);
    let ds = sap_theo_dong(s.con_lai());
    let r = s.khoi_cua(da_noi, ma, t).dong[k];
    chen_dong_nguon(dong, ds, bat, k);
    let m = if exists|i: int| 0 <= i < dong.len() && #[trigger] dong[i] == r {
        let i = choose|i: int| 0 <= i < dong.len() && #[trigger] dong[i] == r;
        let m = cac_muc(a)[i];
        assert(r == dong_theo(m, s.tt_cua(m.id), true, bat));
        assert(cac_muc(a).contains(m));
        m
    } else {
        let i = choose|i: int| 0 <= i < ds.len() && dong_theo((#[trigger] ds[i]).muc, Some(ds[i].tt), false, bat) == r;
        con_lai_dung(s, i);
        let j = choose|j: int| 0 <= j < s.thao_tac.len() && s.thao_tac[j] == ds[i];
        assert(s.thao_tac[j].muc == ds[i].muc);
        ds[i].muc
    };
    assert(co_muc(s, m));
    trang_thai_khac_nhau();
    chu_da_gui_rieng();
    m
}

/// The states that the server names differ from one another.
proof fn trang_thai_khac_nhau()
    ensures
        "cho_in"@ != "dang_gui"@,
        "cho_in"@ != "da_gui"@,
        "cho_in"@ != "khong_ro"@,
        "dang_gui"@ != "da_gui"@,
        "dang_gui"@ != "khong_ro"@,
        "da_gui"@ != "khong_ro"@,
{
    reveal_strlit("cho_in");
    reveal_strlit("dang_gui");
    reveal_strlit("da_gui");
    reveal_strlit("khong_ro");
    assert("cho_in"@[0] == 'c' && "da_gui"@[0] == 'd' && "dang_gui"@[0] == 'd' && "khong_ro"@[0] == 'k');
    assert("dang_gui"@.len() == 8 && "da_gui"@.len() == 6);
}

/// Of the words for the states only those of an invoice that was sent start with "Đã gửi".
proof fn chu_da_gui_rieng()
    ensures
        chu::bat_dau_bang("Đã gửi — đang chờ máy in"@, "Đã gửi"@),
        !chu::bat_dau_bang("Chờ gửi xuống máy in"@, "Đã gửi"@),
        !chu::bat_dau_bang("Tạm giữ — chờ máy in hết lỗi"@, "Đã gửi"@),
        !chu::bat_dau_bang("Đang gửi xuống máy in"@, "Đã gửi"@),
        !chu::bat_dau_bang("Chưa xác nhận đã in — có thể đang nằm trong máy in"@, "Đã gửi"@),
{
    reveal_strlit("Đã gửi");
    reveal_strlit("Đã gửi — đang chờ máy in");
    reveal_strlit("Chờ gửi xuống máy in");
    reveal_strlit("Tạm giữ — chờ máy in hết lỗi");
    reveal_strlit("Đang gửi xuống máy in");
    reveal_strlit("Chưa xác nhận đã in — có thể đang nằm trong máy in");
    let d = "Đã gửi"@;
    assert(d.len() == 6 && d[0] == 'Đ' && d[1] == 'ã');
    assert("Đã gửi — đang chờ máy in"@.subrange(0, 6) =~= d);
    assert("Chờ gửi xuống máy in"@.subrange(0, 6)[0] == 'C');
    assert("Tạm giữ — chờ máy in hết lỗi"@.subrange(0, 6)[0] == 'T');
    assert("Đang gửi xuống máy in"@.subrange(0, 6)[1] == 'a');
    assert("Chưa xác nhận đã in — có thể đang nằm trong máy in"@.subrange(0, 6)[0] == 'C');
}

/// A line stays where entries that left the queue are put between the lines.
proof fn chen_dong_con(dong: Seq<DongV>, ds: Seq<MttV>, bat: bool, i: int) -> (k: int)
    requires
        0 <= i < dong.len(),
    ensures
        0 <= k < chen_dong(dong, ds, bat).len(),
        chen_dong(dong, ds, bat)[k] == dong[i],
    decreases ds.len(),
{
    if ds.len() == 0 {
        i
    } else {
        let d = chen_dong(dong, ds.drop_last(), bat);
        let m = ds.last();
        let vt = if m.vi_tri <= d.len() {
            m.vi_tri as int
        } else {
            d.len() as int
        };
        let j = chen_dong_con(dong, ds.drop_last(), bat, i);
        if j < vt {
            j
        } else {
            j + 1
        }
    }
}

/// Every invoice in the queue has a line in the block, and where the server gave no words for its state the
/// line says by its state how far it has come.
pub proof fn muc_co_dong_noi_dung(s: HdV, da_noi: bool, ma: Option<MaSuCo>, t: u64, i: int) -> (k: int)
    requires
        s.ho_tro,
        s.anh is Some,
        0 <= i < cac_muc(s.anh->0).len(),
    ensures
        s.khoi_cua(da_noi, ma, t).hien,
        0 <= k < s.khoi_cua(da_noi, ma, t).dong.len(),
        s.khoi_cua(da_noi, ma, t).dong[k].id == cac_muc(s.anh->0)[i].id,
        cac_muc(s.anh->0)[i].ly_do.len() > 0 ==> s.khoi_cua(da_noi, ma, t).dong[k].trang_thai == cac_muc(s.anh->0)[i].ly_do,
        cac_muc(s.anh->0)[i].ly_do.len() == 0 && cac_muc(s.anh->0)[i].trang_thai == "cho_in"@ ==> s.khoi_cua(
            da_noi,
            ma,
            t,
        ).dong[k].trang_thai == (if cac_muc(s.anh->0)[i].tam_giu {
            "Tạm giữ — chờ máy in hết lỗi"@
        } else {
            "Chờ gửi xuống máy in"@
        }),
        cac_muc(s.anh->0)[i].ly_do.len() == 0 && cac_muc(s.anh->0)[i].trang_thai == "dang_gui"@ ==> s.khoi_cua(
            da_noi,
            ma,
            t,
        ).dong[k].trang_thai == "Đang gửi xuống máy in"@,
        cac_muc(s.anh->0)[i].ly_do.len() == 0 && cac_muc(s.anh->0)[i].trang_thai == "da_gui"@ ==> s.khoi_cua(
            da_noi,
            ma,
            t,
        ).dong[k].trang_thai == "Đã gửi — đang chờ máy in"@,
        cac_muc(s.anh->0)[i].ly_do.len() == 0 && cac_muc(s.anh->0)[i].trang_thai == "khong_ro"@ ==> s.khoi_cua(
            da_noi,
            ma,
            t,
        ).dong[k].trang_thai == "Chưa xác nhận đã in — có thể đang nằm trong máy in"@,
        s.tt_cua(cac_muc(s.anh->0)[i].id) is None ==> s.khoi_cua(da_noi, ma, t).dong[k].che_do == CheDo::BinhThuong
            && s.khoi_cua(da_noi, ma, t).dong[k].thong_diep.len() == 0,
{
    let a = s.anh->0;
    let bat = s.bam_duoc(da_noi);
    let dong = s.dong_cua_anh(a, bat);
    let m = cac_muc(a)[i];
    assert(dong[i] == dong_theo(m, s.tt_cua(m.id), true, bat));
    trang_thai_khac_nhau();
    chen_dong_con(dong, sap_theo_dong(s.con_lai()), bat, i)
}

/// What goes on with an invoice shows on its line: a question only while buttons work, naming the invoice and
/// saying what will happen; the explanation that fits the invoice; a request under way, done, refused or
/// without a reply each as such, with the words kept for it.
pub proof fn dong_noi_viec_dang_lam(m: MucV, tt: ThaoTacV, con_trong_anh: bool, bat: bool)
    ensures
        ({
            let d = dong_theo(m, Some(tt), con_trong_anh, bat);
            &&& tt is XacNhanHuy && bat ==> d.che_do == CheDo::XacNhanHuy && d.thong_diep == "Huỷ lệnh in "@ + m.so_hoa_don
                + "? Hoá đơn này sẽ KHÔNG được in."@
            &&& tt is XacNhanBo && bat ==> d.che_do == CheDo::XacNhanBo && d.thong_diep == "Bỏ "@ + m.so_hoa_don
                + " khỏi hàng đợi? Việc này KHÔNG chặn việc in — hoá đơn còn trong máy in vẫn sẽ in ra. Hệ thống chỉ thôi theo dõi."@
            &&& (tt is XacNhanHuy || tt is XacNhanBo) && !bat ==> d.che_do == CheDo::BinhThuong && d.thong_diep.len() == 0
            &&& tt is ViSao ==> d.che_do == CheDo::ViSao
            &&& tt is Dang ==> d.che_do == CheDo::Dang
            &&& (tt matches ThaoTacV::Xong { loai, luc, noi_dung }) ==> (d.che_do == CheDo::DaHuy <==> tt->Xong_loai
                == LoaiViec::Huy) && (d.che_do == CheDo::DaBo <==> tt->Xong_loai == LoaiViec::BoTheoDoi) && d.thong_diep
                == tt->Xong_noi_dung
            &&& tt is ThatBai ==> d.che_do == CheDo::ThatBai && d.thong_diep == tt->ThatBai_noi_dung
            &&& tt is ChuaRo ==> d.che_do == CheDo::ChuaRo
            &&& d.co_nut_huy_lai <==> con_trong_anh && m.huy == "chac_chan"@ && m.trang_thai == "cho_in"@ && ((tt is ThatBai
                && tt->ThatBai_loai == LoaiViec::Huy) || (tt is ChuaRo && tt->ChuaRo_loai == LoaiViec::Huy))
        }),
{
}

/// What a reply comes to on the line: done exactly where the server said yes, open exactly where a request
/// left without a reply, and else failed. A withdrawal that took effect shows the server's words where it gave
/// any; a refusal names what was refused, with the server's words; where no request left the line says that
/// nothing was done.
pub proof fn ket_cuc_thanh_viec(loai: LoaiViec, kc: KetCucV, t: u64)
    ensures
        sau_ket_cuc(loai, kc, t) is Xong <==> kc is Duoc,
        sau_ket_cuc(loai, kc, t) is ThatBai <==> kc is KhongDuoc || kc is ChuaGui,
        sau_ket_cuc(loai, kc, t) is ChuaRo <==> kc is ChuaRo,
        kc is Duoc ==> sau_ket_cuc(loai, kc, t)->Xong_loai == loai && sau_ket_cuc(loai, kc, t)->Xong_luc == t,
        kc is KhongDuoc || kc is ChuaGui ==> sau_ket_cuc(loai, kc, t)->ThatBai_loai == loai,
        kc is ChuaRo ==> sau_ket_cuc(loai, kc, t)->ChuaRo_loai == loai,
        kc is Duoc && loai == LoaiViec::Huy && kc->Duoc_noi_dung.len() > 0 ==> sau_ket_cuc(loai, kc, t)->Xong_noi_dung
            == kc->Duoc_noi_dung,
        kc is Duoc && loai == LoaiViec::Huy && kc->Duoc_noi_dung.len() == 0 ==> sau_ket_cuc(loai, kc, t)->Xong_noi_dung
            == "Đã huỷ — hoá đơn chắc chắn không in"@,
        kc is Duoc && loai == LoaiViec::BoTheoDoi ==> sau_ket_cuc(loai, kc, t)->Xong_noi_dung
            == "Đã bỏ khỏi hàng đợi — hệ thống KHÔNG biết hoá đơn đã in hay chưa. Kiểm giấy trước khi in lại."@,
        kc is KhongDuoc && loai == LoaiViec::Huy && kc->KhongDuoc_noi_dung.len() > 0 ==> sau_ket_cuc(
            loai,
            kc,
            t,
        )->ThatBai_noi_dung == "Không huỷ được: "@ + kc->KhongDuoc_noi_dung,
        kc is KhongDuoc && loai == LoaiViec::Huy && kc->KhongDuoc_noi_dung.len() == 0 ==> sau_ket_cuc(
            loai,
            kc,
            t,
        )->ThatBai_noi_dung == "Không huỷ được: "@ + "server từ chối"@,
        kc is KhongDuoc && loai == LoaiViec::BoTheoDoi && kc->KhongDuoc_noi_dung.len() > 0 ==> sau_ket_cuc(
            loai,
            kc,
            t,
        )->ThatBai_noi_dung == "Không bỏ được: "@ + kc->KhongDuoc_noi_dung,
        kc is KhongDuoc && loai == LoaiViec::BoTheoDoi && kc->KhongDuoc_noi_dung.len() == 0 ==> sau_ket_cuc(
            loai,
            kc,
            t,
        )->ThatBai_noi_dung == "Không bỏ được: "@ + "server từ chối"@,
        kc is ChuaGui && loai == LoaiViec::Huy && chu::co_chua(kc->ChuaGui_ly_do, "ho tro"@) ==> sau_ket_cuc(
            loai,
            kc,
            t,
        )->ThatBai_noi_dung == "CHƯA "@ + "huỷ"@ + " — "@
            + "server ZaloCRM chưa hỗ trợ việc này từ app — làm trên trang ZaloCRM › Máy in"@ + "."@,
        kc is ChuaGui && loai == LoaiViec::BoTheoDoi && chu::co_chua(kc->ChuaGui_ly_do, "ho tro"@) ==> sau_ket_cuc(
            loai,
            kc,
            t,
        )->ThatBai_noi_dung == "CHƯA "@ + "bỏ"@ + " — "@
            + "server ZaloCRM chưa hỗ trợ việc này từ app — làm trên trang ZaloCRM › Máy in"@ + "."@,
        kc is ChuaGui && loai == LoaiViec::Huy && !chu::co_chua(kc->ChuaGui_ly_do, "ho tro"@) ==> sau_ket_cuc(
            loai,
            kc,
            t,
        )->ThatBai_noi_dung == "CHƯA "@ + "huỷ"@ + " — "@ + (
        "không gửi được yêu cầu (app mất kết nối với ZaloCRM). Nối lại rồi bấm "@ + "huỷ"@ + " lại"@) + "."@,
        kc is ChuaGui && loai == LoaiViec::BoTheoDoi && !chu::co_chua(kc->ChuaGui_ly_do, "ho tro"@) ==> sau_ket_cuc(
            loai,
            kc,
            t,
        )->ThatBai_noi_dung == "CHƯA "@ + "bỏ"@ + " — "@ + (
        "không gửi được yêu cầu (app mất kết nối với ZaloCRM). Nối lại rồi bấm "@ + "bỏ"@ + " lại"@) + "."@,
{
}

/// The explanation on a line: of an invoice that was sent and not confirmed, how to keep it from printing; of
/// any other, that it can no longer be withdrawn.
pub proof fn vi_sao_theo_muc(m: MucV, con_trong_anh: bool, bat: bool)
    ensures
        m.nhom == "chua_xac_nhan"@ || m.trang_thai == "khong_ro"@ ==> dong_theo(m, Some(ThaoTacV::ViSao), con_trong_anh, bat).thong_diep
            == VI_SAO_CHUA_XAC_NHAN@,
        m.nhom != "chua_xac_nhan"@ && m.trang_thai != "khong_ro"@ ==> dong_theo(m, Some(ThaoTacV::ViSao), con_trong_anh, bat).thong_diep
            == VI_SAO_DANG_IN@,
        VI_SAO_DANG_IN@
            == "Hoá đơn đang được gửi/in ở máy in — không huỷ được nữa. Nếu không cần tờ này: bỏ tờ in ra."@,
        VI_SAO_CHUA_XAC_NHAN@
            == "Hoá đơn đã gửi xuống máy in nhưng chưa xác nhận đã in — có thể đang nằm trong bộ nhớ máy in, không huỷ được từ xa. Muốn bỏ hẳn: xoá lệnh trong hàng đợi Windows (nếu còn), tắt máy in 10 giây (MỌI hoá đơn trong bộ nhớ máy sẽ mất) → bật lại → kiểm khay → in lại cái cần. Rồi bấm \"Bỏ khỏi hàng đợi\"."@,
{
}

/// While a request is under way the line names it; from the second try on it says what is waited for: the
/// connection where no request has left yet, and else the reply, with the number of the next try.
pub proof fn chu_dang_theo_lan(loai: LoaiViec, lan: u32, da_gui: u32)
    ensures
        lan <= 1 && loai == LoaiViec::Huy ==> chu_dang(loai, lan, da_gui) == "Đang huỷ…"@,
        lan <= 1 && loai == LoaiViec::BoTheoDoi ==> chu_dang(loai, lan, da_gui) == "Đang bỏ khỏi hàng đợi…"@,
        lan > 1 && da_gui == 0 ==> chu_dang(loai, lan, da_gui) == chu_dang(loai, 1, 0)
            + " (chờ nối lại ZaloCRM để gửi yêu cầu)"@,
        lan > 1 && da_gui > 0 ==> chu_dang(loai, lan, da_gui) == chu_dang(loai, 1, 0)
            + " (ZaloCRM chưa trả lời — hỏi lại, lần "@ + chu::thap_phan((da_gui + 1) as nat) + "/"@ + chu::thap_phan(
            SO_LAN_GUI_TOI_DA as nat,
        ) + ")"@,
{
}

/// Where no reply came the line says so, and what the queue tells: that the invoice still waits and may be
/// withdrawn again, that it is still in the queue, or that it has left it.
pub proof fn chu_chua_ro_theo_anh(loai: LoaiViec, con_trong_anh: bool, m: MucV)
    ensures
        con_trong_anh && loai == LoaiViec::Huy && m.huy == "chac_chan"@ && m.trang_thai == "cho_in"@ ==> chu_chua_ro(
            loai,
            con_trong_anh,
            m,
        )
            == "Chưa rõ đã huỷ được chưa — ZaloCRM không trả lời. Hoá đơn VẪN đang chờ trong hàng đợi: bấm \"Huỷ lại\" để hỏi lại."@,
        con_trong_anh && loai == LoaiViec::Huy && (m.huy != "chac_chan"@ || m.trang_thai != "cho_in"@) ==> chu_chua_ro(
            loai,
            con_trong_anh,
            m,
        ) == "Chưa rõ đã "@ + "huỷ"@ + " được chưa — ZaloCRM không trả lời. Hoá đơn vẫn còn trong hàng đợi."@,
        con_trong_anh && loai == LoaiViec::BoTheoDoi ==> chu_chua_ro(loai, con_trong_anh, m) == "Chưa rõ đã "@ + "bỏ"@
            + " được chưa — ZaloCRM không trả lời. Hoá đơn vẫn còn trong hàng đợi."@,
        !con_trong_anh && loai == LoaiViec::Huy ==> chu_chua_ro(loai, con_trong_anh, m) == "Chưa rõ đã "@ + "huỷ"@
            + " được chưa — ZaloCRM không trả lời, và hoá đơn đã rời hàng đợi (đã huỷ hoặc đã gửi in). Xem Nhật ký in trên ZaloCRM."@,
        !con_trong_anh && loai == LoaiViec::BoTheoDoi ==> chu_chua_ro(loai, con_trong_anh, m) == "Chưa rõ đã "@ + "bỏ"@
            + " được chưa — ZaloCRM không trả lời, và hoá đơn đã rời hàng đợi (đã huỷ hoặc đã gửi in). Xem Nhật ký in trên ZaloCRM."@,
{
}

/// The strip over held invoices says how many there are, what is wrong with the printer in words for its
/// trouble, what to do, and when to withdraw: before that is done while the printer is in trouble, at once
/// where it has just recovered.
pub proof fn dai_noi_su_co(so: nat, ma: Option<MaSuCo>)
    ensures
        ma == Some(MaSuCo::HetGiay) ==> dai_tam_giu_cua(so, ma) == chu::thap_phan(so) + " hoá đơn đang chờ — "@
            + "máy in Hết giấy"@ + ". "@ + "Nạp giấy"@ + " là tự in. Hoá đơn nào không cần nữa: bấm Huỷ TRƯỚC khi "@
            + "nạp giấy"@ + "."@,
        ma == Some(MaSuCo::KetGiay) ==> dai_tam_giu_cua(so, ma) == chu::thap_phan(so) + " hoá đơn đang chờ — "@
            + "máy in Kẹt giấy"@ + ". "@ + "Gỡ giấy kẹt"@ + " là tự in. Hoá đơn nào không cần nữa: bấm Huỷ TRƯỚC khi "@
            + "gỡ giấy kẹt"@ + "."@,
        ma == Some(MaSuCo::MoNap) ==> dai_tam_giu_cua(so, ma) == chu::thap_phan(so) + " hoá đơn đang chờ — "@
            + "nắp máy in đang mở"@ + ". "@ + "Đóng nắp"@ + " là tự in. Hoá đơn nào không cần nữa: bấm Huỷ TRƯỚC khi "@
            + "đóng nắp"@ + "."@,
        ma == Some(MaSuCo::Offline) ==> dai_tam_giu_cua(so, ma) == chu::thap_phan(so) + " hoá đơn đang chờ — "@
            + "máy in mất kết nối"@ + ". "@ + "Bật lại máy in"@ + " là tự in. Hoá đơn nào không cần nữa: bấm Huỷ TRƯỚC khi "@
            + "bật lại máy in"@ + "."@,
        ma == Some(MaSuCo::KhongTimThayMayIn) ==> dai_tam_giu_cua(so, ma) == chu::thap_phan(so) + " hoá đơn đang chờ — "@
            + "không tìm thấy máy in trong Windows"@ + ". "@ + "Chọn lại máy in trong app"@
            + " là tự in. Hoá đơn nào không cần nữa: bấm Huỷ TRƯỚC khi "@ + "chọn lại máy in"@ + "."@,
        ma matches Some(m) ==> (m.chan() && m != MaSuCo::HetGiay && m != MaSuCo::KetGiay && m != MaSuCo::MoNap && m
            != MaSuCo::Offline && m != MaSuCo::KhongTimThayMayIn ==> dai_tam_giu_cua(so, ma) == chu::thap_phan(so)
            + " hoá đơn đang chờ — "@ + ("máy in báo: "@ + m.nhan_cua()) + ". "@ + "Xử lý xong máy in"@
            + " là tự in. Hoá đơn nào không cần nữa: bấm Huỷ TRƯỚC khi "@ + "xử lý máy in"@ + "."@),
        ma == Some(MaSuCo::BinhThuong) ==> dai_tam_giu_cua(so, ma) == chu::thap_phan(so)
            + " hoá đơn đang chờ — máy in vừa hết lỗi, hệ thống sắp tự in. Hoá đơn nào không cần nữa: bấm Huỷ NGAY."@,
        ma is None || (!ma->0.chan() && ma->0 != MaSuCo::BinhThuong) ==> dai_tam_giu_cua(so, ma) == chu::thap_phan(so)
            + " hoá đơn đang được giữ lại vì máy in đang lỗi. Xử lý xong máy in là tự in. Hoá đơn nào không cần nữa: bấm Huỷ trước."@,
{
}

/// How many entries fit, counted one by one.
pub open spec fn so_tam_giu(ds: Seq<MucV>) -> nat
    decreases ds.len(),
{
    if ds.len() == 0 {
        0
    } else {
        so_tam_giu(ds.drop_last()) + (if ds.last().tam_giu {
            1nat
        } else {
            0
        })
    }
}

proof fn dem_la_so_tam_giu(ds: Seq<MucV>)
    ensures
        dem(ds, |m: MucV| m.tam_giu) == so_tam_giu(ds),
    decreases ds.len(),
{
    if ds.len() > 0 {
        dem_la_so_tam_giu(ds.drop_last());
    }
}

/// The title counts the invoices that wait and, where there are any, those not confirmed; the strip shows
/// exactly where one is held back, for as many as are.
pub proof fn tieu_de_dem_hang_doi(s: HdV, da_noi: bool, ma: Option<MaSuCo>, t: u64)
    requires
        s.ho_tro,
        s.anh is Some,
    ensures
        s.anh->0.chua_xac_nhan.len() == 0 ==> s.khoi_cua(da_noi, ma, t).tieu_de == "HÀNG ĐỢI ("@ + chu::thap_phan(
            s.anh->0.cho_in.len(),
        ) + ")"@,
        s.anh->0.chua_xac_nhan.len() > 0 ==> s.khoi_cua(da_noi, ma, t).tieu_de == "HÀNG ĐỢI ("@ + chu::thap_phan(
            s.anh->0.cho_in.len(),
        ) + ")"@ + (" · "@ + chu::thap_phan(s.anh->0.chua_xac_nhan.len()) + " chưa xác nhận"@),
        so_tam_giu(s.anh->0.cho_in) == 0 ==> s.khoi_cua(da_noi, ma, t).dai_tam_giu.len() == 0,
        so_tam_giu(s.anh->0.cho_in) > 0 ==> s.khoi_cua(da_noi, ma, t).dai_tam_giu == dai_tam_giu_cua(
            so_tam_giu(s.anh->0.cho_in),
            ma,
        ),
        s.khoi_cua(da_noi, ma, t).hien <==> s.khoi_cua(da_noi, ma, t).dong.len() > 0 || s.loat is Some,
{
    dem_la_so_tam_giu(s.anh->0.cho_in);
    let h = "HÀNG ĐỢI ("@ + chu::thap_phan(s.anh->0.cho_in.len()) + ")"@;
    assert(h + Seq::<char>::empty() =~= h);
}

/// The strip of a batch: a question only while buttons work, how far it has come while it runs, and at the end
/// all or not all, with how many were withdrawn and how many were not.
pub proof fn loat_noi_tien_do(l: LoatV, bat: bool)
    ensures
        l is XacNhan && !bat ==> loat_theo(Some(l), bat).0 == 0 && loat_theo(Some(l), bat).1.len() == 0,
        l is XacNhan && bat ==> loat_theo(Some(l), bat).0 == 1 && loat_theo(Some(l), bat).1 == "Huỷ cả "@ + chu::thap_phan(
            l->XacNhan_ids.len(),
        ) + " lệnh in đang tạm giữ? Các hoá đơn này sẽ KHÔNG được in."@,
        l is Dang ==> loat_theo(Some(l), bat).0 == 2 && loat_theo(Some(l), bat).1 == "Đang huỷ "@ + chu::thap_phan(
            l->Dang_xong as nat,
        ) + "/"@ + chu::thap_phan(l->Dang_ids.len()) + " lệnh in…"@,
        l is Xong && l->Xong_duoc == l->Xong_tong ==> loat_theo(Some(l), bat).0 == 3 && loat_theo(Some(l), bat).1
            == "Đã huỷ "@ + chu::thap_phan(l->Xong_duoc as nat) + "/"@ + chu::thap_phan(l->Xong_tong as nat) + " lệnh in"@,
        l is Xong && l->Xong_duoc != l->Xong_tong ==> loat_theo(Some(l), bat).0 == 4 && loat_theo(Some(l), bat).1
            == "Đã huỷ "@ + chu::thap_phan(l->Xong_duoc as nat) + "/"@ + chu::thap_phan(l->Xong_tong as nat) + " — "@
            + chu::thap_phan((l->Xong_tong - l->Xong_duoc) as nat)
            + " lệnh KHÔNG huỷ được hoặc chưa rõ, xem các dòng đỏ/vàng bên dưới."@,
        loat_theo(None, bat).0 == 0,
{
}

/// The line in the log starts with what came of the request and names the invoice.
pub proof fn dong_nhat_ky_noi_ket_cuc(kc: KetCucV, m: MucV)
    ensures
        kc is Duoc && kc->Duoc_cach.len() > 0 ==> kc.dong(m) == "ok=true cach="@ + kc->Duoc_cach + " "@ + ("so="@
            + m.so_hoa_don + " id="@ + m.id),
        kc is Duoc && kc->Duoc_cach.len() == 0 ==> kc.dong(m) == "ok=true cach="@ + "-"@ + " "@ + ("so="@ + m.so_hoa_don
            + " id="@ + m.id),
        kc is KhongDuoc ==> kc.dong(m) == "ok=false loi="@ + kc->KhongDuoc_loi + " "@ + ("so="@ + m.so_hoa_don + " id="@
            + m.id) + " noi_dung="@ + kc->KhongDuoc_noi_dung,
        kc is ChuaGui ==> kc.dong(m) == "ok=false chua_gui ly_do="@ + kc->ChuaGui_ly_do + " "@ + ("so="@ + m.so_hoa_don
            + " id="@ + m.id),
        kc is ChuaRo ==> kc.dong(m) == "ok=false chua_ro ly_do="@ + kc->ChuaRo_ly_do + " "@ + ("so="@ + m.so_hoa_don
            + " id="@ + m.id),
{
}

/// Before anything can be pressed, the block says why its lines may be old: while the app is not connected,
/// then until the queue of this connection has come, then where it has not been heard of for a minute and a
/// half.
pub proof fn ghi_chu_noi_vi_sao_cu(s: HdV, da_noi: bool, ma: Option<MaSuCo>, t: u64)
    requires
        s.ho_tro,
        s.anh is Some,
    ensures
        !da_noi ==> s.khoi_cua(da_noi, ma, t).ghi_chu == "có thể chưa cập nhật — app đang mất kết nối"@,
        da_noi && !s.cua_ket_noi_nay ==> s.khoi_cua(da_noi, ma, t).ghi_chu == "đang tải lại…"@,
        da_noi && s.cua_ket_noi_nay && s.luc_nhan is None ==> s.khoi_cua(da_noi, ma, t).ghi_chu.len() == 0,
        da_noi && s.cua_ket_noi_nay && s.luc_nhan is Some && t - s.luc_nhan->0 >= 90_000 ==> s.khoi_cua(da_noi, ma, t).ghi_chu
            == "có thể chưa cập nhật"@,
        da_noi && s.cua_ket_noi_nay && s.luc_nhan is Some && t - s.luc_nhan->0 < 90_000 ==> s.khoi_cua(
            da_noi,
            ma,
            t,
        ).ghi_chu.len() == 0,
{
}

/// Where nothing was heard of the queue, or the server does not tell of it, no block shows.
pub proof fn khong_anh_khong_khoi(s: HdV, da_noi: bool, ma: Option<MaSuCo>, t: u64)
    requires
        s.anh is None || !s.ho_tro,
    ensures
        !s.khoi_cua(da_noi, ma, t).hien,
        s.khoi_cua(da_noi, ma, t).dong.len() == 0,
        s.khoi_cua(da_noi, ma, t).so_huy_ca == 0,
        s.khoi_cua(da_noi, ma, t).loat_che_do == 0,
{
}

/// The summary in the log counts the invoices that wait, those held back among them, and those not confirmed.
pub proof fn tom_tat_dem_dung(a: AnhV)
    ensures
        tom_tat(dem_anh(a)) == "cho_in="@ + chu::thap_phan(a.cho_in.len()) + " tam_giu="@ + chu::thap_phan(so_tam_giu(a.cho_in))
            + " chua_xac_nhan="@ + chu::thap_phan(a.chua_xac_nhan.len()),
{
    dem_la_so_tam_giu(a.cho_in);
}

/// An entry put among others is among them, and so are the others.
proof fn chen_con(s: Seq<MttV>, x: MttV, y: MttV)
    requires
        y == x || s.contains(y),
    ensures
        chen(s, x).contains(y),
    decreases s.len(),
{
    let r = chen(s, x);
    if s.len() == 0 || s.last().vi_tri <= x.vi_tri {
        if y == x {
            assert(r[s.len() as int] == y);
        } else {
            let k = choose|k: int| 0 <= k < s.len() && s[k] == y;
            assert(r[k] == y);
        }
    } else {
        let d = s.drop_last();
        let g = chen(d, x);
        if y == x {
            chen_con(d, x, y);
            let k = choose|k: int| 0 <= k < g.len() && g[k] == y;
            assert(r[k] == y);
        } else {
            let k = choose|k: int| 0 <= k < s.len() && s[k] == y;
            if k < d.len() {
                assert(d[k] == y);
                chen_con(d, x, y);
                let m = choose|m: int| 0 <= m < g.len() && g[m] == y;
                assert(r[m] == y);
            } else {
                assert(r[g.len() as int] == y);
            }
        }
    }
}

proof fn sap_con(s: Seq<MttV>, y: MttV)
    requires
        s.contains(y),
    ensures
        sap_theo_dong(s).contains(y),
    decreases s.len(),
{
    let k = choose|k: int| 0 <= k < s.len() && s[k] == y;
    let d = s.drop_last();
    if k < d.len() {
        assert(d[k] == y);
        sap_con(d, y);
    }
    chen_con(sap_theo_dong(d), s.last(), y);
}

/// An entry that was put between the lines has its line.
proof fn chen_dong_co(dong: Seq<DongV>, ds: Seq<MttV>, bat: bool, i: int) -> (k: int)
    requires
        0 <= i < ds.len(),
    ensures
        0 <= k < chen_dong(dong, ds, bat).len(),
        chen_dong(dong, ds, bat)[k] == dong_theo(ds[i].muc, Some(ds[i].tt), false, bat),
    decreases ds.len(),
{
    let d = chen_dong(dong, ds.drop_last(), bat);
    let m = ds.last();
    let vt = if m.vi_tri <= d.len() {
        m.vi_tri as int
    } else {
        d.len() as int
    };
    if i == ds.len() - 1 {
        vt
    } else {
        let j = chen_dong_co(dong, ds.drop_last(), bat, i);
        if j < vt {
            j
        } else {
            j + 1
        }
    }
}

/// What goes on with an invoice that has left the queue keeps its line, and shows what it came to: a withdrawal that
/// was done as withdrawn, a failure as a failure. Only questions go with the invoice.
pub proof fn viec_da_roi_van_co_dong(s: HdV, da_noi: bool, ma: Option<MaSuCo>, t: u64, m: MttV) -> (k: int)
    requires
        s.ho_tro,
        s.anh is Some,
        s.thao_tac.contains(m),
        !m.tt.hop_thoai(),
        s.dong_trong_anh(m.muc.id) is None,
    ensures
        0 <= k < s.khoi_cua(da_noi, ma, t).dong.len(),
        s.khoi_cua(da_noi, ma, t).dong[k].id == m.muc.id,
        m.tt matches ThaoTacV::Xong { loai, luc, noi_dung } ==> s.khoi_cua(da_noi, ma, t).dong[k].thong_diep == noi_dung && (
        s.khoi_cua(da_noi, ma, t).dong[k].che_do == CheDo::DaHuy <==> loai == LoaiViec::Huy),
        m.tt matches ThaoTacV::ThatBai { loai, noi_dung } ==> s.khoi_cua(da_noi, ma, t).dong[k].che_do == CheDo::ThatBai
            && s.khoi_cua(da_noi, ma, t).dong[k].thong_diep == noi_dung,
        m.tt is Dang ==> s.khoi_cua(da_noi, ma, t).dong[k].che_do == CheDo::Dang,
        m.tt is ChuaRo ==> s.khoi_cua(da_noi, ma, t).dong[k].che_do == CheDo::ChuaRo,
        !s.khoi_cua(da_noi, ma, t).dong[k].co_nut_huy_lai,
{
    let p = |x: MttV| !x.tt.hop_thoai() && s.dong_trong_anh(x.muc.id) is None;
    giu_dung(s.thao_tac, p);
    let i0 = choose|i: int| 0 <= i < s.thao_tac.len() && s.thao_tac[i] == m;
    assert(p(s.thao_tac[i0]));
    assert(s.con_lai().contains(m));
    sap_con(s.con_lai(), m);
    let ds = sap_theo_dong(s.con_lai());
    let i = choose|i: int| 0 <= i < ds.len() && ds[i] == m;
    let bat = s.bam_duoc(da_noi);
    chen_dong_co(s.dong_cua_anh(s.anh->0, bat), ds, bat, i)
}

} // verus!
