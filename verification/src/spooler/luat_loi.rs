//! What an outcome says in words, what is handed on, and which jobs are released at the start.
use crate::chu;
use crate::job::{KetQuaInV, LyDoV};
use crate::spooler::bo_suy::{bo_sung, ket_qua_chuoi, su_co_job, BoSuy, KetLuanV};
use crate::spooler::go_job::{
    bat_dau_tu, bi_dung_cua_app, cac_job_bi_dung, chu_bat_dau_in, con_lai, cung_ids, duoi_loi, het_sach, ids_cua_ta, khong_an_toan_tu,
    loi_tiep_tuc, quyet_loi, tha_job_dung,
};
use crate::spooler::kieu::{BangChungJob, JobHangDoi, KetQuaGoJobV, LenhJob, QuanSatV, TrangThaiJob, VongDoc};
use crate::spooler::may_in::{an_toan, chan_cua, chan_moi_cua, da_bat_dau, ly_do_khong_an_toan_cua, vet_cua};
use crate::spooler::moi_truong::Buoc;
use crate::spooler::sau_khi_roi::{BoSauKhiRoi, SauKhiRoi};
use crate::spooler::ten_job::{cua_app, la_cung_may, thuoc_ve};
use crate::spooler::theo_doi::{ket_qua_khong_ro, ket_qua_sau_roi, khong_tieu, qua_han_usb, TheoDoi};
use crate::su_co::{tinh_chinh, MaSuCo, TapMa};
use crate::usb_may_in::TinhTrangUsb;
use vstd::prelude::*;
use vstd::string::*;

verus! {

/// What one observation comes to, in words: an error on a job that was seen printing is one after it started; on
/// any other job one for which it stays in the queue; trouble on a job seen printing or withdrawn is one after it
/// started too; a withdrawn job that is gone is told as withdrawn.
pub proof fn quan_sat_noi_gi(b: BoSuy, ma: MaSuCo)
    ensures
        b.da_thay_in ==> b.sau(TrangThaiJob::LoiJob(ma)).1 == Some(
            KetLuanV::KhongRo(
                LyDoV { chu: "loi sau khi da bat dau in: "@ + ma.nhan_cua(), loai: Some(ma), ban_da_in: None },
            ),
        ),
        !b.da_thay_in ==> b.sau(TrangThaiJob::LoiJob(ma)).1 == Some(
            KetLuanV::KhongRo(
                LyDoV {
                    chu: "job bao loi "@ + ma.nhan_cua()
                        + " (co the da gui mot phan du lieu toi may in) — khong xoa, job nam lai hang doi va tu in khi het loi"@,
                    loai: Some(ma),
                    ban_da_in: None,
                },
            ),
        ),
        b.da_thay_in || b.da_thay_huy ==> b.sau(TrangThaiJob::MayInLoi(ma)).1 == Some(
            KetLuanV::KhongRo(
                LyDoV { chu: "loi sau khi da bat dau in: "@ + ma.nhan_cua(), loai: Some(ma), ban_da_in: None },
            ),
        ),
        b.sau(TrangThaiJob::KetHangDoi(ma)).1 == b.sau(TrangThaiJob::MayInLoi(ma)).1,
        b.vang_lien_tiep >= 1 && b.da_thay_huy ==> b.sau(TrangThaiJob::KhongThay).1 == Some(
            KetLuanV::KhongRo(
                LyDoV {
                    chu: "job bị huỷ/khởi động lại trong hàng đợi — biến mất không tính là đã in"@,
                    loai: Some(MaSuCo::KhongXacNhan),
                    ban_da_in: None,
                },
            ),
        ),
{
}

/// What the end of the time comes to, in words: the trouble of a candidate; the trouble from before it for which
/// the job waits; that it was withdrawn; that it started but was not seen to end; that it still waits; that it left
/// without being seen to start; that it was never seen.
pub proof fn het_gio_noi_gi(b: BoSuy)
    ensures
        b.ung_vien_xoa matches Some(m) ==> b.khi_het_gio() == KetLuanV::UngVienXoa(
            LyDoV { chu: "loi truoc khi in: "@ + m.nhan_cua(), loai: Some(m), ban_da_in: None },
        ),
        b.ung_vien_xoa is None && !b.da_thay_in && !b.da_thay_huy && b.da_thay_job && b.con_thay_cuoi ==> (b.nen_chan matches Some(
            m,
        ) ==> b.khi_het_gio() == KetLuanV::KhongRo(
            LyDoV {
                chu: "job van nam trong hang doi Windows, chua bat dau in — may in bao "@ + m.nhan_cua()
                    + " tu truoc khi in (khong xoa: job tu in khi may het loi)"@,
                loai: Some(m),
                ban_da_in: None,
            },
        )),
        b.ung_vien_xoa is None && b.da_thay_huy ==> b.khi_het_gio()->KhongRo_0.chu
            == "job bị huỷ/khởi động lại trong hàng đợi — biến mất không tính là đã in"@,
        b.ung_vien_xoa is None && !b.da_thay_huy && b.da_thay_in ==> b.khi_het_gio()->KhongRo_0.chu
            == "da bat dau in nhung khong xac nhan duoc luc in xong"@,
        b.ung_vien_xoa is None && !b.da_thay_huy && !b.da_thay_in && b.nen_chan is None && b.da_thay_job && b.con_thay_cuoi
            ==> b.khi_het_gio()->KhongRo_0.chu
            == "job van nam trong hang doi Windows, chua bat dau in (het thoi gian theo doi)"@,
        b.ung_vien_xoa is None && !b.da_thay_huy && !b.da_thay_in && b.da_thay_job && !b.con_thay_cuoi
            ==> b.khi_het_gio()->KhongRo_0.chu
            == "job roi hang doi Windows ma chua thay bat dau in (co the in rat nhanh, hoac bi xoa) — khong xac nhan duoc"@,
        b.ung_vien_xoa is None && !b.da_thay_huy && !b.da_thay_in && !b.da_thay_job ==> b.khi_het_gio()->KhongRo_0.chu
            == "khong thay job trong hang doi Windows (het thoi gian theo doi)"@,
{
}

/// Nothing seen at all is open; a run that begins with a printed job is printed; and whatever was seen, the outcome
/// is an error only for a job of which neither printing nor a withdrawal is remembered.
pub proof fn chuoi_don_gian(ts: Seq<TrangThaiJob>, nen: TapMa)
    ensures
        ts.len() == 0 ==> ket_qua_chuoi(ts, nen) is KhongRo,
        ts.len() > 0 && ts[0] == TrangThaiJob::DaInXong ==> ket_qua_chuoi(ts, nen) is DaIn,
        ts.len() > 0 && (ts[0] matches TrangThaiJob::LoiJob(m)) ==> ket_qua_chuoi(ts, nen) is KhongRo,
{
}

/// What came of taking a job out, in words behind the reason; the kind stays.
pub proof fn go_job_noi_gi(ly: LyDoV, e: Seq<char>)
    ensures
        quyet_loi(ly, KetQuaGoJobV::DaGoXong) == KetQuaInV::Loi(
            LyDoV { chu: ly.chu + " (da xoa job khoi hang doi Windows)"@, loai: ly.loai, ban_da_in: None },
        ),
        quyet_loi(ly, KetQuaGoJobV::KhongCoTrongHangDoi) == KetQuaInV::KhongRo(
            LyDoV {
                chu: ly.chu + " — job khong con trong hang doi Windows (co the da o bo nho may in), khong gui lai"@,
                loai: ly.loai,
                ban_da_in: None,
            },
        ),
        quyet_loi(ly, KetQuaGoJobV::KhongAnToanDeXoa(e)) == KetQuaInV::KhongRo(
            LyDoV { chu: ly.chu + " — "@ + e, loai: ly.loai, ban_da_in: None },
        ),
        quyet_loi(ly, KetQuaGoJobV::KhongGoDuoc(e)) == KetQuaInV::KhongRo(
            LyDoV { chu: ly.chu + " — khong go duoc job khoi hang doi: "@ + e, loai: ly.loai, ban_da_in: None },
        ),
        KetQuaGoJobV::KhongAnToanDeXoa(e).con_trong() && KetQuaGoJobV::KhongGoDuoc(e).con_trong(),
        !KetQuaGoJobV::DaGoXong.con_trong() && !KetQuaGoJobV::KhongCoTrongHangDoi.con_trong(),
{
}

/// A deleted job costs the invoice no try exactly where its trouble was the printer's general error, which is then
/// told as the need of someone; every other outcome stays as it is.
pub proof fn loi_chung_khong_tieu_luot(kq: KetQuaInV, cap_may: bool)
    ensures
        !(kq is Loi) || !cap_may || kq->Loi_0.loai != Some(MaSuCo::LoiMayIn) ==> khong_tieu(kq, cap_may) == kq,
        cap_may ==> (kq matches KetQuaInV::Loi(l) ==> (l.loai == Some(MaSuCo::LoiMayIn) ==> khong_tieu(kq, cap_may)
            == KetQuaInV::Loi(
            LyDoV {
                chu: l.chu + " [co ERROR chung chung cap may — bao can_xu_ly, khong tieu luot thu]"@,
                loai: Some(MaSuCo::CanXuLy),
                ban_da_in: l.ban_da_in,
            },
        ))),
{
}

/// What the printer showed after the job left, in words and in what is handed on: a clean one is printed and hands
/// on nothing; new trouble leaves it open; a job in a USB printer is open and handed on with what it is known by,
/// with an error seen, or with whether the device was seen busy.
pub proof fn sau_roi_noi_gi(ma: MaSuCo, dang_in: bool, bc: BangChungJob)
    ensures
        ket_qua_sau_roi(SauKhiRoi::Sach, dang_in, bc).0 is DaIn,
        ket_qua_sau_roi(SauKhiRoi::Sach, dang_in, bc).1.len() == 0,
        ket_qua_sau_roi(SauKhiRoi::SuCo(ma), dang_in, bc).0 == KetQuaInV::KhongRo(
            LyDoV {
                chu: "job da roi hang doi Windows nhung may in bao "@ + ma.nhan_cua()
                    + " ngay sau do — co the con trong bo nho may in"@,
                loai: Some(ma),
                ban_da_in: None,
            },
        ),
        ket_qua_sau_roi(SauKhiRoi::SuCo(ma), dang_in, bc).1.len() == 0,
        ket_qua_sau_roi(SauKhiRoi::TrongMayInUsb(ma), dang_in, bc).0 == KetQuaInV::KhongRo(
            LyDoV {
                chu: "may in bao "@ + ma.nhan_cua()
                    + " qua USB — hoa don dang nam trong bo nho may in, tu in khi xu ly xong (app theo doi va bao khi in xong)"@,
                loai: Some(ma),
                ban_da_in: None,
            },
        ),
        ket_qua_sau_roi(SauKhiRoi::TrongMayInUsb(ma), dang_in, bc).1 == seq![
            QuanSatV::TrongMayInUsb { bang_chung: bc, da_thay_loi: true, da_thay_in: false },
        ],
        ket_qua_sau_roi(SauKhiRoi::UsbChuaXong, dang_in, bc).0 == KetQuaInV::KhongRo(
            LyDoV {
                chu: "may in USB chua in xong sau 30 giay — app theo doi tiep va bao khi in xong"@,
                loai: Some(MaSuCo::KhongXacNhan),
                ban_da_in: None,
            },
        ),
        ket_qua_sau_roi(SauKhiRoi::UsbChuaXong, dang_in, bc).1 == seq![
            QuanSatV::TrongMayInUsb { bang_chung: bc, da_thay_loi: false, da_thay_in: dang_in },
        ],
{
    reveal(ket_qua_sau_roi);
}

/// One reading after the job left: an error of the device, or new trouble of the printer, settles it as trouble; a
/// device that went from busy to idle settles it as clean; busy, and idle that was never busy, settle nothing until
/// there were sixty readings. Without a device four readings without trouble are clean. The time is up thirty
/// seconds after the job left, and then a printer without a device is clean and one with it is not.
pub proof fn mot_lan_doc_sau_roi(b: BoSauKhiRoi, m: MaSuCo, t0: u64, t: u64)
    ensures
        b.sau(None, Some(TinhTrangUsb::Loi(m))).1 == Some(SauKhiRoi::TrongMayInUsb(m)),
        b.sau(Some(m), None).1 == (if b.da_thay_usb {
            Some(SauKhiRoi::TrongMayInUsb(m))
        } else {
            Some(SauKhiRoi::SuCo(m))
        }),
        b.so_lan < 59 ==> b.sau(None, Some(TinhTrangUsb::DangIn)).1 is None,
        b.so_lan >= 59 ==> b.sau(None, Some(TinhTrangUsb::DangIn)).1 == Some(SauKhiRoi::UsbChuaXong),
        b.sau(None, Some(TinhTrangUsb::DangIn)).0.dang_in,
        b.dang_in ==> b.sau(None, Some(TinhTrangUsb::Ranh)).1 == Some(SauKhiRoi::Sach),
        !b.dang_in && b.so_lan < 59 ==> b.sau(None, Some(TinhTrangUsb::Ranh)).1 is None,
        !b.dang_in && b.so_lan >= 59 ==> b.sau(None, Some(TinhTrangUsb::Ranh)).1 == Some(SauKhiRoi::UsbChuaXong),
        !b.da_thay_usb && b.so_lan < 3 ==> b.sau(None, None).1 is None,
        !b.da_thay_usb && b.so_lan >= 3 ==> b.sau(None, None).1 == Some(SauKhiRoi::Sach),
        b.khi_het_gio() == SauKhiRoi::Sach <==> !b.da_thay_usb,
        b.khi_het_gio() == SauKhiRoi::UsbChuaXong <==> b.da_thay_usb,
        qua_han_usb(t0, t) <==> t >= t0 + 30_000,
{
    reveal(BoSauKhiRoi::sau);
}

/// An outcome left open for want of confirmation takes over the trouble that was seen; any other stays.
pub proof fn bo_sung_khi_nao(kq: KetQuaInV, thay: Option<MaSuCo>)
    ensures
        thay is None ==> bo_sung(kq, thay) == kq,
        !(kq is KhongRo) ==> bo_sung(kq, thay) == kq,
        kq matches KetQuaInV::KhongRo(l) ==> (l.loai != Some(MaSuCo::KhongXacNhan) ==> bo_sung(kq, thay) == kq),
        thay is Some ==> (kq matches KetQuaInV::KhongRo(l) ==> (l.loai == Some(MaSuCo::KhongXacNhan) ==> bo_sung(kq, thay)
            == KetQuaInV::KhongRo(LyDoV { chu: l.chu, loai: thay, ban_da_in: l.ban_da_in }))),
{
}

/// What a job in the queue is handed on with is what was seen of it: printing, a withdrawal, and the trouble from
/// before it.
pub proof fn bang_chung_la_dieu_da_thay(b: BoSuy)
    ensures
        b.bang_chung_cua().da_thay_in == b.da_thay_in,
        b.bang_chung_cua().da_thay_huy == b.da_thay_huy,
        b.bang_chung_cua().nen == b.nen,
{
}

/// The trouble that is reported of a job is that of its flags, made specific by the driver's words; none exactly
/// where no flag of trouble is up, held back by the driver counting as an error.
pub proof fn su_co_job_theo_bit(j: JobHangDoi)
    ensures
        su_co_job(j) is None <==> j.status & 0x40 == 0 && j.status & 0x20 == 0 && j.status & 0x400 == 0 && j.status & 0x2 == 0
            && j.status & 0x200 == 0,
        j.status & 0x40 != 0 ==> su_co_job(j) == Some(tinh_chinh(MaSuCo::HetGiay, j.mo_ta_driver@)),
        j.status & 0x40 == 0 && j.status & 0x20 != 0 ==> su_co_job(j) == Some(MaSuCo::Offline),
        j.status & 0x40 == 0 && j.status & 0x20 == 0 && j.status & 0x400 != 0 ==> su_co_job(j) == Some(
            tinh_chinh(MaSuCo::CanXuLy, j.mo_ta_driver@),
        ),
        j.status & 0x40 == 0 && j.status & 0x20 == 0 && j.status & 0x400 == 0 && (j.status & 0x2 != 0 || j.status & 0x200 != 0)
            ==> su_co_job(j) == Some(tinh_chinh(MaSuCo::LoiMayIn, j.mo_ta_driver@)),
{
}

/// The ids to be taken out are those of the order's jobs and no others.
pub proof fn ids_chi_cua_lenh(jobs: Seq<JobHangDoi>, id: Seq<char>, x: u32)
    ensures
        ids_cua_ta(jobs, id).contains(x) <==> exists|i: int|
            0 <= i < jobs.len() && (#[trigger] jobs[i]).id == x && thuoc_ve(jobs[i], id),
    decreases jobs.len(),
{
    if jobs.len() > 0 {
        let d = jobs.drop_last();
        ids_chi_cua_lenh(d, id, x);
        let n = jobs.len() - 1;
        let a = ids_cua_ta(d, id);
        let r = ids_cua_ta(jobs, id);
        if r.contains(x) {
            let k = choose|k: int| 0 <= k < r.len() && r[k] == x;
            if k < a.len() {
                assert(a[k] == x);
                let i = choose|i: int| 0 <= i < d.len() && (#[trigger] d[i]).id == x && thuoc_ve(d[i], id);
                assert(jobs[i] == d[i]);
            } else {
                assert(jobs[n].id == x && thuoc_ve(jobs[n], id));
            }
        }
        if exists|i: int| 0 <= i < jobs.len() && (#[trigger] jobs[i]).id == x && thuoc_ve(jobs[i], id) {
            let i = choose|i: int| 0 <= i < jobs.len() && (#[trigger] jobs[i]).id == x && thuoc_ve(jobs[i], id);
            if i < d.len() {
                assert(d[i].id == x && thuoc_ve(d[i], id));
                let k = choose|k: int| 0 <= k < a.len() && a[k] == x;
                assert(r[k] == x);
            } else {
                assert(r[a.len() as int] == x);
            }
        }
    }
}

/// All of the order's jobs are clean exactly where none is found that is not; the first that is not is found.
pub proof fn khong_an_toan_la_dau(jobs: Seq<JobHangDoi>, id: Seq<char>, tu: int)
    requires
        0 <= tu,
    ensures
        khong_an_toan_tu(jobs, id, tu) is None <==> (forall|i: int|
            tu <= i < jobs.len() && thuoc_ve(#[trigger] jobs[i], id) ==> an_toan(jobs[i])),
        khong_an_toan_tu(jobs, id, tu) matches Some(k) ==> tu <= k < jobs.len() && thuoc_ve(jobs[k], id) && !an_toan(jobs[k]),
    decreases jobs.len() - tu,
{
    if tu < jobs.len() {
        khong_an_toan_la_dau(jobs, id, tu + 1);
        if khong_an_toan_tu(jobs, id, tu) is None {
            assert forall|i: int| tu <= i < jobs.len() && thuoc_ve(#[trigger] jobs[i], id) implies an_toan(jobs[i]) by {
                if i > tu {
                    assert(tu + 1 <= i);
                }
            }
        }
    }
}

/// After the deletion nothing is left exactly where no job has one of the ids that were deleted, nor holds the
/// order's id.
pub proof fn het_sach_khi_nao(jobs: Seq<JobHangDoi>, ids: Seq<u32>, id: Seq<char>)
    ensures
        het_sach(jobs, ids, id) <==> (forall|i: int|
            0 <= i < jobs.len() ==> !ids.contains((#[trigger] jobs[i]).id) && !thuoc_ve(jobs[i], id)),
{
    if het_sach(jobs, ids, id) {
        assert forall|i: int| 0 <= i < jobs.len() implies !ids.contains((#[trigger] jobs[i]).id) && !thuoc_ve(jobs[i], id) by {
            assert(!con_lai(jobs[i], ids, id));
        }
    }
}

/// Why a job is not deleted: its number, its flags and its pages.
pub proof fn khong_xoa_vi_sao(j: JobHangDoi)
    ensures
        ly_do_khong_an_toan_cua(j) == "job "@ + chu::thap_phan(j.id as nat) + " status 0x"@ + chu::hex_8(j.status) + ", "@
            + chu::thap_phan(j.trang_da_in as nat) + " trang da in — co the da co byte toi may in, khong xoa"@,
        chu_bat_dau_in(j) == "job "@ + chu::thap_phan(j.id as nat) + " bat dau in trong luc xoa (status 0x"@ + chu::hex_8(j.status)
            + ", "@ + chu::thap_phan(j.trang_da_in as nat) + " trang) — co the da co byte toi may in"@,
{
}

/// Failures to release jobs are told one by one with their numbers, and the message that holds them warns that jobs
/// stay on hold; without a failure nothing is added.
pub proof fn loi_tha_noi_gi(l: Seq<Buoc>, x: u32, lenh: LenhJob, r: Result<(), String>)
    ensures
        loi_tiep_tuc(Seq::empty()).len() == 0,
        r is Ok ==> loi_tiep_tuc(l.push(Buoc::DieuKhien(x, lenh, r))) == loi_tiep_tuc(l),
        r matches Err(e) ==> (loi_tiep_tuc(l).len() > 0 ==> loi_tiep_tuc(l.push(Buoc::DieuKhien(x, lenh, r))) == loi_tiep_tuc(l)
            + ", "@ + "job "@ + chu::thap_phan(x as nat) + ": "@ + e@),
        r matches Err(e) ==> (loi_tiep_tuc(l).len() == 0 ==> loi_tiep_tuc(l.push(Buoc::DieuKhien(x, lenh, r))) == loi_tiep_tuc(l)
            + "job "@ + chu::thap_phan(x as nat) + ": "@ + e@),
        duoi_loi(Seq::empty()).len() == 0,
        forall|s: Seq<char>| s.len() > 0 ==> #[trigger] duoi_loi(s) == "; KHONG cho chay tiep duoc ("@ + s
            + ") — job con bi tam dung trong hang doi"@,
{
    assert(l.push(Buoc::DieuKhien(x, lenh, r)).drop_last() =~= l);
}

/// At the start just the agent's own jobs that are on hold and were submitted by this computer are released: those
/// of other programs or computers, and those not on hold, are left alone.
pub proof fn chi_tha_job_cua_app(jobs: Seq<JobHangDoi>, ten_may: Seq<char>, j: JobHangDoi)
    ensures
        cac_job_bi_dung(jobs, ten_may).contains(j) <==> jobs.contains(j) && cua_app(j.document@) && j.status & 0x1 != 0
            && la_cung_may(j.may_tinh@, ten_may),
    decreases jobs.len(),
{
    if jobs.len() > 0 {
        let d = jobs.drop_last();
        chi_tha_job_cua_app(d, ten_may, j);
        let n = jobs.len() - 1;
        let a = cac_job_bi_dung(d, ten_may);
        let r = cac_job_bi_dung(jobs, ten_may);
        assert(bi_dung_cua_app(j, ten_may) <==> cua_app(j.document@) && j.status & 0x1 != 0 && la_cung_may(j.may_tinh@, ten_may));
        if r.contains(j) {
            let k = choose|k: int| 0 <= k < r.len() && r[k] == j;
            if k < a.len() {
                assert(a[k] == j);
                let i = choose|i: int| 0 <= i < d.len() && d[i] == j;
                assert(jobs[i] == j);
            } else {
                assert(jobs[n] == j);
            }
        }
        if jobs.contains(j) && bi_dung_cua_app(j, ten_may) {
            let i = choose|i: int| 0 <= i < jobs.len() && jobs[i] == j;
            if i < d.len() {
                assert(d[i] == j);
                let k = choose|k: int| 0 <= k < a.len() && a[k] == j;
                assert(r[k] == j);
            } else {
                assert(r[a.len() as int] == j);
            }
        }
    }
}

/// Releasing at the start gives no other order to any job than to go on, one for each job that is released, and
/// touches none where the queue could not be read.
pub proof fn tha_chi_cho_chay_tiep(ten_may: Seq<char>, l: Seq<Buoc>, r: Seq<(u32, String, Result<(), String>)>, k: int)
    requires
        tha_job_dung(ten_may, l, r),
        1 <= k < l.len(),
    ensures
        l[k] matches Buoc::DieuKhien(x, lenh, kq) && lenh == LenhJob::TiepTuc && x == r[k - 1].0 && kq == r[k - 1].2,
        r.len() == l.len() - 1,
{
    let d = l.subrange(1, l.len() as int);
    assert(d[k - 1] == l[k]);
    let ds = cac_job_bi_dung(l[0]->DocHangDoi_0->0@, ten_may);
    assert(r[k - 1].0 == ds[k - 1].id);
}

/// A reading in the log tells of a queue, a printer or a device that could not be read as such, and of an order's
/// absent job as absent.
pub proof fn vet_noi_dieu_khong_doc_duoc(v: VongDoc, id: Seq<char>)
    ensures
        v.hang_doi is None && !v.khong_tim_thay_may_in && v.co_may_in is None && v.usb is None && !v.usb_khong_doc_duoc
            && !v.la_may_usb ==> vet_cua(v, id) == "hd=?"@ + " may="@ + "?"@ + " usb="@ + "khong_usb"@,
        v.hang_doi is None && v.khong_tim_thay_may_in && v.usb is None && v.usb_khong_doc_duoc ==> vet_cua(v, id) == "hd=?"@
            + " may="@ + "khong_tim_thay"@ + " usb="@ + "KHONG_DOC_DUOC"@,
        v.hang_doi is None && v.khong_tim_thay_may_in && v.usb is None && !v.usb_khong_doc_duoc && v.la_may_usb ==> vet_cua(v, id)
            == "hd=?"@ + " may="@ + "khong_tim_thay"@ + " usb="@ + "-"@,
{
}

/// The jobs are the same as before exactly where there are as many and each has an id from before.
pub proof fn cung_ids_khi_nao(moi: Seq<u32>, ids: Seq<u32>, k: int)
    ensures
        cung_ids(moi, ids) && 0 <= k < moi.len() ==> ids.contains(moi[k]),
        cung_ids(moi, ids) ==> moi.len() == ids.len(),
        cung_ids(ids, ids),
{
}

/// An open outcome of a job that is neither in the queue nor in a USB printer keeps its words and hands on nothing.
pub proof fn khong_ro_giu_chu(s: TheoDoi, ly: LyDoV)
    ensures
        ket_qua_khong_ro(s, ly).0 is KhongRo,
        s.con_trong_hang_doi || s.usb.loi_cuoi is None || !s.bo.da_thay_job || s.bo.da_thay_huy ==> ket_qua_khong_ro(
            s,
            ly,
        ).0->KhongRo_0.chu == ly.chu,
        s.con_trong_hang_doi ==> ket_qua_khong_ro(s, ly).1 == seq![QuanSatV::ConTrongHangDoi(s.bo.bang_chung_cua())],
        !s.con_trong_hang_doi && s.usb.loi_cuoi is None ==> ket_qua_khong_ro(s, ly).1.len() == 0,
{
}

/// While the deleted jobs are looked for, one that started to print after all is found wherever it stands: with an id
/// that was deleted, or with the order's id in its name.
pub proof fn bat_dau_la_dau(jobs: Seq<JobHangDoi>, ids: Seq<u32>, id: Seq<char>, tu: int)
    requires
        0 <= tu,
    ensures
        bat_dau_tu(jobs, ids, id, tu) is None <==> (forall|i: int|
            tu <= i < jobs.len() && (ids.contains((#[trigger] jobs[i]).id) || thuoc_ve(jobs[i], id)) ==> !da_bat_dau(jobs[i])),
        bat_dau_tu(jobs, ids, id, tu) matches Some(k) ==> tu <= k < jobs.len() && da_bat_dau(jobs[k]) && (ids.contains(jobs[k].id)
            || thuoc_ve(jobs[k], id)),
    decreases jobs.len() - tu,
{
    if tu < jobs.len() {
        bat_dau_la_dau(jobs, ids, id, tu + 1);
        if bat_dau_tu(jobs, ids, id, tu) is None {
            assert forall|i: int|
                tu <= i < jobs.len() && (ids.contains((#[trigger] jobs[i]).id) || thuoc_ve(jobs[i], id)) implies !da_bat_dau(
                jobs[i],
            ) by {
                if i > tu {
                    assert(tu + 1 <= i);
                }
            }
        }
    }
}

/// A job that was seen printing or withdrawn, or that the printer's new trouble holds up, is never remembered as
/// waiting for trouble from before it.
pub proof fn nen_chan_chi_khi_con_sach(s: TheoDoi, v: VongDoc, jobs: Seq<JobHangDoi>, i: int, id: Seq<char>)
    ensures
        s.bo.da_thay_in || s.bo.da_thay_huy || chan_moi_cua(v, s.bo.nen) is Some ==> s.sau_job(v, jobs, i, id).0.bo.nen_chan
            == s.bo.nen_chan,
        s.sau_job(v, jobs, i, id).0.bo.nen_chan == s.bo.nen_chan || s.sau_job(v, jobs, i, id).0.bo.nen_chan == chan_cua(v),
        s.sau_job(v, jobs, i, id).0.con_trong_hang_doi,
{
}

} // verus!
