//! The printer's state in one reading, and whether an invoice may be sent to it.
use crate::chu;
use crate::gia_tri::chu_cua;
use crate::job::{LyDo, LyDoV};
use crate::spooler::bo_suy::tinh_trang_tu_co;
use crate::spooler::kieu::{
    CO_BI_HUY, CO_CHO_PHEP_XOA, CO_DA_BAT_DAU, CO_JOB_KET, CO_JOB_KHONG_CHAN, JobHangDoi, QuanSat, QuanSatV, VongDoc,
    cac_quan_sat,
};
use crate::spooler::ten_job::{self, cua_app, so_hoa_don_trong, thuoc_ve};
use crate::su_co::{
    self, chan_dau_cua, co, co_may_in_bao, cung_ma_la_bang, hon, la_tap, tinh_chinh, Bang, MaSuCo, TapMa,
};
use vstd::prelude::*;
use vstd::string::*;

verus! {

/// Bytes of the job have gone, or may have gone, to the printer.
pub open spec fn da_bat_dau(j: JobHangDoi) -> bool {
    j.status & CO_DA_BAT_DAU != 0 || j.trang_da_in > 0
}

pub fn da_bat_dau_in(j: &JobHangDoi) -> (r: bool)
    ensures
        r == da_bat_dau(*j),
{
    j.status & CO_DA_BAT_DAU != 0 || j.trang_da_in > 0
}

/// The job can be deleted with certainty that no byte has left the computer: no page printed, and no
/// flag but the permitted ones.
pub open spec fn an_toan(j: JobHangDoi) -> bool {
    j.trang_da_in == 0 && j.status & !CO_CHO_PHEP_XOA == 0
}

pub fn xoa_an_toan(j: &JobHangDoi) -> (r: bool)
    ensures
        r == an_toan(*j),
{
    j.trang_da_in == 0 && j.status & !CO_CHO_PHEP_XOA == 0
}

/// A job that may be deleted has not started printing.
pub proof fn an_toan_la_chua_in(j: JobHangDoi)
    requires
        an_toan(j),
    ensures
        !da_bat_dau(j),
        j.status & CO_BI_HUY == 0,
        j.status & CO_JOB_KET == 0,
{
    let s = j.status;
    assert(s & !0x209u32 == 0 ==> s & 0x3890u32 == 0 && s & 0x904u32 == 0 && s & 0x462u32 == 0) by (bit_vector);
}

pub open spec fn ly_do_khong_an_toan_cua(j: JobHangDoi) -> Seq<char> {
    "job "@ + chu::thap_phan(j.id as nat) + " status 0x"@ + chu::hex_8(j.status) + ", "@ + chu::thap_phan(
        j.trang_da_in as nat,
    ) + " trang da in — co the da co byte toi may in, khong xoa"@
}

pub fn ly_do_khong_an_toan(j: &JobHangDoi) -> (r: String)
    ensures
        r@ == ly_do_khong_an_toan_cua(*j),
{
    let mut s = "job ".to_owned();
    s.append(chu::so_thap_phan(j.id as u64).as_str());
    s.append(" status 0x");
    s.append(chu::hex8(j.status).as_str());
    s.append(", ");
    s.append(chu::so_thap_phan(j.trang_da_in as u64).as_str());
    s.append(" trang da in — co the da co byte toi may in, khong xoa");
    s
}

/// The job's flags, with the driver's words where it has any.
pub open spec fn mo_ta_job_cua(j: JobHangDoi) -> Seq<char> {
    let c = su_co::mo_ta_cua(Bang::Job, j.status);
    let d = chu::bo_trang(j.mo_ta_driver@);
    if d.len() == 0 {
        c
    } else {
        c + "; driver: "@ + d
    }
}

pub fn mo_ta_job(j: &JobHangDoi) -> (r: String)
    ensures
        r@ == mo_ta_job_cua(*j),
{
    let mut c = su_co::mo_ta_co_job(j.status);
    let d = chu::cat_trang(j.mo_ta_driver.as_str());
    if !d.as_str().is_empty() {
        c.append("; driver: ");
        c.append(d.as_str());
    }
    c
}

/// The error that the USB device reports in a reading.
pub open spec fn loi_usb(vong: VongDoc) -> Option<MaSuCo> {
    match vong.usb {
        Some(u) => u.ma(),
        None => None,
    }
}

fn ma_usb(vong: &VongDoc) -> (r: Option<MaSuCo>)
    ensures
        r == loi_usb(*vong),
{
    match &vong.usb {
        Some(u) => u.ma_su_co(),
        None => None,
    }
}

/// Two details, the first of which may be missing.
pub open spec fn ghep_chi_tiet(a: Option<Seq<char>>, b: Seq<char>) -> Seq<char> {
    match a {
        Some(c) => c + "; "@ + b,
        None => b,
    }
}

fn ghep_hai(a: Option<String>, b: &str) -> (r: String)
    ensures
        r@ == ghep_chi_tiet(chu_cua(a), b@),
{
    match a {
        Some(c) => {
            let mut s = c;
            s.append("; ");
            s.append(b);
            s
        },
        None => b.to_owned(),
    }
}

/// The printer's own state in a reading; nothing where it could not be read.
pub open spec fn may_in_cua(vong: VongDoc) -> Option<(MaSuCo, Option<Seq<char>>)> {
    if vong.khong_tim_thay_may_in {
        Some((MaSuCo::KhongTimThayMayIn, Some("OpenPrinter: ERROR_INVALID_PRINTER_NAME"@)))
    } else {
        match vong.co_may_in {
            Some(s) => {
                let ma = su_co::ma_tinh_trang(s, vong.thuoc_tinh_may_in);
                let ct = su_co::chi_tiet_tinh_trang(s, vong.thuoc_tinh_may_in);
                match loi_usb(vong) {
                    Some(m) => Some((hon(ma, m), Some(ghep_chi_tiet(ct, vong.usb->0.mo_ta_chu())))),
                    None => Some((ma, ct)),
                }
            },
            None => None,
        }
    }
}

/// The view of a state.
pub open spec fn tt_view(o: Option<(MaSuCo, Option<String>)>) -> Option<(MaSuCo, Option<Seq<char>>)> {
    match o {
        Some(x) => Some((x.0, chu_cua(x.1))),
        None => None,
    }
}

pub fn doc_may_in(vong: &VongDoc) -> (r: Option<(MaSuCo, Option<String>)>)
    ensures
        tt_view(r) == may_in_cua(*vong),
{
    if vong.khong_tim_thay_may_in {
        return Some((MaSuCo::KhongTimThayMayIn, Some("OpenPrinter: ERROR_INVALID_PRINTER_NAME".to_owned())));
    }
    match vong.co_may_in {
        Some(s) => {
            let (ma, ct) = tinh_trang_tu_co(s, vong.thuoc_tinh_may_in);
            match &vong.usb {
                Some(u) => match u.ma_su_co() {
                    Some(m) => {
                        let ct_usb = u.mo_ta();
                        Some((su_co::uu_tien_hon(ma, m), Some(ghep_hai(ct, ct_usb.as_str()))))
                    },
                    None => Some((ma, ct)),
                },
                None => Some((ma, ct)),
            }
        },
        None => None,
    }
}

/// The spooler's flags, or the printer's absence, report the code `m` in a reading.
pub open spec fn spooler_bao(vong: VongDoc, m: MaSuCo) -> bool {
    if vong.khong_tim_thay_may_in {
        m == MaSuCo::KhongTimThayMayIn
    } else {
        vong.co_may_in matches Some(s) && co_may_in_bao(s, vong.thuoc_tinh_may_in, m)
    }
}

/// The printer reports the code `m` in a reading: by the spooler's flags or by its device.
pub open spec fn may_bao(vong: VongDoc, m: MaSuCo) -> bool {
    spooler_bao(vong, m) || (!vong.khong_tim_thay_may_in && vong.co_may_in is Some && loi_usb(vong) == Some(m))
}

/// The printer could be read.
pub open spec fn doc_duoc(vong: VongDoc) -> bool {
    vong.khong_tim_thay_may_in || vong.co_may_in is Some
}

fn tap_spooler(vong: &VongDoc) -> (r: Option<TapMa>)
    ensures
        r is Some <==> doc_duoc(*vong),
        r matches Some(t) ==> forall|m: MaSuCo| #[trigger] t.chua(m) == spooler_bao(*vong, m),
{
    if vong.khong_tim_thay_may_in {
        let mut t = TapMa::rong();
        t.them(MaSuCo::KhongTimThayMayIn);
        return Some(t);
    }
    match vong.co_may_in {
        Some(s) => Some(su_co::cac_ma_may_in(s, vong.thuoc_tinh_may_in)),
        None => None,
    }
}

/// Every code the printer reports in a reading; nothing where it could not be read.
pub open spec fn tap_cua(vong: VongDoc) -> Option<TapMa> {
    if doc_duoc(vong) {
        Some(TapMa::cua(|m: MaSuCo| may_bao(vong, m)))
    } else {
        None
    }
}

pub fn tap_may_in(vong: &VongDoc) -> (r: Option<TapMa>)
    ensures
        r == tap_cua(*vong),
        r matches Some(t) ==> forall|m: MaSuCo| #[trigger] t.chua(m) == may_bao(*vong, m),
{
    match tap_spooler(vong) {
        Some(t) => {
            let mut t = t;
            if !vong.khong_tim_thay_may_in {
                if let Some(m) = ma_usb(vong) {
                    t.them(m);
                }
            }
            proof {
                la_tap(t, |m: MaSuCo| may_bao(*vong, m));
            }
            Some(t)
        },
        None => None,
    }
}

/// The trouble `m` was there before the job. That there is no such printer, and what a USB device
/// reports, never count as having been there before.
pub open spec fn la_nen(vong: VongDoc, m: MaSuCo) -> bool {
    spooler_bao(vong, m) && m != MaSuCo::KhongTimThayMayIn
}

/// The trouble from before the job: what the spooler's flags report, without the device, and nothing
/// where there is no such printer or it could not be read.
pub open spec fn nen_cua(vong: VongDoc) -> TapMa {
    if vong.khong_tim_thay_may_in {
        TapMa::trong()
    } else {
        match vong.co_may_in {
            Some(s) => su_co::tap_co_may_in(s, vong.thuoc_tinh_may_in),
            None => TapMa::trong(),
        }
    }
}

pub fn chup_nen(vong: &VongDoc) -> (r: TapMa)
    ensures
        r == nen_cua(*vong),
        forall|m: MaSuCo| #[trigger] r.chua(m) == la_nen(*vong, m),
{
    let mut khong_thay = TapMa::rong();
    khong_thay.them(MaSuCo::KhongTimThayMayIn);
    let r = match tap_spooler(vong) {
        Some(t) => t.tru(khong_thay),
        None => TapMa::rong(),
    };
    proof {
        nen_la(*vong);
        cung_ma_la_bang(r, nen_cua(*vong));
    }
    r
}

/// The trouble from before the job, code by code.
pub proof fn nen_la(vong: VongDoc)
    ensures
        forall|m: MaSuCo| #[trigger] nen_cua(vong).chua(m) == la_nen(vong, m),
{
    la_tap(TapMa::trong(), |m: MaSuCo| false);
    if let Some(s) = vong.co_may_in {
        la_tap(
            su_co::tap_co_may_in(s, vong.thuoc_tinh_may_in),
            |m: MaSuCo| su_co::co_may_in_bao(s, vong.thuoc_tinh_may_in, m),
        );
    }
}

/// What a USB device reports never counts as having been there before the job, nor does it that there is
/// no such printer.
pub proof fn nen_khong_theo_usb(vong: VongDoc, khac: VongDoc)
    requires
        vong.khong_tim_thay_may_in == khac.khong_tim_thay_may_in,
        vong.co_may_in == khac.co_may_in,
        vong.thuoc_tinh_may_in == khac.thuoc_tinh_may_in,
    ensures
        nen_cua(vong) == nen_cua(khac),
        !nen_cua(vong).chua(MaSuCo::KhongTimThayMayIn),
{
    nen_la(vong);
}

/// The trouble of a job that holds up the queue.
pub open spec fn ma_ket(j: JobHangDoi) -> Option<MaSuCo> {
    if j.status & CO_JOB_KHONG_CHAN != 0 || j.status & CO_JOB_KET == 0 {
        None
    } else {
        match su_co::ma_uu_tien(j.status & !co::JOB_STATUS_BLOCKED_DEVQ, Bang::Job) {
            Some(m) => Some(tinh_chinh(m, j.mo_ta_driver@)),
            None => None,
        }
    }
}

pub fn ma_job_ket(j: &JobHangDoi) -> (r: Option<MaSuCo>)
    ensures
        r == ma_ket(*j),
{
    if j.status & CO_JOB_KHONG_CHAN != 0 || j.status & CO_JOB_KET == 0 {
        return None;
    }
    match su_co::ma_tu_co_job(j.status & !co::JOB_STATUS_BLOCKED_DEVQ) {
        Some(m) => Some(su_co::tinh_chinh_theo_chu(m, j.mo_ta_driver.as_str())),
        None => None,
    }
}

/// Of the jobs that hold up the queue, the one whose trouble goes first; of equals the first.
pub open spec fn dang_ket(jobs: Seq<JobHangDoi>) -> Option<(int, MaSuCo)>
    decreases jobs.len(),
{
    if jobs.len() == 0 {
        None
    } else {
        let truoc = dang_ket(jobs.drop_last());
        match ma_ket(jobs.last()) {
            Some(m) => match truoc {
                Some(t) => if hon(t.1, m) == t.1 {
                    truoc
                } else {
                    Some((jobs.len() - 1, m))
                },
                None => Some((jobs.len() - 1, m)),
            },
            None => truoc,
        }
    }
}

pub fn job_dang_ket(jobs: &Vec<JobHangDoi>) -> (r: Option<(&JobHangDoi, MaSuCo)>)
    ensures
        r matches Some(x) ==> dang_ket(jobs@) matches Some(t) && 0 <= t.0 < jobs@.len() && *x.0 == jobs@[t.0] && x.1 == t.1,
        r is None ==> dang_ket(jobs@) is None,
{
    let mut tot: Option<(usize, MaSuCo)> = None;
    let mut i: usize = 0;
    while i < jobs.len()
        invariant
            i <= jobs@.len(),
            tot matches Some(t) ==> t.0 < i && dang_ket(jobs@.subrange(0, i as int)) == Some((t.0 as int, t.1)),
            tot is None ==> dang_ket(jobs@.subrange(0, i as int)) is None,
        decreases jobs@.len() - i,
    {
        assert(jobs@.subrange(0, i + 1).drop_last() =~= jobs@.subrange(0, i as int));
        assert(jobs@.subrange(0, i + 1).last() == jobs@[i as int]);
        if let Some(m) = ma_job_ket(&jobs[i]) {
            match tot {
                Some(t) => {
                    if su_co::uu_tien_hon(t.1, m) != t.1 {
                        tot = Some((i, m));
                    }
                },
                None => {
                    tot = Some((i, m));
                },
            }
        }
        i = i + 1;
    }
    assert(jobs@.subrange(0, jobs@.len() as int) =~= jobs@);
    match tot {
        Some(t) => Some((&jobs[t.0], t.1)),
        None => None,
    }
}

/// The trouble, of those that go first, of the jobs of others that hold up the queue.
pub open spec fn ket_cua_job_khac(jobs: Seq<JobHangDoi>, id: Seq<char>) -> Option<MaSuCo>
    decreases jobs.len(),
{
    if jobs.len() == 0 {
        None
    } else {
        let truoc = ket_cua_job_khac(jobs.drop_last(), id);
        if thuoc_ve(jobs.last(), id) {
            truoc
        } else {
            match ma_ket(jobs.last()) {
                Some(m) => match truoc {
                    Some(t) => Some(hon(t, m)),
                    None => Some(m),
                },
                None => truoc,
            }
        }
    }
}

pub fn ma_ket_cua_job_khac(jobs: &Vec<JobHangDoi>, job_id: &str) -> (r: Option<MaSuCo>)
    ensures
        r == ket_cua_job_khac(jobs@, job_id@),
{
    let mut tot: Option<MaSuCo> = None;
    let mut i: usize = 0;
    while i < jobs.len()
        invariant
            i <= jobs@.len(),
            tot == ket_cua_job_khac(jobs@.subrange(0, i as int), job_id@),
        decreases jobs@.len() - i,
    {
        assert(jobs@.subrange(0, i + 1).drop_last() =~= jobs@.subrange(0, i as int));
        assert(jobs@.subrange(0, i + 1).last() == jobs@[i as int]);
        if !ten_job::la_cua_job(&jobs[i], job_id) {
            if let Some(m) = ma_job_ket(&jobs[i]) {
                tot = match tot {
                    Some(t) => Some(su_co::uu_tien_hon(t, m)),
                    None => Some(m),
                };
            }
        }
        i = i + 1;
    }
    assert(jobs@.subrange(0, jobs@.len() as int) =~= jobs@);
    tot
}

/// The detail of a job that holds up the queue. The name of another program's document is never told.
pub open spec fn mo_ta_ket(j: JobHangDoi) -> Seq<char> {
    match so_cua_job_app(j) {
        Some(so) => "hoá đơn "@ + so + " kẹt trong hàng đợi: "@ + mo_ta_job_cua(j),
        None => "job khác kẹt trong hàng đợi: "@ + mo_ta_job_cua(j),
    }
}

/// The invoice number of a job, where it is one of the agent's.
pub open spec fn so_cua_job_app(j: JobHangDoi) -> Option<Seq<char>> {
    if cua_app(j.document@) {
        so_hoa_don_trong(j.document@)
    } else {
        None
    }
}

fn so_hoa_don_neu_cua_app(j: &JobHangDoi) -> (r: Option<String>)
    ensures
        chu_cua(r) == so_cua_job_app(*j),
{
    if ten_job::la_job_cua_app(j.document.as_str()) {
        ten_job::so_hoa_don_cua(j)
    } else {
        None
    }
}

fn mo_ta_job_ket(j: &JobHangDoi) -> (r: String)
    ensures
        r@ == mo_ta_ket(*j),
{
    let mut s = match so_hoa_don_neu_cua_app(j) {
        Some(so) => {
            let mut t = "hoá đơn ".to_owned();
            t.append(so.as_str());
            t.append(" kẹt trong hàng đợi: ");
            t
        },
        None => "job khác kẹt trong hàng đợi: ".to_owned(),
    };
    s.append(mo_ta_job(j).as_str());
    s
}

/// The state that is shown and sent: the printer's own, together with that of a job that holds up
/// the queue. A network printer raises flags on the job alone.
pub open spec fn gop_cua(vong: VongDoc) -> Option<(MaSuCo, Option<Seq<char>>)> {
    match may_in_cua(vong) {
        Some((ma, ct)) => match vong.hang_doi {
            Some(jobs) => match dang_ket(jobs@) {
                Some(k) => Some((hon(ma, k.1), Some(ghep_chi_tiet(ct, mo_ta_ket(jobs@[k.0]))))),
                None => Some((ma, ct)),
            },
            None => Some((ma, ct)),
        },
        None => None,
    }
}

pub fn tinh_trang_gop(vong: &VongDoc) -> (r: Option<(MaSuCo, Option<String>)>)
    ensures
        tt_view(r) == gop_cua(*vong),
{
    match doc_may_in(vong) {
        Some((ma, ct)) => match &vong.hang_doi {
            Some(jobs) => match job_dang_ket(jobs) {
                Some((j, m)) => {
                    let ct_job = mo_ta_job_ket(j);
                    Some((su_co::uu_tien_hon(ma, m), Some(ghep_hai(ct, ct_job.as_str()))))
                },
                None => Some((ma, ct)),
            },
            None => Some((ma, ct)),
        },
        None => None,
    }
}

/// The trouble that keeps jobs from printing, in a reading.
pub open spec fn chan_cua(vong: VongDoc) -> Option<MaSuCo> {
    chan_dau_cua(|m: MaSuCo| may_bao(vong, m))
}

/// The same without what was there before the job.
pub open spec fn chan_moi_cua(vong: VongDoc, nen: TapMa) -> Option<MaSuCo> {
    chan_dau_cua(|m: MaSuCo| may_bao(vong, m) && !nen.chua(m))
}

/// What is reported of the printer in a reading: its state, and trouble that is new since the job.
#[verifier::opaque]
pub open spec fn bao_may_in_cua(vong: VongDoc, nen: TapMa) -> Seq<QuanSatV> {
    (match gop_cua(vong) {
        Some((ma, ct)) => seq![QuanSatV::MayIn { ma, chi_tiet: ct }],
        None => Seq::empty(),
    }) + (match chan_moi_cua(vong, nen) {
        Some(ma) => seq![
            QuanSatV::SuCo {
                loai: ma,
                chi_tiet: match may_in_cua(vong) {
                    Some((_, Some(ct))) => ct,
                    _ => Seq::empty(),
                },
            },
        ],
        None => Seq::empty(),
    })
}

/// The printer in one reading.
#[derive(Debug)]
pub struct MayInVong {
    pub chan: Option<MaSuCo>,
    pub chan_moi: Option<MaSuCo>,
    /// What is to be reported, in order.
    pub bao: Vec<QuanSat>,
}

pub fn bao_may_in(vong: &VongDoc, nen: TapMa) -> (r: MayInVong)
    ensures
        r.chan == chan_cua(*vong),
        r.chan_moi == chan_moi_cua(*vong, nen),
        cac_quan_sat(r.bao@) == bao_may_in_cua(*vong, nen),
{
    let mut v: Vec<QuanSat> = Vec::new();
    if let Some((ma, chi_tiet)) = tinh_trang_gop(vong) {
        v.push(QuanSat::MayIn { ma, chi_tiet });
    }
    let tap = tap_may_in(vong);
    let chan = match tap {
        Some(t) => t.chan_in_uu_tien(),
        None => None,
    };
    let chan_moi = match tap {
        Some(t) => t.tru(nen).chan_in_uu_tien(),
        None => None,
    };
    if let Some(ma) = chan_moi {
        let ct = match doc_may_in(vong) {
            Some((_, Some(c))) => c,
            _ => String::new(),
        };
        v.push(QuanSat::SuCo { loai: ma, chi_tiet: ct });
    }
    proof {
        reveal(bao_may_in_cua);
    }
    assert(cac_quan_sat(v@) =~= bao_may_in_cua(*vong, nen));
    MayInVong { chan, chan_moi, bao: v }
}

pub open spec fn chu_ket_hoa_don_cua(so: Seq<char>) -> Seq<char> {
    "Máy in đang kẹt hoá đơn "@ + so + " — chưa gửi hoá đơn này xuống máy in"@
}

/// What is said where an earlier invoice holds up the queue.
pub fn chu_ket_hoa_don(so_hoa_don: &str) -> (r: String)
    ensures
        r@ == chu_ket_hoa_don_cua(so_hoa_don@),
{
    let mut s = "Máy in đang kẹt hoá đơn ".to_owned();
    s.append(so_hoa_don);
    s.append(" — chưa gửi hoá đơn này xuống máy in");
    s
}

/// What is said where another program's job holds up the queue.
pub const CHU_KET_JOB_KHAC: &'static str =
    "Hàng đợi máy in đang kẹt job khác (không phải hoá đơn) — chưa gửi hoá đơn này xuống máy in";

/// The code of a refusal: the general error gives way to one that costs the invoice no try.
pub open spec fn ma_tu_choi(ma: MaSuCo) -> MaSuCo {
    if ma == MaSuCo::LoiMayIn {
        MaSuCo::CanXuLy
    } else {
        ma
    }
}

fn ma_khi_tu_choi(ma: MaSuCo) -> (r: MaSuCo)
    ensures
        r == ma_tu_choi(ma),
{
    if ma == MaSuCo::LoiMayIn {
        MaSuCo::CanXuLy
    } else {
        ma
    }
}

/// Why an invoice is not to be sent now, if the queue is held up. Where the queue could not be read,
/// `ket_theo_doi` tells of an invoice known to hold it up.
pub open spec fn hang_doi_ket(hang_doi: Option<Seq<JobHangDoi>>, ket_theo_doi: Option<(Seq<char>, MaSuCo)>) -> Option<
    LyDoV,
> {
    match hang_doi {
        None => match ket_theo_doi {
            Some((so, ma)) => Some(LyDoV::co_loai(chu_ket_hoa_don_cua(so), ma_tu_choi(ma))),
            None => None,
        },
        Some(jobs) => match dang_ket(jobs) {
            Some((i, ma)) => Some(
                LyDoV::co_loai(
                    match so_cua_job_app(jobs[i]) {
                        Some(so) => chu_ket_hoa_don_cua(so),
                        None => CHU_KET_JOB_KHAC@,
                    },
                    ma_tu_choi(ma),
                ),
            ),
            None => None,
        },
    }
}

/// The view of a queue that may not have been read.
pub open spec fn hd_view(o: Option<Vec<JobHangDoi>>) -> Option<Seq<JobHangDoi>> {
    match o {
        Some(v) => Some(v@),
        None => None,
    }
}

pub open spec fn ket_view(o: Option<(String, MaSuCo)>) -> Option<(Seq<char>, MaSuCo)> {
    match o {
        Some(x) => Some((x.0@, x.1)),
        None => None,
    }
}

pub open spec fn ly_do_view(o: Option<LyDo>) -> Option<LyDoV> {
    match o {
        Some(l) => Some(l@),
        None => None,
    }
}

pub fn kiem_hang_doi_truoc_khi_in(hang_doi: &Option<Vec<JobHangDoi>>, ket_theo_doi: Option<(String, MaSuCo)>) -> (r:
    Option<LyDo>)
    ensures
        ly_do_view(r) == hang_doi_ket(hd_view(*hang_doi), ket_view(ket_theo_doi)),
{
    match hang_doi {
        None => match ket_theo_doi {
            Some((so, ma)) => Some(LyDo::co_loai(chu_ket_hoa_don(so.as_str()).as_str(), ma_khi_tu_choi(ma))),
            None => None,
        },
        Some(jobs) => match job_dang_ket(jobs) {
            Some((j, ma)) => {
                let chu = match so_hoa_don_neu_cua_app(j) {
                    Some(so) => chu_ket_hoa_don(so.as_str()),
                    None => CHU_KET_JOB_KHAC.to_owned(),
                };
                Some(LyDo::co_loai(chu.as_str(), ma_khi_tu_choi(ma)))
            },
            None => None,
        },
    }
}

/// The answer to whether an invoice may be sent to the printer.
#[derive(Debug, Clone, PartialEq, Eq)]
pub enum KiemTruoc {
    /// Not now: nothing has left the computer. `su_kien` names the line in the log.
    TuChoi { ly_do: LyDo, su_kien: &'static str },
    /// Yes. `nen` is the printer's trouble from before the job, where it was read.
    In { nen: Option<TapMa> },
}

pub open spec fn chu_khong_tim_thay(may_in: Seq<char>) -> Seq<char> {
    "Không tìm thấy máy in \""@ + may_in + "\" trong Windows (đã đổi tên/gỡ?) — chưa gửi hoá đơn này xuống máy in"@
}

/// What is said where there is no printer of the configured name.
pub fn chu_khong_tim_thay_may_in(may_in: &str) -> (r: String)
    ensures
        r@ == chu_khong_tim_thay(may_in@),
{
    let mut s = "Không tìm thấy máy in \"".to_owned();
    s.append(may_in);
    s.append("\" trong Windows (đã đổi tên/gỡ?) — chưa gửi hoá đơn này xuống máy in");
    s
}

/// Why an invoice is refused, and the name of the line in the log. An old server counts every refusal
/// against the invoice, so it is never refused there.
pub open spec fn tu_choi_cua(
    vong: VongDoc,
    may_in: Seq<char>,
    ket_theo_doi: Option<(Seq<char>, MaSuCo)>,
    backend_moi: bool,
) -> Option<(LyDoV, Seq<char>)> {
    if !backend_moi {
        None
    } else if vong.khong_tim_thay_may_in {
        Some(
            (
                LyDoV::co_loai(chu_khong_tim_thay(may_in), MaSuCo::KhongTimThayMayIn),
                "khong_in_khong_tim_thay_may_in"@,
            ),
        )
    } else {
        match hang_doi_ket(hd_view(vong.hang_doi), ket_theo_doi) {
            Some(l) => Some((l, "khong_in_hang_doi_ket"@)),
            None => None,
        }
    }
}

/// Decides, from one reading right before, whether an invoice may be sent to the printer.
pub fn kiem_truoc_khi_in(
    vong: &VongDoc,
    may_in: &str,
    ket_theo_doi: Option<(String, MaSuCo)>,
    backend_moi: bool,
) -> (r: KiemTruoc)
    ensures
        r matches KiemTruoc::TuChoi { ly_do, su_kien } ==> tu_choi_cua(*vong, may_in@, ket_view(ket_theo_doi), backend_moi)
            == Some((ly_do@, su_kien@)),
        r matches KiemTruoc::In { nen } ==> tu_choi_cua(*vong, may_in@, ket_view(ket_theo_doi), backend_moi) is None
            && nen == Some(nen_cua(*vong)) && forall|m: MaSuCo| #[trigger] nen->0.chua(m) == la_nen(*vong, m),
{
    if backend_moi {
        if vong.khong_tim_thay_may_in {
            return KiemTruoc::TuChoi {
                ly_do: LyDo::co_loai(chu_khong_tim_thay_may_in(may_in).as_str(), MaSuCo::KhongTimThayMayIn),
                su_kien: "khong_in_khong_tim_thay_may_in",
            };
        }
        if let Some(ly_do) = kiem_hang_doi_truoc_khi_in(&vong.hang_doi, ket_theo_doi) {
            return KiemTruoc::TuChoi { ly_do, su_kien: "khong_in_hang_doi_ket" };
        }
    }
    KiemTruoc::In { nen: Some(chup_nen(vong)) }
}

/// A refusal never costs the invoice a try: its code is one that the server waits out. Left out is a queue
/// held up by trouble that is none of these, as where a driver tells an error only as low toner.
pub proof fn tu_choi_khong_tieu_luot(
    vong: VongDoc,
    may_in: Seq<char>,
    ket_theo_doi: Option<(Seq<char>, MaSuCo)>,
    backend_moi: bool,
)
    requires
        vong.hang_doi matches Some(jobs) ==> (dang_ket(jobs@) matches Some(k) ==> k.1 != MaSuCo::HetMuc),
        vong.hang_doi is None ==> (ket_theo_doi matches Some(k) ==> k.1.cho_may() || k.1 == MaSuCo::LoiMayIn),
    ensures
        tu_choi_cua(vong, may_in, ket_theo_doi, backend_moi) matches Some(t) ==> t.0.loai matches Some(m) && m.cho_may(),
{
    if vong.hang_doi is Some {
        dang_ket_la_ma_job(vong.hang_doi->0@);
    }
}

/// The trouble for which a job holds up the queue is that of one of the jobs.
pub(crate) proof fn dang_ket_la_ma_job(jobs: Seq<JobHangDoi>)
    ensures
        dang_ket(jobs) matches Some(k) ==> 0 <= k.0 < jobs.len() && ma_ket(jobs[k.0]) == Some(k.1),
    decreases jobs.len(),
{
    if jobs.len() > 0 {
        dang_ket_la_ma_job(jobs.drop_last());
        if let Some(t) = dang_ket(jobs.drop_last()) {
            assert(jobs.drop_last()[t.0] == jobs[t.0]);
        }
    }
}

/// The jobs of the order in a reading, as the log shows them.
pub open spec fn vet_cua_ta(jobs: Seq<JobHangDoi>, id: Seq<char>) -> Seq<char>
    decreases jobs.len(),
{
    if jobs.len() == 0 {
        Seq::empty()
    } else {
        let truoc = vet_cua_ta(jobs.drop_last(), id);
        let j = jobs.last();
        if !thuoc_ve(j, id) {
            truoc
        } else {
            (if truoc.len() == 0 {
                truoc
            } else {
                truoc + ","@
            }) + "0x"@ + chu::hex_thuong(j.status as nat) + "/p"@ + chu::thap_phan(j.trang_da_in as nat)
        }
    }
}

/// How many jobs in a reading belong to the order.
pub open spec fn so_cua_ta(jobs: Seq<JobHangDoi>, id: Seq<char>) -> nat
    decreases jobs.len(),
{
    if jobs.len() == 0 {
        0
    } else {
        so_cua_ta(jobs.drop_last(), id) + (if thuoc_ve(jobs.last(), id) {
            1nat
        } else {
            0nat
        })
    }
}

/// One reading in a line for the log, such as "hd=[0x2010/p1] khac=0 may=0x0 usb=0x98/BUSY".
pub open spec fn vet_cua(vong: VongDoc, id: Seq<char>) -> Seq<char> {
    let hd = match vong.hang_doi {
        None => "hd=?"@,
        Some(jobs) => {
            let ta = vet_cua_ta(jobs@, id);
            "hd=["@ + (if so_cua_ta(jobs@, id) == 0 {
                "vang"@
            } else {
                ta
            }) + "] khac="@ + chu::thap_phan((jobs@.len() - so_cua_ta(jobs@, id)) as nat)
        },
    };
    let may = if vong.khong_tim_thay_may_in {
        "khong_tim_thay"@
    } else {
        match vong.co_may_in {
            Some(c) => "0x"@ + chu::hex_thuong(c as nat),
            None => "?"@,
        }
    };
    let usb = match vong.usb {
        Some(d) => "0x"@ + chu::chu_so_cuoi(d.byte as nat, 16, 2) + "/"@ + d.status_chu(),
        None => if vong.usb_khong_doc_duoc {
            "KHONG_DOC_DUOC"@
        } else if vong.la_may_usb {
            "-"@
        } else {
            "khong_usb"@
        },
    };
    hd + " may="@ + may + " usb="@ + usb
}

pub fn mo_ta_vong(vong: &VongDoc, job_id: &str) -> (r: String)
    ensures
        r@ == vet_cua(*vong, job_id@),
{
    let mut hd = match &vong.hang_doi {
        None => "hd=?".to_owned(),
        Some(jobs) => {
            let n: usize = jobs.len();
            let mut ta = String::new();
            let mut so: usize = 0;
            let mut i: usize = 0;
            while i < n
                invariant
                    n == jobs@.len(),
                    i <= n,
                    so <= i,
                    so == so_cua_ta(jobs@.subrange(0, i as int), job_id@),
                    ta@ == vet_cua_ta(jobs@.subrange(0, i as int), job_id@),
                decreases n - i,
            {
                assert(jobs@.subrange(0, i + 1).drop_last() =~= jobs@.subrange(0, i as int));
                assert(jobs@.subrange(0, i + 1).last() == jobs@[i as int]);
                if ten_job::la_cua_job(&jobs[i], job_id) {
                    if !ta.as_str().is_empty() {
                        ta.append(",");
                    }
                    ta.append("0x");
                    ta.append(chu::so_hex_thuong(jobs[i].status as u64).as_str());
                    ta.append("/p");
                    ta.append(chu::so_thap_phan(jobs[i].trang_da_in as u64).as_str());
                    so = so + 1;
                }
                i = i + 1;
            }
            assert(jobs@.subrange(0, jobs@.len() as int) =~= jobs@);
            let mut s = "hd=[".to_owned();
            if so == 0 {
                s.append("vang");
            } else {
                s.append(ta.as_str());
            }
            s.append("] khac=");
            s.append(chu::so_thap_phan((n - so) as u64).as_str());
            s
        },
    };
    hd.append(" may=");
    if vong.khong_tim_thay_may_in {
        hd.append("khong_tim_thay");
    } else {
        let may = match vong.co_may_in {
            Some(c) => {
                let mut s = "0x".to_owned();
                s.append(chu::so_hex_thuong(c as u64).as_str());
                s
            },
            None => "?".to_owned(),
        };
        hd.append(may.as_str());
    }
    hd.append(" usb=");
    match &vong.usb {
        Some(d) => hd.append(d.mo_ta_ngan().as_str()),
        None => if vong.usb_khong_doc_duoc {
            hd.append("KHONG_DOC_DUOC")
        } else if vong.la_may_usb {
            hd.append("-")
        } else {
            hd.append("khong_usb")
        },
    }
    hd
}

} // verus!
