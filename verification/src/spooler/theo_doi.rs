//! Watching one job from its order to its outcome.
use crate::job::{KetQuaIn, KetQuaInV, LyDo, LyDoV};
use crate::spooler::bo_suy::{
    bo_sung, bo_sung_loai, kl_view, ma_su_co_job, quan_sat_cua, quan_sat_theo, su_co_job, BoSuy, KetLuan, KetLuanV,
};
use crate::spooler::go_job::{go_dung, go_job_khoi_hang_doi, quyet_loi, quyet_loi_truoc_khi_in};
use crate::spooler::kieu::{
    BangChungJob, JobHangDoi, KetQuaGoJobV, POLL_INTERVAL_MS, QuanSat, QuanSatV, SO_LAN_USB_TOI_DA,
    THOI_GIAN_USB_TOI_DA_MS, TrangThaiJob, VongDoc, cac_quan_sat,
};
use crate::spooler::may_in::{
    bao_may_in, bao_may_in_cua, chan_cua, chan_moi_cua, ket_cua_job_khac, ma_ket_cua_job_khac, mo_ta_job,
    mo_ta_job_cua,
};
use crate::spooler::moi_truong::{
    cac_buoc_bao, duoi, mot_buoc_truoc, noi_hai_doan, noi_tiep, noi_tiep_chinh_no, Buoc, DongHo, KenhBao, MoiTruong,
    Spooler,
};
use crate::spooler::sau_khi_roi::{BoSauKhiRoi, SauKhiRoi};
use crate::spooler::ten_job::{tim_job, vi_tri_job};
use crate::su_co::{self, hon, MaSuCo, TapMa};
use crate::usb_may_in::TinhTrangUsb;
use vstd::prelude::*;
use vstd::string::*;

verus! {

/// The USB device behind the watched job.
#[derive(Debug, Clone, Copy, PartialEq, Eq, Structural)]
pub struct UsbCuaJob {
    pub la_may_usb: bool,
    /// The error in the latest answer of the device.
    pub loi_cuoi: Option<MaSuCo>,
}

/// Everything the watch remembers from reading to reading.
#[derive(Debug, Clone, Copy, PartialEq, Eq, Structural)]
pub struct TheoDoi {
    pub bo: BoSuy,
    /// The latest trouble seen that is not from before the job.
    pub su_co_da_thay: Option<MaSuCo>,
    /// The latest reading of the queue showed the job.
    pub con_trong_hang_doi: bool,
    pub usb: UsbCuaJob,
}

/// What the device said in a reading.
pub open spec fn usb_nghia(vong: VongDoc) -> Option<TinhTrangUsb> {
    match vong.usb {
        Some(u) => Some(u.nghia()),
        None => None,
    }
}

impl TheoDoi {
    pub open spec fn dau(nen: TapMa) -> TheoDoi {
        TheoDoi {
            bo: BoSuy::dau(nen),
            su_co_da_thay: None,
            con_trong_hang_doi: false,
            usb: UsbCuaJob { la_may_usb: false, loi_cuoi: None },
        }
    }

    pub fn moi(nen: TapMa) -> (r: TheoDoi)
        ensures
            r == TheoDoi::dau(nen),
    {
        TheoDoi {
            bo: BoSuy::moi(nen),
            su_co_da_thay: None,
            con_trong_hang_doi: false,
            usb: UsbCuaJob { la_may_usb: false, loi_cuoi: None },
        }
    }

    /// What a reading adds before the job itself is looked at.
    pub open spec fn sau_may_in(self, vong: VongDoc) -> TheoDoi {
        let moi = chan_moi_cua(vong, self.bo.nen);
        TheoDoi {
            su_co_da_thay: if moi is Some {
                moi
            } else {
                self.su_co_da_thay
            },
            usb: UsbCuaJob {
                la_may_usb: self.usb.la_may_usb || vong.la_may_usb,
                loi_cuoi: match vong.usb {
                    Some(u) => u.ma(),
                    None => self.usb.loi_cuoi,
                },
            },
            ..self
        }
    }

    /// What a reading that shows the job adds, and the observations it amounts to. A clean job while
    /// the printer reports new trouble may be taken out; one held up only by troubles from before
    /// never is.
    pub open spec fn sau_job(self, vong: VongDoc, jobs: Seq<JobHangDoi>, i: int, id: Seq<char>) -> (TheoDoi, Seq<
        TrangThaiJob,
    >) {
        let j = jobs[i];
        let bo = self.bo.sau_thay(true);
        let su_co_da_thay = match su_co_job(j) {
            Some(m) => Some(m),
            None => match ket_cua_job_khac(jobs, id) {
                Some(m) => Some(m),
                None => self.su_co_da_thay,
            },
        };
        let qs = quan_sat_cua(j.status, j.trang_da_in, j.mo_ta_driver@);
        let cho = qs == seq![TrangThaiJob::DangCho];
        let moi = chan_moi_cua(vong, self.bo.nen);
        let bo2 = if cho && moi is None && !bo.da_thay_in && !bo.da_thay_huy {
            BoSuy { nen_chan: chan_cua(vong), ..bo }
        } else {
            bo
        };
        (
            TheoDoi { bo: bo2, su_co_da_thay, con_trong_hang_doi: true, ..self },
            if cho && moi is Some {
                seq![TrangThaiJob::MayInLoi(moi->0)]
            } else {
                qs
            },
        )
    }

    /// What a reading adds, the observations of the job it amounts to, and what is reported of the job.
    pub open spec fn truoc_suy(self, vong: VongDoc, id: Seq<char>, sau: i64) -> (TheoDoi, Seq<TrangThaiJob>, Seq<
        QuanSatV,
    >) {
        let s = self.sau_may_in(vong);
        match vong.hang_doi {
            None => (s, seq![TrangThaiJob::LoiTruyVan], Seq::empty()),
            Some(jobs) => match vi_tri_job(jobs@, id, sau) {
                None => (
                    TheoDoi { bo: s.bo.sau_thay(false), con_trong_hang_doi: false, ..s },
                    match chan_moi_cua(vong, s.bo.nen) {
                        Some(m) => seq![TrangThaiJob::MayInLoi(m)],
                        None => seq![TrangThaiJob::KhongThay],
                    },
                    Seq::empty(),
                ),
                Some(i) => {
                    let (s2, ts) = s.sau_job(vong, jobs@, i, id);
                    (
                        s2,
                        ts,
                        match su_co_job(jobs@[i]) {
                            Some(m) => seq![QuanSatV::SuCo { loai: m, chi_tiet: mo_ta_job_cua(jobs@[i]) }],
                            None => Seq::empty(),
                        },
                    )
                },
            },
        }
    }

    /// What is remembered after one more reading, what it amounts to, and what is reported.
    #[verifier::opaque]
    pub open spec fn sau_vong(self, vong: VongDoc, id: Seq<char>, sau: i64) -> (TheoDoi, Option<KetLuanV>, Seq<
        QuanSatV,
    >) {
        let (s, ts, bao_job) = self.truoc_suy(vong, id, sau);
        let (bo, k) = s.bo.sau_chuoi(ts);
        (TheoDoi { bo, ..s }, k, bao_may_in_cua(vong, self.bo.nen) + bao_job)
    }

    /// Takes in one reading.
    pub fn mot_vong(&mut self, vong: &VongDoc, job_id: &str, submit_after_epoch_secs: i64) -> (r: (
        Option<KetLuan>,
        Vec<QuanSat>,
    ))
        ensures
            (*final(self), kl_view(r.0), cac_quan_sat(r.1@)) == old(self).sau_vong(
                *vong,
                job_id@,
                submit_after_epoch_secs,
            ),
    {
        let ghost dau = *self;
        self.usb.la_may_usb = self.usb.la_may_usb || vong.la_may_usb;
        if let Some(d) = &vong.usb {
            self.usb.loi_cuoi = d.ma_su_co();
        }
        let nen = self.bo.nen;
        let may_in = bao_may_in(vong, nen);
        let mut bao = may_in.bao;
        let ghost bao_dau = cac_quan_sat(bao@);
        if may_in.chan_moi.is_some() {
            self.su_co_da_thay = may_in.chan_moi;
        }
        let mut ts: Vec<TrangThaiJob> = Vec::new();
        match &vong.hang_doi {
            None => {
                ts.push(TrangThaiJob::LoiTruyVan);
                assert(ts@ =~= seq![TrangThaiJob::LoiTruyVan]);
            },
            Some(jobs) => match tim_job(jobs, job_id, submit_after_epoch_secs) {
                None => {
                    self.con_trong_hang_doi = false;
                    self.bo.thay_job(false);
                    match may_in.chan_moi {
                        Some(m) => {
                            ts.push(TrangThaiJob::MayInLoi(m));
                            assert(ts@ =~= seq![TrangThaiJob::MayInLoi(m)]);
                        },
                        None => {
                            ts.push(TrangThaiJob::KhongThay);
                            assert(ts@ =~= seq![TrangThaiJob::KhongThay]);
                        },
                    }
                },
                Some(j) => {
                    self.con_trong_hang_doi = true;
                    self.bo.thay_job(true);
                    if let Some(m) = ma_ket_cua_job_khac(jobs, job_id) {
                        self.su_co_da_thay = Some(m);
                    }
                    if let Some(m) = ma_su_co_job(j) {
                        let qs = QuanSat::SuCo { loai: m, chi_tiet: mo_ta_job(j) };
                        let ghost truoc = bao@;
                        bao.push(qs);
                        assert(cac_quan_sat(bao@) =~= cac_quan_sat(truoc).push(qs@));
                        self.su_co_da_thay = Some(m);
                    }
                    let qs = quan_sat_theo(j.status, j.trang_da_in, j.mo_ta_driver.as_str());
                    let cho = qs.len() == 1 && qs[0] == TrangThaiJob::DangCho;
                    assert(cho == (qs@ == seq![TrangThaiJob::DangCho])) by {
                        if cho {
                            assert(qs@ =~= seq![TrangThaiJob::DangCho]);
                        }
                    }
                    ts = qs;
                    if cho {
                        if let Some(m) = may_in.chan_moi {
                            let mut mot: Vec<TrangThaiJob> = Vec::new();
                            mot.push(TrangThaiJob::MayInLoi(m));
                            assert(mot@ =~= seq![TrangThaiJob::MayInLoi(m)]);
                            ts = mot;
                        } else if !self.bo.da_thay_in && !self.bo.da_thay_huy {
                            self.bo.nen_chan = may_in.chan;
                        }
                    }
                },
            },
        }
        proof {
            reveal(TheoDoi::sau_vong);
            let (s, t, b) = dau.truoc_suy(*vong, job_id@, submit_after_epoch_secs);
            assert(*self == s);
            assert(ts@ == t);
            assert(cac_quan_sat(bao@) =~= bao_dau + b);
        }
        let k = self.bo.them_chuoi(&ts);
        (k, bao)
    }
}

pub open spec fn chu_trong_usb(ma: MaSuCo) -> Seq<char> {
    "may in bao "@ + ma.nhan_cua()
        + " qua USB — hoa don dang nam trong bo nho may in, tu in khi xu ly xong (app theo doi va bao khi in xong)"@
}

fn chu_trong_may_in_usb(ma: MaSuCo) -> (r: String)
    ensures
        r@ == chu_trong_usb(ma),
{
    let mut s = "may in bao ".to_owned();
    s.append(ma.nhan());
    s.append(" qua USB — hoa don dang nam trong bo nho may in, tu in khi xu ly xong (app theo doi va bao khi in xong)");
    s
}

pub open spec fn chu_su_co_sau_roi(ma: MaSuCo) -> Seq<char> {
    "job da roi hang doi Windows nhung may in bao "@ + ma.nhan_cua()
        + " ngay sau do — co the con trong bo nho may in"@
}

/// The outcome of a job that has left the queue, by what the printer then showed, and what is
/// reported with it.
#[verifier::opaque]
pub open spec fn ket_qua_sau_roi(x: SauKhiRoi, dang_in: bool, bc: BangChungJob) -> (KetQuaInV, Seq<QuanSatV>) {
    match x {
        SauKhiRoi::Sach => (KetQuaInV::DaIn, Seq::empty()),
        SauKhiRoi::SuCo(ma) => (KetQuaInV::KhongRo(LyDoV::co_loai(chu_su_co_sau_roi(ma), ma)), Seq::empty()),
        SauKhiRoi::TrongMayInUsb(ma) => (
            KetQuaInV::KhongRo(LyDoV::co_loai(chu_trong_usb(ma), ma)),
            seq![QuanSatV::TrongMayInUsb { bang_chung: bc, da_thay_loi: true, da_thay_in: false }],
        ),
        SauKhiRoi::UsbChuaXong => (
            KetQuaInV::KhongRo(
                LyDoV::co_loai(
                    "may in USB chua in xong sau 30 giay — app theo doi tiep va bao khi in xong"@,
                    MaSuCo::KhongXacNhan,
                ),
            ),
            seq![QuanSatV::TrongMayInUsb { bang_chung: bc, da_thay_loi: false, da_thay_in: dang_in }],
        ),
    }
}

/// Long enough since `t0`.
pub open spec fn qua_han_usb(t0: u64, t: u64) -> bool {
    t >= t0 && t - t0 >= THOI_GIAN_USB_TOI_DA_MS
}

/// The exchanges after the job has left the queue, and the outcome: the printer is read again and
/// again, each time after a pause, until what it shows settles it or the time is up.
#[verifier::opaque]
pub open spec fn sau_roi_dung(b: BoSauKhiRoi, t0: u64, bo: BoSuy, l: Seq<Buoc>, kq: KetQuaInV) -> bool
    decreases l.len(),
{
    l.len() >= 2 && l[0] == Buoc::Cho(POLL_INTERVAL_MS) && match l[1] {
        Buoc::DocVong(v) => {
            let bao = cac_buoc_bao(bao_may_in_cua(v, bo.nen));
            let m = 2 + bao.len() as int;
            let (b1, k) = b.sau(chan_moi_cua(v, bo.nen), usb_nghia(v));
            l.len() >= m && l.subrange(2, m) == bao && match k {
                Some(x) => {
                    let (kq1, bao1) = ket_qua_sau_roi(x, b1.dang_in, bo.bang_chung_cua());
                    kq == kq1 && l.subrange(m, l.len() as int) == cac_buoc_bao(bao1)
                },
                None => l.len() >= m + 1 && match l[m] {
                    Buoc::BayGio(t) => if qua_han_usb(t0, t) {
                        let (kq1, bao1) = ket_qua_sau_roi(b1.khi_het_gio(), b1.dang_in, bo.bang_chung_cua());
                        kq == kq1 && l.subrange(m + 1, l.len() as int) == cac_buoc_bao(bao1)
                    } else {
                        sau_roi_dung(b1, t0, bo, l.subrange(m + 1, l.len() as int), kq)
                    },
                    _ => false,
                },
            }
        },
        _ => false,
    }
}

/// A deleted job whose trouble was the printer's general error does not cost the invoice a try.
pub open spec fn khong_tieu(kq: KetQuaInV, cap_may: bool) -> KetQuaInV {
    match kq {
        KetQuaInV::Loi(l) => if cap_may && l.loai == Some(MaSuCo::LoiMayIn) {
            KetQuaInV::Loi(
                LyDoV {
                    chu: l.chu + " [co ERROR chung chung cap may — bao can_xu_ly, khong tieu luot thu]"@,
                    loai: Some(MaSuCo::CanXuLy),
                    ..l
                },
            )
        } else {
            kq
        },
        _ => kq,
    }
}

pub fn ma_loi_khong_tieu_luot(kq: KetQuaIn, cap_may: bool) -> (r: KetQuaIn)
    ensures
        r@ == khong_tieu(kq@, cap_may),
{
    match kq {
        KetQuaIn::Loi(l) => {
            let chung = match l.loai {
                Some(m) => m == MaSuCo::LoiMayIn,
                None => false,
            };
            if cap_may && chung {
                let mut chu = l.chu;
                chu.append(" [co ERROR chung chung cap may — bao can_xu_ly, khong tieu luot thu]");
                KetQuaIn::Loi(LyDo { chu, loai: Some(MaSuCo::CanXuLy), ban_da_in: l.ban_da_in })
            } else {
                KetQuaIn::Loi(l)
            }
        },
        k => k,
    }
}

/// What is reported where the job, though it was to be taken out, is still in the queue.
pub open spec fn bao_con_trong(con: bool, bc: BangChungJob) -> Seq<QuanSatV> {
    if con {
        seq![QuanSatV::ConTrongHangDoi(bc)]
    } else {
        Seq::empty()
    }
}

/// An open outcome as it is reported: `(outcome, reports)`.
pub open spec fn ket_qua_khong_ro(s: TheoDoi, ly_do: LyDoV) -> (KetQuaInV, Seq<QuanSatV>) {
    let bc = s.bo.bang_chung_cua();
    if s.con_trong_hang_doi {
        (bo_sung(KetQuaInV::KhongRo(ly_do), s.su_co_da_thay), seq![QuanSatV::ConTrongHangDoi(bc)])
    } else if s.usb.loi_cuoi is Some && s.bo.da_thay_job && !s.bo.da_thay_huy {
        let ma_usb = s.usb.loi_cuoi->0;
        let ma = match ly_do.loai {
            Some(m) => if m.o_may_in() {
                hon(m, ma_usb)
            } else {
                ma_usb
            },
            None => ma_usb,
        };
        (
            KetQuaInV::KhongRo(LyDoV::co_loai(chu_trong_usb(ma), ma)),
            seq![QuanSatV::TrongMayInUsb { bang_chung: bc, da_thay_loi: true, da_thay_in: false }],
        )
    } else {
        (bo_sung(KetQuaInV::KhongRo(ly_do), s.su_co_da_thay), Seq::empty())
    }
}

/// Taking the job out gave `go`: the exchanges `l1` for that, `l2` for the report after it.
pub open spec fn xoa_roi_bao(
    s: TheoDoi,
    id: Seq<char>,
    ly_do: LyDoV,
    l1: Seq<Buoc>,
    l2: Seq<Buoc>,
    go: KetQuaGoJobV,
    kq: KetQuaInV,
) -> bool {
    &&& go_dung(id, s.bo.da_thay_in || s.bo.da_thay_huy, l1, go)
    &&& l2 == cac_buoc_bao(bao_con_trong(go.con_trong(), s.bo.bang_chung_cua()))
    &&& kq == khong_tieu(quyet_loi(ly_do, go), s.bo.ung_vien_cap_may)
}

/// The exchanges from the conclusion to the outcome.
#[verifier::opaque]
pub open spec fn ket_thuc_dung(s: TheoDoi, id: Seq<char>, kl: KetLuanV, l: Seq<Buoc>, kq: KetQuaInV) -> bool {
    match kl {
        KetLuanV::DaIn { qua_vang } => if !qua_vang && !s.usb.la_may_usb {
            l.len() == 0 && kq == KetQuaInV::DaIn
        } else {
            l.len() >= 1 && match l[0] {
                Buoc::BayGio(t0) => sau_roi_dung(BoSauKhiRoi::dau(), t0, s.bo, l.subrange(1, l.len() as int), kq),
                _ => false,
            }
        },
        KetLuanV::KhongRo(ly_do) => {
            let (kq1, bao) = ket_qua_khong_ro(s, ly_do);
            kq == kq1 && l == cac_buoc_bao(bao)
        },
        KetLuanV::UngVienXoa(ly_do) => exists|l1: Seq<Buoc>, l2: Seq<Buoc>, go: KetQuaGoJobV|
            l == l1 + l2 && #[trigger] xoa_roi_bao(s, id, ly_do, l1, l2, go, kq),
    }
}

/// The exchanges of a whole watch that starts from `s`, and the outcome; `n` more readings at most.
#[verifier::opaque]
pub open spec fn theo_doi_dung(n: nat, s: TheoDoi, id: Seq<char>, sau: i64, l: Seq<Buoc>, kq: KetQuaInV) -> bool
    decreases l.len(),
{
    l.len() >= 1 && match l[0] {
        Buoc::DocVong(v) => {
            let (s1, k, bao) = s.sau_vong(v, id, sau);
            let m = 1 + bao.len() as int;
            l.len() >= m && l.subrange(1, m) == cac_buoc_bao(bao) && match k {
                Some(kl) => ket_thuc_dung(s1, id, kl, l.subrange(m, l.len() as int), kq),
                None => if n == 0 {
                    ket_thuc_dung(s1, id, s1.bo.khi_het_gio(), l.subrange(m, l.len() as int), kq)
                } else {
                    l.len() >= m + 1 && match l[m] {
                        Buoc::ConThoiGian(con) => if !con {
                            ket_thuc_dung(s1, id, s1.bo.khi_het_gio(), l.subrange(m + 1, l.len() as int), kq)
                        } else {
                            l.len() >= m + 2 && l[m + 1] == Buoc::Cho(POLL_INTERVAL_MS) && theo_doi_dung(
                                (n - 1) as nat,
                                s1,
                                id,
                                sau,
                                l.subrange(m + 2, l.len() as int),
                                kq,
                            )
                        },
                        _ => false,
                    }
                },
            }
        },
        _ => false,
    }
}

/// Reads the printer after the job has left, until it is settled.
fn kiem_may_in_sau_khi_roi<S: Spooler, B: KenhBao, D: DongHo>(
    mt: &mut MoiTruong<S, B, D>,
    bo_suy: &BoSuy,
    bo: BoSauKhiRoi,
    t0: u64,
) -> (r: KetQuaIn)
    requires
        bo.so_lan <= SO_LAN_USB_TOI_DA,
    ensures
        noi_tiep(old(mt).vet(), final(mt).vet()),
        sau_roi_dung(bo, t0, *bo_suy, duoi(old(mt).vet(), final(mt).vet()), r@),
    decreases SO_LAN_USB_TOI_DA - bo.so_lan,
{
    let ghost a = mt.vet();
    mt.cho(POLL_INTERVAL_MS);
    let ghost b = mt.vet();
    let vong = mt.doc_vong();
    let ghost c = mt.vet();
    let may_in = bao_may_in(&vong, bo_suy.nen);
    let chan_moi = may_in.chan_moi;
    mt.bao_het(may_in.bao);
    let ghost d = mt.vet();
    let usb = match &vong.usb {
        Some(u) => Some(u.tinh_trang()),
        None => None,
    };
    let mut bo1 = bo;
    let k = bo1.them(chan_moi, usb);
    match k {
        Some(x) => {
            let r = ket_luan_sau_roi(mt, x, bo1.da_thay_dang_in(), bo_suy.bang_chung());
            proof {
                let e = mt.vet();
                vet_vong(b, Buoc::DocVong(vong), c, d, e);
                mot_buoc_truoc(a, Buoc::Cho(POLL_INTERVAL_MS), e);
                sau_roi_ket(bo, t0, *bo_suy, vong, duoi(d, e), r@);
                assert(duoi(a, e) =~= vong_sau_roi(*bo_suy, vong) + duoi(d, e));
            }
            r
        },
        None => {
            let t = mt.bay_gio_ms();
            let ghost e = mt.vet();
            let r = if t >= t0 && t - t0 >= THOI_GIAN_USB_TOI_DA_MS {
                ket_luan_sau_roi(mt, bo1.het_gio(), bo1.da_thay_dang_in(), bo_suy.bang_chung())
            } else {
                kiem_may_in_sau_khi_roi(mt, bo_suy, bo1, t0)
            };
            proof {
                let f = mt.vet();
                mot_buoc_truoc(d, Buoc::BayGio(t), f);
                vet_vong(b, Buoc::DocVong(vong), c, d, f);
                mot_buoc_truoc(a, Buoc::Cho(POLL_INTERVAL_MS), f);
                sau_roi_hoi_gio(bo, t0, *bo_suy, vong, t, duoi(e, f), r@);
                assert(duoi(a, f) =~= vong_sau_roi(*bo_suy, vong) + seq![Buoc::BayGio(t)] + duoi(e, f));
            }
            r
        },
    }
}

/// The exchanges of one reading after the job has left.
spec fn vong_sau_roi(bo: BoSuy, v: VongDoc) -> Seq<Buoc> {
    seq![Buoc::Cho(POLL_INTERVAL_MS), Buoc::DocVong(v)] + cac_buoc_bao(bao_may_in_cua(v, bo.nen))
}

/// A trace that goes on from one exchange over a stretch.
proof fn vet_vong(a: Seq<Buoc>, x: Buoc, c: Seq<Buoc>, d: Seq<Buoc>, e: Seq<Buoc>)
    requires
        c == a.push(x),
        noi_tiep(c, d),
        noi_tiep(d, e),
    ensures
        noi_tiep(a, e),
        duoi(a, e) == seq![x] + duoi(c, d) + duoi(d, e),
        noi_tiep(c, e),
{
    noi_hai_doan(c, d, e);
    mot_buoc_truoc(a, x, e);
    assert(duoi(a, e) =~= seq![x] + duoi(c, d) + duoi(d, e));
}

proof fn sau_roi_ket(b: BoSauKhiRoi, t0: u64, bo: BoSuy, v: VongDoc, cuoi: Seq<Buoc>, kq: KetQuaInV)
    requires
        ({
            let (b1, k) = b.sau(chan_moi_cua(v, bo.nen), usb_nghia(v));
            k matches Some(x) && (kq, cuoi) == (
                ket_qua_sau_roi(x, b1.dang_in, bo.bang_chung_cua()).0,
                cac_buoc_bao(ket_qua_sau_roi(x, b1.dang_in, bo.bang_chung_cua()).1),
            )
        }),
    ensures
        sau_roi_dung(b, t0, bo, vong_sau_roi(bo, v) + cuoi, kq),
{
    reveal(sau_roi_dung);
    let bao = cac_buoc_bao(bao_may_in_cua(v, bo.nen));
    let l = vong_sau_roi(bo, v) + cuoi;
    let m = 2 + bao.len() as int;
    assert(l[0] == Buoc::Cho(POLL_INTERVAL_MS) && l[1] == Buoc::DocVong(v));
    assert(l.subrange(2, m) =~= bao);
    assert(l.subrange(m, l.len() as int) =~= cuoi);
}

proof fn sau_roi_hoi_gio(b: BoSauKhiRoi, t0: u64, bo: BoSuy, v: VongDoc, t: u64, cuoi: Seq<Buoc>, kq: KetQuaInV)
    requires
        ({
            let (b1, k) = b.sau(chan_moi_cua(v, bo.nen), usb_nghia(v));
            &&& k is None
            &&& qua_han_usb(t0, t) ==> (kq, cuoi) == (
                ket_qua_sau_roi(b1.khi_het_gio(), b1.dang_in, bo.bang_chung_cua()).0,
                cac_buoc_bao(ket_qua_sau_roi(b1.khi_het_gio(), b1.dang_in, bo.bang_chung_cua()).1),
            )
            &&& !qua_han_usb(t0, t) ==> sau_roi_dung(b1, t0, bo, cuoi, kq)
        }),
    ensures
        sau_roi_dung(b, t0, bo, vong_sau_roi(bo, v) + seq![Buoc::BayGio(t)] + cuoi, kq),
{
    reveal(sau_roi_dung);
    let bao = cac_buoc_bao(bao_may_in_cua(v, bo.nen));
    let l = vong_sau_roi(bo, v) + seq![Buoc::BayGio(t)] + cuoi;
    let m = 2 + bao.len() as int;
    assert(l[0] == Buoc::Cho(POLL_INTERVAL_MS) && l[1] == Buoc::DocVong(v));
    assert(l.subrange(2, m) =~= bao);
    assert(l[m] == Buoc::BayGio(t));
    assert(l.subrange(m + 1, l.len() as int) =~= cuoi);
}

/// Reports and gives the outcome of a job that has left the queue.
fn ket_luan_sau_roi<S: Spooler, B: KenhBao, D: DongHo>(
    mt: &mut MoiTruong<S, B, D>,
    x: SauKhiRoi,
    dang_in: bool,
    bc: BangChungJob,
) -> (r: KetQuaIn)
    ensures
        noi_tiep(old(mt).vet(), final(mt).vet()),
        r@ == ket_qua_sau_roi(x, dang_in, bc).0,
        duoi(old(mt).vet(), final(mt).vet()) == cac_buoc_bao(ket_qua_sau_roi(x, dang_in, bc).1),
{
    proof {
        reveal(ket_qua_sau_roi);
    }
    let mut bao: Vec<QuanSat> = Vec::new();
    let r = match x {
        SauKhiRoi::Sach => KetQuaIn::DaIn,
        SauKhiRoi::SuCo(ma) => {
            let mut s = "job da roi hang doi Windows nhung may in bao ".to_owned();
            s.append(ma.nhan());
            s.append(" ngay sau do — co the con trong bo nho may in");
            KetQuaIn::KhongRo(LyDo::co_loai(s.as_str(), ma))
        },
        SauKhiRoi::TrongMayInUsb(ma) => {
            bao.push(QuanSat::TrongMayInUsb { bang_chung: bc, da_thay_loi: true, da_thay_in: false });
            KetQuaIn::KhongRo(LyDo::co_loai(chu_trong_may_in_usb(ma).as_str(), ma))
        },
        SauKhiRoi::UsbChuaXong => {
            bao.push(QuanSat::TrongMayInUsb { bang_chung: bc, da_thay_loi: false, da_thay_in: dang_in });
            KetQuaIn::KhongRo(
                LyDo::co_loai(
                    "may in USB chua in xong sau 30 giay — app theo doi tiep va bao khi in xong",
                    MaSuCo::KhongXacNhan,
                ),
            )
        },
    };
    assert(cac_quan_sat(bao@) =~= ket_qua_sau_roi(x, dang_in, bc).1);
    mt.bao_het(bao);
    r
}

/// From the conclusion to the outcome: reads the printer after a job that left, takes out a job that
/// may be taken out, and reports one that is still on its way.
fn ket_thuc<S: Spooler, B: KenhBao, D: DongHo>(
    mt: &mut MoiTruong<S, B, D>,
    job_id: &str,
    kl: KetLuan,
    s: &TheoDoi,
) -> (r: KetQuaIn)
    ensures
        noi_tiep(old(mt).vet(), final(mt).vet()),
        ket_thuc_dung(*s, job_id@, kl@, duoi(old(mt).vet(), final(mt).vet()), r@),
{
    proof {
        reveal(ket_thuc_dung);
    }
    let ghost a = mt.vet();
    proof {
        noi_tiep_chinh_no(a);
    }
    match kl {
        KetLuan::DaIn { qua_vang } => {
            if !qua_vang && !s.usb.la_may_usb {
                return KetQuaIn::DaIn;
            }
            let t0 = mt.bay_gio_ms();
            let r = kiem_may_in_sau_khi_roi(mt, &s.bo, BoSauKhiRoi::default(), t0);
            proof {
                mot_buoc_truoc(a, Buoc::BayGio(t0), mt.vet());
            }
            r
        },
        KetLuan::KhongRo(ly_do) => {
            let bc = s.bo.bang_chung();
            let ghost l = ly_do@;
            let mut bao: Vec<QuanSat> = Vec::new();
            let r = if s.con_trong_hang_doi {
                bao.push(QuanSat::ConTrongHangDoi(bc));
                bo_sung_loai(KetQuaIn::KhongRo(ly_do), s.su_co_da_thay)
            } else if s.usb.loi_cuoi.is_some() && s.bo.da_thay_job && !s.bo.da_thay_huy {
                bao.push(QuanSat::TrongMayInUsb { bang_chung: bc, da_thay_loi: true, da_thay_in: false });
                let ma_usb = s.usb.loi_cuoi.unwrap();
                let ma = match ly_do.loai {
                    Some(m) => if m.la_su_co_may_in() {
                        su_co::uu_tien_hon(m, ma_usb)
                    } else {
                        ma_usb
                    },
                    None => ma_usb,
                };
                KetQuaIn::KhongRo(LyDo::co_loai(chu_trong_may_in_usb(ma).as_str(), ma))
            } else {
                bo_sung_loai(KetQuaIn::KhongRo(ly_do), s.su_co_da_thay)
            };
            assert(cac_quan_sat(bao@) =~= ket_qua_khong_ro(*s, l).1);
            mt.bao_het(bao);
            r
        },
        KetLuan::UngVienXoa(ly_do) => {
            let bc = s.bo.bang_chung();
            let ghost ld = ly_do@;
            let go = go_job_khoi_hang_doi(mt, job_id, bc.da_thay_in || bc.da_thay_huy);
            let ghost b = mt.vet();
            let ghost gv = go@;
            let con = go.job_con_trong_hang_doi();
            let kq = quyet_loi_truoc_khi_in(ly_do, go);
            let mut bao: Vec<QuanSat> = Vec::new();
            if con {
                bao.push(QuanSat::ConTrongHangDoi(bc));
            }
            assert(cac_quan_sat(bao@) =~= bao_con_trong(gv.con_trong(), bc));
            mt.bao_het(bao);
            let r = ma_loi_khong_tieu_luot(kq, s.bo.ung_vien_cap_may);
            proof {
                let c = mt.vet();
                noi_hai_doan(a, b, c);
                assert(xoa_roi_bao(*s, job_id@, ld, duoi(a, b), duoi(b, c), gv, r@));
            }
            r
        },
    }
}

/// The exchanges at the start of a round.
spec fn dau_vong(s: TheoDoi, id: Seq<char>, sau: i64, v: VongDoc) -> Seq<Buoc> {
    seq![Buoc::DocVong(v)] + cac_buoc_bao(s.sau_vong(v, id, sau).2)
}

/// The exchanges of a round that settles nothing.
spec fn vong_khong_ket(s: TheoDoi, id: Seq<char>, sau: i64, v: VongDoc) -> Seq<Buoc> {
    dau_vong(s, id, sau, v) + seq![Buoc::ConThoiGian(true), Buoc::Cho(POLL_INTERVAL_MS)]
}

/// A round that settles it.
proof fn vong_ket(n: nat, s: TheoDoi, id: Seq<char>, sau: i64, v: VongDoc, cuoi: Seq<Buoc>, kq: KetQuaInV)
    requires
        s.sau_vong(v, id, sau).1 matches Some(kl) && ket_thuc_dung(s.sau_vong(v, id, sau).0, id, kl, cuoi, kq),
    ensures
        theo_doi_dung(n, s, id, sau, dau_vong(s, id, sau, v) + cuoi, kq),
{
    reveal(theo_doi_dung);
    let bb = cac_buoc_bao(s.sau_vong(v, id, sau).2);
    let l = dau_vong(s, id, sau, v) + cuoi;
    let m = 1 + bb.len() as int;
    assert(l[0] == Buoc::DocVong(v));
    assert(l.subrange(1, m) =~= bb);
    assert(l.subrange(m, l.len() as int) =~= cuoi);
}

/// The last round that is allowed.
proof fn vong_het_luot(s: TheoDoi, id: Seq<char>, sau: i64, v: VongDoc, cuoi: Seq<Buoc>, kq: KetQuaInV)
    requires
        s.sau_vong(v, id, sau).1 is None,
        ket_thuc_dung(s.sau_vong(v, id, sau).0, id, s.sau_vong(v, id, sau).0.bo.khi_het_gio(), cuoi, kq),
    ensures
        theo_doi_dung(0, s, id, sau, dau_vong(s, id, sau, v) + cuoi, kq),
{
    reveal(theo_doi_dung);
    let bb = cac_buoc_bao(s.sau_vong(v, id, sau).2);
    let l = dau_vong(s, id, sau, v) + cuoi;
    let m = 1 + bb.len() as int;
    assert(l[0] == Buoc::DocVong(v));
    assert(l.subrange(1, m) =~= bb);
    assert(l.subrange(m, l.len() as int) =~= cuoi);
}

/// A round after which the time is up.
proof fn vong_het_gio(n: nat, s: TheoDoi, id: Seq<char>, sau: i64, v: VongDoc, cuoi: Seq<Buoc>, kq: KetQuaInV)
    requires
        n > 0,
        s.sau_vong(v, id, sau).1 is None,
        ket_thuc_dung(s.sau_vong(v, id, sau).0, id, s.sau_vong(v, id, sau).0.bo.khi_het_gio(), cuoi, kq),
    ensures
        theo_doi_dung(n, s, id, sau, dau_vong(s, id, sau, v) + seq![Buoc::ConThoiGian(false)] + cuoi, kq),
{
    reveal(theo_doi_dung);
    let bb = cac_buoc_bao(s.sau_vong(v, id, sau).2);
    let l = dau_vong(s, id, sau, v) + seq![Buoc::ConThoiGian(false)] + cuoi;
    let m = 1 + bb.len() as int;
    assert(l[0] == Buoc::DocVong(v));
    assert(l.subrange(1, m) =~= bb);
    assert(l[m] == Buoc::ConThoiGian(false));
    assert(l.subrange(m + 1, l.len() as int) =~= cuoi);
}

/// A round that settles nothing leads on to the rest of the watch.
proof fn qua_mot_vong(n: nat, s: TheoDoi, id: Seq<char>, sau: i64, v: VongDoc, con: Seq<Buoc>, kq: KetQuaInV)
    requires
        n > 0,
        s.sau_vong(v, id, sau).1 is None,
        theo_doi_dung((n - 1) as nat, s.sau_vong(v, id, sau).0, id, sau, con, kq),
    ensures
        theo_doi_dung(n, s, id, sau, vong_khong_ket(s, id, sau, v) + con, kq),
{
    reveal(theo_doi_dung);
    let bb = cac_buoc_bao(s.sau_vong(v, id, sau).2);
    let l = vong_khong_ket(s, id, sau, v) + con;
    let m = 1 + bb.len() as int;
    assert(l[0] == Buoc::DocVong(v));
    assert(l.subrange(1, m) =~= bb);
    assert(l[m] == Buoc::ConThoiGian(true));
    assert(l[m + 1] == Buoc::Cho(POLL_INTERVAL_MS));
    assert(l.subrange(m + 2, l.len() as int) =~= con);
}

/// Whatever completes a watch from `s` completes, behind `l`, the watch from `s0`.
#[verifier::opaque]
spec fn dan_toi(n0: nat, s0: TheoDoi, id: Seq<char>, sau: i64, l: Seq<Buoc>, n: nat, s: TheoDoi) -> bool {
    forall|con: Seq<Buoc>, kq: KetQuaInV| #[trigger]
        theo_doi_dung(n, s, id, sau, con, kq) ==> theo_doi_dung(n0, s0, id, sau, l + con, kq)
}

/// What completes the watch from `s`, put behind `l`.
proof fn hoan_tat(
    n0: nat,
    s0: TheoDoi,
    id: Seq<char>,
    sau: i64,
    l: Seq<Buoc>,
    n: nat,
    s: TheoDoi,
    con: Seq<Buoc>,
    kq: KetQuaInV,
)
    requires
        dan_toi(n0, s0, id, sau, l, n, s),
        theo_doi_dung(n, s, id, sau, con, kq),
    ensures
        theo_doi_dung(n0, s0, id, sau, l + con, kq),
{
    reveal(dan_toi);
}

proof fn dan_toi_dau(n: nat, s: TheoDoi, id: Seq<char>, sau: i64)
    ensures
        dan_toi(n, s, id, sau, Seq::<Buoc>::empty(), n, s),
{
    reveal(dan_toi);
    assert forall|con: Seq<Buoc>, kq: KetQuaInV| #[trigger]
        theo_doi_dung(n, s, id, sau, con, kq) implies theo_doi_dung(n, s, id, sau, Seq::<Buoc>::empty() + con, kq) by {
        assert(Seq::<Buoc>::empty() + con =~= con);
    }
}

proof fn noi_vong(n0: nat, s0: TheoDoi, id: Seq<char>, sau: i64, l: Seq<Buoc>, n: nat, s: TheoDoi, v: VongDoc)
    requires
        n > 0,
        dan_toi(n0, s0, id, sau, l, n, s),
        s.sau_vong(v, id, sau).1 is None,
    ensures
        dan_toi(n0, s0, id, sau, l + vong_khong_ket(s, id, sau, v), (n - 1) as nat, s.sau_vong(v, id, sau).0),
{
    reveal(dan_toi);
    let vk = vong_khong_ket(s, id, sau, v);
    let s1 = s.sau_vong(v, id, sau).0;
    assert forall|con: Seq<Buoc>, kq: KetQuaInV| #[trigger]
        theo_doi_dung((n - 1) as nat, s1, id, sau, con, kq) implies theo_doi_dung(n0, s0, id, sau, (l + vk) + con, kq) by {
        qua_mot_vong(n, s, id, sau, v, con, kq);
        assert(l + (vk + con) =~= (l + vk) + con);
    }
}

/// Watches one job. Each round reads the spooler, reports what it shows at once, and goes on until the
/// readings settle what became of the job or the time is up; only then is a job taken out that may be.
pub fn theo_doi_job_voi<S: Spooler, B: KenhBao, D: DongHo>(
    mt: &mut MoiTruong<S, B, D>,
    job_id: &str,
    submit_after_epoch_secs: i64,
    nen: TapMa,
) -> (r: KetQuaIn)
    ensures
        noi_tiep(old(mt).vet(), final(mt).vet()),
        theo_doi_dung(
            u64::MAX as nat,
            TheoDoi::dau(nen),
            job_id@,
            submit_after_epoch_secs,
            duoi(old(mt).vet(), final(mt).vet()),
            r@,
        ),
{
    let ghost dau = mt.vet();
    let ghost s0 = TheoDoi::dau(nen);
    let ghost n0 = u64::MAX as nat;
    let ghost id = job_id@;
    let ghost sau = submit_after_epoch_secs;
    let mut s = TheoDoi::moi(nen);
    let mut con_vong: u64 = u64::MAX;
    proof {
        noi_tiep_chinh_no(dau);
        dan_toi_dau(n0, s0, id, sau);
    }
    loop
        invariant
            dau == old(mt).vet(),
            s0 == TheoDoi::dau(nen),
            n0 == u64::MAX as nat,
            id == job_id@,
            sau == submit_after_epoch_secs,
            noi_tiep(dau, mt.vet()),
            dan_toi(n0, s0, id, sau, duoi(dau, mt.vet()), con_vong as nat, s),
        decreases con_vong,
    {
        let ghost a = mt.vet();
        let ghost st = s;
        let vong = mt.doc_vong();
        let ghost b = mt.vet();
        let (k, bao) = s.mot_vong(&vong, job_id, submit_after_epoch_secs);
        mt.bao_het(bao);
        let ghost c = mt.vet();
        if let Some(kl) = k {
            let r = ket_thuc(mt, job_id, kl, &s);
            proof {
                let d = mt.vet();
                vet_vong(a, Buoc::DocVong(vong), b, c, d);
                vong_ket(con_vong as nat, st, id, sau, vong, duoi(c, d), r@);
                noi_hai_doan(dau, a, d);
                hoan_tat(n0, s0, id, sau, duoi(dau, a), con_vong as nat, st, duoi(a, d), r@);
            }
            return r;
        }
        if con_vong == 0 {
            let kl = s.bo.het_gio();
            let r = ket_thuc(mt, job_id, kl, &s);
            proof {
                let d = mt.vet();
                vet_vong(a, Buoc::DocVong(vong), b, c, d);
                vong_het_luot(st, id, sau, vong, duoi(c, d), r@);
                noi_hai_doan(dau, a, d);
                hoan_tat(n0, s0, id, sau, duoi(dau, a), 0, st, duoi(a, d), r@);
            }
            return r;
        }
        let con = mt.con_thoi_gian();
        let ghost d = mt.vet();
        if !con {
            let kl = s.bo.het_gio();
            let r = ket_thuc(mt, job_id, kl, &s);
            proof {
                let e = mt.vet();
                mot_buoc_truoc(c, Buoc::ConThoiGian(false), e);
                vet_vong(a, Buoc::DocVong(vong), b, c, e);
                vong_het_gio(con_vong as nat, st, id, sau, vong, duoi(d, e), r@);
                assert(duoi(a, e) =~= dau_vong(st, id, sau, vong) + seq![Buoc::ConThoiGian(false)] + duoi(d, e));
                noi_hai_doan(dau, a, e);
                hoan_tat(n0, s0, id, sau, duoi(dau, a), con_vong as nat, st, duoi(a, e), r@);
            }
            return r;
        }
        mt.cho(POLL_INTERVAL_MS);
        proof {
            let e = mt.vet();
            noi_tiep_chinh_no(e);
            mot_buoc_truoc(d, Buoc::Cho(POLL_INTERVAL_MS), e);
            mot_buoc_truoc(c, Buoc::ConThoiGian(true), e);
            vet_vong(a, Buoc::DocVong(vong), b, c, e);
            let vk = vong_khong_ket(st, id, sau, vong);
            assert(duoi(c, e) =~= seq![Buoc::ConThoiGian(true), Buoc::Cho(POLL_INTERVAL_MS)]);
            assert(duoi(a, e) =~= vk);
            noi_hai_doan(dau, a, e);
            noi_vong(n0, s0, id, sau, duoi(dau, a), con_vong as nat, st, vong);
        }
        con_vong = con_vong - 1;
    }
}

} // verus!
