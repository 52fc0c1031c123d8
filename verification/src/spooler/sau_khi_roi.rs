//! The printer after a job has left the queue.
use crate::day::dem;
use crate::spooler::bo_suy::cong_mot;
use crate::spooler::kieu::{SO_LAN_DOC_MAY_IN_SAU_KHI_ROI, SO_LAN_USB_KHONG_THAY_IN, SO_LAN_USB_TOI_DA};
use crate::su_co::{self, hon, MaSuCo};
use crate::usb_may_in::TinhTrangUsb;
use vstd::prelude::*;

verus! {

/// What the printer shows after the job has left the queue.
#[derive(Debug, Clone, Copy, PartialEq, Eq, Structural)]
pub enum SauKhiRoi {
    /// Nothing wrong, or a USB printer was seen to finish.
    Sach,
    /// New trouble by the spooler's flags: the job may still be in the printer's memory.
    SuCo(MaSuCo),
    /// Trouble while a USB printer can be asked: the job waits in its memory.
    TrongMayInUsb(MaSuCo),
    /// A USB printer was not seen to finish in time.
    UsbChuaXong,
}

/// What has been read of the printer since the job left.
#[derive(Debug, Clone, Copy, PartialEq, Eq, Structural)]
pub struct BoSauKhiRoi {
    pub so_lan: usize,
    pub da_thay_usb: bool,
    /// The device has said whether it is busy.
    pub co_status: bool,
    pub dang_in: bool,
    pub sach_chua_thay_in: usize,
}

impl BoSauKhiRoi {
    pub open spec fn dau() -> BoSauKhiRoi {
        BoSauKhiRoi { so_lan: 0, da_thay_usb: false, co_status: false, dang_in: false, sach_chua_thay_in: 0 }
    }

    /// What is known after one more reading: `chan_moi` is new trouble that keeps jobs from
    /// printing, `usb` what the device said.
    #[verifier::opaque]
    pub open spec fn sau(self, chan_moi: Option<MaSuCo>, usb: Option<TinhTrangUsb>) -> (BoSauKhiRoi, Option<
        SauKhiRoi,
    >) {
        let a = BoSauKhiRoi {
            so_lan: cong_mot(self.so_lan),
            da_thay_usb: self.da_thay_usb || usb is Some,
            ..self
        };
        if let Some(TinhTrangUsb::Loi(ma)) = usb {
            (
                a,
                Some(
                    SauKhiRoi::TrongMayInUsb(
                        match chan_moi {
                            Some(m) => hon(m, ma),
                            None => ma,
                        },
                    ),
                ),
            )
        } else if let Some(ma) = chan_moi {
            (
                a,
                Some(
                    if a.da_thay_usb {
                        SauKhiRoi::TrongMayInUsb(ma)
                    } else {
                        SauKhiRoi::SuCo(ma)
                    },
                ),
            )
        } else if !a.da_thay_usb {
            (
                a,
                if a.so_lan >= SO_LAN_DOC_MAY_IN_SAU_KHI_ROI {
                    Some(SauKhiRoi::Sach)
                } else {
                    None
                },
            )
        } else {
            let (b, k) = a.sau_usb(usb);
            if k is Some {
                (b, k)
            } else if b.so_lan >= SO_LAN_USB_TOI_DA {
                (b, Some(b.khi_het_gio()))
            } else {
                (b, None)
            }
        }
    }

    /// A reading without trouble of a printer whose device can be asked. A device that has ever said
    /// whether it is busy is done only when it goes from busy to idle; one that never does, after
    /// enough readings without an error.
    pub open spec fn sau_usb(self, usb: Option<TinhTrangUsb>) -> (BoSauKhiRoi, Option<SauKhiRoi>) {
        match usb {
            Some(TinhTrangUsb::DangIn) => (
                BoSauKhiRoi { co_status: true, dang_in: true, sach_chua_thay_in: 0, ..self },
                None,
            ),
            Some(TinhTrangUsb::Ranh) => (
                BoSauKhiRoi { co_status: true, ..self },
                if self.dang_in {
                    Some(SauKhiRoi::Sach)
                } else {
                    None
                },
            ),
            Some(TinhTrangUsb::KhongLoi) => if self.co_status {
                (self, None)
            } else {
                let b = BoSauKhiRoi { sach_chua_thay_in: cong_mot(self.sach_chua_thay_in), ..self };
                (
                    b,
                    if b.sach_chua_thay_in >= SO_LAN_USB_KHONG_THAY_IN {
                        Some(SauKhiRoi::Sach)
                    } else {
                        None
                    },
                )
            },
            _ => (self, None),
        }
    }

    pub fn them(&mut self, chan_moi: Option<MaSuCo>, usb: Option<TinhTrangUsb>) -> (r: Option<SauKhiRoi>)
        ensures
            (*final(self), r) == old(self).sau(chan_moi, usb),
            r is None ==> old(self).so_lan < final(self).so_lan < SO_LAN_USB_TOI_DA,
    {
        proof {
            reveal(BoSauKhiRoi::sau);
        }
        if self.so_lan < usize::MAX {
            self.so_lan = self.so_lan + 1;
        }
        if usb.is_some() {
            self.da_thay_usb = true;
        }
        if let Some(TinhTrangUsb::Loi(ma)) = usb {
            return Some(
                SauKhiRoi::TrongMayInUsb(
                    match chan_moi {
                        Some(m) => su_co::uu_tien_hon(m, ma),
                        None => ma,
                    },
                ),
            );
        }
        if let Some(ma) = chan_moi {
            return Some(
                if self.da_thay_usb {
                    SauKhiRoi::TrongMayInUsb(ma)
                } else {
                    SauKhiRoi::SuCo(ma)
                },
            );
        }
        if !self.da_thay_usb {
            return if self.so_lan >= SO_LAN_DOC_MAY_IN_SAU_KHI_ROI {
                Some(SauKhiRoi::Sach)
            } else {
                None
            };
        }
        match usb {
            Some(TinhTrangUsb::DangIn) => {
                self.co_status = true;
                self.dang_in = true;
                self.sach_chua_thay_in = 0;
            },
            Some(TinhTrangUsb::Ranh) => {
                self.co_status = true;
                if self.dang_in {
                    return Some(SauKhiRoi::Sach);
                }
            },
            Some(TinhTrangUsb::KhongLoi) => {
                if !self.co_status {
                    if self.sach_chua_thay_in < usize::MAX {
                        self.sach_chua_thay_in = self.sach_chua_thay_in + 1;
                    }
                    if self.sach_chua_thay_in >= SO_LAN_USB_KHONG_THAY_IN {
                        return Some(SauKhiRoi::Sach);
                    }
                }
            },
            _ => {},
        }
        if self.so_lan >= SO_LAN_USB_TOI_DA {
            return Some(self.het_gio());
        }
        None
    }

    /// What it amounts to once the time is up.
    pub open spec fn khi_het_gio(self) -> SauKhiRoi {
        if self.da_thay_usb {
            SauKhiRoi::UsbChuaXong
        } else {
            SauKhiRoi::Sach
        }
    }

    pub fn het_gio(&self) -> (r: SauKhiRoi)
        ensures
            r == self.khi_het_gio(),
    {
        if self.da_thay_usb {
            SauKhiRoi::UsbChuaXong
        } else {
            SauKhiRoi::Sach
        }
    }

    /// The device was seen busy since the job left.
    pub fn da_thay_dang_in(&self) -> (r: bool)
        ensures
            r == self.dang_in,
    {
        self.dang_in
    }
}

impl Default for BoSauKhiRoi {
    fn default() -> (r: BoSauKhiRoi)
        ensures
            r == BoSauKhiRoi::dau(),
    {
        BoSauKhiRoi { so_lan: 0, da_thay_usb: false, co_status: false, dang_in: false, sach_chua_thay_in: 0 }
    }
}

/// What is known after a run of readings, up to the first that settles it.
pub open spec fn sau_cac_lan(
    s: BoSauKhiRoi,
    ds: Seq<(Option<MaSuCo>, Option<TinhTrangUsb>)>,
) -> (BoSauKhiRoi, Option<SauKhiRoi>)
    decreases ds.len(),
{
    if ds.len() == 0 {
        (s, None)
    } else {
        let (s1, k) = s.sau(ds[0].0, ds[0].1);
        if k is Some {
            (s1, k)
        } else {
            sau_cac_lan(s1, ds.subrange(1, ds.len() as int))
        }
    }
}

/// A device that says it is idle without ever having been busy has not printed: whatever is read, the
/// job does not count as printed while a device that tells busy from idle was never seen busy.
pub proof fn usb_phai_thay_ban_roi_ranh(s: BoSauKhiRoi, ds: Seq<(Option<MaSuCo>, Option<TinhTrangUsb>)>)
    requires
        s.co_status,
        s.da_thay_usb,
        sau_cac_lan(s, ds).1 == Some(SauKhiRoi::Sach),
    ensures
        s.dang_in || exists|i: int| 0 <= i < ds.len() && (#[trigger] ds[i]).1 == Some(TinhTrangUsb::DangIn),
    decreases ds.len(),
{
    reveal(BoSauKhiRoi::sau);
    if ds.len() > 0 {
        let (s1, k) = s.sau(ds[0].0, ds[0].1);
        let sau = ds.subrange(1, ds.len() as int);
        if k is None && ds[0].1 != Some(TinhTrangUsb::DangIn) {
            usb_phai_thay_ban_roi_ranh(s1, sau);
            if !s1.dang_in {
                let i = choose|i: int| 0 <= i < sau.len() && (#[trigger] sau[i]).1 == Some(TinhTrangUsb::DangIn);
                assert(ds[i + 1].1 == Some(TinhTrangUsb::DangIn));
            }
        }
    }
}

/// One reading more after a run that settled nothing.
proof fn them_mot_lan(
    s: BoSauKhiRoi,
    ds: Seq<(Option<MaSuCo>, Option<TinhTrangUsb>)>,
    x: (Option<MaSuCo>, Option<TinhTrangUsb>),
)
    requires
        sau_cac_lan(s, ds).1 is None,
    ensures
        sau_cac_lan(s, ds.push(x)) == sau_cac_lan(s, ds).0.sau(x.0, x.1),
    decreases ds.len(),
{
    let d = ds.push(x);
    if ds.len() == 0 {
        let (s1, k) = s.sau(x.0, x.1);
        assert(d[0] == x);
        assert(sau_cac_lan(s1, d.subrange(1, d.len() as int)) == (s1, None::<SauKhiRoi>));
    } else {
        let (s1, k) = s.sau(ds[0].0, ds[0].1);
        let sau = ds.subrange(1, ds.len() as int);
        assert(d[0] == ds[0]);
        assert(d.subrange(1, d.len() as int) =~= sau.push(x));
        them_mot_lan(s1, sau, x);
    }
}

/// A device answered in one of the readings.
pub open spec fn tung_co_usb(ds: Seq<(Option<MaSuCo>, Option<TinhTrangUsb>)>) -> bool {
    exists|i: int| 0 <= i < ds.len() && (#[trigger] ds[i]).1 is Some
}

/// A device answered `u` in one of the readings.
pub open spec fn tung_bao(ds: Seq<(Option<MaSuCo>, Option<TinhTrangUsb>)>, u: TinhTrangUsb) -> bool {
    exists|i: int| 0 <= i < ds.len() && (#[trigger] ds[i]).1 == Some(u)
}

/// In how many of the readings a device answered that there is no error, and no more.
pub open spec fn so_khong_loi(ds: Seq<(Option<MaSuCo>, Option<TinhTrangUsb>)>) -> nat {
    dem(ds, |x: (Option<MaSuCo>, Option<TinhTrangUsb>)| x.1 == Some(TinhTrangUsb::KhongLoi))
}

/// What is remembered after readings that settled nothing.
proof fn nho_dung(ds: Seq<(Option<MaSuCo>, Option<TinhTrangUsb>)>)
    requires
        sau_cac_lan(BoSauKhiRoi::dau(), ds).1 is None,
    ensures
        ({
            let s = sau_cac_lan(BoSauKhiRoi::dau(), ds).0;
            &&& s.so_lan == ds.len()
            &&& s.so_lan < SO_LAN_USB_TOI_DA
            &&& s.da_thay_usb == tung_co_usb(ds)
            &&& !s.da_thay_usb ==> s.so_lan < SO_LAN_DOC_MAY_IN_SAU_KHI_ROI
            &&& s.dang_in == tung_bao(ds, TinhTrangUsb::DangIn)
            &&& s.co_status == (tung_bao(ds, TinhTrangUsb::DangIn) || tung_bao(ds, TinhTrangUsb::Ranh))
            &&& !s.co_status ==> s.sach_chua_thay_in == so_khong_loi(ds) && s.sach_chua_thay_in
                < SO_LAN_USB_KHONG_THAY_IN
        }),
    decreases ds.len(),
{
    if ds.len() > 0 {
        let d = ds.drop_last();
        let x = ds.last();
        assert(d.push(x) =~= ds);
        truoc_khong_ket(BoSauKhiRoi::dau(), d, x);
        nho_dung(d);
        them_mot_lan(BoSauKhiRoi::dau(), d, x);
        reveal(BoSauKhiRoi::sau);
        co_usb_them(d, x);
        bao_them(d, x, TinhTrangUsb::DangIn);
        bao_them(d, x, TinhTrangUsb::Ranh);
        assert(ds.drop_last() == d);
    }
}

/// Where a run settles nothing, neither does it without its last reading.
proof fn truoc_khong_ket(
    s: BoSauKhiRoi,
    ds: Seq<(Option<MaSuCo>, Option<TinhTrangUsb>)>,
    x: (Option<MaSuCo>, Option<TinhTrangUsb>),
)
    requires
        sau_cac_lan(s, ds.push(x)).1 is None,
    ensures
        sau_cac_lan(s, ds).1 is None,
    decreases ds.len(),
{
    if ds.len() > 0 {
        let d = ds.push(x);
        let sau = ds.subrange(1, ds.len() as int);
        assert(d[0] == ds[0]);
        assert(d.subrange(1, d.len() as int) =~= sau.push(x));
        truoc_khong_ket(s.sau(ds[0].0, ds[0].1).0, sau, x);
    }
}

proof fn co_usb_them(
    ds: Seq<(Option<MaSuCo>, Option<TinhTrangUsb>)>,
    x: (Option<MaSuCo>, Option<TinhTrangUsb>),
)
    ensures
        tung_co_usb(ds.push(x)) == (tung_co_usb(ds) || x.1 is Some),
{
    let d = ds.push(x);
    if tung_co_usb(ds) {
        let i = choose|i: int| 0 <= i < ds.len() && (#[trigger] ds[i]).1 is Some;
        assert(d[i].1 is Some);
    }
    if x.1 is Some {
        assert(d[ds.len() as int].1 is Some);
    }
    if tung_co_usb(d) {
        let i = choose|i: int| 0 <= i < d.len() && (#[trigger] d[i]).1 is Some;
        if i < ds.len() {
            assert(ds[i].1 is Some);
        }
    }
}

proof fn bao_them(
    ds: Seq<(Option<MaSuCo>, Option<TinhTrangUsb>)>,
    x: (Option<MaSuCo>, Option<TinhTrangUsb>),
    u: TinhTrangUsb,
)
    ensures
        tung_bao(ds.push(x), u) == (tung_bao(ds, u) || x.1 == Some(u)),
{
    let d = ds.push(x);
    if tung_bao(ds, u) {
        let i = choose|i: int| 0 <= i < ds.len() && (#[trigger] ds[i]).1 == Some(u);
        assert(d[i].1 == Some(u));
    }
    if x.1 == Some(u) {
        assert(d[ds.len() as int].1 == Some(u));
    }
    if tung_bao(d, u) {
        let i = choose|i: int| 0 <= i < d.len() && (#[trigger] d[i]).1 == Some(u);
        if i < ds.len() {
            assert(ds[i].1 == Some(u));
        }
    }
}

/// What the readings since the job left amount to, told by the readings alone: the last of a run, where
/// none before it settled anything. Clean is only a printer without new trouble whose device never answered
/// in all readings, or went from busy to idle, or never told either and reported no error often enough. An
/// error of the device means that the job waits in the printer, new trouble means the same where a device
/// ever answered and is reported as it is where none did, and the last reading allowed settles it.
pub proof fn sau_khi_roi_theo_lan_doc(ds: Seq<(Option<MaSuCo>, Option<TinhTrangUsb>)>)
    requires
        ds.len() > 0,
        sau_cac_lan(BoSauKhiRoi::dau(), ds.drop_last()).1 is None,
    ensures
        ({
            let k = sau_cac_lan(BoSauKhiRoi::dau(), ds).1;
            let (c, u) = ds.last();
            &&& k == Some(SauKhiRoi::Sach) <==> c is None && {
                ||| !tung_co_usb(ds) && ds.len() == SO_LAN_DOC_MAY_IN_SAU_KHI_ROI
                ||| u == Some(TinhTrangUsb::Ranh) && tung_bao(ds.drop_last(), TinhTrangUsb::DangIn)
                ||| u == Some(TinhTrangUsb::KhongLoi) && !tung_bao(ds, TinhTrangUsb::DangIn) && !tung_bao(
                    ds,
                    TinhTrangUsb::Ranh,
                ) && so_khong_loi(ds) == SO_LAN_USB_KHONG_THAY_IN
            }
            &&& (u matches Some(TinhTrangUsb::Loi(_))) ==> (k matches Some(SauKhiRoi::TrongMayInUsb(_)))
            &&& c is Some ==> (if tung_co_usb(ds) {
                k matches Some(SauKhiRoi::TrongMayInUsb(_))
            } else {
                k == Some(SauKhiRoi::SuCo(c->0))
            })
            &&& ds.len() == SO_LAN_USB_TOI_DA ==> k is Some
        }),
{
    let d = ds.drop_last();
    let x = ds.last();
    assert(d.push(x) =~= ds);
    nho_dung(d);
    them_mot_lan(BoSauKhiRoi::dau(), d, x);
    reveal(BoSauKhiRoi::sau);
    co_usb_them(d, x);
    bao_them(d, x, TinhTrangUsb::DangIn);
    bao_them(d, x, TinhTrangUsb::Ranh);
}

} // verus!
