//! Keeping the computer from going to sleep while the agent runs.
use vstd::prelude::*;
use vstd::string::*;

verus! {

/// How the computer is kept awake.
#[derive(Debug, Clone, Copy, Default, PartialEq, Eq, Structural)]
pub struct TinhTrang {
    pub dang_giu: bool,
    /// The computer may sleep when its screen goes dark.
    pub modern_standby: bool,
}

/// The words below the switch; empty where nothing need be said.
pub open spec fn giai_thich(bat: bool, tt: TinhTrang, loi: bool) -> Seq<char> {
    if !bat {
        "Máy tính tự ngủ thì app KHÔNG nhận được lệnh in cho tới khi có người đánh thức máy."@
    } else if loi {
        "Windows không cho giữ máy thức — vào Cài đặt nguồn, đặt \"Ngủ: Không bao giờ\" khi cắm điện."@
    } else if tt.modern_standby {
        "Máy này có thể ngủ khi TẮT MÀN HÌNH (Modern Standby) — đặt \"Tắt màn hình: Không bao giờ\" khi cắm điện."@
    } else {
        Seq::empty()
    }
}

pub fn chu_giai_thich(bat: bool, tt: TinhTrang, loi: bool) -> (r: String)
    ensures
        r@ == giai_thich(bat, tt, loi),
{
    if !bat {
        "Máy tính tự ngủ thì app KHÔNG nhận được lệnh in cho tới khi có người đánh thức máy.".to_owned()
    } else if loi {
        "Windows không cho giữ máy thức — vào Cài đặt nguồn, đặt \"Ngủ: Không bao giờ\" khi cắm điện.".to_owned()
    } else if tt.modern_standby {
        "Máy này có thể ngủ khi TẮT MÀN HÌNH (Modern Standby) — đặt \"Tắt màn hình: Không bao giờ\" khi cắm điện.".to_owned()
    } else {
        String::new()
    }
}

/// The state once the switch was set and the system replied: held only where it was asked for and the
/// system agreed.
pub fn tinh_trang_sau(bat: bool, kq: &Result<(), String>, modern_standby: bool) -> (r: TinhTrang)
    ensures
        r == (TinhTrang { dang_giu: bat && kq is Ok, modern_standby }),
{
    TinhTrang { dang_giu: bat && kq.is_ok(), modern_standby }
}

/// The line in the log.
pub fn dong_nhat_ky(tt: TinhTrang, cach: &str, kq: &Result<(), String>) -> (r: String)
    ensures
        r@ == (if tt.dang_giu {
            "bat"@
        } else {
            "tat"@
        }) + " cach="@ + cach@ + " modern_standby="@ + (if tt.modern_standby {
            "co"@
        } else {
            "khong"@
        }) + (match kq {
            Ok(_) => Seq::<char>::empty(),
            Err(e) => " loi="@ + e@,
        }),
{
    let mut s = if tt.dang_giu {
        "bat".to_owned()
    } else {
        "tat".to_owned()
    };
    s.append(" cach=");
    s.append(cach);
    s.append(" modern_standby=");
    s.append(
        if tt.modern_standby {
            "co"
        } else {
            "khong"
        },
    );
    match kq {
        Ok(_) => {
            assert(s@ + Seq::<char>::empty() =~= s@);
        },
        Err(e) => {
            let mut t = " loi=".to_owned();
            t.append(e.as_str());
            s.append(t.as_str());
        },
    }
    s
}

/// Nothing is said exactly where the switch is on, the system agreed and the computer does not sleep with its
/// screen; the switch off goes before an error, and an error before the screen.
pub proof fn giai_thich_khi_nao(bat: bool, tt: TinhTrang, loi: bool)
    ensures
        !bat ==> giai_thich(bat, tt, loi)
            == "Máy tính tự ngủ thì app KHÔNG nhận được lệnh in cho tới khi có người đánh thức máy."@,
        bat && loi ==> giai_thich(bat, tt, loi)
            == "Windows không cho giữ máy thức — vào Cài đặt nguồn, đặt \"Ngủ: Không bao giờ\" khi cắm điện."@,
        bat && !loi && tt.modern_standby ==> giai_thich(bat, tt, loi)
            == "Máy này có thể ngủ khi TẮT MÀN HÌNH (Modern Standby) — đặt \"Tắt màn hình: Không bao giờ\" khi cắm điện."@,
        bat && !loi && !tt.modern_standby ==> giai_thich(bat, tt, loi).len() == 0,
{
}

/// The computer is kept awake exactly where the switch is on and the system agreed.
pub proof fn giu_thuc_khi_nao(bat: bool, kq: &Result<(), String>, modern_standby: bool, r: TinhTrang)
    requires
        call_ensures(tinh_trang_sau, (bat, kq, modern_standby), r),
    ensures
        r.dang_giu <==> bat && *kq is Ok,
        r.modern_standby == modern_standby,
{
}

} // verus!
