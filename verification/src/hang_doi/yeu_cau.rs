//! One request to the server about an invoice, asked until the answer is certain or the time is up.
use crate::bao_cao::{doc_ket_qua_huy, ket_qua_huy_cua};
use crate::chu;
use crate::gia_tri::{cac_truong, them_truong, GiaTri, Gt};
use crate::hang_doi::{KetCuc, KetCucV, LoaiViec, SO_LAN_GUI_TOI_DA};
use crate::hop_thu_di::{CanHoTro, LoiGuiAck, LoiGuiAckV};
use vstd::prelude::*;

verus! {

/// How long a reply is waited for, in milliseconds.
pub const CHO_ACK_MS: u64 = 20_000;

/// How long the request is repeated at most.
pub const HAN_HOI_LAI_MS: u64 = 60_000;

/// The pause between two tries.
pub const NGHI_HOI_LAI_MS: u64 = 3_000;

/// What a request needs of the outside.
pub trait KenhYeuCau {
    /// Whether the request is still wanted.
    fn con_tiep(&mut self) -> bool;

    /// The number of the try, and how many requests have left.
    fn bao_lan(&mut self, lan: u32, da_gui: u32);

    /// Sends over the present connection and waits for the reply.
    fn gui_ack_ro(&mut self, su_kien: &'static str, gia_tri: GiaTri, can: CanHoTro, cho_ms: u64) -> Result<
        GiaTri,
        LoiGuiAck,
    >;

    /// Waits so many milliseconds.
    fn ngu(&mut self, ms: u64);

    /// Milliseconds on a clock that never goes back.
    fn bay_gio_ms(&mut self) -> u64;
}

/// One exchange with the outside.
pub ghost enum BuocYc {
    ConTiep(bool),
    BaoLan(u32, u32),
    Gui { su_kien: Seq<char>, gia_tri: Gt, can: CanHoTro, cho_ms: u64, tra_loi: Result<Gt, LoiGuiAckV> },
    Ngu(u64),
    BayGio(u64),
}

/// The outside, reached only through methods that write down every exchange.
pub struct KenhCoVet<K> {
    kenh: K,
    vet: Ghost<Seq<BuocYc>>,
}

impl<K: KenhYeuCau> KenhCoVet<K> {
    /// Every exchange so far.
    pub closed spec fn vet(&self) -> Seq<BuocYc> {
        self.vet@
    }

    /// The outside itself.
    pub closed spec fn ngoai(&self) -> K {
        self.kenh
    }

    pub fn moi(kenh: K) -> (r: KenhCoVet<K>)
        ensures
            r.ngoai() == kenh,
            r.vet() == Seq::<BuocYc>::empty(),
    {
        KenhCoVet { kenh, vet: Ghost(Seq::empty()) }
    }

    /// Gives the outside back.
    pub fn tra_lai(self) -> (r: K)
        ensures
            r == self.ngoai(),
    {
        self.kenh
    }

    fn con_tiep(&mut self) -> (r: bool)
        ensures
            final(self).vet() == old(self).vet().push(BuocYc::ConTiep(r)),
    {
        let r = self.kenh.con_tiep();
        self.vet = Ghost(self.vet@.push(BuocYc::ConTiep(r)));
        r
    }

    fn bao_lan(&mut self, lan: u32, da_gui: u32)
        ensures
            final(self).vet() == old(self).vet().push(BuocYc::BaoLan(lan, da_gui)),
    {
        self.kenh.bao_lan(lan, da_gui);
        self.vet = Ghost(self.vet@.push(BuocYc::BaoLan(lan, da_gui)));
    }

    fn gui(&mut self, su_kien: &'static str, gia_tri: GiaTri, can: CanHoTro, cho_ms: u64) -> (r: Result<
        GiaTri,
        LoiGuiAck,
    >)
        ensures
            final(self).vet() == old(self).vet().push(
                BuocYc::Gui { su_kien: su_kien@, gia_tri: gia_tri@, can, cho_ms, tra_loi: tra_loi_view(r) },
            ),
    {
        let ghost gv = gia_tri@;
        let r = self.kenh.gui_ack_ro(su_kien, gia_tri, can, cho_ms);
        self.vet = Ghost(
            self.vet@.push(BuocYc::Gui { su_kien: su_kien@, gia_tri: gv, can, cho_ms, tra_loi: tra_loi_view(r) }),
        );
        r
    }

    fn ngu(&mut self, ms: u64)
        ensures
            final(self).vet() == old(self).vet().push(BuocYc::Ngu(ms)),
    {
        self.kenh.ngu(ms);
        self.vet = Ghost(self.vet@.push(BuocYc::Ngu(ms)));
    }

    fn bay_gio_ms(&mut self) -> (r: u64)
        ensures
            final(self).vet() == old(self).vet().push(BuocYc::BayGio(r)),
    {
        let r = self.kenh.bay_gio_ms();
        self.vet = Ghost(self.vet@.push(BuocYc::BayGio(r)));
        r
    }
}

/// The view of a reply.
pub open spec fn tra_loi_view(r: Result<GiaTri, LoiGuiAck>) -> Result<Gt, LoiGuiAckV> {
    match r {
        Ok(g) => Ok(g@),
        Err(e) => Err(e@),
    }
}

/// What a reply means: an end, or a reason to ask again and whether the request has left.
pub ghost enum PhanXu {
    Xong(KetCucV),
    HoiLai { da_roi: bool, ly_do: Seq<char> },
}

/// A reply counts only where it names the very invoice that was asked about.
pub open spec fn phan_xu(tra_loi: Result<Gt, LoiGuiAckV>, id: Seq<char>) -> PhanXu {
    match tra_loi {
        Ok(g) => match ket_qua_huy_cua(g) {
            Some(kq) => if kq.id == id {
                if kq.ok {
                    PhanXu::Xong(KetCucV::Duoc { cach: kq.cach, noi_dung: kq.noi_dung })
                } else {
                    PhanXu::Xong(KetCucV::KhongDuoc { loi: kq.loi, noi_dung: kq.noi_dung })
                }
            } else {
                PhanXu::HoiLai { da_roi: true, ly_do: "tra loi khong dung hoa don"@ }
            },
            None => PhanXu::HoiLai { da_roi: true, ly_do: "tra loi khong dung hoa don"@ },
        },
        Err(LoiGuiAckV::ChuaGui(e)) => PhanXu::HoiLai { da_roi: false, ly_do: e },
        Err(LoiGuiAckV::SauKhiGui(e)) => PhanXu::HoiLai { da_roi: true, ly_do: e },
    }
}

/// The end without an answer: open where a request has left, else certainly nothing done.
pub open spec fn khong_tra_loi(da_gui: nat, ly_do: Seq<char>) -> KetCucV {
    if da_gui > 0 {
        KetCucV::ChuaRo { ly_do }
    } else {
        KetCucV::ChuaGui { ly_do }
    }
}

/// The message of a request.
pub open spec fn noi_dung_yeu_cau(id: Seq<char>) -> Gt {
    Gt::DoiTuong(seq![("printJobId"@, Gt::Chuoi(id))])
}

/// How far a request has come: tries made, requests that left, and the latest reason.
pub ghost struct TienDo {
    pub lan: nat,
    pub da_gui: nat,
    pub ly_do: Seq<char>,
}

/// The exchanges from one try on, and the end they come to.
pub open spec fn yeu_cau_dung(
    loai: LoaiViec,
    id: Seq<char>,
    t0: u64,
    td: TienDo,
    l: Seq<BuocYc>,
    kc: KetCucV,
) -> bool
    decreases l.len(),
{
    l.len() >= 1 && match l[0] {
        BuocYc::ConTiep(con) => if !con {
            l.len() == 1 && kc == khong_tra_loi(td.da_gui, td.ly_do)
        } else {
            l.len() >= 3 && l[1] == BuocYc::BaoLan((td.lan + 1) as u32, td.da_gui as u32) && match l[2] {
                BuocYc::Gui { su_kien, gia_tri, can, cho_ms, tra_loi } => {
                    &&& su_kien == loai.ten_su_kien()
                    &&& gia_tri == noi_dung_yeu_cau(id)
                    &&& can == CanHoTro::HangDoi
                    &&& cho_ms == CHO_ACK_MS
                    &&& match phan_xu(tra_loi, id) {
                        PhanXu::Xong(k) => l.len() == 3 && kc == k,
                        PhanXu::HoiLai { da_roi, ly_do } => {
                            let moi = TienDo {
                                lan: td.lan + 1,
                                da_gui: td.da_gui + (if da_roi {
                                    1nat
                                } else {
                                    0nat
                                }),
                                ly_do,
                            };
                            if moi.da_gui >= SO_LAN_GUI_TOI_DA {
                                l.len() == 3 && kc == khong_tra_loi(moi.da_gui, moi.ly_do)
                            } else {
                                l.len() >= 4 && match l[3] {
                                    BuocYc::BayGio(t) => if t + NGHI_HOI_LAI_MS >= t0 + HAN_HOI_LAI_MS || moi.lan
                                        >= u32::MAX {
                                        l.len() == 4 && kc == khong_tra_loi(moi.da_gui, moi.ly_do)
                                    } else {
                                        l.len() >= 5 && l[4] == BuocYc::Ngu(NGHI_HOI_LAI_MS) && yeu_cau_dung(
                                            loai,
                                            id,
                                            t0,
                                            moi,
                                            l.subrange(5, l.len() as int),
                                            kc,
                                        )
                                    },
                                    _ => false,
                                }
                            }
                        },
                    }
                },
                _ => false,
            }
        },
        _ => false,
    }
}

/// The start of a request.
pub open spec fn bat_dau_yeu_cau() -> TienDo {
    TienDo { lan: 0, da_gui: 0, ly_do: "da thoi yeu cau"@ }
}

/// The exchanges of a whole request, and the end they come to.
pub open spec fn ca_yeu_cau_dung(loai: LoaiViec, id: Seq<char>, l: Seq<BuocYc>, kc: KetCucV) -> bool {
    l.len() >= 1 && match l[0] {
        BuocYc::BayGio(t0) => yeu_cau_dung(loai, id, t0, bat_dau_yeu_cau(), l.subrange(1, l.len() as int), kc),
        _ => false,
    }
}

/// Whatever completes the request from `td` completes, behind `l`, that from `td0`.
spec fn dan_toi(loai: LoaiViec, id: Seq<char>, t0: u64, td0: TienDo, l: Seq<BuocYc>, td: TienDo) -> bool {
    forall|con: Seq<BuocYc>, kc: KetCucV| #[trigger]
        yeu_cau_dung(loai, id, t0, td, con, kc) ==> yeu_cau_dung(loai, id, t0, td0, l + con, kc)
}

/// The exchanges of a try after which the server is asked again.
spec fn mot_lan(loai: LoaiViec, id: Seq<char>, td: TienDo, tra_loi: Result<Gt, LoiGuiAckV>, t: u64) -> Seq<BuocYc> {
    seq![
        BuocYc::ConTiep(true),
        BuocYc::BaoLan((td.lan + 1) as u32, td.da_gui as u32),
        BuocYc::Gui {
            su_kien: loai.ten_su_kien(),
            gia_tri: noi_dung_yeu_cau(id),
            can: CanHoTro::HangDoi,
            cho_ms: CHO_ACK_MS,
            tra_loi,
        },
        BuocYc::BayGio(t),
        BuocYc::Ngu(NGHI_HOI_LAI_MS),
    ]
}

proof fn noi_mot_lan(
    loai: LoaiViec,
    id: Seq<char>,
    t0: u64,
    td0: TienDo,
    l: Seq<BuocYc>,
    td: TienDo,
    tra_loi: Result<Gt, LoiGuiAckV>,
    t: u64,
    moi: TienDo,
)
    requires
        dan_toi(loai, id, t0, td0, l, td),
        phan_xu(tra_loi, id) matches PhanXu::HoiLai { da_roi, ly_do } && moi == (TienDo {
            lan: td.lan + 1,
            da_gui: td.da_gui + (if da_roi {
                1nat
            } else {
                0nat
            }),
            ly_do,
        }),
        moi.da_gui < SO_LAN_GUI_TOI_DA,
        !(t + NGHI_HOI_LAI_MS >= t0 + HAN_HOI_LAI_MS),
        moi.lan < u32::MAX,
    ensures
        dan_toi(loai, id, t0, td0, l + mot_lan(loai, id, td, tra_loi, t), moi),
{
    let ml = mot_lan(loai, id, td, tra_loi, t);
    assert forall|con: Seq<BuocYc>, kc: KetCucV| #[trigger]
        yeu_cau_dung(loai, id, t0, moi, con, kc) implies yeu_cau_dung(loai, id, t0, td0, (l + ml) + con, kc) by {
        let x = ml + con;
        assert(x.subrange(5, x.len() as int) =~= con);
        assert(yeu_cau_dung(loai, id, t0, td, x, kc));
        assert(l + x =~= (l + ml) + con);
    }
}

/// Asks the server about an invoice. Asking again is safe, so a try without an answer is repeated until
/// enough requests have left or the time is up.
pub fn gui_yeu_cau<K: KenhYeuCau>(kenh: &mut KenhCoVet<K>, loai: LoaiViec, id: &str) -> (r: KetCuc)
    ensures
        final(kenh).vet().len() >= old(kenh).vet().len(),
        final(kenh).vet().subrange(0, old(kenh).vet().len() as int) == old(kenh).vet(),
        ca_yeu_cau_dung(
            loai,
            id@,
            final(kenh).vet().subrange(old(kenh).vet().len() as int, final(kenh).vet().len() as int),
            r@,
        ),
{
    let ghost dau = kenh.vet();
    let t0 = kenh.bay_gio_ms();
    let ghost td0 = bat_dau_yeu_cau();
    let ghost mut td = td0;
    let ghost mut l = Seq::<BuocYc>::empty();
    let mut lan: u32 = 0;
    let mut da_gui: u32 = 0;
    let mut ly_do = "da thoi yeu cau".to_owned();
    let ghost goc = dau.push(BuocYc::BayGio(t0));
    proof {
        assert(kenh.vet() =~= goc + l);
        assert forall|con: Seq<BuocYc>, kc: KetCucV| #[trigger]
            yeu_cau_dung(loai, id@, t0, td0, con, kc) implies yeu_cau_dung(loai, id@, t0, td0, l + con, kc) by {
            assert(l + con =~= con);
        }
    }
    loop
        invariant
            dau == old(kenh).vet(),
            goc == dau.push(BuocYc::BayGio(t0)),
            td0 == bat_dau_yeu_cau(),
            kenh.vet() == goc + l,
            td == (TienDo { lan: lan as nat, da_gui: da_gui as nat, ly_do: ly_do@ }),
            da_gui < SO_LAN_GUI_TOI_DA,
            lan < u32::MAX,
            dan_toi(loai, id@, t0, td0, l, td),
        decreases u32::MAX - lan,
    {
        let ghost g0 = kenh.vet();
        if !kenh.con_tiep() {
            let r = khong_co_tra_loi(da_gui, ly_do);
            proof {
                let con = seq![BuocYc::ConTiep(false)];
                assert(kenh.vet() =~= g0 + con);
                assert(yeu_cau_dung(loai, id@, t0, td, con, r@));
                chot(dau, t0, l, con, kenh.vet());
            }
            return r;
        }
        lan = lan + 1;
        kenh.bao_lan(lan, da_gui);
        let mut v: Vec<(String, GiaTri)> = Vec::new();
        them_truong(&mut v, "printJobId", GiaTri::tu_chu(id));
        assert(cac_truong(v@) =~= seq![("printJobId"@, Gt::Chuoi(id@))]);
        let tl = kenh.gui(loai.su_kien(), GiaTri::doi_tuong(v), CanHoTro::HangDoi, CHO_ACK_MS);
        let ghost tlv = tra_loi_view(tl);
        let ghost b3 = seq![
            BuocYc::ConTiep(true),
            BuocYc::BaoLan(lan, da_gui),
            BuocYc::Gui {
                su_kien: loai.ten_su_kien(),
                gia_tri: noi_dung_yeu_cau(id@),
                can: CanHoTro::HangDoi,
                cho_ms: CHO_ACK_MS,
                tra_loi: tlv,
            },
        ];
        assert(kenh.vet() =~= g0 + b3);
        match tl {
            Ok(g) => {
                match doc_ket_qua_huy(&g) {
                    Some(kq) => {
                        if chu::bang(kq.id.as_str(), id) {
                            let r = if kq.ok {
                                KetCuc::Duoc { cach: kq.cach, noi_dung: kq.noi_dung }
                            } else {
                                KetCuc::KhongDuoc { loi: kq.loi, noi_dung: kq.noi_dung }
                            };
                            proof {
                                assert(yeu_cau_dung(loai, id@, t0, td, b3, r@));
                                chot(dau, t0, l, b3, kenh.vet());
                            }
                            return r;
                        }
                    },
                    None => {},
                }
                da_gui = da_gui + 1;
                ly_do = "tra loi khong dung hoa don".to_owned();
            },
            Err(LoiGuiAck::ChuaGui(e)) => {
                ly_do = e;
            },
            Err(LoiGuiAck::SauKhiGui(e)) => {
                da_gui = da_gui + 1;
                ly_do = e;
            },
        }
        let ghost moi = TienDo { lan: lan as nat, da_gui: da_gui as nat, ly_do: ly_do@ };
        if da_gui >= SO_LAN_GUI_TOI_DA {
            let r = khong_co_tra_loi(da_gui, ly_do);
            proof {
                assert(yeu_cau_dung(loai, id@, t0, td, b3, r@));
                chot(dau, t0, l, b3, kenh.vet());
            }
            return r;
        }
        let t = kenh.bay_gio_ms();
        if t as u128 + NGHI_HOI_LAI_MS as u128 >= t0 as u128 + HAN_HOI_LAI_MS as u128 || lan == u32::MAX {
            let r = khong_co_tra_loi(da_gui, ly_do);
            proof {
                let b4 = b3.push(BuocYc::BayGio(t));
                assert(yeu_cau_dung(loai, id@, t0, td, b4, r@));
                assert(kenh.vet() =~= g0 + b4);
                chot(dau, t0, l, b4, kenh.vet());
            }
            return r;
        }
        kenh.ngu(NGHI_HOI_LAI_MS);
        proof {
            let ml = mot_lan(loai, id@, td, tlv, t);
            assert(kenh.vet() =~= g0 + ml);
            noi_mot_lan(loai, id@, t0, td0, l, td, tlv, t, moi);
            assert(goc + (l + ml) =~= (goc + l) + ml);
            l = l + ml;
            td = moi;
        }
    }
}

/// A trace that ends with `con`, taken apart at where the request began.
proof fn chot(dau: Seq<BuocYc>, t0: u64, l: Seq<BuocYc>, con: Seq<BuocYc>, vet: Seq<BuocYc>)
    requires
        vet == (dau.push(BuocYc::BayGio(t0)) + l) + con,
    ensures
        vet.len() >= dau.len(),
        vet.subrange(0, dau.len() as int) == dau,
        vet.subrange(dau.len() as int, vet.len() as int) == seq![BuocYc::BayGio(t0)] + (l + con),
        (seq![BuocYc::BayGio(t0)] + (l + con)).subrange(1, 1 + (l + con).len() as int) == l + con,
{
    assert(vet.subrange(0, dau.len() as int) =~= dau);
    assert(vet.subrange(dau.len() as int, vet.len() as int) =~= seq![BuocYc::BayGio(t0)] + (l + con));
    assert((seq![BuocYc::BayGio(t0)] + (l + con)).subrange(1, 1 + (l + con).len() as int) =~= l + con);
}

fn khong_co_tra_loi(da_gui: u32, ly_do: String) -> (r: KetCuc)
    ensures
        r@ == khong_tra_loi(da_gui as nat, ly_do@),
{
    if da_gui > 0 {
        KetCuc::ChuaRo { ly_do }
    } else {
        KetCuc::ChuaGui { ly_do }
    }
}

/// The exchange is a request whose reply says yes for the very invoice.
pub open spec fn server_noi_duoc(b: BuocYc, id: Seq<char>) -> bool {
    b matches BuocYc::Gui { su_kien, gia_tri, can, cho_ms, tra_loi } && tra_loi matches Ok(g) && ket_qua_huy_cua(g) matches
        Some(kq) && kq.id == id && kq.ok
}

/// The exchange is a request that may have left the computer.
pub open spec fn da_roi_may(b: BuocYc) -> bool {
    b matches BuocYc::Gui { su_kien, gia_tri, can, cho_ms, tra_loi } && !(tra_loi matches Err(LoiGuiAckV::ChuaGui(e)))
}

/// "Done" is only ever told where the server said so, for this very invoice.
pub proof fn duoc_chi_khi_server_noi(
    loai: LoaiViec,
    id: Seq<char>,
    t0: u64,
    td: TienDo,
    l: Seq<BuocYc>,
    kc: KetCucV,
)
    requires
        yeu_cau_dung(loai, id, t0, td, l, kc),
        kc is Duoc,
    ensures
        exists|k: int| 0 <= k < l.len() && server_noi_duoc(#[trigger] l[k], id),
    decreases l.len(),
{
    let tra_loi = l[2]->tra_loi;
    match phan_xu(tra_loi, id) {
        PhanXu::Xong(k) => {
            assert(server_noi_duoc(l[2], id));
        },
        PhanXu::HoiLai { da_roi, ly_do } => {
            let moi = TienDo {
                lan: td.lan + 1,
                da_gui: td.da_gui + (if da_roi {
                    1nat
                } else {
                    0nat
                }),
                ly_do,
            };
            let sau = l.subrange(5, l.len() as int);
            duoc_chi_khi_server_noi(loai, id, t0, moi, sau, kc);
            let k = choose|k: int| 0 <= k < sau.len() && server_noi_duoc(#[trigger] sau[k], id);
            assert(l[k + 5] == sau[k]);
        },
    }
}

/// "Nothing done" is only ever told where no request has left the computer.
pub proof fn chua_gui_la_chua_roi_may(
    loai: LoaiViec,
    id: Seq<char>,
    t0: u64,
    td: TienDo,
    l: Seq<BuocYc>,
    kc: KetCucV,
)
    requires
        yeu_cau_dung(loai, id, t0, td, l, kc),
        kc is ChuaGui,
    ensures
        td.da_gui == 0,
        forall|k: int| 0 <= k < l.len() ==> !da_roi_may(#[trigger] l[k]),
    decreases l.len(),
{
    if l[0] == BuocYc::ConTiep(true) {
        let tra_loi = l[2]->tra_loi;
        match phan_xu(tra_loi, id) {
            PhanXu::Xong(k) => {},
            PhanXu::HoiLai { da_roi, ly_do } => {
                let moi = TienDo {
                    lan: td.lan + 1,
                    da_gui: td.da_gui + (if da_roi {
                        1nat
                    } else {
                        0nat
                    }),
                    ly_do,
                };
                if l.len() >= 5 {
                    let sau = l.subrange(5, l.len() as int);
                    chua_gui_la_chua_roi_may(loai, id, t0, moi, sau, kc);
                    assert forall|k: int| 0 <= k < l.len() implies !da_roi_may(#[trigger] l[k]) by {
                        if k >= 5 {
                            assert(sau[k - 5] == l[k]);
                        }
                    }
                }
            },
        }
    }
}

} // verus!
