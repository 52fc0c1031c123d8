//! Everything that goes to the server: over the present connection, or into a box until there is one.
use crate::bao_cao::HoTro;
use crate::chu;
use crate::day::{self, giu, giu_them_dau, xem, xem_co};
use crate::gia_tri::{GiaTri, Gt};
use crate::hop_thu_di::cong::{BuocGui, CongCoVet};
use crate::job::{KetQua, KetQuaV, KHONG_RO};
use vstd::prelude::*;

pub mod cong;
pub mod luat;

verus! {

/// At most so many letters wait.
pub const TRAN_HOP_THU: usize = 200;

/// A connection that says nothing of what it understands for so long, in milliseconds, belongs to an
/// old server.
pub const CHO_CAU_HINH_MS: u64 = 10_000;

/// What a server must understand for a letter to be sent to it.
#[derive(Debug, Clone, Copy, PartialEq, Eq, Structural)]
pub enum CanHoTro {
    /// Every server understands it.
    KhongCan,
    /// An open outcome, or a late confirmation of one.
    KhongRo,
    SuCo,
    TrangThaiMayIn,
    NhatKyApp,
    HangDoi,
}

impl CanHoTro {
    pub open spec fn duoc(self, h: HoTro) -> bool {
        match self {
            CanHoTro::KhongCan => true,
            CanHoTro::KhongRo => h.khong_ro,
            CanHoTro::SuCo => h.su_co,
            CanHoTro::TrangThaiMayIn => h.trang_thai_may_in,
            CanHoTro::NhatKyApp => h.nhat_ky_app,
            CanHoTro::HangDoi => h.hang_doi,
        }
    }

    pub fn duoc_gui(self, h: HoTro) -> (r: bool)
        ensures
            r == self.duoc(h),
    {
        match self {
            CanHoTro::KhongCan => true,
            CanHoTro::KhongRo => h.khong_ro,
            CanHoTro::SuCo => h.su_co,
            CanHoTro::TrangThaiMayIn => h.trang_thai_may_in,
            CanHoTro::NhatKyApp => h.nhat_ky_app,
            CanHoTro::HangDoi => h.hang_doi,
        }
    }

    /// An open outcome needs a server that knows of such; the others do not.
    pub open spec fn can_cua(kq: KetQuaV) -> CanHoTro {
        if kq.trang_thai == KHONG_RO@ {
            CanHoTro::KhongRo
        } else {
            CanHoTro::KhongCan
        }
    }

    pub fn cua_ket_qua(kq: &KetQua) -> (r: CanHoTro)
        ensures
            r == CanHoTro::can_cua(kq@),
    {
        if chu::bang(kq.trang_thai.as_str(), KHONG_RO) {
            CanHoTro::KhongRo
        } else {
            CanHoTro::KhongCan
        }
    }
}

/// A letter to the server.
#[derive(Debug, PartialEq, Eq)]
pub struct ThuDi {
    pub su_kien: &'static str,
    pub gia_tri: GiaTri,
    pub can: CanHoTro,
}

pub ghost struct ThuV {
    pub su_kien: Seq<char>,
    pub gia_tri: Gt,
    pub can: CanHoTro,
}

impl View for ThuDi {
    type V = ThuV;

    open spec fn view(&self) -> ThuV {
        ThuV { su_kien: self.su_kien@, gia_tri: self.gia_tri@, can: self.can }
    }
}

/// What became of a letter.
#[derive(Debug, Clone, Copy, PartialEq, Eq, Structural)]
pub enum KetQuaGui {
    /// Sent over the present connection.
    Co,
    /// Put in the box.
    XepHang,
    /// Not sent: the server does not understand it.
    Bo,
}

impl KetQuaGui {
    /// The word for it in the log.
    pub fn chu(self) -> (r: &'static str)
        ensures
            r@ == (match self {
                KetQuaGui::Co => "co"@,
                KetQuaGui::XepHang => "xep_hang"@,
                KetQuaGui::Bo => "bo"@,
            }),
    {
        match self {
            KetQuaGui::Co => "co",
            KetQuaGui::XepHang => "xep_hang",
            KetQuaGui::Bo => "bo",
        }
    }
}

/// What to do with a letter.
#[derive(Debug, Clone, Copy, PartialEq, Eq, Structural)]
pub enum QuyetGui {
    GuiNgay,
    XepHang,
    Bo,
}

/// What to do with a letter, by the state of the connection. Until the server has said what it
/// understands, only what every server understands is sent.
pub open spec fn quyet(co_ket_noi: bool, ho_tro: Option<HoTro>, can: CanHoTro) -> QuyetGui {
    if !co_ket_noi {
        QuyetGui::XepHang
    } else {
        match ho_tro {
            None => if can == CanHoTro::KhongCan {
                QuyetGui::GuiNgay
            } else {
                QuyetGui::XepHang
            },
            Some(h) => if can.duoc(h) {
                QuyetGui::GuiNgay
            } else {
                QuyetGui::Bo
            },
        }
    }
}

pub fn quyet_gui(co_ket_noi: bool, ho_tro: Option<HoTro>, can: CanHoTro) -> (r: QuyetGui)
    ensures
        r == quyet(co_ket_noi, ho_tro, can),
{
    if !co_ket_noi {
        return QuyetGui::XepHang;
    }
    match ho_tro {
        None => if can == CanHoTro::KhongCan {
            QuyetGui::GuiNgay
        } else {
            QuyetGui::XepHang
        },
        Some(h) => if can.duoc_gui(h) {
            QuyetGui::GuiNgay
        } else {
            QuyetGui::Bo
        },
    }
}

/// The box of letters that wait for a connection, oldest first.
#[derive(Debug)]
pub struct HopThuDi {
    ds: Vec<ThuDi>,
}

impl View for HopThuDi {
    type V = Seq<ThuV>;

    closed spec fn view(&self) -> Seq<ThuV> {
        xem(self.ds@)
    }
}

pub open spec fn la_trang_thai(t: ThuV) -> bool {
    t.su_kien == "trang-thai-may-in"@
}

/// The box with one letter more: a newer state of the printer takes the place of an older one.
pub open spec fn them_thu(ds: Seq<ThuV>, thu: ThuV) -> Seq<ThuV> {
    if la_trang_thai(thu) {
        giu(ds, |t: ThuV| !la_trang_thai(t)).push(thu)
    } else {
        ds.push(thu)
    }
}

/// The newest letters of a box, as many as it holds.
pub open spec fn cat_tran(ds: Seq<ThuV>) -> Seq<ThuV> {
    if ds.len() > TRAN_HOP_THU {
        ds.subrange(ds.len() - TRAN_HOP_THU, ds.len() as int)
    } else {
        ds
    }
}

impl Default for HopThuDi {
    fn default() -> (r: HopThuDi)
        ensures
            r.hop_le(),
            r@ == Seq::<ThuV>::empty(),
    {
        HopThuDi::moi()
    }
}

impl HopThuDi {
    /// The box holds no more than it may.
    pub closed spec fn hop_le(&self) -> bool {
        self.ds@.len() <= TRAN_HOP_THU
    }

    pub proof fn hop_le_la_tran(&self)
        ensures
            self.hop_le() <==> self@.len() <= TRAN_HOP_THU,
    {
    }

    pub fn moi() -> (r: HopThuDi)
        ensures
            r.hop_le(),
            r@ == Seq::<ThuV>::empty(),
    {
        let r = HopThuDi { ds: Vec::new() };
        assert(r@ =~= Seq::<ThuV>::empty());
        r
    }

    /// Puts a letter in; gives back the oldest one where that is one too many.
    pub fn cat(&mut self, thu: ThuDi) -> (r: Option<ThuDi>)
        requires
            old(self).hop_le(),
        ensures
            final(self).hop_le(),
            final(self)@ == cat_tran(them_thu(old(self)@, thu@)),
            r is Some <==> them_thu(old(self)@, thu@).len() > TRAN_HOP_THU,
            r matches Some(t) ==> t@ == them_thu(old(self)@, thu@)[0],
    {
        let ghost dau = self@;
        proof {
            day::giu_dung(dau, |t: ThuV| !la_trang_thai(t));
        }
        if chu::bang(thu.su_kien, "trang-thai-may-in") {
            let mut b: Vec<bool> = Vec::new();
            let mut i: usize = 0;
            while i < self.ds.len()
                invariant
                    i <= self.ds@.len(),
                    b@.len() == i,
                    forall|k: int| 0 <= k < i ==> #[trigger] b@[k] == !la_trang_thai(self.ds@[k]@),
                decreases self.ds@.len() - i,
            {
                b.push(!chu::bang(self.ds[i].su_kien, "trang-thai-may-in"));
                i = i + 1;
            }
            day::giu_lai(&mut self.ds, &b, Ghost(|t: ThuV| !la_trang_thai(t)));
        }
        let ghost truoc = self.ds@;
        self.ds.push(thu);
        assert(xem(self.ds@) =~= xem(truoc).push(thu@));
        assert(self@ =~= them_thu(dau, thu@));
        if self.ds.len() > TRAN_HOP_THU {
            let ghost day_du = self.ds@;
            let bo = self.ds.remove(0);
            assert(xem(self.ds@) =~= xem(day_du).subrange(1, day_du.len() as int));
            Some(bo)
        } else {
            None
        }
    }

    /// Puts letters back at the front, in their old order; gives back the oldest where they are too
    /// many.
    pub fn tra_ve_dau(&mut self, thu: Vec<ThuDi>) -> (r: Vec<ThuDi>)
        requires
            old(self).hop_le(),
        ensures
            final(self).hop_le(),
            final(self)@ == cat_tran(xem(thu@) + old(self)@),
            xem(r@) + final(self)@ == xem(thu@) + old(self)@,
    {
        let ghost dau = self.ds@;
        let ghost tx = thu@;
        let mut ds = thu;
        ds.append(&mut self.ds);
        let ghost tat_ca = ds@;
        assert(tat_ca == tx + dau);
        assert(xem(tat_ca) =~= xem(tx) + xem(dau));
        let mut bo: Vec<ThuDi> = Vec::new();
        assert(xem(bo@) + xem(ds@) =~= xem(tat_ca));
        while ds.len() > TRAN_HOP_THU
            invariant
                xem(bo@) + xem(ds@) == xem(tat_ca),
                bo@.len() > 0 ==> ds@.len() >= TRAN_HOP_THU,
            decreases ds@.len(),
        {
            let ghost d0 = ds@;
            let ghost b0 = bo@;
            let t = ds.remove(0);
            bo.push(t);
            assert(xem(bo@) =~= xem(b0).push(d0[0]@));
            assert(xem(ds@) =~= xem(d0).subrange(1, d0.len() as int));
            assert(xem(b0) + xem(d0) =~= xem(bo@) + xem(ds@));
        }
        self.ds = ds;
        assert(self@ =~= cat_tran(xem(tat_ca)));
        bo
    }

    /// Takes everything out.
    pub fn lay_het(&mut self) -> (r: Vec<ThuDi>)
        ensures
            final(self).hop_le(),
            final(self)@ == Seq::<ThuV>::empty(),
            xem(r@) == old(self)@,
    {
        let mut ra: Vec<ThuDi> = Vec::new();
        ra.append(&mut self.ds);
        assert(self@ =~= Seq::<ThuV>::empty());
        assert(xem(ra@) =~= old(self)@);
        ra
    }

    pub fn len(&self) -> (r: usize)
        ensures
            r == self@.len(),
    {
        self.ds.len()
    }

    pub fn is_empty(&self) -> (r: bool)
        ensures
            r == (self@.len() == 0),
    {
        self.ds.len() == 0
    }
}

/// Of the states of the printer that wait, only the newest is kept.
pub proof fn chi_mot_trang_thai_cho(ds: Seq<ThuV>, thu: ThuV, i: int, j: int)
    requires
        la_trang_thai(thu),
        0 <= i < them_thu(ds, thu).len(),
        0 <= j < them_thu(ds, thu).len(),
        la_trang_thai(them_thu(ds, thu)[i]),
        la_trang_thai(them_thu(ds, thu)[j]),
    ensures
        i == j,
        them_thu(ds, thu)[i] == thu,
{
    day::giu_dung(ds, |t: ThuV| !la_trang_thai(t));
}

/// The sending end of one connection.
pub trait CongGui {
    fn emit(&self, su_kien: &str, gia_tri: &GiaTri) -> Result<(), String>;

    /// Sends and waits, so many milliseconds at most, for the server's reply. A connection that cannot wait
    /// for replies says so.
    fn emit_ack(&self, _su_kien: &str, _gia_tri: &GiaTri, _cho_ms: u64) -> (r: Result<GiaTri, String>)
        default_ensures
            r matches Err(e) && e@ == "cong khong ho tro ack"@,
    {
        Err("cong khong ho tro ack".to_owned())
    }
}

/// Why a request got no reply.
#[derive(Debug, Clone, PartialEq, Eq)]
pub enum LoiGuiAck {
    /// It never left.
    ChuaGui(String),
    /// It may have left: the server may have acted on it.
    SauKhiGui(String),
}

pub ghost enum LoiGuiAckV {
    ChuaGui(Seq<char>),
    SauKhiGui(Seq<char>),
}

impl View for LoiGuiAck {
    type V = LoiGuiAckV;

    open spec fn view(&self) -> LoiGuiAckV {
        match self {
            LoiGuiAck::ChuaGui(s) => LoiGuiAckV::ChuaGui(s@),
            LoiGuiAck::SauKhiGui(s) => LoiGuiAckV::SauKhiGui(s@),
        }
    }
}

/// The way to the server, shared by all who send: the present connection and the box.
pub struct DuongGui<C> {
    cong: CongCoVet<C>,
    the_he: u64,
    ho_tro: Option<HoTro>,
    /// The present connection has really said what it understands.
    co_cau_hinh: bool,
    luc_mo: Option<u64>,
    hop_thu: HopThuDi,
    /// Requests about the queue that are under way; whoever can wait gives way to them.
    uu_tien: usize,
    /// Of each event handed to a connection: what the server was known to understand, and what it had to.
    phep: Ghost<Seq<(Option<HoTro>, CanHoTro)>>,
}

pub ghost struct DuongV<C> {
    /// The present connection.
    pub cong: Option<C>,
    pub the_he: u64,
    pub ho_tro: Option<HoTro>,
    pub co_cau_hinh: bool,
    pub luc_mo: Option<u64>,
    pub hop_thu: Seq<ThuV>,
    pub uu_tien: usize,
    /// Every event handed to a connection so far.
    pub vet: Seq<BuocGui<C>>,
    /// Of each of them: what the server was known to understand, and what it had to.
    pub phep: Seq<(Option<HoTro>, CanHoTro)>,
}

impl<C> View for DuongGui<C> {
    type V = DuongV<C>;

    closed spec fn view(&self) -> DuongV<C> {
        DuongV {
            cong: self.cong.ngoai(),
            the_he: self.the_he,
            ho_tro: self.ho_tro,
            co_cau_hinh: self.co_cau_hinh,
            luc_mo: self.luc_mo,
            hop_thu: self.hop_thu@,
            uu_tien: self.uu_tien,
            vet: self.cong.vet(),
            phep: self.phep@,
        }
    }
}

/// The event was one that the server was known to understand, or that every server understands.
pub open spec fn gui_dung_phep(p: (Option<HoTro>, CanHoTro)) -> bool {
    p.1 == CanHoTro::KhongCan || (p.0 matches Some(h) && p.1.duoc(h))
}

/// One more, going round at the largest number.
pub open spec fn them_mot(n: usize) -> usize {
    if n == usize::MAX {
        0
    } else {
        (n + 1) as usize
    }
}

/// One less, going round at zero.
pub open spec fn bot_mot(n: usize) -> usize {
    if n == 0 {
        usize::MAX
    } else {
        (n - 1) as usize
    }
}

/// A request that has begun and ended leaves the count as it was.
pub proof fn giu_roi_tha(n: usize)
    ensures
        bot_mot(them_mot(n)) == n,
{
}

/// What the connection says of a letter for which no reply is waited for.
pub open spec fn dap_thu(dap: Result<(), Seq<char>>) -> Result<Option<Gt>, Seq<char>> {
    match dap {
        Ok(_) => Ok(None),
        Err(e) => Err(e),
    }
}

/// A letter handed to a connection.
pub open spec fn buoc_thu<C>(cong: C, thu: ThuV, dap: Result<(), Seq<char>>) -> BuocGui<C> {
    BuocGui { cong, su_kien: thu.su_kien, gia_tri: thu.gia_tri, cho_ms: None, dap: dap_thu(dap) }
}

impl<C> DuongV<C> {
    /// No connection yet, and nothing in the box.
    pub open spec fn rong() -> DuongV<C> {
        DuongV {
            cong: None,
            the_he: 0,
            ho_tro: None,
            co_cau_hinh: false,
            luc_mo: None,
            hop_thu: Seq::empty(),
            uu_tien: 0,
            vet: Seq::empty(),
            phep: Seq::empty(),
        }
    }

    /// With a letter handed to the present connection.
    pub open spec fn da_gui(self, thu: ThuV, dap: Result<(), Seq<char>>) -> DuongV<C> {
        DuongV {
            vet: self.vet.push(buoc_thu(self.cong->0, thu, dap)),
            phep: self.phep.push((self.ho_tro, thu.can)),
            ..self
        }
    }

    /// With a request handed to the present connection, whose reply is waited for.
    pub open spec fn da_hoi(self, thu: ThuV, cho_ms: u64, dap: Result<Gt, Seq<char>>) -> DuongV<C> {
        DuongV {
            vet: self.vet.push(
                BuocGui {
                    cong: self.cong->0,
                    su_kien: thu.su_kien,
                    gia_tri: thu.gia_tri,
                    cho_ms: Some(cho_ms),
                    dap: match dap {
                        Ok(g) => Ok(Some(g)),
                        Err(e) => Err(e),
                    },
                },
            ),
            phep: self.phep.push((self.ho_tro, thu.can)),
            ..self
        }
    }

    /// With a letter put in the box.
    pub open spec fn da_cat(self, thu: ThuV) -> DuongV<C> {
        DuongV { hop_thu: cat_tran(them_thu(self.hop_thu, thu)), ..self }
    }

    /// Whether the present connection is known to understand.
    pub open spec fn hieu(self, can: CanHoTro) -> bool {
        self.cong is Some && (self.ho_tro matches Some(h) && can.duoc(h))
    }

    /// Why the present connection cannot be used for it.
    pub open spec fn vi_sao_khong(self, can: CanHoTro) -> Option<Seq<char>> {
        if self.cong is None {
            Some("chua ket noi"@)
        } else if self.hieu(can) {
            None
        } else {
            Some("backend chua ho tro"@)
        }
    }
}

/// The box emptied over the present connection: `gui` the letters handed to it, `ra` those done with,
/// `con` those that stay. Once the connection fails, everything after stays, in order.
pub open spec fn xa_dung(
    dut: bool,
    co: bool,
    ho_tro: Option<HoTro>,
    thu: Seq<ThuV>,
    gui: Seq<(ThuV, Result<(), Seq<char>>)>,
    ra: Seq<(ThuV, KetQuaGui)>,
    con: Seq<ThuV>,
) -> bool
    decreases thu.len(),
{
    if thu.len() == 0 {
        gui.len() == 0 && ra.len() == 0 && con.len() == 0
    } else {
        let t = thu[0];
        let sau = thu.subrange(1, thu.len() as int);
        if dut || quyet(co, ho_tro, t.can) == QuyetGui::XepHang {
            con.len() >= 1 && con[0] == t && xa_dung(dut, co, ho_tro, sau, gui, ra, con.subrange(1, con.len() as int))
        } else if quyet(co, ho_tro, t.can) == QuyetGui::Bo {
            ra.len() >= 1 && ra[0] == (t, KetQuaGui::Bo) && xa_dung(
                dut,
                co,
                ho_tro,
                sau,
                gui,
                ra.subrange(1, ra.len() as int),
                con,
            )
        } else {
            gui.len() >= 1 && gui[0].0 == t && if gui[0].1 is Ok {
                ra.len() >= 1 && ra[0] == (t, KetQuaGui::Co) && xa_dung(
                    dut,
                    co,
                    ho_tro,
                    sau,
                    gui.subrange(1, gui.len() as int),
                    ra.subrange(1, ra.len() as int),
                    con,
                )
            } else {
                con.len() >= 1 && con[0] == t && xa_dung(
                    true,
                    co,
                    ho_tro,
                    sau,
                    gui.subrange(1, gui.len() as int),
                    ra,
                    con.subrange(1, con.len() as int),
                )
            }
        }
    }
}

/// The views of letters that are done with.
pub open spec fn xem_ra(ra: Seq<(ThuDi, KetQuaGui)>) -> Seq<(ThuV, KetQuaGui)> {
    Seq::new(ra.len(), |i: int| (ra[i].0@, ra[i].1))
}

/// Letters handed to a connection, as they are written down.
pub open spec fn cac_buoc_thu<C>(cong: C, gui: Seq<(ThuV, Result<(), Seq<char>>)>) -> Seq<BuocGui<C>> {
    Seq::new(gui.len(), |i: int| buoc_thu(cong, gui[i].0, gui[i].1))
}

/// What a server was known to understand, and had to, for each of some letters.
pub open spec fn cac_phep(ho_tro: Option<HoTro>, gui: Seq<(ThuV, Result<(), Seq<char>>)>) -> Seq<(Option<HoTro>, CanHoTro)> {
    Seq::new(gui.len(), |i: int| (ho_tro, gui[i].0.can))
}

/// What sending a letter over a connection that understands `ho_tro` comes to: `gui` what is handed to the
/// connection, `kq` the result, `con` the letter where it has to wait.
pub open spec fn gui_qua_dung(
    co: bool,
    ho_tro: Option<HoTro>,
    thu: ThuV,
    gui: Seq<(ThuV, Result<(), Seq<char>>)>,
    kq: KetQuaGui,
    con: Option<ThuV>,
) -> bool {
    match quyet(co, ho_tro, thu.can) {
        QuyetGui::Bo => gui.len() == 0 && kq == KetQuaGui::Bo && con is None,
        QuyetGui::XepHang => gui.len() == 0 && kq == KetQuaGui::XepHang && con == Some(thu),
        QuyetGui::GuiNgay => gui.len() == 1 && gui[0].0 == thu && if gui[0].1 is Ok {
            kq == KetQuaGui::Co && con is None
        } else {
            kq == KetQuaGui::XepHang && con == Some(thu)
        },
    }
}

/// The connection's words where it failed.
pub open spec fn dap_emit(kq: Result<(), String>) -> Result<(), Seq<char>> {
    match kq {
        Ok(_) => Ok(()),
        Err(e) => Err(e@),
    }
}

/// Sends a letter over a connection whose server understands `ho_tro`, or gives it back to be put in the
/// box, or drops it.
pub fn gui_qua<C: CongGui>(cong: &mut CongCoVet<C>, ho_tro: Option<HoTro>, thu: ThuDi) -> (r: (
    KetQuaGui,
    Option<ThuDi>,
))
    ensures
        final(cong).ngoai() == old(cong).ngoai(),
        exists|gui: Seq<(ThuV, Result<(), Seq<char>>)>| #[trigger]
            gui_qua_dung(old(cong).ngoai() is Some, ho_tro, thu@, gui, r.0, xem_co(r.1)) && final(cong).vet() == old(
                cong,
            ).vet() + cac_buoc_thu(old(cong).ngoai()->0, gui),
{
    let ghost v = cong.vet();
    let ghost c = cong.ngoai()->0;
    let ghost tv = thu@;
    let q = quyet_gui(cong.co(), ho_tro, thu.can);
    if q == QuyetGui::GuiNgay {
        let kq = cong.emit(thu.su_kien, &thu.gia_tri);
        let ghost gui = seq![(tv, dap_emit(kq))];
        assert(v.push(buoc_thu(c, tv, dap_emit(kq))) =~= v + cac_buoc_thu(c, gui));
        let r = if kq.is_ok() {
            (KetQuaGui::Co, None)
        } else {
            (KetQuaGui::XepHang, Some(thu))
        };
        assert(gui_qua_dung(cong.ngoai() is Some, ho_tro, tv, gui, r.0, xem_co(r.1)));
        r
    } else {
        let ghost gui = Seq::<(ThuV, Result<(), Seq<char>>)>::empty();
        assert(v =~= v + cac_buoc_thu(c, gui));
        let r = if q == QuyetGui::Bo {
            (KetQuaGui::Bo, None)
        } else {
            (KetQuaGui::XepHang, Some(thu))
        };
        assert(gui_qua_dung(cong.ngoai() is Some, ho_tro, tv, gui, r.0, xem_co(r.1)));
        r
    }
}

/// The box emptied over `cong`: `vet` is what is then written down more.
pub open spec fn xa_qua_dung<C>(
    cong: Option<C>,
    ho_tro: Option<HoTro>,
    thu: Seq<ThuV>,
    gui: Seq<(ThuV, Result<(), Seq<char>>)>,
    ra: Seq<(ThuV, KetQuaGui)>,
    con: Seq<ThuV>,
    vet: Seq<BuocGui<C>>,
) -> bool {
    xa_dung(false, cong is Some, ho_tro, thu, gui, ra, con) && vet == cac_buoc_thu(cong->0, gui)
}

/// Sends the letters of the box over a connection whose server understands `ho_tro`, as far as it takes
/// them: gives those that are done with, and those that stay.
pub fn xa_qua<C: CongGui>(cong: &mut CongCoVet<C>, ho_tro: Option<HoTro>, thu: Vec<ThuDi>) -> (r: (
    Vec<(ThuDi, KetQuaGui)>,
    Vec<ThuDi>,
))
    ensures
        final(cong).ngoai() == old(cong).ngoai(),
        final(cong).vet().len() >= old(cong).vet().len(),
        final(cong).vet().subrange(0, old(cong).vet().len() as int) == old(cong).vet(),
        exists|gui: Seq<(ThuV, Result<(), Seq<char>>)>| #[trigger]
            xa_qua_dung(
                old(cong).ngoai(),
                ho_tro,
                xem(thu@),
                gui,
                xem_ra(r.0@),
                xem(r.1@),
                final(cong).vet().subrange(old(cong).vet().len() as int, final(cong).vet().len() as int),
            ),
{
    let ghost tx = xem(thu@);
    let ghost c = cong.ngoai();
    let ghost v = cong.vet();
    let (ra, con, gui) = xa_tu(cong, ho_tro, thu, false);
    let r = (ra, con);
    proof {
        let v1 = cong.vet();
        let them = v1.subrange(v.len() as int, v1.len() as int);
        assert(v1.subrange(0, v.len() as int) =~= v);
        assert(them =~= cac_buoc_thu(c->0, gui@));
        assert(xa_qua_dung(c, ho_tro, tx, gui@, xem_ra(r.0@), xem(r.1@), them));
    }
    r
}

fn xa_tu<C: CongGui>(cong: &mut CongCoVet<C>, ho_tro: Option<HoTro>, thu: Vec<ThuDi>, dut: bool) -> (r: (
    Vec<(ThuDi, KetQuaGui)>,
    Vec<ThuDi>,
    Ghost<Seq<(ThuV, Result<(), Seq<char>>)>>,
))
    ensures
        final(cong).ngoai() == old(cong).ngoai(),
        xa_dung(dut, old(cong).ngoai() is Some, ho_tro, xem(thu@), r.2@, xem_ra(r.0@), xem(r.1@)),
        final(cong).vet() == old(cong).vet() + cac_buoc_thu(old(cong).ngoai()->0, r.2@),
    decreases thu@.len(),
{
    let ghost v0 = cong.vet();
    let ghost c = cong.ngoai()->0;
    let ghost tx = xem(thu@);
    let mut thu = thu;
    if thu.len() == 0 {
        let ghost rong = Seq::<(ThuV, Result<(), Seq<char>>)>::empty();
        assert(v0 + cac_buoc_thu(c, rong) =~= v0);
        return (Vec::new(), Vec::new(), Ghost(rong));
    }
    let t = thu.remove(0);
    let ghost tv = t@;
    assert(tx[0] == tv);
    assert(xem(thu@) =~= tx.subrange(1, tx.len() as int));
    let q = quyet_gui(cong.co(), ho_tro, t.can);
    let mut dua = false;
    let mut duoc = false;
    let ghost mut dap: Result<(), Seq<char>> = Ok(());
    if !dut && q == QuyetGui::GuiNgay {
        let kq = cong.emit(t.su_kien, &t.gia_tri);
        dua = true;
        duoc = kq.is_ok();
        proof {
            dap = dap_emit(kq);
        }
    }
    let ghost v1 = cong.vet();
    let (ra0, con0, gui0) = xa_tu(cong, ho_tro, thu, dut || (dua && !duoc));
    let mut ra = ra0;
    let mut con = con0;
    let ghost rv = xem_ra(ra@);
    let ghost cv = xem(con@);
    let ghost gui = if dua {
        seq![(tv, dap)] + gui0@
    } else {
        gui0@
    };
    if dut || q == QuyetGui::XepHang || (dua && !duoc) {
        con.insert(0, t);
        assert(xem(con@) =~= seq![tv] + cv);
        assert(xem(con@).subrange(1, con@.len() as int) =~= cv);
    } else {
        ra.insert(
            0,
            (
                t,
                if dua {
                    KetQuaGui::Co
                } else {
                    KetQuaGui::Bo
                },
            ),
        );
        assert(xem_ra(ra@).subrange(1, ra@.len() as int) =~= rv);
    }
    proof {
        if dua {
            assert(gui.subrange(1, gui.len() as int) =~= gui0@);
            assert(v1 + cac_buoc_thu(c, gui0@) =~= v0 + cac_buoc_thu(c, gui));
        }
    }
    (ra, con, Ghost(gui))
}

/// Only letters that the server is known to understand are handed to it.
proof fn xa_dung_phep(
    dut: bool,
    co: bool,
    ho_tro: Option<HoTro>,
    thu: Seq<ThuV>,
    gui: Seq<(ThuV, Result<(), Seq<char>>)>,
    ra: Seq<(ThuV, KetQuaGui)>,
    con: Seq<ThuV>,
)
    requires
        xa_dung(dut, co, ho_tro, thu, gui, ra, con),
    ensures
        forall|i: int| 0 <= i < gui.len() ==> gui_dung_phep((ho_tro, (#[trigger] gui[i]).0.can)),
    decreases thu.len(),
{
    if thu.len() > 0 {
        let t = thu[0];
        let sau = thu.subrange(1, thu.len() as int);
        let ra1 = ra.subrange(1, ra.len() as int);
        let con1 = con.subrange(1, con.len() as int);
        let gui1 = gui.subrange(1, gui.len() as int);
        if dut || quyet(co, ho_tro, t.can) == QuyetGui::XepHang {
            xa_dung_phep(dut, co, ho_tro, sau, gui, ra, con1);
        } else if quyet(co, ho_tro, t.can) == QuyetGui::Bo {
            xa_dung_phep(dut, co, ho_tro, sau, gui, ra1, con);
        } else {
            if gui[0].1 is Ok {
                xa_dung_phep(dut, co, ho_tro, sau, gui1, ra1, con);
            } else {
                xa_dung_phep(true, co, ho_tro, sau, gui1, ra, con1);
            }
            assert forall|i: int| 0 <= i < gui.len() implies gui_dung_phep((ho_tro, (#[trigger] gui[i]).0.can)) by {
                if i > 0 {
                    assert(gui1[i - 1] == gui[i]);
                }
            }
        }
    }
}

impl<C: CongGui> DuongGui<C> {
    /// The box holds no more than it may, and nothing was ever handed to a server that was not known
    /// to understand it.
    pub closed spec fn hop_le(&self) -> bool {
        &&& self.hop_thu.hop_le()
        &&& self.phep@.len() == self.cong.vet().len()
        &&& forall|i: int| 0 <= i < self.phep@.len() ==> gui_dung_phep(#[trigger] self.phep@[i])
    }

    /// What that means of what can be seen.
    pub proof fn hop_le_nghia(&self)
        requires
            self.hop_le(),
        ensures
            self@.hop_thu.len() <= TRAN_HOP_THU,
            self@.phep.len() == self@.vet.len(),
            forall|i: int| 0 <= i < self@.phep.len() ==> gui_dung_phep(#[trigger] self@.phep[i]),
    {
        self.hop_thu.hop_le_la_tran();
    }

    pub fn moi() -> (r: DuongGui<C>)
        ensures
            r.hop_le(),
            r@ == DuongV::<C>::rong(),
    {
        DuongGui {
            cong: CongCoVet::moi(None),
            the_he: 0,
            ho_tro: None,
            co_cau_hinh: false,
            luc_mo: None,
            hop_thu: HopThuDi::moi(),
            uu_tien: 0,
            phep: Ghost(Seq::empty()),
        }
    }

    /// A request about the queue begins.
    pub fn giu_uu_tien(&mut self)
        requires
            old(self).hop_le(),
        ensures
            final(self).hop_le(),
            final(self)@ == (DuongV { uu_tien: them_mot(old(self)@.uu_tien), ..old(self)@ }),
    {
        self.uu_tien = if self.uu_tien == usize::MAX {
            0
        } else {
            self.uu_tien + 1
        };
    }

    /// A request about the queue has ended.
    pub fn tha_uu_tien(&mut self)
        requires
            old(self).hop_le(),
        ensures
            final(self).hop_le(),
            final(self)@ == (DuongV { uu_tien: bot_mot(old(self)@.uu_tien), ..old(self)@ }),
    {
        self.uu_tien = if self.uu_tien == 0 {
            usize::MAX
        } else {
            self.uu_tien - 1
        };
    }

    /// Whether a request about the queue is under way.
    pub fn co_uu_tien(&self) -> (r: bool)
        ensures
            r == (self@.uu_tien > 0),
    {
        self.uu_tien > 0
    }

    /// The present connection, and what its server understands.
    pub fn hien_tai(&self) -> (r: (Option<&C>, Option<HoTro>))
        ensures
            r.0 is Some <==> self@.cong is Some,
            r.0 matches Some(c) ==> self@.cong == Some(*c),
            r.1 == self@.ho_tro,
    {
        (self.cong.muon(), self.ho_tro)
    }

    /// Puts a letter in the box; gives back the oldest one where that is one too many.
    pub fn cat(&mut self, thu: ThuDi) -> (r: Option<ThuDi>)
        requires
            old(self).hop_le(),
        ensures
            final(self).hop_le(),
            final(self)@ == old(self)@.da_cat(thu@),
            r is Some <==> them_thu(old(self)@.hop_thu, thu@).len() > TRAN_HOP_THU,
            r matches Some(t) ==> t@ == them_thu(old(self)@.hop_thu, thu@)[0],
    {
        self.hop_thu.cat(thu)
    }

    /// Takes everything out of the box.
    pub fn lay_thu(&mut self) -> (r: Vec<ThuDi>)
        requires
            old(self).hop_le(),
        ensures
            final(self).hop_le(),
            final(self)@ == (DuongV { hop_thu: Seq::empty(), ..old(self)@ }),
            xem(r@) == old(self)@.hop_thu,
    {
        self.hop_thu.lay_het()
    }

    /// Puts letters back at the front of the box; gives back the oldest where they are too many.
    pub fn tra_thu(&mut self, thu: Vec<ThuDi>) -> (r: Vec<ThuDi>)
        requires
            old(self).hop_le(),
        ensures
            final(self).hop_le(),
            final(self)@ == (DuongV { hop_thu: cat_tran(xem(thu@) + old(self)@.hop_thu), ..old(self)@ }),
            xem(r@) + final(self)@.hop_thu == xem(thu@) + old(self)@.hop_thu,
    {
        self.hop_thu.tra_ve_dau(thu)
    }

    /// Sends a letter over the present connection, or puts it in the box, or drops it, by what the
    /// server understands. A letter that the connection does not take goes in the box; who wants to know
    /// which letter an overfull box loses sends with `gui_qua` and puts the letter in with `cat`.
    pub fn gui(&mut self, su_kien: &'static str, gia_tri: GiaTri, can: CanHoTro) -> (r: KetQuaGui)
        requires
            old(self).hop_le(),
        ensures
            final(self).hop_le(),
            ({
                let d = old(self)@;
                let thu = ThuV { su_kien: su_kien@, gia_tri: gia_tri@, can };
                match quyet(d.cong is Some, d.ho_tro, can) {
                    QuyetGui::Bo => r == KetQuaGui::Bo && final(self)@ == d,
                    QuyetGui::XepHang => r == KetQuaGui::XepHang && final(self)@ == d.da_cat(thu),
                    QuyetGui::GuiNgay => {
                        ||| r == KetQuaGui::Co && final(self)@ == d.da_gui(thu, Ok(()))
                        ||| r == KetQuaGui::XepHang && exists|e: Seq<char>|
                            final(self)@ == #[trigger] d.da_gui(thu, Err(e)).da_cat(thu)
                    },
                }
            }),
    {
        let thu = ThuDi { su_kien, gia_tri, can };
        let ghost tv = thu@;
        let ghost d = self@;
        let (kq, con) = gui_qua(&mut self.cong, self.ho_tro, thu);
        proof {
            let gui = choose|gui: Seq<(ThuV, Result<(), Seq<char>>)>| #[trigger]
                gui_qua_dung(d.cong is Some, d.ho_tro, tv, gui, kq, xem_co(con)) && self.cong.vet() == d.vet
                    + cac_buoc_thu(d.cong->0, gui);
            self.phep@ = d.phep + cac_phep(d.ho_tro, gui);
            if gui.len() == 1 {
                assert(d.vet + cac_buoc_thu(d.cong->0, gui) =~= d.vet.push(buoc_thu(d.cong->0, tv, gui[0].1)));
                assert(d.phep + cac_phep(d.ho_tro, gui) =~= d.phep.push((d.ho_tro, tv.can)));
                assert(self@ == d.da_gui(tv, gui[0].1));
            } else {
                assert(d.vet + cac_buoc_thu(d.cong->0, gui) =~= d.vet);
                assert(d.phep + cac_phep(d.ho_tro, gui) =~= d.phep);
                assert(self@ == d);
            }
        }
        let ghost e = self@;
        if let Some(t) = con {
            let _ = self.hop_thu.cat(t);
            assert(self@ == e.da_cat(tv));
        }
        kq
    }

    /// The present connection, where it is known to understand.
    pub fn cong_ho_tro(&self, can: CanHoTro) -> (r: Result<&C, String>)
        ensures
            r is Ok <==> self@.hieu(can),
            r matches Ok(c) ==> self@.cong == Some(*c),
            r matches Err(e) ==> self@.vi_sao_khong(can) == Some(e@),
    {
        match self.cong.muon() {
            Some(c) => {
                let hieu = match self.ho_tro {
                    Some(h) => can.duoc_gui(h),
                    None => false,
                };
                if hieu {
                    Ok(c)
                } else {
                    Err("backend chua ho tro".to_owned())
                }
            },
            None => Err("chua ket noi".to_owned()),
        }
    }

    /// Sends a request and waits for the reply, never over the box; says whether a request without a
    /// reply may have left.
    pub fn gui_ack_ro(&mut self, su_kien: &'static str, gia_tri: GiaTri, can: CanHoTro, cho_ms: u64) -> (r: Result<
        GiaTri,
        LoiGuiAck,
    >)
        requires
            old(self).hop_le(),
        ensures
            final(self).hop_le(),
            ({
                let d = old(self)@;
                let thu = ThuV { su_kien: su_kien@, gia_tri: gia_tri@, can };
                match d.vi_sao_khong(can) {
                    Some(e) => (r matches Err(x) && x@ == LoiGuiAckV::ChuaGui(e)) && final(self)@ == d,
                    None => match r {
                        Ok(v) => final(self)@ == d.da_hoi(thu, cho_ms, Ok(v@)),
                        Err(x) => x@ is SauKhiGui && final(self)@ == d.da_hoi(thu, cho_ms, Err(x@->SauKhiGui_0)),
                    },
                }
            }),
    {
        if let Err(e) = self.cong_ho_tro(can) {
            return Err(LoiGuiAck::ChuaGui(e));
        }
        let kq = self.cong.emit_ack(su_kien, &gia_tri, cho_ms);
        self.phep = Ghost(self.phep@.push((self.ho_tro, can)));
        match kq {
            Ok(v) => Ok(v),
            Err(e) => Err(LoiGuiAck::SauKhiGui(e)),
        }
    }

    /// Sends a request and waits for the reply, never over the box; says why where none came.
    pub fn gui_ack(&mut self, su_kien: &'static str, gia_tri: GiaTri, can: CanHoTro, cho_ms: u64) -> (r: Result<
        GiaTri,
        String,
    >)
        requires
            old(self).hop_le(),
        ensures
            final(self).hop_le(),
            ({
                let d = old(self)@;
                let thu = ThuV { su_kien: su_kien@, gia_tri: gia_tri@, can };
                match d.vi_sao_khong(can) {
                    Some(e) => (r matches Err(x) && x@ == e) && final(self)@ == d,
                    None => match r {
                        Ok(v) => final(self)@ == d.da_hoi(thu, cho_ms, Ok(v@)),
                        Err(x) => final(self)@ == d.da_hoi(thu, cho_ms, Err(x@)),
                    },
                }
            }),
    {
        match self.gui_ack_ro(su_kien, gia_tri, can, cho_ms) {
            Ok(v) => Ok(v),
            Err(e) => match e {
                LoiGuiAck::ChuaGui(s) => Err(s),
                LoiGuiAck::SauKhiGui(s) => Err(s),
            },
        }
    }

    /// Sends a letter now or not at all.
    pub fn gui_ngay(&mut self, su_kien: &'static str, gia_tri: GiaTri, can: CanHoTro) -> (r: Result<(), String>)
        requires
            old(self).hop_le(),
        ensures
            final(self).hop_le(),
            ({
                let d = old(self)@;
                let thu = ThuV { su_kien: su_kien@, gia_tri: gia_tri@, can };
                match d.vi_sao_khong(can) {
                    Some(e) => (r matches Err(x) && x@ == e) && final(self)@ == d,
                    None => match r {
                        Ok(_) => final(self)@ == d.da_gui(thu, Ok(())),
                        Err(x) => final(self)@ == d.da_gui(thu, Err(x@)),
                    },
                }
            }),
    {
        if let Err(e) = self.cong_ho_tro(can) {
            return Err(e);
        }
        let kq = self.cong.emit(su_kien, &gia_tri);
        self.phep = Ghost(self.phep@.push((self.ho_tro, can)));
        kq
    }

    /// The number of the present connection, where it has said that it understands.
    pub fn the_he_ho_tro(&self, can: CanHoTro) -> (r: Option<u64>)
        ensures
            r == (if self@.hieu(can) && self@.co_cau_hinh {
                Some(self@.the_he)
            } else {
                None
            }),
    {
        match self.ho_tro {
            Some(h) => if self.cong.co() && self.co_cau_hinh && can.duoc_gui(h) {
                Some(self.the_he)
            } else {
                None
            },
            None => None,
        }
    }

    /// There is a number left for a further connection.
    pub fn con_so_ket_noi(&self) -> (r: bool)
        ensures
            r == (self@.the_he < u64::MAX),
    {
        self.the_he < u64::MAX
    }

    /// A new connection: what the last one understood is forgotten. Gives the connection's number.
    pub fn mo_ket_noi(&mut self, cong: C, bay_gio_ms: u64) -> (r: u64)
        requires
            old(self).hop_le(),
            old(self)@.the_he < u64::MAX,
        ensures
            final(self).hop_le(),
            r == old(self)@.the_he + 1,
            final(self)@ == (DuongV {
                cong: Some(cong),
                the_he: r,
                ho_tro: None,
                co_cau_hinh: false,
                luc_mo: Some(bay_gio_ms),
                ..old(self)@
            }),
    {
        self.the_he = self.the_he + 1;
        self.cong.thay(Some(cong));
        self.ho_tro = None;
        self.co_cau_hinh = false;
        self.luc_mo = Some(bay_gio_ms);
        self.the_he
    }

    /// The connection with that number is no longer to be used; a later one is left alone.
    pub fn dong_ket_noi(&mut self, the_he: u64)
        requires
            old(self).hop_le(),
        ensures
            final(self).hop_le(),
            final(self)@ == (if old(self)@.the_he == the_he {
                DuongV { cong: None, ho_tro: None, co_cau_hinh: false, luc_mo: None, ..old(self)@ }
            } else {
                old(self)@
            }),
    {
        if self.the_he == the_he {
            self.cong.thay(None);
            self.ho_tro = None;
            self.co_cau_hinh = false;
            self.luc_mo = None;
        }
    }

    /// The server has said what it understands.
    pub fn nhan_cau_hinh(&mut self, ho_tro: HoTro)
        requires
            old(self).hop_le(),
        ensures
            final(self).hop_le(),
            final(self)@ == (DuongV { ho_tro: Some(ho_tro), co_cau_hinh: true, ..old(self)@ }),
    {
        self.ho_tro = Some(ho_tro);
        self.co_cau_hinh = true;
    }

    /// The server of the present connection is one that says what it understands. Only such a one may
    /// be refused an invoice.
    pub fn backend_moi(&self) -> (r: bool)
        ensures
            r == (self@.cong is Some && self@.co_cau_hinh),
    {
        self.cong.co() && self.co_cau_hinh
    }

    /// The present connection has been silent too long: its server is an old one, which understands
    /// nothing more. True once for each connection.
    pub fn kiem_ban_cu(&mut self, bay_gio_ms: u64) -> (r: bool)
        requires
            old(self).hop_le(),
        ensures
            final(self).hop_le(),
            r == (old(self)@.cong is Some && old(self)@.ho_tro is None && (old(self)@.luc_mo matches Some(t) && bay_gio_ms >= t
                && bay_gio_ms - t >= CHO_CAU_HINH_MS)),
            final(self)@ == (if r {
                DuongV { ho_tro: Some(HoTro::khong_gi()), ..old(self)@ }
            } else {
                old(self)@
            }),
    {
        let lau = match self.luc_mo {
            Some(t) => bay_gio_ms >= t && bay_gio_ms - t >= CHO_CAU_HINH_MS,
            None => false,
        };
        let ban_cu = self.cong.co() && self.ho_tro.is_none() && lau;
        if ban_cu {
            self.ho_tro = Some(HoTro::default());
        }
        ban_cu
    }

    /// Sends what waits in the box, as far as the present connection takes it; gives the letters that
    /// are done with.
    pub fn xa_hop_thu(&mut self) -> (r: Vec<(ThuDi, KetQuaGui)>)
        requires
            old(self).hop_le(),
        ensures
            final(self).hop_le(),
            exists|gui: Seq<(ThuV, Result<(), Seq<char>>)>| #[trigger]
                xa_dung(
                    false,
                    old(self)@.cong is Some,
                    old(self)@.ho_tro,
                    old(self)@.hop_thu,
                    gui,
                    xem_ra(r@),
                    final(self)@.hop_thu,
                ) && final(self)@ == (DuongV {
                    hop_thu: final(self)@.hop_thu,
                    vet: old(self)@.vet + cac_buoc_thu(old(self)@.cong->0, gui),
                    phep: old(self)@.phep + cac_phep(old(self)@.ho_tro, gui),
                    ..old(self)@
                }),
    {
        let ghost d = self@;
        proof {
            self.hop_thu.hop_le_la_tran();
        }
        let thu = self.hop_thu.lay_het();
        let (ra, con) = xa_qua(&mut self.cong, self.ho_tro, thu);
        let ghost cx = xem(con@);
        let ghost v1 = self.cong.vet();
        let ghost gui = choose|gui: Seq<(ThuV, Result<(), Seq<char>>)>| #[trigger]
            xa_qua_dung(
                d.cong,
                d.ho_tro,
                d.hop_thu,
                gui,
                xem_ra(ra@),
                cx,
                v1.subrange(d.vet.len() as int, v1.len() as int),
            );
        proof {
            assert(v1 =~= d.vet + v1.subrange(d.vet.len() as int, v1.len() as int));
            xa_khong_doi_so(false, d.cong is Some, d.ho_tro, d.hop_thu, gui, xem_ra(ra@), cx);
            xa_dung_phep(false, d.cong is Some, d.ho_tro, d.hop_thu, gui, xem_ra(ra@), cx);
            self.phep@ = d.phep + cac_phep(d.ho_tro, gui);
        }
        let _ = self.hop_thu.tra_ve_dau(con);
        assert(self@.hop_thu =~= cx);
        assert(xa_dung(false, d.cong is Some, d.ho_tro, d.hop_thu, gui, xem_ra(ra@), self@.hop_thu));
        ra
    }

    /// How many letters wait.
    pub fn so_thu_cho(&self) -> (r: usize)
        ensures
            r == self@.hop_thu.len(),
    {
        self.hop_thu.len()
    }
}

/// Emptying the box loses no letter and doubles none: each is done with or stays.
pub proof fn xa_khong_doi_so(
    dut: bool,
    co: bool,
    ho_tro: Option<HoTro>,
    thu: Seq<ThuV>,
    gui: Seq<(ThuV, Result<(), Seq<char>>)>,
    ra: Seq<(ThuV, KetQuaGui)>,
    con: Seq<ThuV>,
)
    requires
        xa_dung(dut, co, ho_tro, thu, gui, ra, con),
    ensures
        ra.len() + con.len() == thu.len(),
        ra.map_values(|x: (ThuV, KetQuaGui)| x.0).to_multiset().add(con.to_multiset()) == thu.to_multiset(),
    decreases thu.len(),
{
    broadcast use vstd::seq_lib::group_to_multiset_ensures;

    let f = |x: (ThuV, KetQuaGui)| x.0;
    if thu.len() == 0 {
        assert(ra.map_values(f) =~= Seq::empty());
        assert(con =~= Seq::empty());
        assert(thu =~= Seq::empty());
        assert(ra.map_values(f).to_multiset().add(con.to_multiset()) =~= thu.to_multiset());
    } else {
        let t = thu[0];
        let sau = thu.subrange(1, thu.len() as int);
        let ra1 = ra.subrange(1, ra.len() as int);
        let con1 = con.subrange(1, con.len() as int);
        let gui1 = gui.subrange(1, gui.len() as int);
        assert(thu =~= seq![t] + sau);
        dau_vao_tui(t, sau);
        if dut || quyet(co, ho_tro, t.can) == QuyetGui::XepHang {
            xa_khong_doi_so(dut, co, ho_tro, sau, gui, ra, con1);
            assert(con =~= seq![t] + con1);
            dau_vao_tui(t, con1);
        } else if quyet(co, ho_tro, t.can) == QuyetGui::Bo {
            xa_khong_doi_so(dut, co, ho_tro, sau, gui, ra1, con);
            assert(ra.map_values(f) =~= seq![t] + ra1.map_values(f));
            dau_vao_tui(t, ra1.map_values(f));
        } else if gui[0].1 is Ok {
            xa_khong_doi_so(dut, co, ho_tro, sau, gui1, ra1, con);
            assert(ra.map_values(f) =~= seq![t] + ra1.map_values(f));
            dau_vao_tui(t, ra1.map_values(f));
        } else {
            xa_khong_doi_so(true, co, ho_tro, sau, gui1, ra, con1);
            assert(con =~= seq![t] + con1);
            dau_vao_tui(t, con1);
        }
        assert(ra.map_values(f).to_multiset().add(con.to_multiset()) =~= thu.to_multiset());
    }
}

proof fn dau_vao_tui(t: ThuV, s: Seq<ThuV>)
    ensures
        (seq![t] + s).to_multiset() == s.to_multiset().insert(t),
{
    broadcast use vstd::seq_lib::group_to_multiset_ensures;

    vstd::seq_lib::lemma_multiset_commutative(seq![t], s);
    assert(seq![t] =~= Seq::empty().push(t));
    assert((seq![t] + s).to_multiset() =~= s.to_multiset().insert(t));
}

/// An open outcome is never handed to a server that has not said it knows of such: an old server would
/// take it for "printed".
pub proof fn khong_ro_chi_toi_backend_hieu(p: (Option<HoTro>, CanHoTro), kq: KetQuaV)
    requires
        gui_dung_phep(p),
        kq.trang_thai == KHONG_RO@,
        p.1 == CanHoTro::can_cua(kq),
    ensures
        p.0 matches Some(h) && h.khong_ro,
{
}

impl<C: CongGui> Default for DuongGui<C> {
    fn default() -> (r: DuongGui<C>)
        ensures
            r.hop_le(),
            r@ == DuongV::<C>::rong(),
    {
        DuongGui::moi()
    }
}

/// Every event goes over the connection that is the present one when it is sent.
pub proof fn gui_qua_ket_noi_hien_tai<C>(
    d: DuongV<C>,
    thu: ThuV,
    dap: Result<(), Seq<char>>,
    cho_ms: u64,
    tra_loi: Result<Gt, Seq<char>>,
)
    requires
        d.cong is Some,
    ensures
        d.da_gui(thu, dap).vet.len() == d.vet.len() + 1,
        d.da_gui(thu, dap).vet.last().cong == d.cong->0,
        d.da_hoi(thu, cho_ms, tra_loi).vet.len() == d.vet.len() + 1,
        d.da_hoi(thu, cho_ms, tra_loi).vet.last().cong == d.cong->0,
{
}

/// Once the connection has failed, nothing is handed to it and everything stays.
proof fn xa_dut(
    co: bool,
    ho_tro: Option<HoTro>,
    thu: Seq<ThuV>,
    gui: Seq<(ThuV, Result<(), Seq<char>>)>,
    ra: Seq<(ThuV, KetQuaGui)>,
    con: Seq<ThuV>,
)
    requires
        xa_dung(true, co, ho_tro, thu, gui, ra, con),
    ensures
        gui.len() == 0,
        ra.len() == 0,
        con == thu,
    decreases thu.len(),
{
    if thu.len() == 0 {
        assert(con =~= thu);
    } else {
        let sau = thu.subrange(1, thu.len() as int);
        let con1 = con.subrange(1, con.len() as int);
        xa_dut(co, ho_tro, sau, gui, ra, con1);
        assert(con =~= seq![con[0]] + con1);
        assert(thu =~= seq![thu[0]] + sau);
    }
}

/// The letters of a list for which `q` is decided.
pub open spec fn duoc_quyet(co: bool, ho_tro: Option<HoTro>, thu: Seq<ThuV>, q: QuyetGui) -> Seq<ThuV> {
    giu(thu, |t: ThuV| quyet(co, ho_tro, t.can) == q)
}

/// The letters of a list that do not have to wait, each with what becomes of it.
pub open spec fn xong_cua(co: bool, ho_tro: Option<HoTro>, thu: Seq<ThuV>) -> Seq<(ThuV, KetQuaGui)> {
    giu(thu, |t: ThuV| quyet(co, ho_tro, t.can) != QuyetGui::XepHang).map_values(
        |t: ThuV|
            (
                t,
                if quyet(co, ho_tro, t.can) == QuyetGui::Bo {
                    KetQuaGui::Bo
                } else {
                    KetQuaGui::Co
                },
            ),
    )
}

/// The box emptied, told by the letter `f` at which the connection failed, or their number where it did not:
/// handed over are, in order, the letters that can be sent, up to that one; done with are those before it
/// that need not wait; all others stay in order.
pub open spec fn xa_toi(
    co: bool,
    ho_tro: Option<HoTro>,
    thu: Seq<ThuV>,
    gui: Seq<(ThuV, Result<(), Seq<char>>)>,
    ra: Seq<(ThuV, KetQuaGui)>,
    con: Seq<ThuV>,
    f: int,
) -> bool {
    let truoc = thu.subrange(0, f);
    &&& 0 <= f <= thu.len()
    &&& f < thu.len() ==> quyet(co, ho_tro, thu[f].can) == QuyetGui::GuiNgay
    &&& gui.map_values(|x: (ThuV, Result<(), Seq<char>>)| x.0) == duoc_quyet(co, ho_tro, truoc, QuyetGui::GuiNgay) + (
    if f < thu.len() {
        seq![thu[f]]
    } else {
        Seq::empty()
    })
    &&& forall|i: int| 0 <= i < gui.len() ==> ((#[trigger] gui[i]).1 is Ok <==> !(f < thu.len() && i == gui.len() - 1))
    &&& ra == xong_cua(co, ho_tro, truoc)
    &&& con == duoc_quyet(co, ho_tro, truoc, QuyetGui::XepHang) + thu.subrange(f, thu.len() as int)
}

/// Emptying the box hands letters over in order up to the first that fails, and keeps the rest in order.
pub proof fn xa_theo_thu_tu(
    co: bool,
    ho_tro: Option<HoTro>,
    thu: Seq<ThuV>,
    gui: Seq<(ThuV, Result<(), Seq<char>>)>,
    ra: Seq<(ThuV, KetQuaGui)>,
    con: Seq<ThuV>,
) -> (f: int)
    requires
        xa_dung(false, co, ho_tro, thu, gui, ra, con),
    ensures
        xa_toi(co, ho_tro, thu, gui, ra, con, f),
    decreases thu.len(),
{
    let dau = |x: (ThuV, Result<(), Seq<char>>)| x.0;
    let ngay = |t: ThuV| quyet(co, ho_tro, t.can) == QuyetGui::GuiNgay;
    let xep = |t: ThuV| quyet(co, ho_tro, t.can) == QuyetGui::XepHang;
    let xong = |t: ThuV| quyet(co, ho_tro, t.can) != QuyetGui::XepHang;
    let kem = |t: ThuV|
        (
            t,
            if quyet(co, ho_tro, t.can) == QuyetGui::Bo {
                KetQuaGui::Bo
            } else {
                KetQuaGui::Co
            },
        );
    if thu.len() == 0 {
        let truoc = thu.subrange(0, 0);
        assert(truoc =~= Seq::empty());
        assert(gui.map_values(dau) =~= giu(truoc, ngay) + Seq::empty());
        assert(ra =~= giu(truoc, xong).map_values(kem));
        assert(con =~= giu(truoc, xep) + thu.subrange(0, 0));
        0
    } else {
        let t = thu[0];
        let sau = thu.subrange(1, thu.len() as int);
        let ra1 = ra.subrange(1, ra.len() as int);
        let con1 = con.subrange(1, con.len() as int);
        let gui1 = gui.subrange(1, gui.len() as int);
        if quyet(co, ho_tro, t.can) == QuyetGui::GuiNgay && gui[0].1 is Err {
            xa_dut(co, ho_tro, sau, gui1, ra, con1);
            let truoc = thu.subrange(0, 0);
            assert(truoc =~= Seq::empty());
            assert(gui.map_values(dau) =~= giu(truoc, ngay) + seq![t]);
            assert(ra =~= giu(truoc, xong).map_values(kem));
            assert(con =~= seq![t] + con1);
            assert(con =~= giu(truoc, xep) + thu.subrange(0, thu.len() as int));
            0
        } else {
            let (g2, r2, c2) = if quyet(co, ho_tro, t.can) == QuyetGui::XepHang {
                (gui, ra, con1)
            } else if quyet(co, ho_tro, t.can) == QuyetGui::Bo {
                (gui, ra1, con)
            } else {
                (gui1, ra1, con)
            };
            let k = xa_theo_thu_tu(co, ho_tro, sau, g2, r2, c2);
            let f = k + 1;
            let truoc = thu.subrange(0, f);
            let truoc1 = sau.subrange(0, k);
            assert(truoc =~= seq![t] + truoc1);
            giu_them_dau(t, truoc1, ngay);
            giu_them_dau(t, truoc1, xep);
            giu_them_dau(t, truoc1, xong);
            assert(thu.subrange(f, thu.len() as int) =~= sau.subrange(k, sau.len() as int));
            let duoi = if f < thu.len() {
                seq![thu[f]]
            } else {
                Seq::empty()
            };
            assert(g2.map_values(dau) == giu(truoc1, ngay) + duoi);
            if quyet(co, ho_tro, t.can) == QuyetGui::GuiNgay {
                assert(gui =~= seq![gui[0]] + gui1);
                assert(gui.map_values(dau) =~= seq![t] + gui1.map_values(dau));
            }
            assert(gui.map_values(dau) =~= giu(truoc, ngay) + duoi);
            if quyet(co, ho_tro, t.can) != QuyetGui::XepHang {
                assert(ra =~= seq![ra[0]] + ra1);
            }
            assert(ra =~= giu(truoc, xong).map_values(kem));
            if quyet(co, ho_tro, t.can) == QuyetGui::XepHang {
                assert(con =~= seq![t] + con1);
            }
            assert(con =~= giu(truoc, xep) + thu.subrange(f, thu.len() as int));
            assert forall|i: int| 0 <= i < gui.len() implies ((#[trigger] gui[i]).1 is Ok <==> !(f < thu.len() && i
                == gui.len() - 1)) by {
                if quyet(co, ho_tro, t.can) == QuyetGui::GuiNgay {
                    if i > 0 {
                        assert(gui[i] == gui1[i - 1]);
                    } else if f < thu.len() {
                        assert(g2.map_values(dau).len() >= 1);
                    }
                }
            }
            f
        }
    }
}

} // verus!
