//! The present connection, with a record of everything that was handed to it or to one before it.
use crate::gia_tri::{GiaTri, Gt};
use crate::hop_thu_di::CongGui;
use vstd::prelude::*;

verus! {

/// One event handed to a connection.
pub ghost struct BuocGui<C> {
    /// The connection that got it.
    pub cong: C,
    pub su_kien: Seq<char>,
    pub gia_tri: Gt,
    /// How long a reply was waited for, in milliseconds; nothing where none was.
    pub cho_ms: Option<u64>,
    /// What came back: the reply, if one was waited for, or the connection's words for why it failed.
    pub dap: Result<Option<Gt>, Seq<char>>,
}

/// The present connection, if there is one. Every event that is handed to it through this type is written
/// down, and nothing else can write in the record.
pub struct CongCoVet<C> {
    cong: Option<C>,
    vet: Ghost<Seq<BuocGui<C>>>,
}

impl<C> CongCoVet<C> {
    /// The connection itself.
    pub closed spec fn ngoai(&self) -> Option<C> {
        self.cong
    }

    /// Every event so far.
    pub closed spec fn vet(&self) -> Seq<BuocGui<C>> {
        self.vet@
    }

    pub fn moi(cong: Option<C>) -> (r: CongCoVet<C>)
        ensures
            r.ngoai() == cong,
            r.vet() == Seq::<BuocGui<C>>::empty(),
    {
        CongCoVet { cong, vet: Ghost(Seq::empty()) }
    }

    /// Puts another connection, or none, in the place of the present one.
    pub fn thay(&mut self, cong: Option<C>)
        ensures
            final(self).ngoai() == cong,
            final(self).vet() == old(self).vet(),
    {
        self.cong = cong;
    }

    pub fn co(&self) -> (r: bool)
        ensures
            r == self.ngoai() is Some,
    {
        self.cong.is_some()
    }

    pub fn muon(&self) -> (r: Option<&C>)
        ensures
            r is Some <==> self.ngoai() is Some,
            r matches Some(c) ==> self.ngoai() == Some(*c),
    {
        match &self.cong {
            Some(c) => Some(c),
            None => None,
        }
    }
}

/// What the sender of an event without reply is told.
pub open spec fn dap_gui(kq: Result<(), String>) -> Result<Option<Gt>, Seq<char>> {
    match kq {
        Ok(_) => Ok(None),
        Err(e) => Err(e@),
    }
}

/// What the sender of a request is told.
pub open spec fn dap_ack(kq: Result<GiaTri, String>) -> Result<Option<Gt>, Seq<char>> {
    match kq {
        Ok(v) => Ok(Some(v@)),
        Err(e) => Err(e@),
    }
}

impl<C: CongGui> CongCoVet<C> {
    /// Hands an event to the present connection.
    pub fn emit(&mut self, su_kien: &str, gia_tri: &GiaTri) -> (r: Result<(), String>)
        requires
            old(self).ngoai() is Some,
        ensures
            final(self).ngoai() == old(self).ngoai(),
            final(self).vet() == old(self).vet().push(
                BuocGui {
                    cong: old(self).ngoai()->0,
                    su_kien: su_kien@,
                    gia_tri: gia_tri@,
                    cho_ms: None,
                    dap: dap_gui(r),
                },
            ),
    {
        let r = match &self.cong {
            Some(c) => c.emit(su_kien, gia_tri),
            None => Err(String::new()),
        };
        self.vet = Ghost(
            self.vet@.push(
                BuocGui {
                    cong: self.cong->0,
                    su_kien: su_kien@,
                    gia_tri: gia_tri@,
                    cho_ms: None,
                    dap: dap_gui(r),
                },
            ),
        );
        r
    }

    /// Hands a request to the present connection and waits for the reply.
    pub fn emit_ack(&mut self, su_kien: &str, gia_tri: &GiaTri, cho_ms: u64) -> (r: Result<GiaTri, String>)
        requires
            old(self).ngoai() is Some,
        ensures
            final(self).ngoai() == old(self).ngoai(),
            final(self).vet() == old(self).vet().push(
                BuocGui {
                    cong: old(self).ngoai()->0,
                    su_kien: su_kien@,
                    gia_tri: gia_tri@,
                    cho_ms: Some(cho_ms),
                    dap: dap_ack(r),
                },
            ),
    {
        let r = match &self.cong {
            Some(c) => c.emit_ack(su_kien, gia_tri, cho_ms),
            None => Err(String::new()),
        };
        self.vet = Ghost(
            self.vet@.push(
                BuocGui {
                    cong: self.cong->0,
                    su_kien: su_kien@,
                    gia_tri: gia_tri@,
                    cho_ms: Some(cho_ms),
                    dap: dap_ack(r),
                },
            ),
        );
        r
    }
}

} // verus!
