//! A value of the server's protocol: what a JSON document can hold.
use crate::chu;
use vstd::prelude::*;

verus! {

/// A JSON value. Numbers that are no integers are carried by their text; the protocol never
/// computes with them.
#[derive(Debug, PartialEq, Eq)]
pub enum GiaTri {
    Rong,
    Bool(bool),
    So(i128),
    SoThuc(String),
    Chuoi(String),
    Mang(Vec<GiaTri>),
    DoiTuong(Vec<(String, GiaTri)>),
}

/// The mathematical value of a [`GiaTri`].
pub ghost enum Gt {
    Rong,
    Bool(bool),
    So(int),
    SoThuc(Seq<char>),
    Chuoi(Seq<char>),
    Mang(Seq<Gt>),
    DoiTuong(Seq<(Seq<char>, Gt)>),
}

impl View for GiaTri {
    type V = Gt;

    open spec fn view(&self) -> Gt
        decreases self,
    {
        match self {
            GiaTri::Rong => Gt::Rong,
            GiaTri::Bool(b) => Gt::Bool(*b),
            GiaTri::So(n) => Gt::So(*n as int),
            GiaTri::SoThuc(s) => Gt::SoThuc(s@),
            GiaTri::Chuoi(s) => Gt::Chuoi(s@),
            GiaTri::Mang(v) => Gt::Mang(
                Seq::new(v@.len(), |i: int| if 0 <= i < v@.len() { v@[i].view() } else { Gt::Rong }),
            ),
            GiaTri::DoiTuong(v) => Gt::DoiTuong(
                Seq::new(
                    v@.len(),
                    |i: int|
                        (
                            v@[i].0@,
                            if 0 <= i < v@.len() {
                                v@[i].1.view()
                            } else {
                                Gt::Rong
                            },
                        ),
                ),
            ),
        }
    }
}

/// The fields of an object under construction.
pub open spec fn cac_truong(v: Seq<(String, GiaTri)>) -> Seq<(Seq<char>, Gt)> {
    Seq::new(v.len(), |i: int| (v[i].0@, v[i].1@))
}

/// The items of an array under construction.
pub open spec fn cac_phan_tu(v: Seq<GiaTri>) -> Seq<Gt> {
    Seq::new(v.len(), |i: int| v[i]@)
}

/// Where the first field called `khoa` at or after `tu` stands.
pub open spec fn vi_tri_truong(v: Seq<(Seq<char>, Gt)>, khoa: Seq<char>, tu: int) -> Option<int>
    decreases v.len() - tu,
{
    if tu < 0 || tu >= v.len() {
        None
    } else if v[tu].0 == khoa {
        Some(tu)
    } else {
        vi_tri_truong(v, khoa, tu + 1)
    }
}

impl Gt {
    /// The field called `khoa` of an object; nothing for a value that is no object.
    pub open spec fn truong(self, khoa: Seq<char>) -> Option<Gt> {
        match self {
            Gt::DoiTuong(v) => match vi_tri_truong(v, khoa, 0) {
                Some(i) => Some(v[i].1),
                None => None,
            },
            _ => None,
        }
    }

    pub open spec fn la_chuoi(self) -> Option<Seq<char>> {
        match self {
            Gt::Chuoi(s) => Some(s),
            _ => None,
        }
    }

    pub open spec fn la_bool(self) -> Option<bool> {
        match self {
            Gt::Bool(b) => Some(b),
            _ => None,
        }
    }

    /// The text of the field called `khoa`, where there is one and it is a text.
    pub open spec fn chuoi(self, khoa: Seq<char>) -> Option<Seq<char>> {
        match self.truong(khoa) {
            Some(g) => g.la_chuoi(),
            None => None,
        }
    }

    pub open spec fn bool_cua(self, khoa: Seq<char>) -> Option<bool> {
        match self.truong(khoa) {
            Some(g) => g.la_bool(),
            None => None,
        }
    }
}

/// The view of an optional text.
pub open spec fn chu_cua(o: Option<String>) -> Option<Seq<char>> {
    match o {
        Some(s) => Some(s@),
        None => None,
    }
}

/// The view of an optional borrowed text.
pub open spec fn chu_muon(o: Option<&str>) -> Option<Seq<char>> {
    match o {
        Some(s) => Some(s@),
        None => None,
    }
}

impl GiaTri {
    pub fn tu_chu(s: &str) -> (r: GiaTri)
        ensures
            r@ == Gt::Chuoi(s@),
    {
        GiaTri::Chuoi(s.to_owned())
    }

    pub fn tu_bool(b: bool) -> (r: GiaTri)
        ensures
            r@ == Gt::Bool(b),
    {
        GiaTri::Bool(b)
    }

    pub fn tu_so(n: u64) -> (r: GiaTri)
        ensures
            r@ == Gt::So(n as int),
    {
        GiaTri::So(n as i128)
    }

    pub fn doi_tuong(v: Vec<(String, GiaTri)>) -> (r: GiaTri)
        ensures
            r@ == Gt::DoiTuong(cac_truong(v@)),
    {
        let r = GiaTri::DoiTuong(v);
        assert(r@->DoiTuong_0 =~= cac_truong(v@));
        r
    }

    pub fn mang(v: Vec<GiaTri>) -> (r: GiaTri)
        ensures
            r@ == Gt::Mang(cac_phan_tu(v@)),
    {
        let r = GiaTri::Mang(v);
        assert(r@->Mang_0 =~= cac_phan_tu(v@));
        r
    }

    /// The field called `khoa`, where this is an object that has one.
    pub fn truong(&self, khoa: &str) -> (r: Option<&GiaTri>)
        ensures
            r matches Some(g) ==> self@.truong(khoa@) == Some(g@),
            r is None ==> self@.truong(khoa@) is None,
    {
        match self {
            GiaTri::DoiTuong(v) => {
                let ghost ts = self@->DoiTuong_0;
                let mut i: usize = 0;
                while i < v.len()
                    invariant
                        *self == GiaTri::DoiTuong(*v),
                        ts == self@->DoiTuong_0,
                        ts.len() == v@.len(),
                        i <= v@.len(),
                        vi_tri_truong(ts, khoa@, 0) == vi_tri_truong(ts, khoa@, i as int),
                    decreases v@.len() - i,
                {
                    if chu::bang(v[i].0.as_str(), khoa) {
                        return Some(&v[i].1);
                    }
                    i = i + 1;
                }
                None
            },
            _ => None,
        }
    }

    pub fn la_chuoi(&self) -> (r: Option<&str>)
        ensures
            chu_muon(r) == self@.la_chuoi(),
    {
        match self {
            GiaTri::Chuoi(s) => Some(s.as_str()),
            _ => None,
        }
    }

    pub fn la_bool(&self) -> (r: Option<bool>)
        ensures
            r == self@.la_bool(),
    {
        match self {
            GiaTri::Bool(b) => Some(*b),
            _ => None,
        }
    }

    /// The text of the field called `khoa`.
    pub fn chuoi(&self, khoa: &str) -> (r: Option<&str>)
        ensures
            chu_muon(r) == self@.chuoi(khoa@),
    {
        match self.truong(khoa) {
            Some(g) => g.la_chuoi(),
            None => None,
        }
    }

    pub fn bool_cua(&self, khoa: &str) -> (r: Option<bool>)
        ensures
            r == self@.bool_cua(khoa@),
    {
        match self.truong(khoa) {
            Some(g) => g.la_bool(),
            None => None,
        }
    }
}

/// Adds a field at the end of an object under construction.
pub fn them_truong(v: &mut Vec<(String, GiaTri)>, khoa: &str, gt: GiaTri)
    ensures
        cac_truong(final(v)@) == cac_truong(old(v)@).push((khoa@, gt@)),
{
    let ghost truoc = v@;
    v.push((khoa.to_owned(), gt));
    assert(cac_truong(v@) =~= cac_truong(truoc).push((khoa@, gt@)));
}

/// Adds a text field where there is a text, and nothing otherwise.
pub fn them_chu_neu(v: &mut Vec<(String, GiaTri)>, khoa: &str, gt: Option<&str>)
    ensures
        gt matches Some(s) ==> cac_truong(final(v)@) == cac_truong(old(v)@).push((khoa@, Gt::Chuoi(s@))),
        gt is None ==> cac_truong(final(v)@) == cac_truong(old(v)@),
{
    if let Some(s) = gt {
        them_truong(v, khoa, GiaTri::tu_chu(s));
    }
}

/// A field of an object is the first of its name; there is one exactly where the object has a field of that name,
/// and a value of another kind has none. Read as a text or as a yes or no it is one only where it is of that kind.
pub proof fn truong_la_truong_dau(v: Seq<(Seq<char>, Gt)>, khoa: Seq<char>, i: int)
    requires
        0 <= i < v.len(),
    ensures
        (forall|k: int| 0 <= k < i ==> (#[trigger] v[k]).0 != khoa) && v[i].0 == khoa ==> Gt::DoiTuong(v).truong(khoa) == Some(
            v[i].1,
        ),
        (forall|k: int| 0 <= k < v.len() ==> (#[trigger] v[k]).0 != khoa) ==> Gt::DoiTuong(v).truong(khoa) is None,
        Gt::DoiTuong(v).truong(khoa) matches Some(Gt::Chuoi(s)) ==> Gt::DoiTuong(v).chuoi(khoa) == Some(s),
        Gt::DoiTuong(v).truong(khoa) matches Some(Gt::Bool(b)) ==> Gt::DoiTuong(v).bool_cua(khoa) == Some(b) && Gt::DoiTuong(
            v,
        ).chuoi(khoa) is None,
        Gt::Rong.truong(khoa) is None,
{
    truong_tu(v, khoa, 0, i);
}

proof fn truong_tu(v: Seq<(Seq<char>, Gt)>, khoa: Seq<char>, tu: int, i: int)
    requires
        0 <= tu <= i < v.len(),
    ensures
        (forall|k: int| tu <= k < i ==> (#[trigger] v[k]).0 != khoa) && v[i].0 == khoa ==> vi_tri_truong(v, khoa, tu) == Some(i),
        (forall|k: int| tu <= k < v.len() ==> (#[trigger] v[k]).0 != khoa) ==> vi_tri_truong(v, khoa, tu) is None,
    decreases v.len() - tu,
{
    if v[tu].0 != khoa {
        if tu < i {
            truong_tu(v, khoa, tu + 1, i);
        } else if tu + 1 < v.len() {
            truong_tu(v, khoa, tu + 1, tu + 1);
        }
    }
}

/// The view of an optional text is there exactly where the text is, and is that text.
pub proof fn view_chu(o: Option<String>, p: Option<&str>)
    ensures
        o matches Some(s) ==> chu_cua(o) == Some(s@),
        o is None ==> chu_cua(o) is None,
        p matches Some(s) ==> chu_muon(p) == Some(s@),
        p is None ==> chu_muon(p) is None,
{
}

} // verus!
