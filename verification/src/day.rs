//! Lists of values that are reasoned about by their views.
use vstd::prelude::*;

verus! {

/// The views of a list's items.
pub open spec fn xem<T: View>(s: Seq<T>) -> Seq<T::V> {
    s.map_values(|x: T| x@)
}

/// The view of an item that may be missing.
pub open spec fn xem_co<T: View>(o: Option<T>) -> Option<T::V> {
    match o {
        Some(x) => Some(x@),
        None => None,
    }
}

/// The items for which `p` holds, in order.
pub open spec fn giu<A>(s: Seq<A>, p: spec_fn(A) -> bool) -> Seq<A>
    decreases s.len(),
{
    if s.len() == 0 {
        Seq::empty()
    } else {
        let truoc = giu(s.drop_last(), p);
        if p(s.last()) {
            truoc.push(s.last())
        } else {
            truoc
        }
    }
}

/// How many items `p` holds for.
pub open spec fn dem<A>(s: Seq<A>, p: spec_fn(A) -> bool) -> nat
    decreases s.len(),
{
    if s.len() == 0 {
        0
    } else {
        dem(s.drop_last(), p) + (if p(s.last()) {
            1nat
        } else {
            0nat
        })
    }
}

/// The first position at or after `tu` of an item for which `p` holds.
pub open spec fn vi_tri<A>(s: Seq<A>, p: spec_fn(A) -> bool, tu: int) -> Option<int>
    decreases s.len() - tu,
{
    if tu < 0 || tu >= s.len() {
        None
    } else if p(s[tu]) {
        Some(tu)
    } else {
        vi_tri(s, p, tu + 1)
    }
}

/// What the search finds satisfies `p` and is the first; where it finds nothing there is none.
pub proof fn vi_tri_la_dau<A>(s: Seq<A>, p: spec_fn(A) -> bool, tu: int)
    requires
        0 <= tu,
    ensures
        vi_tri(s, p, tu) matches Some(i) ==> tu <= i < s.len() && p(s[i]) && forall|k: int| tu <= k < i ==> !p(s[k]),
        vi_tri(s, p, tu) is None ==> forall|k: int| tu <= k < s.len() ==> !p(s[k]),
    decreases s.len() - tu,
{
    if tu < s.len() && !p(s[tu]) {
        vi_tri_la_dau(s, p, tu + 1);
    }
}

/// Every item that is kept satisfies `p` and was there before; every item before that satisfies `p` is
/// kept.
pub proof fn giu_dung<A>(s: Seq<A>, p: spec_fn(A) -> bool)
    ensures
        giu(s, p).len() <= s.len(),
        forall|i: int| 0 <= i < giu(s, p).len() ==> p(#[trigger] giu(s, p)[i]) && s.contains(giu(s, p)[i]),
        forall|i: int| 0 <= i < s.len() && p(#[trigger] s[i]) ==> giu(s, p).contains(s[i]),
    decreases s.len(),
{
    if s.len() > 0 {
        let d = s.drop_last();
        giu_dung(d, p);
        let g = giu(s, p);
        let gd = giu(d, p);
        assert forall|i: int| 0 <= i < g.len() implies p(#[trigger] g[i]) && s.contains(g[i]) by {
            if i < gd.len() {
                assert(g[i] == gd[i]);
                let k = choose|k: int| 0 <= k < d.len() && d[k] == gd[i];
                assert(s[k] == g[i]);
            } else {
                assert(s[s.len() - 1] == g[i]);
            }
        }
        assert forall|i: int| 0 <= i < s.len() && p(#[trigger] s[i]) implies g.contains(s[i]) by {
            if i < d.len() {
                assert(d[i] == s[i]);
                assert(gd.contains(d[i]));
                let k = choose|k: int| 0 <= k < gd.len() && gd[k] == d[i];
                assert(g[k] == s[i]);
            } else {
                assert(g[g.len() - 1] == s[i]);
            }
        }
    }
}

/// Keeps the items whose mark in `b` is up; `p` says what the marks mean.
pub(crate) fn giu_lai<T: View>(v: &mut Vec<T>, b: &Vec<bool>, Ghost(p): Ghost<spec_fn(T::V) -> bool>)
    requires
        b@.len() == old(v)@.len(),
        forall|i: int| 0 <= i < b@.len() ==> #[trigger] b@[i] == p(old(v)@[i]@),
    ensures
        xem(final(v)@) == giu(xem(old(v)@), p),
{
    let ghost goc = v@;
    let ghost gx = xem(goc);
    let n: usize = b.len();
    let mut k: usize = 0;
    let mut i: usize = 0;
    assert(gx.subrange(0, 0) =~= Seq::empty());
    assert(xem(v@) =~= Seq::empty() + gx.subrange(0, n as int));
    while k < n
        invariant
            n == b@.len(),
            n == goc.len(),
            goc == old(v)@,
            gx == xem(goc),
            i <= k <= n,
            v@.len() == i + (n - k),
            forall|j: int| 0 <= j < b@.len() ==> #[trigger] b@[j] == p(old(v)@[j]@),
            xem(v@.subrange(0, i as int)) == giu(gx.subrange(0, k as int), p),
            v@.subrange(i as int, v@.len() as int) == goc.subrange(k as int, n as int),
        decreases n - k,
    {
        let ghost truoc = v@;
        assert(truoc[i as int] == goc[k as int]) by {
            assert(truoc.subrange(i as int, truoc.len() as int)[0] == truoc[i as int]);
        }
        assert(gx.subrange(0, k + 1).drop_last() =~= gx.subrange(0, k as int));
        assert(gx.subrange(0, k + 1).last() == goc[k as int]@);
        if b[k] {
            assert(truoc.subrange(0, i + 1) =~= truoc.subrange(0, i as int).push(goc[k as int]));
            assert(xem(truoc.subrange(0, i + 1)) =~= xem(truoc.subrange(0, i as int)).push(goc[k as int]@));
            assert(truoc.subrange(i + 1, truoc.len() as int) =~= goc.subrange(k + 1, n as int)) by {
                assert(truoc.subrange(i + 1, truoc.len() as int) =~= truoc.subrange(i as int, truoc.len() as int).subrange(
                    1,
                    truoc.len() - i,
                ));
                assert(goc.subrange(k + 1, n as int) =~= goc.subrange(k as int, n as int).subrange(1, n - k));
            }
            i = i + 1;
        } else {
            v.remove(i);
            assert(v@.subrange(0, i as int) =~= truoc.subrange(0, i as int));
            assert(v@.subrange(i as int, v@.len() as int) =~= goc.subrange(k + 1, n as int)) by {
                assert(v@.subrange(i as int, v@.len() as int) =~= truoc.subrange(i as int, truoc.len() as int).subrange(
                    1,
                    truoc.len() - i,
                ));
                assert(goc.subrange(k + 1, n as int) =~= goc.subrange(k as int, n as int).subrange(1, n - k));
            }
        }
        k = k + 1;
    }
    assert(gx.subrange(0, n as int) =~= gx);
    assert(v@.subrange(0, i as int) =~= v@);
}

/// What holds of every two items, in order, holds of every two that are kept.
pub proof fn giu_cap<A>(s: Seq<A>, p: spec_fn(A) -> bool, q: spec_fn(A, A) -> bool)
    requires
        forall|i: int, j: int| 0 <= i < j < s.len() ==> #[trigger] q(s[i], s[j]),
    ensures
        forall|i: int, j: int| 0 <= i < j < giu(s, p).len() ==> #[trigger] q(giu(s, p)[i], giu(s, p)[j]),
    decreases s.len(),
{
    if s.len() > 0 {
        let d = s.drop_last();
        assert forall|i: int, j: int| 0 <= i < j < d.len() implies #[trigger] q(d[i], d[j]) by {
            assert(q(s[i], s[j]));
        }
        giu_cap(d, p, q);
        giu_dung(d, p);
        let g = giu(s, p);
        let gd = giu(d, p);
        assert forall|i: int, j: int| 0 <= i < j < g.len() implies #[trigger] q(g[i], g[j]) by {
            if j < gd.len() {
                assert(q(gd[i], gd[j]));
            } else {
                assert(d.contains(gd[i]));
                let k = choose|k: int| 0 <= k < d.len() && d[k] == gd[i];
                assert(q(s[k], s[s.len() - 1]));
            }
        }
    }
}

/// What is kept of a sequence with one item more in front.
pub proof fn giu_them_dau<A>(t: A, s: Seq<A>, p: spec_fn(A) -> bool)
    ensures
        giu(seq![t] + s, p) == (if p(t) {
            seq![t] + giu(s, p)
        } else {
            giu(s, p)
        }),
    decreases s.len(),
{
    if s.len() == 0 {
        assert(seq![t] + s =~= seq![t]);
        assert(seq![t].drop_last() =~= Seq::empty());
        assert(giu(Seq::<A>::empty(), p) =~= Seq::empty());
        assert(giu(s, p) =~= Seq::empty());
        assert(giu(seq![t], p) =~= (if p(t) {
            seq![t]
        } else {
            Seq::empty()
        }));
        assert(seq![t] + giu(s, p) =~= seq![t]);
    } else {
        giu_them_dau(t, s.drop_last(), p);
        assert((seq![t] + s).drop_last() =~= seq![t] + s.drop_last());
        assert((seq![t] + s).last() == s.last());
        assert(giu(seq![t] + s, p) =~= (if p(t) {
            seq![t] + giu(s, p)
        } else {
            giu(s, p)
        }));
    }
}

/// Putting in an item for which `p` does not hold changes neither what is kept nor how many.
pub proof fn chen_khong_giu<A>(s: Seq<A>, k: int, x: A, p: spec_fn(A) -> bool)
    requires
        0 <= k <= s.len(),
        !p(x),
    ensures
        giu(s.insert(k, x), p) == giu(s, p),
        dem(s.insert(k, x), p) == dem(s, p),
    decreases s.len() - k,
{
    let t = s.insert(k, x);
    if k == s.len() {
        assert(t.drop_last() =~= s);
    } else {
        assert(t.last() == s.last());
        assert(t.drop_last() =~= s.drop_last().insert(k, x));
        chen_khong_giu(s.drop_last(), k, x, p);
    }
}

/// Everything is kept where `p` holds of everything.
pub proof fn giu_het<A>(s: Seq<A>, p: spec_fn(A) -> bool)
    requires
        forall|i: int| 0 <= i < s.len() ==> p(#[trigger] s[i]),
    ensures
        giu(s, p) == s,
    decreases s.len(),
{
    if s.len() > 0 {
        let d = s.drop_last();
        assert forall|i: int| 0 <= i < d.len() implies p(#[trigger] d[i]) by {
            assert(p(s[i]));
        }
        giu_het(d, p);
        assert(p(s[s.len() - 1]));
        assert(giu(s, p) =~= s);
    }
}

/// `p` holds for one item at most where it never holds for two.
pub proof fn dem_khong_qua_mot<A>(s: Seq<A>, p: spec_fn(A) -> bool)
    requires
        forall|i: int, j: int| 0 <= i < j < s.len() ==> !(p(#[trigger] s[i]) && p(#[trigger] s[j])),
    ensures
        dem(s, p) <= 1,
    decreases s.len(),
{
    if s.len() > 0 {
        let d = s.drop_last();
        assert forall|i: int, j: int| 0 <= i < j < d.len() implies !(p(#[trigger] d[i]) && p(#[trigger] d[j])) by {
            assert(!(p(s[i]) && p(s[j])));
        }
        dem_khong_qua_mot(d, p);
        if p(s.last()) {
            assert forall|i: int| 0 <= i < d.len() implies !p(#[trigger] d[i]) by {
                assert(!(p(s[i]) && p(s[s.len() - 1])));
            }
            dem_khong_co(d, p);
        }
    }
}

/// `p` holds for no item.
pub proof fn dem_khong_co<A>(s: Seq<A>, p: spec_fn(A) -> bool)
    requires
        forall|i: int| 0 <= i < s.len() ==> !p(#[trigger] s[i]),
    ensures
        dem(s, p) == 0,
    decreases s.len(),
{
    if s.len() > 0 {
        let d = s.drop_last();
        assert forall|i: int| 0 <= i < d.len() implies !p(#[trigger] d[i]) by {
            assert(!p(s[i]));
        }
        dem_khong_co(d, p);
        assert(!p(s[s.len() - 1]));
    }
}

} // verus!
