//! Holder and callbacks of the plain byte-order comparator.
use std::cmp::Ordering;
use vstd::prelude::*;

use crate::name::{is_terminated_name, nul_free, terminated_name, NulError};
use crate::three_way::{lemma_reversed_value, ordering_reversed, ordering_to_c_int, ordering_value};

verus! {

/// `f` accepts every pair of byte spans.
pub open spec fn accepts_all<F: Fn(&[u8], &[u8]) -> Ordering>(f: F) -> bool {
    forall|a: &[u8], b: &[u8]| #[trigger] f.requires((a, b))
}

/// `r` is a value that a callback may return for `f` on the spans `a` and `b`:
/// the integer of an ordering that `f` may return for them.
pub open spec fn lowered_result<F: Fn(&[u8], &[u8]) -> Ordering>(
    f: F,
    a: &[u8],
    b: &[u8],
    r: int,
) -> bool {
    exists|o: Ordering| #[trigger] f.ensures((a, b), o) && r == ordering_value(o)
}

/// Every ordering that `f` may return on `a` and `b` is `o`.
pub open spec fn returns_only<F: Fn(&[u8], &[u8]) -> Ordering>(
    f: F,
    a: &[u8],
    b: &[u8],
    o: Ordering,
) -> bool {
    forall|o2: Ordering| #[trigger] f.ensures((a, b), o2) ==> o2 == o
}

/// Whatever `f` returns on `a` and `b` is the reverse of whatever it returns
/// on `b` and `a`.
pub open spec fn antisymmetric_on<F: Fn(&[u8], &[u8]) -> Ordering>(
    f: F,
    a: &[u8],
    b: &[u8],
) -> bool {
    forall|o1: Ordering, o2: Ordering|
        #![trigger f.ensures((a, b), o1), f.ensures((b, a), o2)]
        f.ensures((a, b), o1) && f.ensures((b, a), o2) ==> o2 == ordering_reversed(o1)
}

/// The context that the engine hands back on every call of the plain
/// comparator: the comparator's name, stored nul-terminated, and the host's
/// ordering function.
pub struct ComparatorCallback<F> where F: Fn(&[u8], &[u8]) -> Ordering {
    name: Vec<u8>,
    f: F,
}

impl<F> ComparatorCallback<F> where F: Fn(&[u8], &[u8]) -> Ordering {
    #[verifier::type_invariant]
    spec fn inv(self) -> bool {
        &&& is_terminated_name(self.name@)
        &&& accepts_all(self.f)
    }

    /// The comparator's name, without its terminating nul.
    pub closed spec fn name_spec(&self) -> Seq<u8> {
        self.name@.drop_last()
    }

    /// The host's ordering function.
    pub closed spec fn func(&self) -> F {
        self.f
    }

    /// Builds the holder for `name` and `f`. The name is refused, with the
    /// index of its first nul byte, exactly when it holds a nul byte.
    pub fn new(name: &[u8], f: F) -> (r: Result<Self, NulError>)
        requires
            accepts_all(f),
        ensures
            r is Ok <==> nul_free(name@),
            r matches Ok(h) ==> h.name_spec() == name@ && h.func() == f,
            r matches Err(e) ==> e.position < name@.len() && name@[e.position as int] == 0u8
                && nul_free(name@.take(e.position as int)),
    {
        match terminated_name(name) {
            Ok(v) => {
                proof {
                    assert(v@.drop_last() == name@);
                }
                Ok(ComparatorCallback { name: v, f })
            },
            Err(e) => Err(e),
        }
    }
}

/// Releases the holder and everything that its ordering function owns.
pub fn destructor_callback<F>(cb: ComparatorCallback<F>) where F: Fn(&[u8], &[u8]) -> Ordering {
    // `cb` is owned here and goes out of scope at the end of the body.
    let _released = cb;
}

/// The comparator's name followed by its terminating nul, borrowed from the
/// holder.
pub fn name_callback<F>(cb: &ComparatorCallback<F>) -> (r: &[u8]) where
    F: Fn(&[u8], &[u8]) -> Ordering,

    ensures
        r@ == cb.name_spec().push(0u8),
        nul_free(cb.name_spec()),
{
    proof {
        use_type_invariant(cb);
        assert(cb.name@ == cb.name@.drop_last().push(0u8));
    }
    cb.name.as_slice()
}

/// Orders `a` against `b` with the host's function and lowers the result:
/// -1, 0 or 1 for `Less`, `Equal` or `Greater`.
pub fn compare_callback<F>(cb: &ComparatorCallback<F>, a: &[u8], b: &[u8]) -> (r: libc::c_int) where
    F: Fn(&[u8], &[u8]) -> Ordering,

    ensures
        lowered_result(cb.func(), a, b, r as int),
        -1 <= r <= 1,
{
    proof {
        use_type_invariant(cb);
        assert(cb.f.requires((a, b)));
    }
    let o = (cb.f)(a, b);
    ordering_to_c_int(o)
}

/// Name round trip: for a nul-free name `n`, once a holder is built with it,
/// the name callback's bytes are `n` copied byte for byte and then one nul,
/// and that nul is the only one.
pub proof fn lemma_name_round_trip<F>(n: Seq<u8>, h: ComparatorCallback<F>, r: Seq<u8>) where
    F: Fn(&[u8], &[u8]) -> Ordering,

    requires
        nul_free(n),
        h.name_spec() == n,
        r == h.name_spec().push(0u8),
    ensures
        r.len() == n.len() + 1,
        forall|i: int| 0 <= i < n.len() ==> r[i] == n[i],
        r[n.len() as int] == 0u8,
        forall|i: int| 0 <= i < r.len() && r[i] == 0u8 ==> i == n.len(),
{
}

/// Round trip: once a holder is built with the ordering function `f`, the
/// compare callback on `a` and `b` returns exactly the integer of `f(a, b)`
/// (-1 for `Less`, 0 for `Equal`, 1 for `Greater`).
pub proof fn lemma_compare_round_trip<F>(
    f: F,
    h: ComparatorCallback<F>,
    a: &[u8],
    b: &[u8],
    o: Ordering,
    r: int,
) where F: Fn(&[u8], &[u8]) -> Ordering
    requires
        h.func() == f,
        returns_only(f, a, b, o),
        lowered_result(h.func(), a, b, r),
    ensures
        r == ordering_value(o),
{
}

/// Antisymmetry: where the host's function orders `b` against `a` as the
/// reverse of `a` against `b`, the two compare callbacks return opposite
/// integers, so their signs are opposite too.
pub proof fn lemma_compare_antisymmetric<F>(
    h: ComparatorCallback<F>,
    a: &[u8],
    b: &[u8],
    r_ab: int,
    r_ba: int,
) where F: Fn(&[u8], &[u8]) -> Ordering
    requires
        antisymmetric_on(h.func(), a, b),
        lowered_result(h.func(), a, b, r_ab),
        lowered_result(h.func(), b, a, r_ba),
    ensures
        r_ba == -r_ab,
{
    let o1 = choose|o: Ordering| #[trigger] h.func().ensures((a, b), o) && r_ab == ordering_value(o);
    let o2 = choose|o: Ordering| #[trigger] h.func().ensures((b, a), o) && r_ba == ordering_value(o);
    lemma_reversed_value(o1);
}

/// Reflexivity: where the host's function finds `a` equal to itself, the
/// compare callback on `a` and `a` returns 0.
pub proof fn lemma_compare_reflexive<F>(h: ComparatorCallback<F>, a: &[u8], r: int) where
    F: Fn(&[u8], &[u8]) -> Ordering,

    requires
        returns_only(h.func(), a, a, Ordering::Equal),
        lowered_result(h.func(), a, a, r),
    ensures
        r == 0,
{
}

} // verus!
