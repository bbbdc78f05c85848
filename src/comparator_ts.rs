//! Holder and callbacks of the timestamp-aware comparator, for keys that are
//! a user key with an optional trailing timestamp.
use std::cmp::Ordering;
use vstd::prelude::*;

use crate::comparator::{accepts_all, lowered_result};
use crate::name::{is_terminated_name, nul_free, terminated_name, NulError};
use crate::three_way::{ordering_to_c_int, ordering_value};

verus! {

/// `h` accepts every pair of flagged byte spans.
pub open spec fn accepts_all_flagged<H: Fn(&[u8], bool, &[u8], bool) -> Ordering>(h: H) -> bool {
    forall|a: &[u8], a_ts: bool, b: &[u8], b_ts: bool| #[trigger] h.requires((a, a_ts, b, b_ts))
}

/// `r` is a value that a callback may return for `h` on the flagged spans
/// `(a, a_ts)` and `(b, b_ts)`: the integer of an ordering that `h` may return
/// for them.
pub open spec fn lowered_flagged_result<H: Fn(&[u8], bool, &[u8], bool) -> Ordering>(
    h: H,
    a: &[u8],
    a_ts: bool,
    b: &[u8],
    b_ts: bool,
    r: int,
) -> bool {
    exists|o: Ordering| #[trigger] h.ensures((a, a_ts, b, b_ts), o) && r == ordering_value(o)
}

/// Every ordering that `h` may return on `(a, a_ts)` and `(b, b_ts)` is `o`.
pub open spec fn flagged_returns_only<H: Fn(&[u8], bool, &[u8], bool) -> Ordering>(
    h: H,
    a: &[u8],
    a_ts: bool,
    b: &[u8],
    b_ts: bool,
    o: Ordering,
) -> bool {
    forall|o2: Ordering| #[trigger] h.ensures((a, a_ts, b, b_ts), o2) ==> o2 == o
}

/// The context that the engine hands back on every call of the
/// timestamp-aware comparator: the comparator's name, stored nul-terminated,
/// and three ordering functions of the host: on full keys, on timestamps
/// alone, and on user keys flagged with whether each carries a timestamp.
pub struct ComparatorWithTSCallback<F, G, H> where
    F: Fn(&[u8], &[u8]) -> Ordering,
    G: Fn(&[u8], &[u8]) -> Ordering,
    H: Fn(&[u8], bool, &[u8], bool) -> Ordering,
 {
    name: Vec<u8>,
    compare: F,
    compare_ts: G,
    compare_without_ts: H,
}

impl<F, G, H> ComparatorWithTSCallback<F, G, H> where
    F: Fn(&[u8], &[u8]) -> Ordering,
    G: Fn(&[u8], &[u8]) -> Ordering,
    H: Fn(&[u8], bool, &[u8], bool) -> Ordering,
 {
    #[verifier::type_invariant]
    spec fn inv(self) -> bool {
        &&& is_terminated_name(self.name@)
        &&& accepts_all(self.compare)
        &&& accepts_all(self.compare_ts)
        &&& accepts_all_flagged(self.compare_without_ts)
    }

    /// The comparator's name, without its terminating nul.
    pub closed spec fn name_spec(&self) -> Seq<u8> {
        self.name@.drop_last()
    }

    /// The host's ordering on full keys.
    pub closed spec fn compare_func(&self) -> F {
        self.compare
    }

    /// The host's ordering on timestamps.
    pub closed spec fn compare_ts_func(&self) -> G {
        self.compare_ts
    }

    /// The host's ordering on flagged user keys.
    pub closed spec fn compare_without_ts_func(&self) -> H {
        self.compare_without_ts
    }

    /// Builds the holder for `name` and the three ordering functions. The
    /// name is refused, with the index of its first nul byte, exactly when it
    /// holds a nul byte.
    pub fn new(name: &[u8], compare: F, compare_ts: G, compare_without_ts: H) -> (r: Result<
        Self,
        NulError,
    >)
        requires
            accepts_all(compare),
            accepts_all(compare_ts),
            accepts_all_flagged(compare_without_ts),
        ensures
            r is Ok <==> nul_free(name@),
            r matches Ok(h) ==> h.name_spec() == name@ && h.compare_func() == compare
                && h.compare_ts_func() == compare_ts && h.compare_without_ts_func()
                == compare_without_ts,
            r matches Err(e) ==> e.position < name@.len() && name@[e.position as int] == 0u8
                && nul_free(name@.take(e.position as int)),
    {
        match terminated_name(name) {
            Ok(v) => {
                proof {
                    assert(v@.drop_last() == name@);
                }
                Ok(ComparatorWithTSCallback { name: v, compare, compare_ts, compare_without_ts })
            },
            Err(e) => Err(e),
        }
    }
}

/// Releases the holder and everything that its ordering functions own.
pub fn destructor_with_ts_callback<F, G, H>(cb: ComparatorWithTSCallback<F, G, H>) where
    F: Fn(&[u8], &[u8]) -> Ordering,
    G: Fn(&[u8], &[u8]) -> Ordering,
    H: Fn(&[u8], bool, &[u8], bool) -> Ordering,
 {
    // `cb` is owned here and goes out of scope at the end of the body.
    let _released = cb;
}

/// The comparator's name followed by its terminating nul, borrowed from the
/// holder.
pub fn name_with_ts_callback<F, G, H>(cb: &ComparatorWithTSCallback<F, G, H>) -> (r: &[u8]) where
    F: Fn(&[u8], &[u8]) -> Ordering,
    G: Fn(&[u8], &[u8]) -> Ordering,
    H: Fn(&[u8], bool, &[u8], bool) -> Ordering,

    ensures
        r@ == cb.name_spec().push(0u8),
        nul_free(cb.name_spec()),
{
    proof {
        use_type_invariant(cb);
        assert(cb.name@ == cb.name@.drop_last().push(0u8));
    }
    cb.name.as_slice()
}

/// Orders the full keys `a` and `b` with the host's function and lowers the
/// result to -1, 0 or 1.
pub fn compare_with_ts_compare_callback<F, G, H>(
    cb: &ComparatorWithTSCallback<F, G, H>,
    a: &[u8],
    b: &[u8],
) -> (r: libc::c_int) where
    F: Fn(&[u8], &[u8]) -> Ordering,
    G: Fn(&[u8], &[u8]) -> Ordering,
    H: Fn(&[u8], bool, &[u8], bool) -> Ordering,

    ensures
        lowered_result(cb.compare_func(), a, b, r as int),
        -1 <= r <= 1,
{
    proof {
        use_type_invariant(cb);
        assert(cb.compare.requires((a, b)));
    }
    let o = (cb.compare)(a, b);
    ordering_to_c_int(o)
}

/// Orders the timestamps `ts1` and `ts2` with the host's function and lowers
/// the result to -1, 0 or 1.
pub fn compare_with_ts_compare_ts_callback<F, G, H>(
    cb: &ComparatorWithTSCallback<F, G, H>,
    ts1: &[u8],
    ts2: &[u8],
) -> (r: libc::c_int) where
    F: Fn(&[u8], &[u8]) -> Ordering,
    G: Fn(&[u8], &[u8]) -> Ordering,
    H: Fn(&[u8], bool, &[u8], bool) -> Ordering,

    ensures
        lowered_result(cb.compare_ts_func(), ts1, ts2, r as int),
        -1 <= r <= 1,
{
    proof {
        use_type_invariant(cb);
        assert(cb.compare_ts.requires((ts1, ts2)));
    }
    let o = (cb.compare_ts)(ts1, ts2);
    ordering_to_c_int(o)
}

/// Orders the user keys `a` and `b` with the host's function, telling it
/// whether each carries a timestamp: a flag byte is set when it is not 0.
/// The result is lowered to -1, 0 or 1.
pub fn compare_with_ts_compare_without_ts_callback<F, G, H>(
    cb: &ComparatorWithTSCallback<F, G, H>,
    a: &[u8],
    a_has_ts: libc::c_uchar,
    b: &[u8],
    b_has_ts: libc::c_uchar,
) -> (r: libc::c_int) where
    F: Fn(&[u8], &[u8]) -> Ordering,
    G: Fn(&[u8], &[u8]) -> Ordering,
    H: Fn(&[u8], bool, &[u8], bool) -> Ordering,

    ensures
        lowered_flagged_result(
            cb.compare_without_ts_func(),
            a,
            a_has_ts != 0,
            b,
            b_has_ts != 0,
            r as int,
        ),
        -1 <= r <= 1,
{
    let a_ts: bool = a_has_ts != 0;
    let b_ts: bool = b_has_ts != 0;
    proof {
        use_type_invariant(cb);
        assert(cb.compare_without_ts.requires((a, a_ts, b, b_ts)));
    }
    let o = (cb.compare_without_ts)(a, a_ts, b, b_ts);
    ordering_to_c_int(o)
}

/// Flags are forwarded unchanged: for each of the four combinations of the
/// flag bytes being set, the callback returns exactly the integer of what the
/// host's function returns on the user keys with those two flags.
pub proof fn lemma_flags_forwarded<F, G, H>(
    h: ComparatorWithTSCallback<F, G, H>,
    a: &[u8],
    a_has_ts: libc::c_uchar,
    b: &[u8],
    b_has_ts: libc::c_uchar,
    o: Ordering,
    r: int,
) where
    F: Fn(&[u8], &[u8]) -> Ordering,
    G: Fn(&[u8], &[u8]) -> Ordering,
    H: Fn(&[u8], bool, &[u8], bool) -> Ordering,

    requires
        flagged_returns_only(h.compare_without_ts_func(), a, a_has_ts != 0, b, b_has_ts != 0, o),
        lowered_flagged_result(
            h.compare_without_ts_func(),
            a,
            a_has_ts != 0,
            b,
            b_has_ts != 0,
            r,
        ),
    ensures
        r == ordering_value(o),
{
}

} // verus!
