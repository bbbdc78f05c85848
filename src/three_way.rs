//! Lowering of a three-way ordering to the signed-integer convention of the
//! engine's callback interface.
use std::cmp::Ordering;
use vstd::prelude::*;

verus! {

/// The integer that stands for `o` at the callback boundary:
/// `Less` is -1, `Equal` is 0, `Greater` is 1.
pub open spec fn ordering_value(o: Ordering) -> int {
    match o {
        Ordering::Less => -1,
        Ordering::Equal => 0,
        Ordering::Greater => 1,
    }
}

/// The ordering with its two sides swapped.
pub open spec fn ordering_reversed(o: Ordering) -> Ordering {
    match o {
        Ordering::Less => Ordering::Greater,
        Ordering::Equal => Ordering::Equal,
        Ordering::Greater => Ordering::Less,
    }
}

/// The one place where an ordering is turned into a callback result.
pub fn ordering_to_c_int(o: Ordering) -> (r: libc::c_int)
    ensures
        r as int == ordering_value(o),
        -1 <= r <= 1,
{
    match o {
        Ordering::Less => -1,
        Ordering::Equal => 0,
        Ordering::Greater => 1,
    }
}

/// Swapping the sides of an ordering negates its integer value.
pub proof fn lemma_reversed_value(o: Ordering)
    ensures
        ordering_value(ordering_reversed(o)) == -ordering_value(o),
{
}

} // verus!
