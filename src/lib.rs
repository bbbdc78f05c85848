//! Safe, verified core of comparator callbacks for an embedded storage engine.
//!
//! A host application registers ordering logic with the engine as a holder
//! object: a nul-terminated name plus one or three ordering closures. The
//! engine calls back through an opaque context handle; the functions here are
//! what each callback does once the handle and the raw key spans have been
//! turned back into references.

pub mod three_way;
pub mod name;
pub mod comparator;
pub mod comparator_ts;

pub use comparator::{
    compare_callback, destructor_callback, name_callback, ComparatorCallback,
};
pub use comparator_ts::{
    compare_with_ts_compare_callback, compare_with_ts_compare_ts_callback,
    compare_with_ts_compare_without_ts_callback, destructor_with_ts_callback,
    name_with_ts_callback, ComparatorWithTSCallback,
};
pub use name::NulError;
pub use three_way::ordering_to_c_int;
