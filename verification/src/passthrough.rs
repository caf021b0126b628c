//! The neutral build mode: no transformation at all.
//!
//! When neither the compute pass nor the emit pass is selected, a
//! decorated declaration is handed back unchanged, so the program still
//! compiles under tooling that resolves no pass at all.

use vstd::prelude::*;

verus! {

/// Neutral-mode rewrite of a decorated function: the declaration's
/// source is returned unchanged.
pub fn const_fn(_attr: String, item: String) -> (r: String)
    ensures
        r == item,
{
    item
}

/// Neutral-mode rewrite of the designated entry point: the
/// declaration's source is returned unchanged.
pub fn main_fn(_attr: String, item: String) -> (r: String)
    ensures
        r == item,
{
    item
}

} // verus!
