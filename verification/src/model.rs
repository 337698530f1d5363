//! Helpers shared by the contracts.

use vstd::prelude::*;

verus! {

/// The models of the items of a sequence.
pub open spec fn views<T: View>(items: Seq<T>) -> Seq<T::V> {
    items.map_values(|item: T| item@)
}

} // verus!
