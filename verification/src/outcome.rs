//! Results in contracts: what a function hands back, held against what it
//! should, each side by its view.

use vstd::prelude::*;

verus! {

/// `got` is the result `expected`, each side by its view.
pub open spec fn agrees<T: View, E: View>(got: Result<T, E>, expected: Result<T::V, E::V>) -> bool {
    match expected {
        Ok(value) => got matches Ok(v) && v@ == value,
        Err(error) => got matches Err(e) && e@ == error,
    }
}

} // verus!
