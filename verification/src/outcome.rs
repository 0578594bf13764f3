//! Views of the optional and fallible values that pass between host and facade.

use vstd::prelude::*;

verus! {

/// The mathematical value of an optional value: the view of what it holds.
pub open spec fn option_view<T: View>(value: Option<T>) -> Option<T::V> {
    match value {
        Some(inner) => Some(inner@),
        None => None,
    }
}

/// The mathematical value of a fallible value: the view of what it holds on
/// either side.
pub open spec fn result_view<T: View, E: View>(value: Result<T, E>) -> Result<T::V, E::V> {
    match value {
        Ok(inner) => Ok(inner@),
        Err(error) => Err(error@),
    }
}

} // verus!
