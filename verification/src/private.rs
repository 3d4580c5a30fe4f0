//! The seal of the capability interfaces.

use vstd::prelude::*;

verus! {

/// Closes the capability interfaces: code outside this crate cannot name the
/// trait, so it cannot add a handle type of its own.
pub trait Sealed {
}

} // verus!
