//! Linux error numbers for the `powerpc` and `powerpc64` architectures.
//!
//! These architectures follow the generic numbering (see `generic`) with one
//! change: `EDEADLOCK` has a number of its own instead of aliasing `EDEADLK`.
use vstd::prelude::*;
use crate::table::Entry;

verus! {

/// File locking deadlock error
pub const EDEADLOCK: u16 = 58;

/// The names that this listing adds to the generic one, or renumbers.
/// A lookup reads them before the generic listing.
pub const TABLE: [Entry; 1] = [
    ("EDEADLOCK", EDEADLOCK),
];

} // verus!
