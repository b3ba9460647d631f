//! Why a grid or a field cannot be built.

use vstd::prelude::*;

verus! {

/// A configuration that construction refuses. None of these is transient:
/// the same request fails again.
#[derive(Clone, Copy, Debug, PartialEq, Eq, Structural)]
pub enum GridError {
    /// The side is not a whole number of workgroups.
    Misaligned,
    /// The field's storage, four bytes a cell, does not fit in 32 bits.
    TooLarge,
    /// The number of draws handed in is not the number of cells.
    SeedMismatch,
}

} // verus!
