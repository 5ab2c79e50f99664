use vstd::prelude::*;

verus! {

/// Why a pair of dimensions is not a usable resolution.
#[derive(Debug)]
pub enum ResolutionError {
    /// A dimension does not fit the platform's size type.
    IntConversion(core::num::TryFromIntError),
    /// A dimension is zero.
    InvalidResolution { width: u32, height: u32 },
}

} // verus!
