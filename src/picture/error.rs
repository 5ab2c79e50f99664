use vstd::prelude::*;

use crate::error::FFIError;

verus! {

/// What went wrong while making or filling a picture.
#[derive(Debug, Clone, Copy, PartialEq, Eq)]
pub enum PictureError {
    /// The native allocator refused the buffer.
    Construct(FFIError),
    /// The decoded frame's format maps to no supported pixel layout.
    UnsupportedFormat,
    /// The decoded frame could not be copied (a negative row pitch).
    Decode,
}

} // verus!
