use vstd::prelude::*;

use crate::error::FFIError;
use crate::picture::error::PictureError;
use crate::picture::resolution::Resolution;
use crate::scoring::VmafScoringError;

verus! {

/// Every way a scoring session can fail.
#[derive(Debug, Clone, PartialEq, Eq)]
pub enum VmafError {
    /// The native context could not be initialised.
    Construct(FFIError),
    /// The engine refused the frame pair at this index.
    ReadFrame(u32, FFIError),
    /// The engine could not finish the buffered feature computation.
    ClearFrame(FFIError),
    /// The two sequences hold different numbers of frames (reference, distorted).
    MismatchedFrameCount(usize, usize),
    /// The two sequences have different resolutions (reference, distorted).
    MismatchedResolution(Resolution, Resolution),
    /// A decoded frame could not be turned into a picture.
    Picture(PictureError),
    /// The engine failed while using the model.
    Model(VmafScoringError),
}

} // verus!
