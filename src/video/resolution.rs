//! The size decoded frames are scaled to is a picture resolution, with the
//! same checking constructor: both dimensions must be above zero.

pub use crate::picture::resolution::error::ResolutionError;
pub use crate::picture::resolution::{GetResolution, Resolution};
