use vstd::prelude::*;

use self::error::ResolutionError;

pub mod error;

verus! {

/// The dimensions of a picture, both strictly positive.
#[derive(Debug, Clone, Copy, PartialEq, Eq, Structural)]
pub struct Resolution {
    width: usize,
    height: usize,
}

impl Resolution {
    /// Both dimensions are strictly positive.
    #[verifier::type_invariant]
    spec fn positive(self) -> bool {
        self.width > 0 && self.height > 0
    }

    pub closed spec fn spec_width(&self) -> usize {
        self.width
    }

    pub closed spec fn spec_height(&self) -> usize {
        self.height
    }

    /// Builds a resolution from its width and height, refusing a zero dimension.
    pub fn new(w: u32, h: u32) -> (r: Result<Resolution, ResolutionError>)
        ensures
            (w > 0 && h > 0) <==> r is Ok,
            r matches Ok(res) ==> res.spec_width() == w as usize && res.spec_height() == h as usize,
            r matches Err(e) ==> e == (ResolutionError::InvalidResolution { width: w, height: h }),
    {
        let width: usize = match usize::try_from(w) {
            Ok(n) => n,
            Err(e) => {
                return Err(ResolutionError::IntConversion(e));
            },
        };
        let height: usize = match usize::try_from(h) {
            Ok(n) => n,
            Err(e) => {
                return Err(ResolutionError::IntConversion(e));
            },
        };
        if w == 0 || h == 0 {
            return Err(ResolutionError::InvalidResolution { width: w, height: h });
        }
        Ok(Resolution { width, height })
    }

    /// The width, above zero.
    pub fn width(&self) -> (r: usize)
        ensures
            r == self.spec_width(),
            r > 0,
    {
        proof {
            use_type_invariant(self);
        }
        self.width
    }

    /// The height, above zero.
    pub fn height(&self) -> (r: usize)
        ensures
            r == self.spec_height(),
            r > 0,
    {
        proof {
            use_type_invariant(self);
        }
        self.height
    }
}

/// Anything that has a resolution.
pub trait GetResolution {
    spec fn spec_resolution(&self) -> Resolution;

    fn get_resolution(&self) -> (r: &Resolution)
        ensures
            *r == self.spec_resolution(),
    ;

    fn get_width(&self) -> (r: usize)
        ensures
            r == self.spec_resolution().spec_width(),
    {
        self.get_resolution().width()
    }

    fn get_height(&self) -> (r: usize)
        ensures
            r == self.spec_resolution().spec_height(),
    {
        self.get_resolution().height()
    }
}

impl GetResolution for Resolution {
    open spec fn spec_resolution(&self) -> Resolution {
        *self
    }

    fn get_resolution(&self) -> (r: &Resolution) {
        self
    }
}

} // verus!
