use vstd::prelude::*;

verus! {

/// The error number that a native status code stands for: the engine reports
/// failures as the negation of an OS error number.
pub open spec fn errno_of(code: i32) -> int {
    -(code as int)
}

/// A failure reported by the native engine, carrying the OS error number.
#[derive(Debug, Clone, Copy, PartialEq, Eq)]
pub struct FFIError {
    errno: i64,
}

impl FFIError {
    fn new(code: i32) -> (r: FFIError)
        ensures
            r.spec_errno() == errno_of(code),
    {
        FFIError { errno: -(code as i64) }
    }

    /// The OS error number of this failure.
    pub fn errno(&self) -> (r: i64)
        ensures
            r as int == self.spec_errno(),
    {
        self.errno
    }

    pub closed spec fn spec_errno(&self) -> int {
        self.errno as int
    }

    /// Interprets a native status code: success for exactly the zero code, and a
    /// failure carrying the negated code for every other one.
    pub fn check_err(code: i32) -> (r: Result<(), FFIError>)
        ensures
            code == 0 <==> r is Ok,
            r matches Err(e) ==> e.spec_errno() == errno_of(code),
    {
        if code == 0 {
            Ok(())
        } else {
            Err(FFIError::new(code))
        }
    }
}

} // verus!
