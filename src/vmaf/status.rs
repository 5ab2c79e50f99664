use vstd::prelude::*;

verus! {

/// Progress of a scoring run, one report per unit of work: a `Decode` for
/// each frame pair read, then a `GetScore` for each score retrieved.
#[derive(Debug, Clone, Copy, PartialEq, Eq, Structural)]
pub enum VmafStatus {
    Decode,
    GetScore,
}

} // verus!
