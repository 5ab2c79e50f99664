use vstd::prelude::*;

verus! {

/// How the engine aggregates per-frame scores over a range of frames.
#[derive(Debug, Clone, Copy, PartialEq, Eq, Structural)]
pub enum PoolingMethod {
    Min,
    Max,
    Mean,
    HarmonicMean,
}

/// A failure of the engine while using a model, with the model's identifier.
#[derive(Debug, Clone, PartialEq, Eq)]
pub enum VmafScoringError {
    /// The model's features could not be registered on a context.
    Load(Option<String>),
    /// No pooled score could be read.
    GetScore(Option<String>),
    /// No score could be read for the frame at this index.
    GetScoreIndex(Option<String>, u32),
}

} // verus!
