use vstd::prelude::*;

verus! {

/// Why a scoring model could not be loaded.
#[derive(Debug, Clone, PartialEq, Eq)]
pub enum ModelError {
    /// The native loader could not resolve the named model.
    Load(String),
    /// The path cannot be handed to the native loader.
    Path(String),
}

} // verus!
