use vstd::prelude::*;
use vstd::string::StringSliceAdditionalSpecFns;

use crate::cstr::nul_terminated;

verus! {

/// Options the native loader applies to a model.
#[derive(Debug, Clone, Copy, PartialEq, Eq, Structural)]
pub enum ModelFlags {
    Default,
    DisableClip,
    EnableTransform,
    DisableTransform,
}

impl ModelFlags {
    /// The native bit of each option.
    pub open spec fn spec_bits(&self) -> u64 {
        match self {
            ModelFlags::Default => 0,
            ModelFlags::DisableClip => 1,
            ModelFlags::EnableTransform => 2,
            ModelFlags::DisableTransform => 4,
        }
    }

    pub fn bits(&self) -> (r: u64)
        ensures
            r == self.spec_bits(),
    {
        match self {
            ModelFlags::Default => 0,
            ModelFlags::DisableClip => 1,
            ModelFlags::EnableTransform => 2,
            ModelFlags::DisableTransform => 4,
        }
    }
}

/// How a model is to be loaded: an optional name, zero-terminated for the
/// native loader, and the loader's options.
pub struct ModelConfig {
    name: Option<Vec<u8>>,
    flags: ModelFlags,
}

impl ModelConfig {
    pub closed spec fn spec_name(&self) -> Option<Seq<u8>> {
        match self.name {
            Some(v) => Some(v@),
            None => None,
        }
    }

    pub closed spec fn spec_flags(&self) -> ModelFlags {
        self.flags
    }

    /// A configuration with the given name and options; a name that holds a
    /// zero byte cannot be passed on and gives `None`.
    pub fn new(name: &str, flags: ModelFlags) -> (r: Option<ModelConfig>)
        ensures
            !name.spec_bytes().contains(0u8) <==> r is Some,
            r matches Some(c) ==> c.spec_name() == Some(name.spec_bytes().push(0u8))
                && c.spec_flags() == flags,
    {
        match nul_terminated(name) {
            Some(bytes) => Some(ModelConfig { name: Some(bytes), flags }),
            None => None,
        }
    }

    /// The zero-terminated name, if one was given.
    pub fn name_bytes(&self) -> (r: Option<&Vec<u8>>)
        ensures
            r matches Some(v) ==> self.spec_name() == Some(v@),
            r is None ==> self.spec_name() is None,
    {
        match &self.name {
            Some(v) => Some(v),
            None => None,
        }
    }

    pub fn flags(&self) -> (r: ModelFlags)
        ensures
            r == self.spec_flags(),
    {
        self.flags
    }
}

impl Default for ModelConfig {
    /// No name and the default options.
    fn default() -> (r: ModelConfig)
        ensures
            r.spec_name() is None,
            r.spec_flags() == ModelFlags::Default,
    {
        ModelConfig { name: None, flags: ModelFlags::Default }
    }
}

} // verus!
