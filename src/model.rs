use vstd::prelude::*;
use vstd::string::StringSliceAdditionalSpecFns;

use crate::cstr::nul_terminated;
use crate::error::FFIError;
use crate::scoring::VmafScoringError;

use self::error::ModelError;

pub mod config;
pub mod error;

verus! {

/// What an optional identifier reads as.
pub open spec fn identifier_view(id: Option<String>) -> Option<Seq<char>> {
    match id {
        Some(v) => Some(v@),
        None => None,
    }
}

/// A model's version name or file path together with its zero-terminated
/// bytes, as the native loader reads them. It holds no zero byte but the
/// terminating one, so it only exists for names the loader can be given.
pub struct ModelName {
    text: String,
    encoded: Vec<u8>,
}

impl ModelName {
    #[verifier::type_invariant]
    spec fn terminated_once(self) -> bool {
        &&& self.encoded@.len() > 0
        &&& self.encoded@.last() == 0u8
        &&& !self.encoded@.drop_last().contains(0u8)
    }

    /// The name as text.
    pub closed spec fn spec_text(&self) -> Seq<char> {
        self.text@
    }

    /// The name's bytes with the terminating zero.
    pub closed spec fn spec_encoded(&self) -> Seq<u8> {
        self.encoded@
    }

    fn encode(s: &str) -> (r: Option<ModelName>)
        ensures
            !s.spec_bytes().contains(0u8) <==> r is Some,
            r matches Some(n) ==> n.spec_text() == s@ && n.spec_encoded() == s.spec_bytes().push(0u8),
    {
        match nul_terminated(s) {
            Some(encoded) => {
                assert(encoded@.drop_last() =~= s.spec_bytes());
                Some(ModelName { text: s.to_owned(), encoded })
            },
            None => None,
        }
    }

    /// The zero-terminated bytes, to hand to the native loader: they end in
    /// the only zero byte they hold.
    pub fn as_bytes(&self) -> (r: &Vec<u8>)
        ensures
            r@ == self.spec_encoded(),
            r@.len() > 0 && r@.last() == 0u8 && !r@.drop_last().contains(0u8),
    {
        proof {
            use_type_invariant(self);
        }
        &self.encoded
    }

    fn into_text(self) -> (r: String)
        ensures
            r@ == self.spec_text(),
    {
        self.text
    }
}

/// A loaded native scoring model, named by its handle, with the identifier it
/// was loaded under: its version name, or the path it was read from.
pub struct Model {
    handle: u64,
    version: Option<String>,
}

impl Model {
    pub closed spec fn spec_handle(&self) -> u64 {
        self.handle
    }

    pub closed spec fn spec_version(&self) -> Option<Seq<char>> {
        identifier_view(self.version)
    }

    /// A version name checked for the native loader; a name holding a zero
    /// byte can name no model and is `Load` of that name.
    pub fn encode_version(version: &str) -> (r: Result<ModelName, ModelError>)
        ensures
            !version.spec_bytes().contains(0u8) <==> r is Ok,
            r matches Ok(n) ==> n.spec_text() == version@ && n.spec_encoded()
                == version.spec_bytes().push(0u8),
            r matches Err(e) ==> e matches ModelError::Load(s) && s@ == version@,
    {
        match ModelName::encode(version) {
            Some(name) => Ok(name),
            None => Err(ModelError::Load(version.to_owned())),
        }
    }

    /// A model file's path checked for the native loader; a path holding a
    /// zero byte cannot be passed on and is `Path` of that path.
    pub fn encode_path(path: &str) -> (r: Result<ModelName, ModelError>)
        ensures
            !path.spec_bytes().contains(0u8) <==> r is Ok,
            r matches Ok(n) ==> n.spec_text() == path@ && n.spec_encoded() == path.spec_bytes().push(
                0u8,
            ),
            r matches Err(e) ==> e matches ModelError::Path(s) && s@ == path@,
    {
        match ModelName::encode(path) {
            Some(name) => Ok(name),
            None => Err(ModelError::Path(path.to_owned())),
        }
    }

    /// Takes charge of a model the native loader resolved from a checked
    /// version name, given the loader's status: the model keeps the version
    /// name as its identifier, and a failure status is `Load` of that name.
    pub fn new(version: ModelName, status: i32, handle: u64) -> (r: Result<Model, ModelError>)
        ensures
            status == 0 <==> r is Ok,
            r matches Ok(m) ==> m.spec_handle() == handle && m.spec_version() == Some(
                version.spec_text(),
            ),
            r matches Err(e) ==> e matches ModelError::Load(s) && s@ == version.spec_text(),
    {
        let text = version.into_text();
        match FFIError::check_err(status) {
            Ok(()) => Ok(Model { handle, version: Some(text) }),
            Err(_) => Err(ModelError::Load(text)),
        }
    }

    /// Takes charge of a model the native loader read from a file named by a
    /// checked path, given the loader's status: the model keeps the path as
    /// its identifier, and a failure status is `Load` of that path.
    pub fn load_model(path: ModelName, status: i32, handle: u64) -> (r: Result<Model, ModelError>)
        ensures
            status == 0 <==> r is Ok,
            r matches Ok(m) ==> m.spec_handle() == handle && m.spec_version() == Some(
                path.spec_text(),
            ),
            r matches Err(e) ==> e matches ModelError::Load(s) && s@ == path.spec_text(),
    {
        let text = path.into_text();
        match FFIError::check_err(status) {
            Ok(()) => Ok(Model { handle, version: Some(text) }),
            Err(_) => Err(ModelError::Load(text)),
        }
    }

    /// The identifier the model was loaded under.
    pub fn version(&self) -> (r: Option<String>)
        ensures
            identifier_view(r) == self.spec_version(),
    {
        match &self.version {
            Some(v) => Some(v.clone()),
            None => None,
        }
    }

    /// The native model, to hand to a native call.
    pub fn as_handle(&self) -> (r: u64)
        ensures
            r == self.spec_handle(),
    {
        self.handle
    }

    /// Interprets the engine's status for registering this model's features on
    /// a context.
    pub fn load(&self, status: i32) -> (r: Result<(), VmafScoringError>)
        ensures
            status == 0 <==> r is Ok,
            r matches Err(e) ==> e matches VmafScoringError::Load(id) && identifier_view(id)
                == self.spec_version(),
    {
        match FFIError::check_err(status) {
            Ok(()) => Ok(()),
            Err(_) => Err(VmafScoringError::Load(self.version())),
        }
    }

    /// Interprets the engine's status for reading a pooled score with this model.
    pub fn get_score_pooled(&self, status: i32) -> (r: Result<(), VmafScoringError>)
        ensures
            status == 0 <==> r is Ok,
            r matches Err(e) ==> e matches VmafScoringError::GetScore(id) && identifier_view(id)
                == self.spec_version(),
    {
        match FFIError::check_err(status) {
            Ok(()) => Ok(()),
            Err(_) => Err(VmafScoringError::GetScore(self.version())),
        }
    }

    /// Interprets the engine's status for reading the score of one frame with
    /// this model.
    pub fn get_score_at_index(&self, index: u32, status: i32) -> (r: Result<(), VmafScoringError>)
        ensures
            status == 0 <==> r is Ok,
            r matches Err(e) ==> e matches VmafScoringError::GetScoreIndex(id, i) && i == index
                && identifier_view(id) == self.spec_version(),
    {
        match FFIError::check_err(status) {
            Ok(()) => Ok(()),
            Err(_) => Err(VmafScoringError::GetScoreIndex(self.version(), index)),
        }
    }
}

} // verus!
