//! The generated binding: a guest program's bytes with its image identifier,
//! and the Rust module that exposes them as constants.

use vstd::prelude::*;
use vstd::string::StringExecFns;
use crate::digest::{compute_image_id, image_id_of};

verus! {

/// Why a binding could not be generated from a located artifact.
#[derive(Clone, Copy, Debug, PartialEq, Eq, Structural)]
pub enum GenerationError {
    /// The artifact file is missing or cannot be read.
    ArtifactUnreadable,
    /// The digest function rejects the artifact's bytes.
    DigestFailure,
}

/// What a binding holds: its module name, the program bytes, and the
/// identifier words.
pub struct BindingView {
    pub name: Seq<char>,
    pub bytes: Seq<u8>,
    pub id: Seq<u32>,
}

/// A named guest program together with its image identifier. The identifier
/// is always the digest of the bytes held.
pub struct GeneratedBinding {
    name: String,
    bytes: Vec<u8>,
    id: [u32; 8],
}

impl View for GeneratedBinding {
    type V = BindingView;

    closed spec fn view(&self) -> BindingView {
        BindingView { name: self.name@, bytes: self.bytes@, id: self.id@ }
    }
}

impl GeneratedBinding {
    #[verifier::type_invariant]
    closed spec fn id_matches_bytes(&self) -> bool {
        image_id_of(self.bytes@) == Some(self.id@)
    }

    /// The name of the module that exposes the binding.
    pub fn name(&self) -> (r: &String)
        ensures
            r@ == self@.name,
    {
        &self.name
    }

    /// The program bytes, exactly as read.
    pub fn bytes(&self) -> (r: &Vec<u8>)
        ensures
            r@ == self@.bytes,
    {
        &self.bytes
    }

    /// The identifier; digesting the bytes held gives it back.
    pub fn id(&self) -> (r: [u32; 8])
        ensures
            r@ == self@.id,
            image_id_of(self@.bytes) == Some(r@),
    {
        proof {
            use_type_invariant(self);
        }
        self.id
    }
}

/// Binds `bytes` under `binding_name`, with the identifier that the digest
/// function derives from them.
pub fn generate(binding_name: String, bytes: Vec<u8>) -> (r: Result<GeneratedBinding, GenerationError>)
    ensures
        match image_id_of(bytes@) {
            None => r == Err::<GeneratedBinding, GenerationError>(GenerationError::DigestFailure),
            Some(id) => r is Ok && r->Ok_0@ == (BindingView { name: binding_name@, bytes: bytes@, id }),
        },
{
    match compute_image_id(bytes.as_slice()) {
        Ok(id) => Ok(GeneratedBinding { name: binding_name, bytes, id }),
        Err(_) => Err(GenerationError::DigestFailure),
    }
}

} // verus!
