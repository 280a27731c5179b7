//! The image identifier of a guest program, through `risc0_zkvm`.

use vstd::prelude::*;

verus! {

#[verifier::external_type_specification]
#[verifier::external_body]
pub struct ExAnyhowError(anyhow::Error);

/// The eight-word image identifier that `risc0_zkvm::compute_image_id`
/// derives from a program binary, or `None` where it rejects the binary.
pub uninterp spec fn image_id_of(program: Seq<u8>) -> Option<Seq<u32>>;

/// Relies on `risc0_zkvm::compute_image_id`, a function of the bytes alone,
/// and on the conversion of its `Digest` into eight words.
#[verifier::external_body]
pub(crate) fn compute_image_id(program: &[u8]) -> (r: Result<[u32; 8], anyhow::Error>)
    ensures
        r is Ok <==> image_id_of(program@) is Some,
        r matches Ok(id) ==> image_id_of(program@) == Some(id@),
{
    risc0_zkvm::compute_image_id(program).map(|d| d.into())
}

/// The identifier of a program is determined by its bytes: equal byte
/// sequences have the same identifier, and the same outcome of digesting.
pub proof fn lemma_digest_deterministic(a: Seq<u8>, b: Seq<u8>)
    requires
        a == b,
    ensures
        image_id_of(a) == image_id_of(b),
{
}

} // verus!
