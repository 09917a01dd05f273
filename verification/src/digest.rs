//! The BLAKE2b digest, computed by the `blake2` crate.

use blake2::digest::{Update, VariableOutput};
use blake2::VarBlake2b;
use vstd::prelude::*;

verus! {

/// The unkeyed BLAKE2b digest of `data` with an output of `output_size` bytes.
///
/// The value is whatever the `blake2` crate computes; nothing is said here of
/// its bytes beyond their number, which `blake2b_digest` states.
pub uninterp spec fn blake2b(data: Seq<u8>, output_size: usize) -> Seq<u8>;

/// Largest output, in bytes, that BLAKE2b can be configured for.
pub const MAX_OUTPUT_SIZE: usize = 64;

/// Runs `blake2::VarBlake2b` over `data`: `VariableOutput::new` with
/// `output_size`, one `Update::update` with all of `data`, then
/// `VariableOutput::finalize_boxed`.
///
/// Trusted, not proved: the bytes returned are the digest named `blake2b`,
/// and there are exactly `output_size` of them. `new` refuses an output size
/// of zero or above 64, which the precondition leaves out.
#[verifier::external_body]
pub(crate) fn blake2b_digest(data: &[u8], output_size: usize) -> (digest: Vec<u8>)
    requires
        1 <= output_size <= MAX_OUTPUT_SIZE,
    ensures
        digest@ == blake2b(data@, output_size),
        digest@.len() == output_size,
{
    let mut hasher = VarBlake2b::new(output_size).unwrap();
    hasher.update(data);
    hasher.finalize_boxed().into_vec()
}

} // verus!
