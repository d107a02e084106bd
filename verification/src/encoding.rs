//! Base64 text for bytes that travel to the host. The encoding is left to
//! the `base64` crate; this module states, without proof, what its call
//! returns.

use vstd::prelude::*;
use base64::Engine;

verus! {

/// The text that `base64`'s standard engine, with padding, gives for bytes.
pub uninterp spec fn base64_standard(bytes: Seq<u8>) -> Seq<char>;

/// Calls `Engine::encode` of `base64::engine::general_purpose::STANDARD`.
/// Trusted: the result is the standard base64 text of the bytes, four
/// characters for every three bytes or part of three. The call panics
/// where that length does not fit `usize`, which the precondition rules
/// out.
#[verifier::external_body]
pub(crate) fn encode_base64(bytes: &Vec<u8>) -> (out: String)
    requires
        bytes@.len() / 3 * 4 + 4 <= usize::MAX,
    ensures
        out@ == base64_standard(bytes@),
        out@.len() == (bytes@.len() + 2) / 3 * 4,
{
    base64::engine::general_purpose::STANDARD.encode(bytes)
}

} // verus!
