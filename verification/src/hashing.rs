//! SHA-1 digests of candidate messages.

use sha1::{Digest, Sha1};
use vstd::prelude::*;
use vstd::string::StringSliceAdditionalSpecFns;
use vstd::utf8::encode_utf8;

verus! {

/// The number of bytes in a digest.
pub const DIGEST_BYTES: usize = 20;

/// The SHA-1 digest of a byte string, as the `sha1` crate computes it. The
/// algorithm is not written out here: the name stands for its result.
pub uninterp spec fn sha1(data: Seq<u8>) -> Seq<u8>;

/// The digest of a text: SHA-1 over its UTF-8 bytes.
pub open spec fn text_digest(text: Seq<char>) -> Seq<u8> {
    sha1(encode_utf8(text))
}

/// Calls `Digest::digest` of the `sha1` crate on `data`. Trusted, not proved:
/// the result is the SHA-1 digest of `data`, a function of those bytes alone,
/// and it is twenty bytes long.
#[verifier::external_body]
fn sha1_digest(data: &[u8]) -> (digest: Vec<u8>)
    ensures
        digest@ == sha1(data@),
        digest@.len() == DIGEST_BYTES,
{
    Sha1::digest(data).to_vec()
}

/// Hashes a text as its UTF-8 bytes.
pub fn digest_text(text: &str) -> (digest: Vec<u8>)
    ensures
        digest@ == text_digest(text@),
        digest@.len() == DIGEST_BYTES,
{
    sha1_digest(text.as_bytes())
}

} // verus!
