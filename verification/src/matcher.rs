//! The hash matcher: does a digest start with enough zero nibbles?

use crate::digits::{hex_encoding, nibble};
use vstd::prelude::*;

verus! {

/// A digest meets a difficulty when it has that many nibbles and its first
/// `difficulty` nibbles are all zero. Difficulty zero is met by every digest.
pub open spec fn has_zero_prefix(digest: Seq<u8>, difficulty: nat) -> bool {
    &&& difficulty <= 2 * digest.len()
    &&& forall|k: int| 0 <= k < difficulty ==> nibble(digest, k) == 0
}

/// Tests the leading nibbles of `digest` from left to right and stops at the
/// first one that is not zero. Nibbles past the first `difficulty` are never
/// looked at, so a digest with more leading zeros than asked still matches.
pub fn matches_difficulty(digest: &[u8], difficulty: u8) -> (hit: bool)
    ensures
        hit == has_zero_prefix(digest@, difficulty as nat),
{
    let wanted: usize = difficulty as usize;
    if (wanted + 1) / 2 > digest.len() {
        return false;
    }
    let mut k: usize = 0;
    while k < wanted
        invariant
            k <= wanted,
            wanted == difficulty,
            wanted <= 2 * digest.len(),
            forall|j: int| 0 <= j < k ==> nibble(digest@, j) == 0,
        decreases wanted - k,
    {
        let byte: u8 = digest[k / 2];
        let half: u8 = if k % 2 == 0 {
            byte / 16
        } else {
            byte % 16
        };
        if half != 0 {
            assert(nibble(digest@, k as int) != 0);
            return false;
        }
        k += 1;
    }
    true
}

/// A digest that meets a difficulty shows it in its hexadecimal text: the
/// text is long enough and its first `difficulty` characters are `'0'`; and
/// a digest whose text starts so meets the difficulty.
pub proof fn zero_prefix_shows_in_hex(digest: Seq<u8>, difficulty: nat)
    ensures
        has_zero_prefix(digest, difficulty) <==> {
            &&& difficulty <= hex_encoding(digest).len()
            &&& forall|k: int| 0 <= k < difficulty ==> hex_encoding(digest)[k] == '0'
        },
{
    if difficulty <= 2 * digest.len() {
        assert forall|k: int| 0 <= k < difficulty implies (nibble(digest, k) == 0
            <==> hex_encoding(digest)[k] == '0') by {
            assert(0 <= nibble(digest, k) < 16);
        }
    }
}

/// Difficulty zero asks for nothing: every digest meets it.
pub proof fn zero_difficulty_always_matches(digest: Seq<u8>)
    ensures
        has_zero_prefix(digest, 0),
{
}

/// The verdict depends on nothing but the digest's bytes and the difficulty:
/// digests that agree byte for byte get the same verdict.
pub proof fn verdict_depends_on_inputs_only(a: Seq<u8>, b: Seq<u8>, difficulty: nat)
    requires
        a.len() == b.len(),
        forall|i: int| 0 <= i < a.len() ==> a[i] == b[i],
    ensures
        has_zero_prefix(a, difficulty) == has_zero_prefix(b, difficulty),
{
    assert(a =~= b);
}

} // verus!
