//! Candidate messages: the fixed message, a space, and a counter in decimal.

use crate::digits::{digit_char, digit_str};
use vstd::prelude::*;

verus! {

/// The decimal digits of `n`, most significant first, without leading zeros.
pub open spec fn decimal(n: nat) -> Seq<char>
    decreases n,
{
    if n < 10 {
        seq![digit_char(n as int)]
    } else {
        decimal(n / 10).push(digit_char((n % 10) as int))
    }
}

/// The text a worker hashes for `counter`.
pub open spec fn candidate_text(message: Seq<char>, counter: u64) -> Seq<char> {
    message + seq![' '] + decimal(counter as nat)
}

/// Appends the decimal digits of `n` to `text`.
pub fn append_decimal(text: &mut String, n: u64)
    ensures
        final(text)@ == old(text)@ + decimal(n as nat),
    decreases n,
{
    if n >= 10 {
        append_decimal(text, n / 10);
    }
    let ghost before = text@;
    text.append(digit_str((n % 10) as u8));
    assert(text@ =~= before.push(digit_char((n % 10) as int)));
    assert(text@ =~= old(text)@ + decimal(n as nat));
}

/// Builds `message + " " + counter`, the counter written in decimal.
pub fn candidate_message(message: &str, counter: u64) -> (candidate: String)
    ensures
        candidate@ == candidate_text(message@, counter),
{
    let mut candidate: String = String::from_str(message);
    proof {
        reveal_strlit(" ");
    }
    candidate.append(" ");
    assert(candidate@ =~= message@ + seq![' ']);
    append_decimal(&mut candidate, counter);
    candidate
}

} // verus!
