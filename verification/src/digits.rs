//! Hexadecimal digits of bytes and byte strings.

use vstd::prelude::*;

verus! {

/// The lowercase character that stands for the digit value `value` in bases
/// up to sixteen. Values outside `0..16` have no digit; they map to `'f'`
/// only to keep the function total.
pub open spec fn digit_char(value: int) -> char {
    if value <= 0 {
        '0'
    } else if value == 1 {
        '1'
    } else if value == 2 {
        '2'
    } else if value == 3 {
        '3'
    } else if value == 4 {
        '4'
    } else if value == 5 {
        '5'
    } else if value == 6 {
        '6'
    } else if value == 7 {
        '7'
    } else if value == 8 {
        '8'
    } else if value == 9 {
        '9'
    } else if value == 10 {
        'a'
    } else if value == 11 {
        'b'
    } else if value == 12 {
        'c'
    } else if value == 13 {
        'd'
    } else if value == 14 {
        'e'
    } else {
        'f'
    }
}

/// Nibble `k` of a byte string, counted from the left: the high half of byte
/// `k / 2` when `k` is even, its low half when `k` is odd.
pub open spec fn nibble(bytes: Seq<u8>, k: int) -> int {
    if k % 2 == 0 {
        bytes[k / 2] as int / 16
    } else {
        bytes[k / 2] as int % 16
    }
}

/// The lowercase hexadecimal text of a byte string: two digits per byte, the
/// high nibble first.
pub open spec fn hex_encoding(bytes: Seq<u8>) -> Seq<char> {
    Seq::new(2 * bytes.len(), |k: int| digit_char(nibble(bytes, k)))
}

/// A hexadecimal text has two characters per byte, each a decimal digit or a
/// lowercase letter from `a` to `f`.
pub proof fn hex_encoding_is_lowercase(bytes: Seq<u8>)
    ensures
        hex_encoding(bytes).len() == 2 * bytes.len(),
        forall|k: int|
            0 <= k < hex_encoding(bytes).len() ==> {
                let c = #[trigger] hex_encoding(bytes)[k];
                ('0' <= c <= '9') || ('a' <= c <= 'f')
            },
{
    assert forall|k: int| 0 <= k < hex_encoding(bytes).len() implies {
        let c = #[trigger] hex_encoding(bytes)[k];
        ('0' <= c <= '9') || ('a' <= c <= 'f')
    } by {
        assert(0 <= nibble(bytes, k) < 16);
    }
}

/// The one-character text of a digit value.
pub fn digit_str(value: u8) -> (text: &'static str)
    ensures
        text@ == seq![digit_char(value as int)],
{
    proof {
        reveal_strlit("0");
        reveal_strlit("1");
        reveal_strlit("2");
        reveal_strlit("3");
        reveal_strlit("4");
        reveal_strlit("5");
        reveal_strlit("6");
        reveal_strlit("7");
        reveal_strlit("8");
        reveal_strlit("9");
        reveal_strlit("a");
        reveal_strlit("b");
        reveal_strlit("c");
        reveal_strlit("d");
        reveal_strlit("e");
        reveal_strlit("f");
    }
    let text: &'static str = if value == 0 {
        "0"
    } else if value == 1 {
        "1"
    } else if value == 2 {
        "2"
    } else if value == 3 {
        "3"
    } else if value == 4 {
        "4"
    } else if value == 5 {
        "5"
    } else if value == 6 {
        "6"
    } else if value == 7 {
        "7"
    } else if value == 8 {
        "8"
    } else if value == 9 {
        "9"
    } else if value == 10 {
        "a"
    } else if value == 11 {
        "b"
    } else if value == 12 {
        "c"
    } else if value == 13 {
        "d"
    } else if value == 14 {
        "e"
    } else {
        "f"
    };
    assert(text@ =~= seq![digit_char(value as int)]);
    text
}

/// Two lowercase hexadecimal digits for one byte, zero-padded.
pub fn tox(d: u8) -> (text: String)
    ensures
        text@ == seq![digit_char(d as int / 16), digit_char(d as int % 16)],
{
    let mut text: String = String::from_str(digit_str(d / 16));
    text.append(digit_str(d % 16));
    assert(text@ =~= seq![digit_char(d as int / 16), digit_char(d as int % 16)]);
    text
}

/// The lowercase hexadecimal text of `bytes`, two digits per byte.
pub fn hex_string(bytes: &[u8]) -> (text: String)
    ensures
        text@ == hex_encoding(bytes@),
{
    let mut text: String = String::new();
    let mut i: usize = 0;
    while i < bytes.len()
        invariant
            i <= bytes.len(),
            text@.len() == 2 * i,
            forall|k: int| 0 <= k < 2 * i ==> text@[k] == digit_char(nibble(bytes@, k)),
        decreases bytes.len() - i,
    {
        let pair: String = tox(bytes[i]);
        let ghost before = text@;
        text.append(pair.as_str());
        assert forall|k: int| 0 <= k < 2 * (i + 1) implies text@[k] == digit_char(
            nibble(bytes@, k),
        ) by {
            if k < 2 * i {
                assert(text@[k] == before[k]);
            } else {
                assert(text@[k] == pair@[k - 2 * i]);
            }
        }
        i += 1;
    }
    assert(text@ =~= hex_encoding(bytes@));
    text
}

} // verus!
