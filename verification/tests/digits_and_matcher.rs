use hashcash::candidate::{append_decimal, candidate_message};
use hashcash::digits::{digit_str, hex_string, tox};
use hashcash::hashing::{digest_text, DIGEST_BYTES};
use hashcash::matcher::matches_difficulty;

#[test]
fn tox_pads_small_bytes_with_a_zero() {
    assert_eq!(tox(0), "00");
    assert_eq!(tox(1), "01");
    assert_eq!(tox(9), "09");
    assert_eq!(tox(10), "0a");
    assert_eq!(tox(15), "0f");
}

#[test]
fn tox_writes_two_lowercase_digits() {
    assert_eq!(tox(16), "10");
    assert_eq!(tox(0x7f), "7f");
    assert_eq!(tox(0xab), "ab");
    assert_eq!(tox(0xf0), "f0");
    assert_eq!(tox(255), "ff");
}

#[test]
fn tox_agrees_with_std_formatting_on_every_byte() {
    for d in 0..=255u8 {
        assert_eq!(tox(d), format!("{:02x}", d));
    }
}

#[test]
fn digit_str_covers_all_sixteen_digits() {
    let digits = "0123456789abcdef";
    for value in 0..16u8 {
        let at = value as usize;
        assert_eq!(digit_str(value), &digits[at..at + 1]);
    }
}

#[test]
fn digit_str_maps_larger_values_to_the_top_digit() {
    assert_eq!(digit_str(16), "f");
    assert_eq!(digit_str(255), "f");
}

#[test]
fn hex_string_of_nothing_is_empty() {
    assert_eq!(hex_string(&[]), "");
}

#[test]
fn hex_string_keeps_byte_order_and_case() {
    assert_eq!(hex_string(&[0xde, 0xad, 0xbe, 0xef]), "deadbeef");
    assert_eq!(hex_string(&[0x00, 0x01, 0x10, 0xff]), "000110ff");
}

#[test]
fn matcher_accepts_everything_at_difficulty_zero() {
    assert!(matches_difficulty(&[0xff; 20], 0));
    assert!(matches_difficulty(&[0x00; 20], 0));
    assert!(matches_difficulty(&[], 0));
}

#[test]
fn matcher_reads_the_high_nibble_first() {
    assert!(matches_difficulty(&[0x0f, 0xff], 1));
    assert!(!matches_difficulty(&[0x0f, 0xff], 2));
    assert!(!matches_difficulty(&[0xf0, 0x00], 1));
}

#[test]
fn matcher_counts_exactly_the_required_nibbles() {
    let digest = [0x00, 0x0f, 0xff, 0xff];
    assert!(matches_difficulty(&digest, 1));
    assert!(matches_difficulty(&digest, 2));
    assert!(matches_difficulty(&digest, 3));
    assert!(!matches_difficulty(&digest, 4));
    assert!(!matches_difficulty(&digest, 5));
}

#[test]
fn matcher_accepts_more_zeros_than_required() {
    let digest = [0x00, 0x00, 0x00, 0x01];
    assert!(matches_difficulty(&digest, 2));
    assert!(matches_difficulty(&digest, 7));
    assert!(!matches_difficulty(&digest, 8));
}

#[test]
fn matcher_rejects_a_difficulty_beyond_the_digest() {
    let zeros = [0u8; 20];
    assert!(matches_difficulty(&zeros, 40));
    assert!(!matches_difficulty(&zeros, 41));
    assert!(!matches_difficulty(&zeros, 255));
    assert!(!matches_difficulty(&[], 1));
}

#[test]
fn matcher_verdict_shows_in_the_hex_text() {
    let digests: [[u8; 4]; 5] = [
        [0x00, 0x00, 0x00, 0x00],
        [0x00, 0x0a, 0x00, 0x00],
        [0x01, 0x00, 0x00, 0x00],
        [0x00, 0x00, 0x10, 0x00],
        [0xff, 0xff, 0xff, 0xff],
    ];
    for digest in digests.iter() {
        let text = hex_string(digest);
        for difficulty in 0..=9u8 {
            let wanted = difficulty as usize;
            let shown = wanted <= text.len() && text[..wanted].chars().all(|c| c == '0');
            assert_eq!(matches_difficulty(digest, difficulty), shown);
        }
    }
}

#[test]
fn matcher_gives_the_same_verdict_every_time() {
    let digest = [0x00, 0x07, 0x42, 0x99];
    for difficulty in 0..=8u8 {
        let first = matches_difficulty(&digest, difficulty);
        for _ in 0..10 {
            assert_eq!(matches_difficulty(&digest, difficulty), first);
        }
    }
}

#[test]
fn candidate_message_joins_message_and_counter_with_a_space() {
    assert_eq!(candidate_message("test", 0), "test 0");
    assert_eq!(candidate_message("test", 5), "test 5");
    assert_eq!(candidate_message("test", 42), "test 42");
    assert_eq!(candidate_message("", 7), " 7");
    assert_eq!(candidate_message("a b", 1000), "a b 1000");
}

#[test]
fn candidate_message_writes_the_largest_counter() {
    assert_eq!(candidate_message("m", u64::MAX), "m 18446744073709551615");
}

#[test]
fn candidate_message_keeps_text_outside_ascii() {
    assert_eq!(candidate_message("héllo ∑", 10), "héllo ∑ 10");
}

#[test]
fn append_decimal_agrees_with_std_formatting() {
    let samples: [u64; 12] =
        [0, 1, 9, 10, 11, 99, 100, 101, 12345, 1 << 32, u64::MAX - 1, u64::MAX];
    for n in samples.iter() {
        let mut text = String::from("n=");
        append_decimal(&mut text, *n);
        assert_eq!(text, format!("n={}", n));
    }
}

#[test]
fn digest_text_is_sha1_of_the_text() {
    assert_eq!(hex_string(&digest_text("abc")), "a9993e364706816aba3e25717850c26c9cd0d89d");
    assert_eq!(hex_string(&digest_text("")), "da39a3ee5e6b4b0d3255bfef95601890afd80709");
    assert_eq!(hex_string(&digest_text("test 5")), "0bccc83e645b942a5a1adaf1ebb1efc12dc15745");
}

#[test]
fn digest_text_is_twenty_bytes_long() {
    assert_eq!(DIGEST_BYTES, 20);
    assert_eq!(digest_text("").len(), 20);
    assert_eq!(digest_text("some longer text, well past one block of the hash ........").len(), 20);
}
