use cultnet::number::{decimal_text, integer_text, parse_integer, zero_padded_text};
use cultnet::prefixed_sha256;
use cultnet::text::{
    append_big_endian, has_prefix, hex, is_before, is_blank, is_control, is_hex_of_length,
    is_sha256_reference, is_triple_before, is_unpadded, is_white_space, split_text, trim,
};

#[test]
fn white_space_and_control_characters_are_those_of_unicode() {
    for code in 0..=0x10ffff_u32 {
        if let Some(letter) = char::from_u32(code) {
            assert_eq!(is_white_space(letter), letter.is_whitespace());
            assert_eq!(is_control(letter), letter.is_control());
        }
    }
}

#[test]
fn trimming_takes_white_space_off_both_ends() {
    for text in ["", " ", "a", " a b ", "\u{3000}a\u{85}", "a\u{200b} ", "\n\t\r"] {
        assert_eq!(trim(text), text.trim());
        assert_eq!(is_blank(text), text.trim().is_empty());
        assert_eq!(is_unpadded(text), text.trim() == text);
    }
}

#[test]
fn texts_are_ordered_as_strings_are() {
    let texts = ["", "a", "ab", "b", "B", "z", "é", "\u{ffff}", "\u{10000}", "a\0"];
    for first in texts {
        for second in texts {
            assert_eq!(is_before(first, second), first < second);
            assert_eq!(
                is_triple_before(("k", first, second), ("k", second, first)),
                ("k", first, second) < ("k", second, first)
            );
            assert_eq!(has_prefix(first, second), first.starts_with(second));
        }
    }
}

#[test]
fn texts_are_split_at_every_separator() {
    for text in ["", "/", "a/b", "/a//b/", "abc"] {
        let pieces: Vec<&str> = text.split('/').collect();
        assert_eq!(split_text(text, '/'), pieces);
    }
}

#[test]
fn hexadecimal_digits_are_lower_case() {
    assert_eq!(hex(&[0x00, 0x1f, 0xa0, 0xff]), "001fa0ff");
    assert!(is_hex_of_length("001fa0ff", 8));
    assert!(!is_hex_of_length("001FA0FF", 8));
    assert!(!is_hex_of_length("001fa0ff", 7));
    assert!(!is_hex_of_length("001fa0fg", 8));
}

#[test]
fn digests_are_written_with_their_algorithm() {
    assert_eq!(
        prefixed_sha256(b""),
        "sha256-e3b0c44298fc1c149afbf4c8996fb92427ae41e4649b934ca495991b7852b855"
    );
    assert_eq!(
        prefixed_sha256(b"abc"),
        "sha256-ba7816bf8f01cfea414140de5dae2223b00361a396177a9cb410ff61f20015ad"
    );
    assert!(is_sha256_reference(&prefixed_sha256(b"abc")));
    assert!(!is_sha256_reference("sha256-ba78"));
    assert!(!is_sha256_reference(&prefixed_sha256(b"abc").to_uppercase()));
}

#[test]
fn integers_are_written_and_read_as_std_does() {
    for number in [0, 1, -1, 9, 10, -10, 4102444800, i64::MAX, i64::MIN] {
        assert_eq!(integer_text(number), number.to_string());
        assert_eq!(parse_integer(&number.to_string()), Some(number));
    }
    for text in [
        "", "+", "-", "+5", "-0", "007", " 1", "1 ", "1_0", "0x1", "--1", "9223372036854775807",
        "9223372036854775808", "-9223372036854775808", "-9223372036854775809", "\u{663}",
        "99999999999999999999",
    ] {
        assert_eq!(parse_integer(text), text.parse::<i64>().ok());
    }
    for number in [0, 7, 42, 999, 1000, u64::MAX] {
        assert_eq!(decimal_text(number), number.to_string());
        assert_eq!(zero_padded_text(number, 3), format!("{number:03}"));
    }
}

#[test]
fn lengths_are_written_most_significant_byte_first() {
    for number in [0, 1, 0x0102_0304_0506_0708, u64::MAX] {
        let mut target = vec![7];
        append_big_endian(&mut target, number);
        assert_eq!(target[0], 7);
        assert_eq!(target[1..], number.to_be_bytes());
    }
}
