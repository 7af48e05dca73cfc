use nebulauth_sdk::decimal::{digit_to_char, u128_to_decimal};
use nebulauth_sdk::nonce::nonce_from_bytes;
use nebulauth_sdk::{hash_hex, hex_lower, nibble_to_hex, random_nonce, sha256_hex};

#[test]
fn nibble_to_hex_covers_all_sixteen_digits() {
    let expected = "0123456789abcdef";
    for (n, c) in expected.chars().enumerate() {
        assert_eq!(nibble_to_hex(n as u8), c);
    }
}

#[test]
fn hex_lower_of_empty_input_is_empty() {
    assert_eq!(hex_lower(&[]), "");
}

#[test]
fn hex_lower_puts_the_high_nibble_first() {
    assert_eq!(hex_lower(&[0x1f]), "1f");
    assert_eq!(hex_lower(&[0xf1]), "f1");
    assert_eq!(hex_lower(&[0x00, 0x0a, 0xa0, 0xff]), "000aa0ff");
}

#[test]
fn hex_lower_has_two_lowercase_digits_per_byte() {
    let bytes: Vec<u8> = (0..=255u8).collect();
    let text = hex_lower(&bytes);
    assert_eq!(text.len(), 512);
    assert!(text.chars().all(|c| c.is_ascii_digit() || ('a'..='f').contains(&c)));
    assert_eq!(&text[0..8], "00010203");
    assert_eq!(&text[508..512], "feff");
}

#[test]
fn sha256_hex_of_known_inputs() {
    assert_eq!(
        sha256_hex(""),
        "e3b0c44298fc1c149afbf4c8996fb92427ae41e4649b934ca495991b7852b855"
    );
    assert_eq!(
        sha256_hex("abc"),
        "ba7816bf8f01cfea414140de5dae2223b00361a396177a9cb410ff61f20015ad"
    );
    assert_eq!(
        sha256_hex("{\"key\":\"k1\"}"),
        "6477d19c0fd8a4f5d421d6a3d8938e1d5e1fc62caddceca8d75bdbb638557f25"
    );
}

#[test]
fn sha256_hex_hashes_the_utf8_bytes() {
    assert_eq!(
        sha256_hex("h\u{e9}llo"),
        "3c48591d8d098a4538f5e013dfcf406e948eac4d3277b10bf614e295d6068179"
    );
}

#[test]
fn sha256_hex_is_64_lowercase_hex_characters() {
    let text = sha256_hex("any body at all");
    assert_eq!(text.len(), 64);
    assert!(text.chars().all(|c| c.is_ascii_digit() || ('a'..='f').contains(&c)));
}

#[test]
fn nonce_from_bytes_is_unpadded_url_safe_base64() {
    let bytes: [u8; 16] = [0, 1, 2, 3, 4, 5, 6, 7, 8, 9, 10, 11, 12, 13, 14, 15];
    assert_eq!(nonce_from_bytes(&bytes), "AAECAwQFBgcICQoLDA0ODw");
    let high: [u8; 16] = [
        0xfb, 0xff, 0xfb, 0xff, 0xfb, 0xff, 0xfb, 0xff, 0xfb, 0xff, 0xfb, 0xff, 0xfb, 0xff, 0xfb,
        0xff,
    ];
    assert_eq!(nonce_from_bytes(&high), "-__7__v_-__7__v_-__7_w");
}

#[test]
fn random_nonce_has_22_url_safe_characters() {
    let nonce = random_nonce();
    assert_eq!(nonce.len(), 22);
    assert!(nonce
        .chars()
        .all(|c| c.is_ascii_alphanumeric() || c == '-' || c == '_'));
    assert!(!nonce.contains('='));
}

#[test]
fn random_nonces_differ_between_calls() {
    assert_ne!(random_nonce(), random_nonce());
}

#[test]
fn decimal_text_of_numbers() {
    assert_eq!(u128_to_decimal(0), "0");
    assert_eq!(u128_to_decimal(7), "7");
    assert_eq!(u128_to_decimal(10), "10");
    assert_eq!(u128_to_decimal(1_700_000_000_000), "1700000000000");
    assert_eq!(
        u128_to_decimal(u128::MAX),
        "340282366920938463463374607431768211455"
    );
}

#[test]
fn digit_to_char_gives_the_ten_digits() {
    for (d, c) in "0123456789".chars().enumerate() {
        assert_eq!(digit_to_char(d as u8), c);
    }
}

#[test]
fn hash_hex_covers_exactly_the_bytes_given() {
    assert_eq!(
        hash_hex(b"abc"),
        "ba7816bf8f01cfea414140de5dae2223b00361a396177a9cb410ff61f20015ad"
    );
    assert_eq!(hash_hex(b"{\"key\":\"k1\"}"), sha256_hex("{\"key\":\"k1\"}"));
    assert_ne!(hash_hex(b"abc"), hash_hex(b"abc\n"));
}
