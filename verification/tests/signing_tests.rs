use nebulauth_sdk::clock::timestamp_from_reading;
use nebulauth_sdk::{current_timestamp_ms, NebulAuthError, SigningInput};

fn example_input(nonce: &str) -> SigningInput {
    SigningInput::for_request(
        "POST",
        "/keys/verify",
        1_700_000_000_000,
        nonce,
        "{\"key\":\"k1\"}",
    )
}

#[test]
fn canonical_string_joins_the_five_fields_by_newlines() {
    let input = SigningInput {
        method: "POST".to_string(),
        path: "/keys/verify".to_string(),
        timestamp: 1_700_000_000_000,
        nonce: "abc123".to_string(),
        body_hash: "h".to_string(),
    };
    assert_eq!(
        input.canonical_string(),
        "POST\n/keys/verify\n1700000000000\nabc123\nh"
    );
}

#[test]
fn canonical_string_has_no_trailing_newline() {
    let text = example_input("abc123").canonical_string();
    assert!(!text.ends_with('\n'));
    assert_eq!(text.matches('\n').count(), 4);
}

#[test]
fn signing_input_uppercases_the_method_and_hashes_the_body() {
    let input = SigningInput::for_request(
        "post",
        "/keys/verify",
        1_700_000_000_000,
        "abc123",
        "{\"key\":\"k1\"}",
    );
    assert_eq!(input.method, "POST");
    assert_eq!(input.path, "/keys/verify");
    assert_eq!(input.timestamp, 1_700_000_000_000);
    assert_eq!(input.nonce, "abc123");
    assert_eq!(
        input.body_hash,
        "6477d19c0fd8a4f5d421d6a3d8938e1d5e1fc62caddceca8d75bdbb638557f25"
    );
    assert_eq!(
        input.canonical_string(),
        "POST\n/keys/verify\n1700000000000\nabc123\n6477d19c0fd8a4f5d421d6a3d8938e1d5e1fc62caddceca8d75bdbb638557f25"
    );
}

#[test]
fn method_already_in_upper_case_is_kept() {
    let input = SigningInput::for_request("GET", "/", 0, "n", "");
    assert_eq!(input.method, "GET");
}

#[test]
fn signature_is_the_hex_hmac_of_the_canonical_string() {
    let signed = example_input("abc123").sign("mk_sig_test").expect("signing succeeds");
    assert_eq!(
        signed.signature,
        "d50f23cebab9dd388f3b6966f3a35f2e82a159763d347afc6d014773afc768af"
    );
    assert_eq!(signed.timestamp, "1700000000000");
    assert_eq!(signed.nonce, "abc123");
    assert_eq!(
        signed.body_hash,
        "6477d19c0fd8a4f5d421d6a3d8938e1d5e1fc62caddceca8d75bdbb638557f25"
    );
    assert_eq!(
        signed.canonical,
        "POST\n/keys/verify\n1700000000000\nabc123\n6477d19c0fd8a4f5d421d6a3d8938e1d5e1fc62caddceca8d75bdbb638557f25"
    );
}

#[test]
fn signature_of_the_literal_example() {
    let input = SigningInput {
        method: "POST".to_string(),
        path: "/keys/verify".to_string(),
        timestamp: 1_700_000_000_000,
        nonce: "abc123".to_string(),
        body_hash: "h".to_string(),
    };
    let signed = input.sign("mk_sig_test").expect("signing succeeds");
    assert_eq!(
        signed.signature,
        "ae211fc722364a4ed4d0dd365f32c128b35651252a563c8a7660a48f00a82775"
    );
}

#[test]
fn signing_is_deterministic() {
    let first = example_input("abc123").sign("mk_sig_test").expect("signing succeeds");
    let second = example_input("abc123").sign("mk_sig_test").expect("signing succeeds");
    assert_eq!(first.signature, second.signature);
    assert_eq!(first.canonical, second.canonical);
}

#[test]
fn different_nonces_give_different_signatures() {
    let first = example_input("abc123").sign("mk_sig_test").expect("signing succeeds");
    let second = example_input("abc124").sign("mk_sig_test").expect("signing succeeds");
    assert_eq!(
        second.signature,
        "7bcf0a954e4d7b74771e303a71b3b934fb3938785e82bf2fb57fe5c4ddaacd3c"
    );
    assert_ne!(first.signature, second.signature);
}

#[test]
fn changing_any_field_changes_the_signature() {
    let base = example_input("abc123").sign("mk_sig_test").expect("signing succeeds");
    let other_method = SigningInput::for_request(
        "PUT",
        "/keys/verify",
        1_700_000_000_000,
        "abc123",
        "{\"key\":\"k1\"}",
    );
    let other_path = SigningInput::for_request(
        "POST",
        "/keys/redeem",
        1_700_000_000_000,
        "abc123",
        "{\"key\":\"k1\"}",
    );
    let other_time = SigningInput::for_request(
        "POST",
        "/keys/verify",
        1_700_000_000_001,
        "abc123",
        "{\"key\":\"k1\"}",
    );
    let other_body = SigningInput::for_request(
        "POST",
        "/keys/verify",
        1_700_000_000_000,
        "abc123",
        "{\"key\":\"k2\"}",
    );
    for input in [other_method, other_path, other_time, other_body] {
        let signed = input.sign("mk_sig_test").expect("signing succeeds");
        assert_ne!(signed.signature, base.signature);
    }
}

#[test]
fn fields_are_not_confused_by_joining() {
    let left = SigningInput {
        method: "POST".to_string(),
        path: "/a".to_string(),
        timestamp: 12,
        nonce: "3n".to_string(),
        body_hash: "h".to_string(),
    };
    let right = SigningInput {
        method: "POST".to_string(),
        path: "/a".to_string(),
        timestamp: 123,
        nonce: "n".to_string(),
        body_hash: "h".to_string(),
    };
    assert_ne!(left.canonical_string(), right.canonical_string());
}

#[test]
fn a_different_secret_gives_a_different_signature() {
    let first = example_input("abc123").sign("mk_sig_test").expect("signing succeeds");
    let second = example_input("abc123").sign("pop_key_1").expect("signing succeeds");
    assert_eq!(
        second.signature,
        "ec0d81d8978330dabfac833742ad772415c31343290d246f767ae35c913b6e7c"
    );
    assert_ne!(first.signature, second.signature);
}

#[test]
fn secrets_of_any_length_sign() {
    let input = SigningInput {
        method: "POST".to_string(),
        path: "/keys/verify".to_string(),
        timestamp: 1_700_000_000_000,
        nonce: "abc123".to_string(),
        body_hash: "h".to_string(),
    };
    let long = "k".repeat(100);
    assert_eq!(
        input.sign(&long).expect("signing succeeds").signature,
        "0764709703bad68586df0a81c1a21adebe8c51f85865b8a95f8b26f8eadfabb0"
    );
    assert_eq!(
        input.sign("").expect("signing succeeds").signature,
        "bf19606743fca3d6e53abfb21b6ad553d053dbb5f2448c307aea76c4852793f5"
    );
}

#[test]
fn crypto_error_carries_its_message() {
    let e = NebulAuthError::crypto("invalid signing secret");
    assert!(matches!(e, NebulAuthError::Crypto(ref m) if m == "invalid signing secret"));
}

#[test]
fn timestamp_falls_back_to_zero() {
    assert_eq!(timestamp_from_reading(None), 0);
    assert_eq!(timestamp_from_reading(Some(1_700_000_000_000)), 1_700_000_000_000);
}

#[test]
fn current_timestamp_is_after_2020() {
    assert!(current_timestamp_ms() > 1_577_836_800_000);
}

#[test]
fn current_timestamp_fits_the_range_of_a_duration() {
    assert!(current_timestamp_ms() <= 18_446_744_073_709_551_615_999);
}
