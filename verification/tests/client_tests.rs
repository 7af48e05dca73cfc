use nebulauth_sdk::auth::{assemble_headers, resolve_auth, select_regime};
use nebulauth_sdk::client::check_reset_target;
use nebulauth_sdk::{
    AuthHeaderSet, AuthRegime, NebulAuthClient, NebulAuthClientOptions, NebulAuthError,
    ReplayProtectionMode, ResetHwidInput, SigningInput,
};

const URL: &str = "https://api.example.com/api/v1/keys/verify";
const BODY: &str = "{\"key\":\"k1\"}";
const BODY_HASH: &str = "6477d19c0fd8a4f5d421d6a3d8938e1d5e1fc62caddceca8d75bdbb638557f25";

fn client(mode: ReplayProtectionMode, token: Option<&str>, secret: Option<&str>) -> NebulAuthClient {
    NebulAuthClient::new(NebulAuthClientOptions {
        base_url: "https://api.example.com/api/v1".to_string(),
        bearer_token: token.map(|t| t.to_string()),
        signing_secret: secret.map(|s| s.to_string()),
        service_slug: None,
        replay_protection: mode,
        timeout_ms: 15_000,
    })
    .expect("client init should succeed")
}

fn names(set: &AuthHeaderSet) -> Vec<String> {
    set.entries.iter().map(|h| h.name.clone()).collect()
}

#[test]
fn bearer_mode_sends_only_the_authorization_header() {
    let c = client(ReplayProtectionMode::Off, Some("mk_at_test"), None);
    let set = c
        .build_auth_headers("POST", URL, BODY, false, None, None)
        .expect("headers");
    assert_eq!(set.len(), 1);
    assert_eq!(set.get("Authorization"), Some("Bearer mk_at_test".to_string()));
    assert!(!set.contains_key("X-Signature"));
    assert!(!set.contains_key("X-Timestamp"));
    assert!(!set.contains_key("X-Nonce"));
    assert!(!set.contains_key("X-Body-Sha256"));
}

#[test]
fn bearer_mode_does_not_look_at_the_url() {
    let c = client(ReplayProtectionMode::Off, Some("mk_at_test"), None);
    let set = c
        .build_auth_headers("POST", "not a url", BODY, false, None, None)
        .expect("headers");
    assert_eq!(names(&set), vec!["Authorization".to_string()]);
}

#[test]
fn strict_replay_adds_signature_headers() {
    let c = client(ReplayProtectionMode::Strict, Some("mk_at_test"), Some("mk_sig_test"));
    let set = c
        .build_auth_headers("POST", URL, BODY, false, None, None)
        .expect("request should succeed");
    assert_eq!(set.get("Authorization"), Some("Bearer mk_at_test".to_string()));
    assert!(set.contains_key("X-Timestamp"));
    assert!(set.contains_key("X-Nonce"));
    assert!(set.contains_key("X-Signature"));
    assert_eq!(set.get("X-Body-Sha256"), Some(BODY_HASH.to_string()));
    assert_eq!(set.len(), 5);
}

#[test]
fn strict_headers_at_a_fixed_time_and_nonce() {
    let c = client(ReplayProtectionMode::Strict, Some("mk_at_test"), Some("mk_sig_test"));
    let set = c
        .build_auth_headers_at("post", URL, BODY, false, None, None, 1_700_000_000_000, "abc123")
        .expect("headers");
    assert_eq!(
        names(&set),
        vec![
            "Authorization".to_string(),
            "X-Timestamp".to_string(),
            "X-Nonce".to_string(),
            "X-Signature".to_string(),
            "X-Body-Sha256".to_string(),
        ]
    );
    assert_eq!(set.get("Authorization"), Some("Bearer mk_at_test".to_string()));
    assert_eq!(set.get("X-Timestamp"), Some("1700000000000".to_string()));
    assert_eq!(set.get("X-Nonce"), Some("abc123".to_string()));
    assert_eq!(
        set.get("X-Signature"),
        Some("d50f23cebab9dd388f3b6966f3a35f2e82a159763d347afc6d014773afc768af".to_string())
    );
    assert_eq!(set.get("X-Body-Sha256"), Some(BODY_HASH.to_string()));
}

#[test]
fn nonce_mode_omits_the_body_hash_header_but_signs_over_it() {
    let c = client(ReplayProtectionMode::Nonce, Some("mk_at_test"), Some("mk_sig_test"));
    let set = c
        .build_auth_headers_at("POST", URL, BODY, false, None, None, 1_700_000_000_000, "abc123")
        .expect("headers");
    assert_eq!(set.len(), 4);
    assert!(!set.contains_key("X-Body-Sha256"));
    assert_eq!(set.get("X-Body-Sha256"), None);
    assert_eq!(
        set.get("X-Signature"),
        Some("d50f23cebab9dd388f3b6966f3a35f2e82a159763d347afc6d014773afc768af".to_string())
    );
    assert_eq!(set.get("X-Timestamp"), Some("1700000000000".to_string()));
    assert_eq!(set.get("X-Nonce"), Some("abc123".to_string()));
}

#[test]
fn nonce_mode_with_clock_and_random_nonce() {
    let c = client(ReplayProtectionMode::Nonce, Some("mk_at_test"), Some("mk_sig_test"));
    let set = c
        .build_auth_headers("POST", URL, BODY, false, None, None)
        .expect("headers");
    assert!(set.contains_key("X-Signature"));
    assert!(!set.contains_key("X-Body-Sha256"));
    let nonce = set.get("X-Nonce").expect("nonce header");
    assert_eq!(nonce.len(), 22);
    let timestamp = set.get("X-Timestamp").expect("timestamp header");
    assert!(timestamp.chars().all(|ch| ch.is_ascii_digit()));
    let signature = set.get("X-Signature").expect("signature header");
    assert_eq!(signature.len(), 64);
    let input = SigningInput::for_request(
        "POST",
        "/keys/verify",
        timestamp.parse::<u128>().expect("decimal timestamp"),
        &nonce,
        BODY,
    );
    let expected = input.sign("mk_sig_test").expect("signing succeeds");
    assert_eq!(signature, expected.signature);
}

#[test]
fn pop_mode_signs_even_when_replay_protection_is_off() {
    let c = client(ReplayProtectionMode::Off, None, None);
    let set = c
        .build_auth_headers_at(
            "POST",
            URL,
            BODY,
            true,
            Some("access-1"),
            Some("pop_key_1"),
            1_700_000_000_000,
            "abc123",
        )
        .expect("headers");
    assert_eq!(set.len(), 5);
    assert_eq!(set.get("Authorization"), Some("Bearer access-1".to_string()));
    assert_eq!(
        set.get("X-Signature"),
        Some("ec0d81d8978330dabfac833742ad772415c31343290d246f767ae35c913b6e7c".to_string())
    );
    assert_eq!(set.get("X-Body-Sha256"), Some(BODY_HASH.to_string()));
}

#[test]
fn pop_mode_takes_precedence_over_the_clients_credentials() {
    let c = client(ReplayProtectionMode::Nonce, Some("mk_at_test"), Some("mk_sig_test"));
    let set = c
        .build_auth_headers("POST", URL, BODY, true, Some("access-1"), Some("pop_key_1"))
        .expect("headers");
    assert_eq!(set.get("Authorization"), Some("Bearer access-1".to_string()));
    assert!(set.contains_key("X-Body-Sha256"));
    assert!(set.contains_key("X-Signature"));
}

#[test]
fn pop_mode_requires_credentials() {
    let c = client(ReplayProtectionMode::Off, Some("mk_at_test"), None);
    let err = c
        .build_auth_headers("POST", URL, BODY, true, None, None)
        .expect_err("missing pop credentials should error");
    assert!(matches!(err, NebulAuthError::Config(_)));
}

#[test]
fn pop_mode_names_the_missing_field() {
    let c = client(ReplayProtectionMode::Off, Some("mk_at_test"), None);
    let no_token = c
        .build_auth_headers("POST", URL, BODY, true, None, Some("pop_key_1"))
        .expect_err("missing access token");
    assert!(
        matches!(no_token, NebulAuthError::Config(ref m) if m == "access_token is required when use_pop=true")
    );
    let no_key = c
        .build_auth_headers("POST", URL, BODY, true, Some("access-1"), None)
        .expect_err("missing pop key");
    assert!(
        matches!(no_key, NebulAuthError::Config(ref m) if m == "pop_key is required when use_pop=true")
    );
}

#[test]
fn strict_mode_without_signing_secret_is_a_config_error() {
    let c = client(ReplayProtectionMode::Strict, Some("mk_at_test"), None);
    let err = c
        .build_auth_headers("POST", URL, BODY, false, None, None)
        .expect_err("missing signing secret should error");
    assert!(
        matches!(err, NebulAuthError::Config(ref m) if m == "signing_secret is required when replay_protection is nonce/strict")
    );
}

#[test]
fn nonce_mode_without_signing_secret_is_a_config_error() {
    let c = client(ReplayProtectionMode::Nonce, Some("mk_at_test"), None);
    let err = c
        .build_auth_headers("POST", URL, BODY, false, None, None)
        .expect_err("missing signing secret should error");
    assert!(matches!(err, NebulAuthError::Config(_)));
}

#[test]
fn missing_bearer_token_is_a_config_error_in_every_mode() {
    for mode in [
        ReplayProtectionMode::Off,
        ReplayProtectionMode::Nonce,
        ReplayProtectionMode::Strict,
    ] {
        let c = client(mode, None, Some("mk_sig_test"));
        let err = c
            .build_auth_headers("POST", URL, BODY, false, None, None)
            .expect_err("missing bearer token should error");
        assert!(
            matches!(err, NebulAuthError::Config(ref m) if m == "bearer_token is required for bearer mode")
        );
    }
}

#[test]
fn signing_call_with_unparsable_url_is_a_config_error() {
    let c = client(ReplayProtectionMode::Strict, Some("mk_at_test"), Some("mk_sig_test"));
    let err = c
        .build_auth_headers("POST", "not a url", BODY, false, None, None)
        .expect_err("unparsable url should error");
    assert!(matches!(err, NebulAuthError::Config(ref m) if m == "request url could not be parsed"));
}

#[test]
fn build_signing_headers_gives_the_four_signing_headers() {
    let c = client(ReplayProtectionMode::Strict, Some("mk_at_test"), Some("mk_sig_test"));
    let set = c
        .build_signing_headers("POST", URL, BODY, "mk_sig_test")
        .expect("headers");
    assert_eq!(
        names(&set),
        vec![
            "X-Timestamp".to_string(),
            "X-Nonce".to_string(),
            "X-Signature".to_string(),
            "X-Body-Sha256".to_string(),
        ]
    );
    assert_eq!(set.get("X-Body-Sha256"), Some(BODY_HASH.to_string()));
}

#[test]
fn sign_request_resolves_the_path_below_the_base() {
    let c = client(ReplayProtectionMode::Strict, Some("mk_at_test"), Some("mk_sig_test"));
    let signed = c
        .sign_request("POST", URL, BODY, "mk_sig_test", 1_700_000_000_000, "abc123")
        .expect("signing succeeds");
    assert_eq!(
        signed.canonical,
        format!("POST\n/keys/verify\n1700000000000\nabc123\n{}", BODY_HASH)
    );
    assert_eq!(
        signed.signature,
        "d50f23cebab9dd388f3b6966f3a35f2e82a159763d347afc6d014773afc768af"
    );
}

#[test]
fn regime_selection_puts_pop_first() {
    assert_eq!(select_regime(ReplayProtectionMode::Off, true), AuthRegime::Pop);
    assert_eq!(select_regime(ReplayProtectionMode::Nonce, true), AuthRegime::Pop);
    assert_eq!(select_regime(ReplayProtectionMode::Strict, true), AuthRegime::Pop);
    assert_eq!(select_regime(ReplayProtectionMode::Off, false), AuthRegime::Bearer);
    assert_eq!(select_regime(ReplayProtectionMode::Nonce, false), AuthRegime::Nonce);
    assert_eq!(select_regime(ReplayProtectionMode::Strict, false), AuthRegime::Strict);
}

#[test]
fn regimes_know_what_they_send() {
    assert!(AuthRegime::Pop.is_signed() && AuthRegime::Pop.sends_body_hash());
    assert!(AuthRegime::Strict.is_signed() && AuthRegime::Strict.sends_body_hash());
    assert!(AuthRegime::Nonce.is_signed() && !AuthRegime::Nonce.sends_body_hash());
    assert!(!AuthRegime::Bearer.is_signed() && !AuthRegime::Bearer.sends_body_hash());
}

#[test]
fn resolve_auth_picks_the_credentials_of_the_regime() {
    let pop = resolve_auth(
        ReplayProtectionMode::Off,
        None,
        None,
        true,
        Some("access-1"),
        Some("pop_key_1"),
    )
    .expect("pop credentials");
    assert_eq!(pop.regime, AuthRegime::Pop);
    assert_eq!(pop.token, "access-1");
    assert_eq!(pop.secret, Some("pop_key_1".to_string()));
    let bearer = resolve_auth(
        ReplayProtectionMode::Off,
        Some("mk_at_test"),
        Some("mk_sig_test"),
        false,
        None,
        None,
    )
    .expect("bearer credentials");
    assert_eq!(bearer.regime, AuthRegime::Bearer);
    assert_eq!(bearer.token, "mk_at_test");
    assert_eq!(bearer.secret, None);
    let strict = resolve_auth(
        ReplayProtectionMode::Strict,
        Some("mk_at_test"),
        Some("mk_sig_test"),
        false,
        Some("ignored"),
        Some("ignored"),
    )
    .expect("strict credentials");
    assert_eq!(strict.regime, AuthRegime::Strict);
    assert_eq!(strict.token, "mk_at_test");
    assert_eq!(strict.secret, Some("mk_sig_test".to_string()));
}

#[test]
fn assemble_headers_follows_the_regime() {
    let signed = SigningInput::for_request("POST", "/keys/verify", 1_700_000_000_000, "abc123", BODY)
        .sign("mk_sig_test")
        .expect("signing succeeds");
    assert_eq!(assemble_headers(AuthRegime::Bearer, "t", &signed).len(), 1);
    assert_eq!(assemble_headers(AuthRegime::Nonce, "t", &signed).len(), 4);
    assert_eq!(assemble_headers(AuthRegime::Strict, "t", &signed).len(), 5);
    assert_eq!(assemble_headers(AuthRegime::Pop, "t", &signed).len(), 5);
}

#[test]
fn redeem_requires_service_slug() {
    let c = client(ReplayProtectionMode::Off, Some("mk_at_test"), None);
    let err = c
        .resolve_service_slug(None)
        .expect_err("missing service slug should error");
    assert!(matches!(err, NebulAuthError::Config(_)));
}

#[test]
fn service_slug_of_the_call_wins_over_the_clients() {
    let c = NebulAuthClient::new(NebulAuthClientOptions {
        service_slug: Some("client-slug".to_string()),
        ..NebulAuthClientOptions::default()
    })
    .expect("client init should succeed");
    assert_eq!(
        c.resolve_service_slug(Some("call-slug".to_string())).expect("slug"),
        "call-slug"
    );
    assert_eq!(c.resolve_service_slug(None).expect("slug"), "client-slug");
}

#[test]
fn reset_hwid_requires_discord_or_key() {
    let err = check_reset_target(&ResetHwidInput::default())
        .expect_err("missing identifiers should error");
    assert!(
        matches!(err, NebulAuthError::Config(ref m) if m == "reset_hwid requires at least discord_id or key")
    );
    let with_key = ResetHwidInput {
        key: Some("mk_live_test".to_string()),
        ..ResetHwidInput::default()
    };
    assert!(check_reset_target(&with_key).is_ok());
    let with_discord = ResetHwidInput {
        discord_id: Some("123".to_string()),
        ..ResetHwidInput::default()
    };
    assert!(check_reset_target(&with_discord).is_ok());
}

fn is_hex_digest(text: &str) -> bool {
    text.len() == 64 && text.chars().all(|c| c.is_ascii_digit() || ('a'..='f').contains(&c))
}

fn is_nonce(text: &str) -> bool {
    text.len() == 22
        && text
            .chars()
            .all(|c| c.is_ascii_alphanumeric() || c == '-' || c == '_')
}

#[test]
fn signing_header_values_have_their_wire_form() {
    let c = client(ReplayProtectionMode::Strict, Some("mk_at_test"), Some("mk_sig_test"));
    let set = c
        .build_signing_headers("POST", URL, BODY, "mk_sig_test")
        .expect("headers");
    assert!(is_hex_digest(&set.get("X-Signature").expect("signature")));
    assert!(is_hex_digest(&set.get("X-Body-Sha256").expect("body hash")));
    assert!(is_nonce(&set.get("X-Nonce").expect("nonce")));
    let timestamp = set.get("X-Timestamp").expect("timestamp");
    assert!(!timestamp.is_empty() && timestamp.chars().all(|ch| ch.is_ascii_digit()));
}

#[test]
fn auth_header_values_have_their_wire_form() {
    for mode in [ReplayProtectionMode::Nonce, ReplayProtectionMode::Strict] {
        let c = client(mode, Some("mk_at_test"), Some("mk_sig_test"));
        let set = c
            .build_auth_headers("POST", URL, BODY, false, None, None)
            .expect("headers");
        assert!(is_hex_digest(&set.get("X-Signature").expect("signature")));
        assert!(is_nonce(&set.get("X-Nonce").expect("nonce")));
        if mode == ReplayProtectionMode::Strict {
            assert!(is_hex_digest(&set.get("X-Body-Sha256").expect("body hash")));
        }
    }
}

#[test]
fn signed_request_of_the_clock_has_its_wire_form() {
    let c = client(ReplayProtectionMode::Strict, Some("mk_at_test"), Some("mk_sig_test"));
    let signed = c.sign("POST", URL, BODY, "mk_sig_test").expect("signing succeeds");
    assert!(is_hex_digest(&signed.signature));
    assert!(is_hex_digest(&signed.body_hash));
    assert!(is_nonce(&signed.nonce));
    assert_eq!(signed.body_hash, BODY_HASH);
    assert!(signed.canonical.starts_with("POST\n/keys/verify\n"));
}

#[test]
fn no_header_name_occurs_twice() {
    let c = client(ReplayProtectionMode::Strict, Some("mk_at_test"), Some("mk_sig_test"));
    let set = c
        .build_auth_headers("POST", URL, BODY, true, Some("access-1"), Some("pop_key_1"))
        .expect("headers");
    let mut seen = names(&set);
    seen.sort();
    seen.dedup();
    assert_eq!(seen.len(), set.len());
}
