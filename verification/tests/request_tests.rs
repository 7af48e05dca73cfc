use nebulauth_sdk::{
    AuthVerifyInput, Field, NebulAuthClient, NebulAuthClientOptions, NebulAuthError,
    RedeemKeyInput, ReplayProtectionMode, ResetHwidInput, VerifyKeyInput,
};

fn bearer_client(service_slug: Option<&str>) -> NebulAuthClient {
    NebulAuthClient::new(NebulAuthClientOptions {
        base_url: "https://api.example.com/api/v1".to_string(),
        bearer_token: Some("mk_at_test".to_string()),
        signing_secret: None,
        service_slug: service_slug.map(|s| s.to_string()),
        replay_protection: ReplayProtectionMode::Off,
        timeout_ms: 15_000,
    })
    .expect("client init should succeed")
}

fn pairs(fields: &[Field]) -> Vec<(String, String)> {
    fields
        .iter()
        .map(|f| (f.name.clone(), f.value.clone()))
        .collect()
}

fn pair(name: &str, value: &str) -> (String, String) {
    (name.to_string(), value.to_string())
}

#[test]
fn verify_key_sends_bearer_hwid_and_body() {
    let client = bearer_client(None);
    let call = client.verify_key_call(VerifyKeyInput {
        key: "mk_live_test".to_string(),
        request_id: Some("req-1".to_string()),
        hwid: Some("HWID-1".to_string()),
        ..Default::default()
    });
    assert_eq!(call.endpoint, "/keys/verify");
    assert_eq!(
        pairs(&call.payload),
        vec![pair("key", "mk_live_test"), pair("requestId", "req-1")]
    );
    assert_eq!(call.extra_headers.len(), 1);
    assert_eq!(call.extra_headers[0].name, "X-HWID");
    assert_eq!(call.extra_headers[0].value, "HWID-1");
    assert!(!call.use_pop);
    let url = client.endpoint_url(&call.endpoint).expect("endpoint url");
    assert_eq!(url, "https://api.example.com/api/v1/keys/verify");
    let headers = client
        .build_auth_headers(
            "POST",
            &url,
            "{\"key\":\"mk_live_test\",\"requestId\":\"req-1\"}",
            call.use_pop,
            call.access_token.as_deref(),
            call.pop_key.as_deref(),
        )
        .expect("request should succeed");
    assert_eq!(headers.get("Authorization"), Some("Bearer mk_at_test".to_string()));
    assert_eq!(headers.len(), 1);
}

#[test]
fn verify_key_without_optional_fields() {
    let call = bearer_client(None).verify_key_call(VerifyKeyInput {
        key: "mk_live_test".to_string(),
        ..Default::default()
    });
    assert_eq!(pairs(&call.payload), vec![pair("key", "mk_live_test")]);
    assert!(call.extra_headers.is_empty());
}

#[test]
fn verify_key_carries_the_pop_credentials() {
    let call = bearer_client(None).verify_key_call(VerifyKeyInput {
        key: "mk_live_test".to_string(),
        use_pop: true,
        access_token: Some("access-1".to_string()),
        pop_key: Some("pop_key_1".to_string()),
        ..Default::default()
    });
    assert!(call.use_pop);
    assert_eq!(call.access_token, Some("access-1".to_string()));
    assert_eq!(call.pop_key, Some("pop_key_1".to_string()));
}

#[test]
fn auth_verify_hits_expected_endpoint() {
    let client = bearer_client(None);
    let call = client.auth_verify_call(AuthVerifyInput {
        key: "mk_live_test".to_string(),
        hwid: Some("HWID-1".to_string()),
        request_id: Some("req-bootstrap".to_string()),
    });
    assert_eq!(call.endpoint, "/auth/verify");
    assert_eq!(
        client.endpoint_url(&call.endpoint).expect("endpoint url"),
        "https://api.example.com/api/v1/auth/verify"
    );
    assert_eq!(
        pairs(&call.payload),
        vec![
            pair("key", "mk_live_test"),
            pair("hwid", "HWID-1"),
            pair("requestId", "req-bootstrap"),
        ]
    );
    assert!(call.extra_headers.is_empty());
    assert!(!call.use_pop);
    assert!(call.access_token.is_none());
    assert!(call.pop_key.is_none());
}

#[test]
fn redeem_call_without_any_service_slug_is_not_made() {
    let err = bearer_client(None)
        .redeem_key_call(RedeemKeyInput {
            key: "mk_live_test".to_string(),
            discord_id: "123".to_string(),
            ..Default::default()
        })
        .expect_err("missing service slug should error");
    assert!(
        matches!(err, NebulAuthError::Config(ref m) if m == "service_slug is required either in client options or redeem_key input")
    );
}

#[test]
fn redeem_call_uses_the_clients_slug_by_default() {
    let call = bearer_client(Some("client-slug"))
        .redeem_key_call(RedeemKeyInput {
            key: "mk_live_test".to_string(),
            discord_id: "123".to_string(),
            request_id: Some("req-2".to_string()),
            ..Default::default()
        })
        .expect("call");
    assert_eq!(call.endpoint, "/keys/redeem");
    assert_eq!(
        pairs(&call.payload),
        vec![
            pair("key", "mk_live_test"),
            pair("discordId", "123"),
            pair("serviceSlug", "client-slug"),
            pair("requestId", "req-2"),
        ]
    );
}

#[test]
fn redeem_call_prefers_the_slug_of_the_call() {
    let call = bearer_client(Some("client-slug"))
        .redeem_key_call(RedeemKeyInput {
            key: "mk_live_test".to_string(),
            discord_id: "123".to_string(),
            service_slug: Some("call-slug".to_string()),
            ..Default::default()
        })
        .expect("call");
    assert_eq!(
        pairs(&call.payload),
        vec![
            pair("key", "mk_live_test"),
            pair("discordId", "123"),
            pair("serviceSlug", "call-slug"),
        ]
    );
}

#[test]
fn reset_call_without_target_is_not_made() {
    let err = bearer_client(None)
        .reset_hwid_call(ResetHwidInput::default())
        .expect_err("missing identifiers should error");
    assert!(matches!(err, NebulAuthError::Config(_)));
}

#[test]
fn reset_call_carries_what_is_there() {
    let call = bearer_client(None)
        .reset_hwid_call(ResetHwidInput {
            discord_id: Some("123".to_string()),
            request_id: Some("req-3".to_string()),
            ..Default::default()
        })
        .expect("call");
    assert_eq!(call.endpoint, "/keys/reset-hwid");
    assert_eq!(
        pairs(&call.payload),
        vec![pair("discordId", "123"), pair("requestId", "req-3")]
    );
    let both = bearer_client(None)
        .reset_hwid_call(ResetHwidInput {
            discord_id: Some("123".to_string()),
            key: Some("mk_live_test".to_string()),
            ..Default::default()
        })
        .expect("call");
    assert_eq!(
        pairs(&both.payload),
        vec![pair("discordId", "123"), pair("key", "mk_live_test")]
    );
}

#[test]
fn generic_post_options_default_to_nothing() {
    let options = nebulauth_sdk::GenericPostOptions::default();
    assert!(!options.use_pop);
    assert!(options.access_token.is_none());
    assert!(options.pop_key.is_none());
    assert!(options.extra_headers.is_empty());
}
