use nebulauth_sdk::dashboard::{dashboard_auth_header, days_query, format_query, parse_method};
use nebulauth_sdk::decimal::i64_to_decimal;
use nebulauth_sdk::{
    DashboardAuth, DashboardMethod, DashboardRequestOptions, NebulAuthDashboardClient,
    NebulAuthDashboardClientOptions, NebulAuthError,
};

fn dashboard(base_url: &str, auth: Option<DashboardAuth>) -> NebulAuthDashboardClient {
    NebulAuthDashboardClient::new(NebulAuthDashboardClientOptions {
        base_url: base_url.to_string(),
        auth,
        timeout_ms: 15_000,
    })
    .expect("client init should succeed")
}

#[test]
fn me_uses_bearer_token_header() {
    let client = dashboard(
        "https://api.example.com/dashboard",
        Some(DashboardAuth::Bearer {
            bearer_token: "mk_at_test".to_string(),
        }),
    );
    let header = client.auth_header(None).expect("header");
    assert_eq!(header.name, "authorization");
    assert_eq!(header.value, "Bearer mk_at_test");
    assert_eq!(client.request_url("/me"), "https://api.example.com/dashboard/me");
}

#[test]
fn list_users_uses_session_cookie_header() {
    let client = dashboard(
        "https://api.example.com/dashboard",
        Some(DashboardAuth::Session {
            session_cookie: "sess-123".to_string(),
        }),
    );
    let header = client.auth_header(None).expect("header");
    assert_eq!(header.name, "cookie");
    assert_eq!(header.value, "mc_session=sess-123");
    assert_eq!(
        client.request_url("users"),
        "https://api.example.com/dashboard/users"
    );
}

#[test]
fn request_credentials_win_over_the_clients() {
    let client = dashboard(
        "https://api.example.com/dashboard",
        Some(DashboardAuth::Bearer {
            bearer_token: "mk_at_test".to_string(),
        }),
    );
    let own = DashboardAuth::Session {
        session_cookie: "sess-9".to_string(),
    };
    let header = client.auth_header(Some(&own)).expect("header");
    assert_eq!(header.name, "cookie");
    assert_eq!(header.value, "mc_session=sess-9");
}

#[test]
fn no_credentials_no_header() {
    let client = dashboard("https://api.example.com/dashboard", None);
    assert!(client.auth_header(None).is_none());
    assert!(dashboard_auth_header(None, None).is_none());
}

#[test]
fn dashboard_base_url_is_normalized() {
    assert_eq!(
        dashboard("https://api.example.com/dashboard//", None).base_url(),
        "https://api.example.com/dashboard"
    );
    assert_eq!(
        dashboard("  ", None).base_url(),
        "https://api.nebulauth.com/dashboard"
    );
}

#[test]
fn dashboard_methods_are_read_in_any_case() {
    assert_eq!(parse_method("get").expect("method"), DashboardMethod::Get);
    assert_eq!(parse_method("POST").expect("method"), DashboardMethod::Post);
    assert_eq!(parse_method("Patch").expect("method"), DashboardMethod::Patch);
    assert_eq!(parse_method("delete").expect("method"), DashboardMethod::Delete);
}

#[test]
fn other_methods_are_a_config_error() {
    let err = parse_method("put").expect_err("unsupported method");
    assert!(
        matches!(err, NebulAuthError::Config(ref m) if m == "unsupported dashboard method: put")
    );
}

#[test]
fn dashboard_defaults() {
    let options = NebulAuthDashboardClientOptions::default();
    assert_eq!(options.base_url, "https://api.nebulauth.com/dashboard");
    assert!(options.auth.is_none());
    assert_eq!(options.timeout_ms, 15_000);
    let request = DashboardRequestOptions::default();
    assert!(request.auth.is_none());
    assert!(request.query.is_empty());
    assert!(request.extra_headers.is_empty());
}

#[test]
fn analytics_summary_sends_days_query() {
    let field = days_query(Some(30)).expect("query parameter");
    assert_eq!(field.name, "days");
    assert_eq!(field.value, "30");
    assert!(days_query(None).is_none());
    let client = dashboard("https://api.example.com/dashboard", None);
    assert_eq!(
        client.request_url("/analytics/summary"),
        "https://api.example.com/dashboard/analytics/summary"
    );
}

#[test]
fn bulk_create_keys_uses_format_query() {
    let field = format_query("txt");
    assert_eq!(field.name, "format");
    assert_eq!(field.value, "txt");
    let client = dashboard("https://api.example.com/dashboard", None);
    assert_eq!(
        client.request_url("/keys/batch"),
        "https://api.example.com/dashboard/keys/batch"
    );
}

#[test]
fn signed_decimal_text_of_numbers() {
    assert_eq!(i64_to_decimal(0), "0");
    assert_eq!(i64_to_decimal(30), "30");
    assert_eq!(i64_to_decimal(-7), "-7");
    assert_eq!(i64_to_decimal(i64::MAX), "9223372036854775807");
    assert_eq!(i64_to_decimal(i64::MIN), "-9223372036854775808");
}
