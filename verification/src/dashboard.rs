//! The dashboard side of the service: what its requests carry, and the rules
//! by which a request's address, method and credentials are chosen.

use vstd::prelude::*;
use vstd::string::StringExecFns;
use std::collections::HashMap;
use crate::decimal::{i64_to_decimal, signed_decimal_text};
use crate::error::NebulAuthError;
use crate::headers::{bearer_value, Header, HeaderText};
use crate::path::{starts_with_slash, with_leading_slash};
use crate::requests::Field;
use crate::text::{
    is_blank, lemma_trimmed_text_empty, to_uppercase, trim, trim_end_matches, uppercase_text,
    without_trailing,
};

verus! {

/// The address of the dashboard that a client talks to unless told otherwise.
pub open spec fn default_dashboard_base_url() -> Seq<char> {
    "https://api.nebulauth.com/dashboard"@
}

/// How a dashboard request proves who sends it.
#[derive(Debug, Clone)]
pub enum DashboardAuth {
    Session { session_cookie: String },
    Bearer { bearer_token: String },
}

/// The configuration of a dashboard client.
#[derive(Debug, Clone)]
pub struct NebulAuthDashboardClientOptions {
    pub base_url: String,
    pub auth: Option<DashboardAuth>,
    pub timeout_ms: u64,
}

impl Default for NebulAuthDashboardClientOptions {
    fn default() -> (options: Self)
        ensures
            options.base_url@ == default_dashboard_base_url(),
            options.auth is None,
            options.timeout_ms == 15_000,
    {
        NebulAuthDashboardClientOptions {
            base_url: "https://api.nebulauth.com/dashboard".to_owned(),
            auth: None,
            timeout_ms: 15_000,
        }
    }
}

/// What one dashboard request may override or add.
#[derive(Debug, Clone)]
pub struct DashboardRequestOptions {
    pub auth: Option<DashboardAuth>,
    pub query: HashMap<String, String>,
    pub extra_headers: HashMap<String, String>,
}

impl Default for DashboardRequestOptions {
    fn default() -> (options: Self)
        ensures
            options.auth is None,
            options.query@.len() == 0,
            options.extra_headers@.len() == 0,
    {
        DashboardRequestOptions { auth: None, query: HashMap::new(), extra_headers: HashMap::new() }
    }
}

/// The body of a login.
#[derive(Debug, Clone)]
pub struct LoginRequest {
    pub email: String,
    pub password: String,
}

/// The settings of a customer that an update may change.
#[derive(Debug, Clone)]
pub struct CustomerUpdateRequest {
    pub require_discord_redeem: Option<bool>,
    pub require_hwid: Option<bool>,
    pub paused: Option<bool>,
}

impl Default for CustomerUpdateRequest {
    fn default() -> (request: Self)
        ensures
            request.require_discord_redeem is None,
            request.require_hwid is None,
            request.paused is None,
    {
        CustomerUpdateRequest { require_discord_redeem: None, require_hwid: None, paused: None }
    }
}

/// The body that creates a team member.
#[derive(Debug, Clone)]
pub struct TeamMemberCreateRequest {
    pub email: String,
    pub password: String,
    pub role: String,
}

/// What an update may change of a team member.
#[derive(Debug, Clone)]
pub struct TeamMemberUpdateRequest {
    pub role: Option<String>,
    pub password: Option<String>,
}

impl Default for TeamMemberUpdateRequest {
    fn default() -> (request: Self)
        ensures
            request.role is None,
            request.password is None,
    {
        TeamMemberUpdateRequest { role: None, password: None }
    }
}

/// The body that revokes a key.
#[derive(Debug, Clone)]
pub struct KeyRevokeRequest {
    pub reason: Option<String>,
}

impl Default for KeyRevokeRequest {
    fn default() -> (request: Self)
        ensures
            request.reason is None,
    {
        KeyRevokeRequest { reason: None }
    }
}

/// The body that revokes one key session, and what goes with it.
#[derive(Debug, Clone)]
pub struct RevokeSessionRequest {
    pub reason: Option<String>,
    pub revoke_key: Option<bool>,
    pub reset_hwid: Option<bool>,
    pub blacklist_discord: Option<bool>,
    pub terminate_all_for_key: Option<bool>,
    pub terminate_all_for_token: Option<bool>,
}

impl Default for RevokeSessionRequest {
    fn default() -> (request: Self)
        ensures
            request.reason is None,
            request.revoke_key is None,
            request.reset_hwid is None,
            request.blacklist_discord is None,
            request.terminate_all_for_key is None,
            request.terminate_all_for_token is None,
    {
        RevokeSessionRequest {
            reason: None,
            revoke_key: None,
            reset_hwid: None,
            blacklist_discord: None,
            terminate_all_for_key: None,
            terminate_all_for_token: None,
        }
    }
}

/// The body that revokes every session of a key or a token.
#[derive(Debug, Clone)]
pub struct RevokeAllSessionsRequest {
    pub reason: Option<String>,
    pub key_id: Option<String>,
    pub token_id: Option<String>,
}

impl Default for RevokeAllSessionsRequest {
    fn default() -> (request: Self)
        ensures
            request.reason is None,
            request.key_id is None,
            request.token_id is None,
    {
        RevokeAllSessionsRequest { reason: None, key_id: None, token_id: None }
    }
}

/// One step of a checkpoint.
#[derive(Debug, Clone)]
pub struct CheckpointStepInput {
    pub ad_url: String,
}

/// The body that creates a checkpoint.
#[derive(Debug, Clone)]
pub struct CheckpointCreateRequest {
    pub name: String,
    pub duration_hours: i64,
    pub is_active: bool,
    pub referrer_domain_only: Option<bool>,
    pub steps: Vec<CheckpointStepInput>,
}

/// What an update may change of a checkpoint.
#[derive(Debug, Clone)]
pub struct CheckpointUpdateRequest {
    pub name: Option<String>,
    pub duration_hours: Option<i64>,
    pub is_active: Option<bool>,
    pub referrer_domain_only: Option<bool>,
    pub steps: Option<Vec<CheckpointStepInput>>,
}

impl Default for CheckpointUpdateRequest {
    fn default() -> (request: Self)
        ensures
            request.name is None,
            request.duration_hours is None,
            request.is_active is None,
            request.referrer_domain_only is None,
            request.steps is None,
    {
        CheckpointUpdateRequest {
            name: None,
            duration_hours: None,
            is_active: None,
            referrer_domain_only: None,
            steps: None,
        }
    }
}

/// The body that adds an entry to the blacklist.
#[derive(Debug, Clone)]
pub struct BlacklistCreateRequest {
    /// The kind of entry; the service calls this field `type`.
    pub kind: String,
    pub value: String,
    pub reason: Option<String>,
}

/// The body that creates an API token.
#[derive(Debug, Clone)]
pub struct ApiTokenCreateRequest {
    pub scopes: Vec<String>,
    pub replay_protection: String,
    pub auth_mode: String,
    pub expires_at: Option<String>,
}

/// What an update may change of an API token.
#[derive(Debug, Clone)]
pub struct ApiTokenUpdateRequest {
    pub scopes: Option<Vec<String>>,
    pub replay_protection: Option<String>,
    pub auth_mode: Option<String>,
    pub expires_at: Option<String>,
}

impl Default for ApiTokenUpdateRequest {
    fn default() -> (request: Self)
        ensures
            request.scopes is None,
            request.replay_protection is None,
            request.auth_mode is None,
            request.expires_at is None,
    {
        ApiTokenUpdateRequest {
            scopes: None,
            replay_protection: None,
            auth_mode: None,
            expires_at: None,
        }
    }
}

/// The methods of dashboard requests.
#[derive(Debug, Clone, Copy, PartialEq, Eq, Structural)]
pub enum DashboardMethod {
    Get,
    Post,
    Patch,
    Delete,
}

/// The method that a name in upper case stands for.
pub open spec fn method_named(upper: Seq<char>) -> Option<DashboardMethod> {
    if upper == "GET"@ {
        Some(DashboardMethod::Get)
    } else if upper == "POST"@ {
        Some(DashboardMethod::Post)
    } else if upper == "PATCH"@ {
        Some(DashboardMethod::Patch)
    } else if upper == "DELETE"@ {
        Some(DashboardMethod::Delete)
    } else {
        None
    }
}

/// The message for a method that the dashboard does not take.
pub open spec fn unsupported_method(method: Seq<char>) -> Seq<char> {
    "unsupported dashboard method: "@ + method
}

/// Reads a method name, in any case. Only `GET`, `POST`, `PATCH` and `DELETE`
/// are dashboard methods.
pub fn parse_method(method: &str) -> (out: Result<DashboardMethod, NebulAuthError>)
    ensures
        match method_named(uppercase_text(method@)) {
            Some(m) => out matches Ok(parsed) && parsed == m,
            None => out matches Err(e) && e.is_config(unsupported_method(method@)),
        },
{
    let upper = to_uppercase(method);
    if upper == String::from_str("GET") {
        Ok(DashboardMethod::Get)
    } else if upper == String::from_str("POST") {
        Ok(DashboardMethod::Post)
    } else if upper == String::from_str("PATCH") {
        Ok(DashboardMethod::Patch)
    } else if upper == String::from_str("DELETE") {
        Ok(DashboardMethod::Delete)
    } else {
        let mut message = String::from_str("unsupported dashboard method: ");
        message.append(method);
        Err(NebulAuthError::Config(message))
    }
}

/// The name of the header that carries a session cookie.
pub open spec fn cookie_name() -> Seq<char> {
    "cookie"@
}

/// The name of the header that carries a dashboard bearer token.
pub open spec fn dashboard_authorization_name() -> Seq<char> {
    "authorization"@
}

/// The value of the cookie header for a session.
pub open spec fn session_value(session_cookie: Seq<char>) -> Seq<char> {
    "mc_session="@ + session_cookie
}

/// The header that carries the given credentials.
pub open spec fn auth_header_of(auth: DashboardAuth) -> HeaderText {
    match auth {
        DashboardAuth::Session { session_cookie } => (
            cookie_name(),
            session_value(session_cookie@),
        ),
        DashboardAuth::Bearer { bearer_token } => (
            dashboard_authorization_name(),
            bearer_value(bearer_token@),
        ),
    }
}

/// The header that authenticates a dashboard request: a session cookie or a
/// bearer token, from the request's own credentials where it has any, else
/// from the client's; none where neither has any.
pub fn dashboard_auth_header(
    request_auth: Option<&DashboardAuth>,
    default_auth: Option<&DashboardAuth>,
) -> (out: Option<Header>)
    ensures
        match request_auth {
            Some(auth) => out matches Some(h) && h@ == auth_header_of(*auth),
            None => match default_auth {
                Some(auth) => out matches Some(h) && h@ == auth_header_of(*auth),
                None => out is None,
            },
        },
{
    let auth: &DashboardAuth = match request_auth {
        Some(auth) => auth,
        None => match default_auth {
            Some(auth) => auth,
            None => {
                return None;
            },
        },
    };
    match auth {
        DashboardAuth::Session { session_cookie } => {
            let mut value = String::from_str("mc_session=");
            value.append(session_cookie.as_str());
            Some(Header { name: String::from_str("cookie"), value })
        },
        DashboardAuth::Bearer { bearer_token } => {
            let mut value = String::from_str("Bearer ");
            value.append(bearer_token.as_str());
            Some(Header { name: String::from_str("authorization"), value })
        },
    }
}

/// The query parameter that limits an analytics report to a number of days,
/// where the caller gives one: `days` with the number in decimal.
pub fn days_query(days: Option<i64>) -> (out: Option<Field>)
    ensures
        match days {
            Some(d) => out matches Some(field) && field@ == (
                "days"@,
                signed_decimal_text(d as int),
            ),
            None => out is None,
        },
{
    match days {
        Some(d) => Some(Field { name: String::from_str("days"), value: i64_to_decimal(d) }),
        None => None,
    }
}

/// The query parameter that picks the format of a batch of new keys.
pub fn format_query(format: &str) -> (field: Field)
    ensures
        field@ == ("format"@, format@),
{
    Field { name: String::from_str("format"), value: format.to_owned() }
}

/// The base address of a dashboard client: the default where the configured
/// one is blank, else the configured one without the slashes at its end.
pub open spec fn dashboard_base_url_of(configured: Seq<char>) -> Seq<char> {
    if is_blank(configured) {
        default_dashboard_base_url()
    } else {
        without_trailing(configured, '/')
    }
}

/// A dashboard client's base address and default credentials.
#[derive(Debug, Clone)]
pub struct NebulAuthDashboardClient {
    base_url: String,
    default_auth: Option<DashboardAuth>,
}

impl NebulAuthDashboardClient {
    /// The base address.
    pub closed spec fn spec_base_url(&self) -> Seq<char> {
        self.base_url@
    }

    /// The credentials of requests that bring none.
    pub closed spec fn spec_default_auth(&self) -> Option<DashboardAuth> {
        self.default_auth
    }

    /// Makes a client from its configuration.
    pub fn new(
        options: NebulAuthDashboardClientOptions,
    ) -> (out: Result<NebulAuthDashboardClient, NebulAuthError>)
        ensures
            out matches Ok(client) && client.spec_base_url() == dashboard_base_url_of(
                options.base_url@,
            ) && client.spec_default_auth() == options.auth,
    {
        proof {
            lemma_trimmed_text_empty(options.base_url@);
        }
        let base_url: String = if trim(options.base_url.as_str()).is_empty() {
            String::from_str("https://api.nebulauth.com/dashboard")
        } else {
            trim_end_matches(options.base_url.as_str(), '/').to_owned()
        };
        Ok(NebulAuthDashboardClient { base_url, default_auth: options.auth })
    }

    /// The base address.
    pub fn base_url(&self) -> (url: &str)
        ensures
            url@ == self.spec_base_url(),
    {
        self.base_url.as_str()
    }

    /// The address of a request, before its query: the base address followed
    /// by the path, with a slash between them where the path brings none.
    pub fn request_url(&self, path: &str) -> (url: String)
        ensures
            url@ == self.spec_base_url() + with_leading_slash(path@),
    {
        proof {
            reveal_strlit("/");
        }
        let mut url = self.base_url.clone();
        if !starts_with_slash(path) {
            url.append("/");
        }
        url.append(path);
        url
    }

    /// The header that authenticates a request of this client.
    pub fn auth_header(&self, request_auth: Option<&DashboardAuth>) -> (out: Option<Header>)
        ensures
            match request_auth {
                Some(auth) => out matches Some(h) && h@ == auth_header_of(*auth),
                None => match self.spec_default_auth() {
                    Some(auth) => out matches Some(h) && h@ == auth_header_of(auth),
                    None => out is None,
                },
            },
    {
        let default_auth: Option<&DashboardAuth> = match &self.default_auth {
            Some(auth) => Some(auth),
            None => None,
        };
        dashboard_auth_header(request_auth, default_auth)
    }
}

} // verus!
