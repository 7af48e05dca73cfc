//! What a client is configured with, and what a caller hands it per call.

use vstd::prelude::*;
use std::collections::HashMap;

verus! {

/// The address of the service that a client talks to unless told otherwise.
pub open spec fn default_base_url() -> Seq<char> {
    "https://api.nebulauth.com/api/v1"@
}

/// How requests are protected against being replayed.
#[derive(Debug, Clone, Copy, PartialEq, Eq, Structural)]
pub enum ReplayProtectionMode {
    /// No replay protection: the bearer token alone.
    Off,
    /// Signed with timestamp and nonce; the digest of the body is not exposed.
    Nonce,
    /// Signed with timestamp and nonce, with the digest of the body exposed.
    Strict,
}

/// The configuration of a client. It is set once, when the client is made.
#[derive(Debug, Clone)]
pub struct NebulAuthClientOptions {
    pub base_url: String,
    pub bearer_token: Option<String>,
    pub signing_secret: Option<String>,
    pub service_slug: Option<String>,
    pub replay_protection: ReplayProtectionMode,
    pub timeout_ms: u64,
}

impl Default for NebulAuthClientOptions {
    fn default() -> (options: Self)
        ensures
            options.base_url@ == default_base_url(),
            options.bearer_token is None,
            options.signing_secret is None,
            options.service_slug is None,
            options.replay_protection == ReplayProtectionMode::Strict,
            options.timeout_ms == 15_000,
    {
        NebulAuthClientOptions {
            base_url: "https://api.nebulauth.com/api/v1".to_owned(),
            bearer_token: None,
            signing_secret: None,
            service_slug: None,
            replay_protection: ReplayProtectionMode::Strict,
            timeout_ms: 15_000,
        }
    }
}

/// Proof-of-possession credentials for one call: all three fields together,
/// or none.
#[derive(Debug, Clone)]
pub struct PopAuthOptions {
    pub use_pop: bool,
    pub access_token: Option<String>,
    pub pop_key: Option<String>,
}

impl Default for PopAuthOptions {
    fn default() -> (options: Self)
        ensures
            !options.use_pop,
            options.access_token is None,
            options.pop_key is None,
    {
        PopAuthOptions { use_pop: false, access_token: None, pop_key: None }
    }
}

/// What `verify_key` takes.
#[derive(Debug, Clone)]
pub struct VerifyKeyInput {
    pub key: String,
    pub request_id: Option<String>,
    pub hwid: Option<String>,
    pub use_pop: bool,
    pub access_token: Option<String>,
    pub pop_key: Option<String>,
}

impl Default for VerifyKeyInput {
    fn default() -> (input: Self)
        ensures
            input.key@.len() == 0,
            input.request_id is None,
            input.hwid is None,
            !input.use_pop,
            input.access_token is None,
            input.pop_key is None,
    {
        VerifyKeyInput {
            key: String::new(),
            request_id: None,
            hwid: None,
            use_pop: false,
            access_token: None,
            pop_key: None,
        }
    }
}

/// What `auth_verify` takes.
#[derive(Debug, Clone)]
pub struct AuthVerifyInput {
    pub key: String,
    pub hwid: Option<String>,
    pub request_id: Option<String>,
}

impl Default for AuthVerifyInput {
    fn default() -> (input: Self)
        ensures
            input.key@.len() == 0,
            input.hwid is None,
            input.request_id is None,
    {
        AuthVerifyInput { key: String::new(), hwid: None, request_id: None }
    }
}

/// What `redeem_key` takes.
#[derive(Debug, Clone)]
pub struct RedeemKeyInput {
    pub key: String,
    pub discord_id: String,
    pub service_slug: Option<String>,
    pub request_id: Option<String>,
    pub use_pop: bool,
    pub access_token: Option<String>,
    pub pop_key: Option<String>,
}

impl Default for RedeemKeyInput {
    fn default() -> (input: Self)
        ensures
            input.key@.len() == 0,
            input.discord_id@.len() == 0,
            input.service_slug is None,
            input.request_id is None,
            !input.use_pop,
            input.access_token is None,
            input.pop_key is None,
    {
        RedeemKeyInput {
            key: String::new(),
            discord_id: String::new(),
            service_slug: None,
            request_id: None,
            use_pop: false,
            access_token: None,
            pop_key: None,
        }
    }
}

/// What `reset_hwid` takes: a Discord id, a key, or both.
#[derive(Debug, Clone)]
pub struct ResetHwidInput {
    pub discord_id: Option<String>,
    pub key: Option<String>,
    pub request_id: Option<String>,
    pub use_pop: bool,
    pub access_token: Option<String>,
    pub pop_key: Option<String>,
}

impl Default for ResetHwidInput {
    fn default() -> (input: Self)
        ensures
            input.discord_id is None,
            input.key is None,
            input.request_id is None,
            !input.use_pop,
            input.access_token is None,
            input.pop_key is None,
    {
        ResetHwidInput {
            discord_id: None,
            key: None,
            request_id: None,
            use_pop: false,
            access_token: None,
            pop_key: None,
        }
    }
}

/// What a plain `post` takes besides the payload.
#[derive(Debug, Clone)]
pub struct GenericPostOptions {
    pub use_pop: bool,
    pub access_token: Option<String>,
    pub pop_key: Option<String>,
    pub extra_headers: HashMap<String, String>,
}

impl Default for GenericPostOptions {
    fn default() -> (options: Self)
        ensures
            !options.use_pop,
            options.access_token is None,
            options.pop_key is None,
            options.extra_headers@.len() == 0,
    {
        GenericPostOptions {
            use_pop: false,
            access_token: None,
            pop_key: None,
            extra_headers: HashMap::new(),
        }
    }
}

} // verus!
