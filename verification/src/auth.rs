//! The policy of authentication: which regime applies to a call, which
//! credentials it needs, and which headers it sends.

use vstd::prelude::*;
use vstd::string::StringExecFns;
use crate::decimal::{decimal_text, is_decimal_digit};
use crate::digest::{body_hash_text, signature_text};
use crate::error::NebulAuthError;
use crate::hex::is_hex_digest_text;
use crate::nonce::is_well_formed_nonce;
use crate::headers::{
    authorization_name, bearer_value, body_hash_name, distinct_names, has_header, header_value,
    lemma_header_value_present, nonce_name, signature_name, timestamp_name, AuthHeaderSet,
    HeaderText,
};
use crate::options::ReplayProtectionMode;
use crate::signing::{canonical_text, SignedRequest};
use crate::text::uppercase_text;

verus! {

/// The four ways in which a request is authenticated. Exactly one applies to
/// each call.
#[derive(Debug, Clone, Copy, PartialEq, Eq, Structural)]
pub enum AuthRegime {
    /// Proof of possession: the caller's access token, signed with the
    /// caller's key.
    Pop,
    /// The client's token, signed, with the digest of the body exposed.
    Strict,
    /// The client's token, signed, without the header for the body's digest.
    Nonce,
    /// The client's token alone.
    Bearer,
}

impl AuthRegime {
    /// Whether requests are signed under this regime.
    pub open spec fn signs(self) -> bool {
        self != AuthRegime::Bearer
    }

    /// Whether the header with the body's digest is sent under this regime.
    pub open spec fn exposes_body_hash(self) -> bool {
        self == AuthRegime::Pop || self == AuthRegime::Strict
    }

    /// Whether requests are signed under this regime.
    pub fn is_signed(&self) -> (yes: bool)
        ensures
            yes == self.signs(),
    {
        match self {
            AuthRegime::Bearer => false,
            _ => true,
        }
    }

    /// Whether the header with the body's digest is sent under this regime.
    pub fn sends_body_hash(&self) -> (yes: bool)
        ensures
            yes == self.exposes_body_hash(),
    {
        match self {
            AuthRegime::Pop => true,
            AuthRegime::Strict => true,
            _ => false,
        }
    }
}

/// The regime of a call: proof of possession where the caller asks for it,
/// whatever the client's mode; the client's mode otherwise.
pub open spec fn regime_of(mode: ReplayProtectionMode, use_pop: bool) -> AuthRegime {
    if use_pop {
        AuthRegime::Pop
    } else {
        match mode {
            ReplayProtectionMode::Strict => AuthRegime::Strict,
            ReplayProtectionMode::Nonce => AuthRegime::Nonce,
            ReplayProtectionMode::Off => AuthRegime::Bearer,
        }
    }
}

/// Selects the regime of a call.
pub fn select_regime(mode: ReplayProtectionMode, use_pop: bool) -> (regime: AuthRegime)
    ensures
        regime == regime_of(mode, use_pop),
{
    if use_pop {
        AuthRegime::Pop
    } else {
        match mode {
            ReplayProtectionMode::Strict => AuthRegime::Strict,
            ReplayProtectionMode::Nonce => AuthRegime::Nonce,
            ReplayProtectionMode::Off => AuthRegime::Bearer,
        }
    }
}

/// The message for a proof-of-possession call without access token.
pub open spec fn missing_access_token() -> Seq<char> {
    "access_token is required when use_pop=true"@
}

/// The message for a proof-of-possession call without key.
pub open spec fn missing_pop_key() -> Seq<char> {
    "pop_key is required when use_pop=true"@
}

/// The message for a client without bearer token.
pub open spec fn missing_bearer_token() -> Seq<char> {
    "bearer_token is required for bearer mode"@
}

/// The message for a signing client without signing secret.
pub open spec fn missing_signing_secret() -> Seq<char> {
    "signing_secret is required when replay_protection is nonce/strict"@
}

/// The text of an optional string slice.
pub open spec fn opt_text(s: Option<&str>) -> Option<Seq<char>> {
    match s {
        Some(t) => Some(t@),
        None => None,
    }
}

/// The text of an optional string.
pub open spec fn opt_string_text(s: Option<String>) -> Option<Seq<char>> {
    match s {
        Some(t) => Some(t@),
        None => None,
    }
}

/// The credentials of a call as texts: the regime, the token of the
/// authorization header, and the secret that signs, where the regime signs.
pub struct AuthPlan {
    pub regime: AuthRegime,
    pub token: Seq<char>,
    pub secret: Option<Seq<char>>,
}

/// Which credentials a call uses, or the message of the first that is
/// missing. A proof-of-possession call needs the caller's access token and
/// key, and nothing of the client. Any other call needs the client's bearer
/// token, and the signing secret too unless replay protection is off.
pub open spec fn auth_plan(
    mode: ReplayProtectionMode,
    bearer_token: Option<Seq<char>>,
    signing_secret: Option<Seq<char>>,
    use_pop: bool,
    access_token: Option<Seq<char>>,
    pop_key: Option<Seq<char>>,
) -> Result<AuthPlan, Seq<char>> {
    if use_pop {
        if access_token is None {
            Err(missing_access_token())
        } else if pop_key is None {
            Err(missing_pop_key())
        } else {
            Ok(AuthPlan { regime: AuthRegime::Pop, token: access_token->0, secret: pop_key })
        }
    } else if bearer_token is None {
        Err(missing_bearer_token())
    } else if mode == ReplayProtectionMode::Off {
        Ok(AuthPlan { regime: AuthRegime::Bearer, token: bearer_token->0, secret: None })
    } else if signing_secret is None {
        Err(missing_signing_secret())
    } else {
        Ok(
            AuthPlan {
                regime: regime_of(mode, false),
                token: bearer_token->0,
                secret: signing_secret,
            },
        )
    }
}

/// The credentials that one call uses.
#[derive(Debug, Clone)]
pub struct ResolvedAuth {
    pub regime: AuthRegime,
    pub token: String,
    pub secret: Option<String>,
}

impl ResolvedAuth {
    /// A signing regime has its secret, and the bearer regime has none.
    pub open spec fn wf(self) -> bool {
        self.regime.signs() <==> self.secret is Some
    }
}

impl View for ResolvedAuth {
    type V = AuthPlan;

    open spec fn view(&self) -> AuthPlan {
        AuthPlan {
            regime: self.regime,
            token: self.token@,
            secret: opt_string_text(self.secret),
        }
    }
}

/// Checks that the credentials of the call's regime are there, before any
/// signing work begins, and picks them.
pub fn resolve_auth(
    mode: ReplayProtectionMode,
    bearer_token: Option<&str>,
    signing_secret: Option<&str>,
    use_pop: bool,
    access_token: Option<&str>,
    pop_key: Option<&str>,
) -> (out: Result<ResolvedAuth, NebulAuthError>)
    ensures
        match auth_plan(
            mode,
            opt_text(bearer_token),
            opt_text(signing_secret),
            use_pop,
            opt_text(access_token),
            opt_text(pop_key),
        ) {
            Ok(plan) => out matches Ok(resolved) && resolved@ == plan && resolved.wf()
                && plan.regime == regime_of(mode, use_pop),
            Err(message) => out matches Err(e) && e.is_config(message),
        },
{
    if use_pop {
        let token = match access_token {
            Some(t) => t,
            None => {
                return Err(NebulAuthError::config("access_token is required when use_pop=true"));
            },
        };
        let key = match pop_key {
            Some(k) => k,
            None => {
                return Err(NebulAuthError::config("pop_key is required when use_pop=true"));
            },
        };
        return Ok(
            ResolvedAuth {
                regime: AuthRegime::Pop,
                token: token.to_owned(),
                secret: Some(key.to_owned()),
            },
        );
    }
    let token = match bearer_token {
        Some(t) => t,
        None => {
            return Err(NebulAuthError::config("bearer_token is required for bearer mode"));
        },
    };
    let regime = select_regime(mode, false);
    if !regime.is_signed() {
        return Ok(ResolvedAuth { regime, token: token.to_owned(), secret: None });
    }
    let secret = match signing_secret {
        Some(s) => s,
        None => {
            return Err(
                NebulAuthError::config(
                    "signing_secret is required when replay_protection is nonce/strict",
                ),
            );
        },
    };
    Ok(ResolvedAuth { regime, token: token.to_owned(), secret: Some(secret.to_owned()) })
}

/// The four headers of a signed request.
pub open spec fn signing_headers(
    timestamp: Seq<char>,
    nonce: Seq<char>,
    signature: Seq<char>,
    body_hash: Seq<char>,
) -> Seq<HeaderText> {
    seq![
        (timestamp_name(), timestamp),
        (nonce_name(), nonce),
        (signature_name(), signature),
        (body_hash_name(), body_hash),
    ]
}

/// The headers of a request under a regime: the authorization header with the
/// token, always; under a signing regime timestamp, nonce and signature after
/// it; and the digest of the body last, where the regime exposes it.
pub open spec fn auth_headers(
    regime: AuthRegime,
    token: Seq<char>,
    timestamp: Seq<char>,
    nonce: Seq<char>,
    signature: Seq<char>,
    body_hash: Seq<char>,
) -> Seq<HeaderText> {
    let authorization = seq![(authorization_name(), bearer_value(token))];
    let signing = signing_headers(timestamp, nonce, signature, body_hash);
    if !regime.signs() {
        authorization
    } else if regime.exposes_body_hash() {
        authorization + signing
    } else {
        authorization + signing.take(3)
    }
}

/// The headers of a request signed at `timestamp` with `nonce`: the signature
/// is taken over the canonical text of the method in upper case, the
/// canonical path, the timestamp, the nonce and the digest of the body. The
/// digest is part of the signed text under every signing regime, also where
/// its header is left out.
pub open spec fn signed_request_headers(
    regime: AuthRegime,
    token: Seq<char>,
    secret: Seq<char>,
    method: Seq<char>,
    path: Seq<char>,
    timestamp: nat,
    nonce: Seq<char>,
    body: Seq<char>,
) -> Seq<HeaderText> {
    let body_hash = body_hash_text(body);
    let canonical = canonical_text(uppercase_text(method), path, timestamp, nonce, body_hash);
    auth_headers(
        regime,
        token,
        decimal_text(timestamp),
        nonce,
        signature_text(secret, canonical),
        body_hash,
    )
}

/// Whether the header of the given name is there and holds a digest in
/// hexadecimal: 64 characters of `0-9a-f`.
pub open spec fn digest_valued(headers: Seq<HeaderText>, name: Seq<char>) -> bool {
    header_value(headers, name) matches Some(v) && is_hex_digest_text(v)
}

/// Whether the timestamp header is there and holds a number in decimal.
pub open spec fn timestamp_valued(headers: Seq<HeaderText>) -> bool {
    header_value(headers, timestamp_name()) matches Some(v) && v.len() > 0 && forall|i: int|
        0 <= i < v.len() ==> is_decimal_digit(#[trigger] v[i])
}

/// Whether the nonce header is there and holds a well-formed nonce: 22
/// characters of the URL-safe base64 alphabet, the text of sixteen bytes.
pub open spec fn nonce_valued(headers: Seq<HeaderText>) -> bool {
    header_value(headers, nonce_name()) matches Some(v) && is_well_formed_nonce(v)
}

/// Whether the values that a regime sends have the form that the server
/// expects: under a signing regime a decimal timestamp and a signature of 64
/// hexadecimal characters, and a digest of the body of the same form where
/// the regime exposes it.
pub open spec fn signed_values_shaped(headers: Seq<HeaderText>, regime: AuthRegime) -> bool {
    &&& regime.signs() ==> timestamp_valued(headers)
    &&& regime.signs() ==> digest_valued(headers, signature_name())
    &&& regime.exposes_body_hash() ==> digest_valued(headers, body_hash_name())
}

/// What a lookup finds among the four signing headers.
pub proof fn lemma_signing_headers_values(
    timestamp: Seq<char>,
    nonce: Seq<char>,
    signature: Seq<char>,
    body_hash: Seq<char>,
)
    ensures
        ({
            let headers = signing_headers(timestamp, nonce, signature, body_hash);
            &&& header_value(headers, timestamp_name()) == Some(timestamp)
            &&& header_value(headers, nonce_name()) == Some(nonce)
            &&& header_value(headers, signature_name()) == Some(signature)
            &&& header_value(headers, body_hash_name()) == Some(body_hash)
            &&& distinct_names(headers)
        }),
{
    lemma_header_names_differ();
    reveal_with_fuel(header_value, 5);
}

/// The value of the authorization header for `token`.
pub fn bearer_header_value(token: &str) -> (value: String)
    ensures
        value@ == bearer_value(token@),
{
    let mut value = String::from_str("Bearer ");
    value.append(token);
    value
}

/// The four signing headers of a signed request.
pub fn signing_header_set(signed: &SignedRequest) -> (set: AuthHeaderSet)
    ensures
        set@ == signing_headers(
            signed.timestamp@,
            signed.nonce@,
            signed.signature@,
            signed.body_hash@,
        ),
        set.wf(),
{
    proof {
        lemma_header_names_differ();
    }
    let mut set = AuthHeaderSet::new();
    set.push("X-Timestamp", signed.timestamp.clone());
    set.push("X-Nonce", signed.nonce.clone());
    set.push("X-Signature", signed.signature.clone());
    set.push("X-Body-Sha256", signed.body_hash.clone());
    set
}

/// The headers of a request that carries the token alone.
pub fn bearer_header_set(token: &str) -> (set: AuthHeaderSet)
    ensures
        set@ == seq![(authorization_name(), bearer_value(token@))],
        set.wf(),
{
    let mut set = AuthHeaderSet::new();
    set.push("Authorization", bearer_header_value(token));
    set
}

/// Puts the headers of a request together: the authorization header, and
/// what the regime sends of the signed request. Under the bearer regime that
/// is nothing.
pub fn assemble_headers(
    regime: AuthRegime,
    token: &str,
    signed: &SignedRequest,
) -> (set: AuthHeaderSet)
    ensures
        set@ == auth_headers(
            regime,
            token@,
            signed.timestamp@,
            signed.nonce@,
            signed.signature@,
            signed.body_hash@,
        ),
        set.wf(),
{
    proof {
        lemma_header_names_differ();
    }
    let mut set = bearer_header_set(token);
    if regime.is_signed() {
        set.push("X-Timestamp", signed.timestamp.clone());
        set.push("X-Nonce", signed.nonce.clone());
        set.push("X-Signature", signed.signature.clone());
        if regime.sends_body_hash() {
            set.push("X-Body-Sha256", signed.body_hash.clone());
        }
    }
    set
}

/// The five header names differ from one another.
pub proof fn lemma_header_names_differ()
    ensures
        authorization_name() != timestamp_name(),
        authorization_name() != nonce_name(),
        authorization_name() != signature_name(),
        authorization_name() != body_hash_name(),
        timestamp_name() != nonce_name(),
        timestamp_name() != signature_name(),
        timestamp_name() != body_hash_name(),
        nonce_name() != signature_name(),
        nonce_name() != body_hash_name(),
        signature_name() != body_hash_name(),
{
    reveal_strlit("Authorization");
    reveal_strlit("X-Timestamp");
    reveal_strlit("X-Nonce");
    reveal_strlit("X-Signature");
    reveal_strlit("X-Body-Sha256");
    assert(timestamp_name()[0] == 'X' && timestamp_name()[2] == 'T');
    assert(nonce_name()[0] == 'X' && nonce_name()[2] == 'N');
    assert(signature_name()[0] == 'X' && signature_name()[2] == 'S');
    assert(body_hash_name()[0] == 'X' && body_hash_name()[2] == 'B');
}

/// Every set of headers holds the authorization header with the bearer
/// token, and no name twice.
pub proof fn lemma_auth_headers_authorization(
    regime: AuthRegime,
    token: Seq<char>,
    timestamp: Seq<char>,
    nonce: Seq<char>,
    signature: Seq<char>,
    body_hash: Seq<char>,
)
    ensures
        header_value(
            auth_headers(regime, token, timestamp, nonce, signature, body_hash),
            authorization_name(),
        ) == Some(bearer_value(token)),
        distinct_names(auth_headers(regime, token, timestamp, nonce, signature, body_hash)),
{
    lemma_header_names_differ();
}

/// Which headers a regime sends. The strict and the proof-of-possession
/// regime send the digest of the body, the nonce regime never does, and all
/// three send timestamp, nonce and signature. The bearer regime sends none of
/// the four.
pub proof fn lemma_auth_headers_by_regime(
    regime: AuthRegime,
    token: Seq<char>,
    timestamp: Seq<char>,
    nonce: Seq<char>,
    signature: Seq<char>,
    body_hash: Seq<char>,
)
    ensures
        ({
            let headers = auth_headers(regime, token, timestamp, nonce, signature, body_hash);
            &&& has_header(headers, authorization_name())
            &&& has_header(headers, signature_name()) <==> regime.signs()
            &&& has_header(headers, timestamp_name()) <==> regime.signs()
            &&& has_header(headers, nonce_name()) <==> regime.signs()
            &&& has_header(headers, body_hash_name()) <==> regime.exposes_body_hash()
            &&& regime.signs() ==> header_value(headers, signature_name()) == Some(signature)
            &&& regime.signs() ==> header_value(headers, timestamp_name()) == Some(timestamp)
            &&& regime.signs() ==> header_value(headers, nonce_name()) == Some(nonce)
            &&& regime.exposes_body_hash() ==> header_value(headers, body_hash_name()) == Some(
                body_hash,
            )
        }),
{
    lemma_header_names_differ();
    let headers = auth_headers(regime, token, timestamp, nonce, signature, body_hash);
    lemma_header_value_present(headers, authorization_name());
    lemma_header_value_present(headers, signature_name());
    lemma_header_value_present(headers, timestamp_name());
    lemma_header_value_present(headers, nonce_name());
    lemma_header_value_present(headers, body_hash_name());
    reveal_with_fuel(header_value, 6);
}

/// Strict mode always sends the digest of the body and the nonce mode never
/// does; both send the signature.
pub proof fn lemma_strict_and_nonce_headers(
    token: Seq<char>,
    timestamp: Seq<char>,
    nonce: Seq<char>,
    signature: Seq<char>,
    body_hash: Seq<char>,
)
    ensures
        ({
            let strict = auth_headers(
                regime_of(ReplayProtectionMode::Strict, false),
                token,
                timestamp,
                nonce,
                signature,
                body_hash,
            );
            let nonce_only = auth_headers(
                regime_of(ReplayProtectionMode::Nonce, false),
                token,
                timestamp,
                nonce,
                signature,
                body_hash,
            );
            &&& has_header(strict, body_hash_name())
            &&& !has_header(nonce_only, body_hash_name())
            &&& has_header(strict, signature_name())
            &&& has_header(nonce_only, signature_name())
        }),
{
    lemma_auth_headers_by_regime(AuthRegime::Strict, token, timestamp, nonce, signature, body_hash);
    lemma_auth_headers_by_regime(AuthRegime::Nonce, token, timestamp, nonce, signature, body_hash);
}

/// A proof-of-possession call is signed whatever the client's mode, also
/// where replay protection is off, and needs nothing of the client's own
/// credentials: with access token and key it signs with the key and sends the
/// access token.
pub proof fn lemma_pop_always_signs(
    mode: ReplayProtectionMode,
    bearer_token: Option<Seq<char>>,
    signing_secret: Option<Seq<char>>,
    access_token: Seq<char>,
    pop_key: Seq<char>,
)
    ensures
        regime_of(mode, true) == AuthRegime::Pop,
        regime_of(mode, true).signs(),
        regime_of(mode, true).exposes_body_hash(),
        auth_plan(mode, bearer_token, signing_secret, true, Some(access_token), Some(pop_key))
            == Ok::<AuthPlan, Seq<char>>(
            AuthPlan { regime: AuthRegime::Pop, token: access_token, secret: Some(pop_key) },
        ),
{
}

/// A signing mode without signing secret ends in a configuration error: the
/// request is never sent unsigned.
pub proof fn lemma_missing_secret_is_config_error(
    mode: ReplayProtectionMode,
    bearer_token: Option<Seq<char>>,
    access_token: Option<Seq<char>>,
    pop_key: Option<Seq<char>>,
)
    requires
        mode != ReplayProtectionMode::Off,
    ensures
        auth_plan(mode, bearer_token, None, false, access_token, pop_key) is Err,
        bearer_token is Some ==> auth_plan(mode, bearer_token, None, false, access_token, pop_key)
            == Err::<AuthPlan, Seq<char>>(missing_signing_secret()),
{
}

/// Whenever credentials are found, the regime is the one selected for the
/// call, and it has a secret exactly where it signs.
pub proof fn lemma_auth_plan_regime(
    mode: ReplayProtectionMode,
    bearer_token: Option<Seq<char>>,
    signing_secret: Option<Seq<char>>,
    use_pop: bool,
    access_token: Option<Seq<char>>,
    pop_key: Option<Seq<char>>,
)
    ensures
        auth_plan(mode, bearer_token, signing_secret, use_pop, access_token, pop_key) matches Ok(
            plan,
        ) ==> plan.regime == regime_of(mode, use_pop) && (plan.regime.signs()
            <==> plan.secret is Some),
{
}

} // verus!
