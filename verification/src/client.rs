//! The client's side of authentication: its configuration, the addresses it
//! derives from it, and the headers it builds for each request.

use vstd::prelude::*;
use vstd::string::StringExecFns;
use crate::auth::{
    assemble_headers, auth_plan, bearer_header_set, digest_valued,
    lemma_auth_headers_authorization, lemma_auth_headers_by_regime, lemma_auth_plan_regime,
    lemma_signing_headers_values, missing_signing_secret, nonce_valued, opt_string_text,
    opt_text, regime_of, resolve_auth, signed_request_headers, signed_values_shaped,
    signing_header_set, signing_headers, timestamp_valued, AuthPlan, AuthRegime, ResolvedAuth,
};
use crate::clock::{current_timestamp_ms, max_millis};
use crate::decimal::{decimal_text, lemma_decimal_text_digits};
use crate::digest::{body_hash_text, signature_text};
use crate::error::NebulAuthError;
use crate::headers::{
    authorization_name, bearer_value, body_hash_name, distinct_names, has_header, header_value,
    nonce_name, signature_name, timestamp_name, AuthHeaderSet, HeaderText,
};
use crate::hex::is_hex_digest_text;
use crate::nonce::{is_well_formed_nonce, lemma_base64_text_single_line, random_nonce};
use crate::options::{
    default_base_url, NebulAuthClientOptions, ReplayProtectionMode, ResetHwidInput,
};
use crate::path::{canonical_path_of, parsed_url_path, resolve_canonical_path, url_path};
use crate::signing::{canonical_text, SignedRequest, SigningInput};
use crate::text::{
    is_blank, lemma_trimmed_text_empty, lemma_without_trailing_end, single_line, trim,
    trim_end_matches, trim_start_matches, uppercase_text, without_leading, without_trailing,
};

verus! {

/// The address that `reference` has when it is resolved against `base`, or
/// `None` where `base` does not parse as an absolute URL or the two cannot be
/// joined.
pub uninterp spec fn joined_url(base: Seq<char>, reference: Seq<char>) -> Option<Seq<char>>;

/// Resolves `reference` against `base`.
///
/// Trusted: `url::Url::parse` on `base`, `Url::join` with `reference`, and the
/// text of the result. Whether the two join, and to what, depends on the two
/// texts alone.
#[verifier::external_body]
pub(crate) fn join_url(base: &str, reference: &str) -> (out: Result<String, url::ParseError>)
    ensures
        out is Ok <==> joined_url(base@, reference@) is Some,
        out matches Ok(full) ==> joined_url(base@, reference@) == Some(full@),
{
    Ok(url::Url::parse(base)?.join(reference)?.to_string())
}

/// The base address that a client uses: the configured one, or the default
/// where the configured one is blank.
pub open spec fn effective_base_url(configured: Seq<char>) -> Seq<char> {
    if is_blank(configured) {
        default_base_url()
    } else {
        configured
    }
}

/// The base address without the slashes at its end.
pub open spec fn normalized_base_url(configured: Seq<char>) -> Seq<char> {
    without_trailing(effective_base_url(configured), '/')
}

/// Whether a text ends with a slash.
pub open spec fn ends_with_slash(s: Seq<char>) -> bool {
    s.len() > 0 && s.last() == '/'
}

/// The message for a request address that does not parse.
pub open spec fn unparsable_url() -> Seq<char> {
    "request url could not be parsed"@
}

/// The message for a redemption without service slug.
pub open spec fn missing_service_slug() -> Seq<char> {
    "service_slug is required either in client options or redeem_key input"@
}

/// The message for a reset that names neither a Discord id nor a key.
pub open spec fn missing_reset_target() -> Seq<char> {
    "reset_hwid requires at least discord_id or key"@
}

/// The headers of a call, or the message of the configuration error that it
/// ends with, for a given timestamp and nonce. A call under the bearer regime
/// does not look at the address; a signing call fails where it has no secret
/// or the address does not parse.
pub open spec fn expected_auth_headers(
    plan: AuthPlan,
    method: Seq<char>,
    url: Seq<char>,
    base_path: Seq<char>,
    body: Seq<char>,
    timestamp: nat,
    nonce: Seq<char>,
) -> Result<Seq<HeaderText>, Seq<char>> {
    if !plan.regime.signs() {
        Ok(seq![(authorization_name(), bearer_value(plan.token))])
    } else if plan.secret is None {
        Err(missing_signing_secret())
    } else {
        match parsed_url_path(url) {
            None => Err(unparsable_url()),
            Some(path) => Ok(
                signed_request_headers(
                    plan.regime,
                    plan.token,
                    plan.secret->0,
                    method,
                    canonical_path_of(path, base_path),
                    timestamp,
                    nonce,
                    body,
                ),
            ),
        }
    }
}

/// Whether a set of headers holds what a regime sends, and no more: the
/// authorization header always, timestamp, nonce and signature exactly under
/// a signing regime, and the digest of the body exactly where the regime
/// exposes it.
pub open spec fn sent_by_regime(headers: Seq<HeaderText>, regime: AuthRegime) -> bool {
    &&& has_header(headers, authorization_name())
    &&& has_header(headers, timestamp_name()) <==> regime.signs()
    &&& has_header(headers, nonce_name()) <==> regime.signs()
    &&& has_header(headers, signature_name()) <==> regime.signs()
    &&& has_header(headers, body_hash_name()) <==> regime.exposes_body_hash()
    &&& distinct_names(headers)
}

/// Whether a call ended as expected: with exactly the expected headers, or
/// with a configuration error of the expected message.
pub open spec fn ended_as(
    out: Result<AuthHeaderSet, NebulAuthError>,
    expected: Result<Seq<HeaderText>, Seq<char>>,
) -> bool {
    match expected {
        Ok(headers) => out matches Ok(set) && set@ == headers,
        Err(message) => out matches Err(e) && e.is_config(message),
    }
}

/// The four signing headers of a request signed at `timestamp` with `nonce`.
pub open spec fn expected_signing_headers(
    method: Seq<char>,
    path: Seq<char>,
    timestamp: nat,
    nonce: Seq<char>,
    body: Seq<char>,
    secret: Seq<char>,
) -> Seq<HeaderText> {
    let body_hash = body_hash_text(body);
    signing_headers(
        decimal_text(timestamp),
        nonce,
        signature_text(
            secret,
            canonical_text(uppercase_text(method), path, timestamp, nonce, body_hash),
        ),
        body_hash,
    )
}

/// A client's configuration together with the addresses derived from it. It
/// is made once and not changed afterwards.
#[derive(Debug, Clone)]
pub struct NebulAuthClient {
    options: NebulAuthClientOptions,
    base_url: String,
    base_path: String,
}

impl NebulAuthClient {
    /// The configuration, with the base address that is in effect.
    pub closed spec fn spec_options(&self) -> NebulAuthClientOptions {
        self.options
    }

    /// The base address without slashes at its end.
    pub closed spec fn spec_base_url(&self) -> Seq<char> {
        self.base_url@
    }

    /// The path of the base address without slashes at its end.
    pub closed spec fn spec_base_path(&self) -> Seq<char> {
        self.base_path@
    }

    /// The credentials of a call of this client.
    pub open spec fn plan_for(
        &self,
        use_pop: bool,
        access_token: Option<Seq<char>>,
        pop_key: Option<Seq<char>>,
    ) -> Result<AuthPlan, Seq<char>> {
        auth_plan(
            self.spec_options().replay_protection,
            opt_string_text(self.spec_options().bearer_token),
            opt_string_text(self.spec_options().signing_secret),
            use_pop,
            access_token,
            pop_key,
        )
    }

    /// How a call of this client ends for a given timestamp and nonce.
    pub open spec fn expected_outcome(
        &self,
        method: Seq<char>,
        url: Seq<char>,
        body: Seq<char>,
        use_pop: bool,
        access_token: Option<Seq<char>>,
        pop_key: Option<Seq<char>>,
        timestamp: nat,
        nonce: Seq<char>,
    ) -> Result<Seq<HeaderText>, Seq<char>> {
        match self.plan_for(use_pop, access_token, pop_key) {
            Err(message) => Err(message),
            Ok(plan) => expected_auth_headers(
                plan,
                method,
                url,
                self.spec_base_path(),
                body,
                timestamp,
                nonce,
            ),
        }
    }

    /// Makes a client from its configuration. A blank base address stands for
    /// the default one; slashes at the end of the address and of its path are
    /// dropped. The call fails where the address does not parse.
    pub fn new(options: NebulAuthClientOptions) -> (out: Result<NebulAuthClient, NebulAuthError>)
        ensures
            match parsed_url_path(normalized_base_url(options.base_url@)) {
                Some(path) => out matches Ok(client) && client.spec_base_url()
                    == normalized_base_url(options.base_url@) && client.spec_base_path()
                    == without_trailing(path, '/') && client.spec_options().base_url@
                    == effective_base_url(options.base_url@) && client.spec_options().bearer_token
                    == options.bearer_token && client.spec_options().signing_secret
                    == options.signing_secret && client.spec_options().service_slug
                    == options.service_slug && client.spec_options().replay_protection
                    == options.replay_protection && client.spec_options().timeout_ms
                    == options.timeout_ms,
                None => out matches Err(NebulAuthError::Url(_)),
            },
            out matches Ok(client) ==> !ends_with_slash(client.spec_base_url()) && !ends_with_slash(
                client.spec_base_path(),
            ),
    {
        proof {
            lemma_without_trailing_end(effective_base_url(options.base_url@), '/');
            if parsed_url_path(normalized_base_url(options.base_url@)) is Some {
                lemma_without_trailing_end(
                    parsed_url_path(normalized_base_url(options.base_url@))->0,
                    '/',
                );
            }
        }
        proof {
            lemma_trimmed_text_empty(options.base_url@);
        }
        let mut options = options;
        if trim(options.base_url.as_str()).is_empty() {
            options.base_url = String::from_str("https://api.nebulauth.com/api/v1");
        }
        let normalized: String = trim_end_matches(options.base_url.as_str(), '/').to_owned();
        let path = match url_path(normalized.as_str()) {
            Ok(path) => path,
            Err(e) => {
                return Err(NebulAuthError::Url(e));
            },
        };
        let base_path: String = trim_end_matches(path.as_str(), '/').to_owned();
        Ok(NebulAuthClient { options, base_url: normalized, base_path })
    }

    /// The configuration.
    pub fn options(&self) -> (options: &NebulAuthClientOptions)
        ensures
            *options == self.spec_options(),
    {
        &self.options
    }

    /// The base address.
    pub fn base_url(&self) -> (url: &str)
        ensures
            url@ == self.spec_base_url(),
    {
        self.base_url.as_str()
    }

    /// The base path.
    pub fn base_path(&self) -> (path: &str)
        ensures
            path@ == self.spec_base_path(),
    {
        self.base_path.as_str()
    }

    /// The address of an endpoint: the endpoint without its leading slashes,
    /// resolved against the base address with one slash after it.
    pub fn endpoint_url(&self, endpoint: &str) -> (out: Result<String, NebulAuthError>)
        ensures
            match joined_url(self.spec_base_url() + seq!['/'], without_leading(endpoint@, '/')) {
                Some(full) => out matches Ok(url) && url@ == full,
                None => out matches Err(NebulAuthError::Url(_)),
            },
    {
        proof {
            reveal_strlit("/");
        }
        let mut base = self.base_url.clone();
        base.append("/");
        assert(base@ =~= self.spec_base_url() + seq!['/']);
        match join_url(base.as_str(), trim_start_matches(endpoint, '/')) {
            Ok(full) => Ok(full),
            Err(e) => Err(NebulAuthError::Url(e)),
        }
    }

    /// The canonical path of a request to `url`: the path of the address below
    /// the client's base path, with a slash in front. Only an address that
    /// does not parse is an error.
    pub fn canonical_path(&self, url: &str) -> (out: Result<String, NebulAuthError>)
        ensures
            match parsed_url_path(url@) {
                Some(path) => out matches Ok(canonical) && canonical@ == canonical_path_of(
                    path,
                    self.spec_base_path(),
                ) && canonical@.len() > 0 && canonical@[0] == '/',
                None => out matches Err(e) && e.is_config(unparsable_url()),
            },
    {
        match url_path(url) {
            Ok(path) => Ok(resolve_canonical_path(path.as_str(), self.base_path.as_str())),
            Err(_) => Err(NebulAuthError::config("request url could not be parsed")),
        }
    }

    /// Signs a request with `secret` at the given timestamp and nonce.
    pub fn sign_request(
        &self,
        method: &str,
        url: &str,
        body_string: &str,
        secret: &str,
        timestamp: u128,
        nonce: &str,
    ) -> (out: Result<SignedRequest, NebulAuthError>)
        ensures
            match parsed_url_path(url@) {
                Some(path) => out matches Ok(signed) && ({
                    let canonical = canonical_text(
                        uppercase_text(method@),
                        canonical_path_of(path, self.spec_base_path()),
                        timestamp as nat,
                        nonce@,
                        body_hash_text(body_string@),
                    );
                    &&& signed.canonical@ == canonical
                    &&& signed.signature@ == signature_text(secret@, canonical)
                    &&& signed.timestamp@ == decimal_text(timestamp as nat)
                    &&& signed.nonce@ == nonce@
                    &&& signed.body_hash@ == body_hash_text(body_string@)
                    &&& is_hex_digest_text(signed.signature@)
                    &&& is_hex_digest_text(signed.body_hash@)
                }),
                None => out matches Err(e) && e.is_config(unparsable_url()),
            },
    {
        let path = match self.canonical_path(url) {
            Ok(path) => path,
            Err(e) => {
                return Err(e);
            },
        };
        let input = SigningInput::for_request(method, path.as_str(), timestamp, nonce, body_string);
        input.sign(secret)
    }

    /// Signs a request with `secret`, at the time of the system clock and
    /// with a fresh nonce. A clock that cannot be read counts as zero.
    pub fn sign(
        &self,
        method: &str,
        url: &str,
        body_string: &str,
        secret: &str,
    ) -> (out: Result<SignedRequest, NebulAuthError>)
        ensures
            match parsed_url_path(url@) {
                Some(path) => out matches Ok(signed) && exists|timestamp: u128|
                    {
                        let canonical = #[trigger] canonical_text(
                            uppercase_text(method@),
                            canonical_path_of(path, self.spec_base_path()),
                            timestamp as nat,
                            signed.nonce@,
                            body_hash_text(body_string@),
                        );
                        &&& signed.canonical@ == canonical
                        &&& signed.signature@ == signature_text(secret@, canonical)
                        &&& signed.timestamp@ == decimal_text(timestamp as nat)
                        &&& timestamp <= max_millis()
                        &&& is_well_formed_nonce(signed.nonce@)
                        &&& single_line(signed.nonce@)
                        &&& signed.body_hash@ == body_hash_text(body_string@)
                        &&& is_hex_digest_text(signed.signature@)
                        &&& is_hex_digest_text(signed.body_hash@)
                    },
                None => out matches Err(e) && e.is_config(unparsable_url()),
            },
    {
        let timestamp = current_timestamp_ms();
        let nonce = random_nonce();
        proof {
            lemma_base64_text_single_line(nonce@);
        }
        let out = self.sign_request(method, url, body_string, secret, timestamp, nonce.as_str());
        out
    }

    /// Builds the four signing headers of a request, with the time of the
    /// system clock and a fresh nonce.
    pub fn build_signing_headers(
        &self,
        method: &str,
        url: &str,
        body_string: &str,
        secret: &str,
    ) -> (out: Result<AuthHeaderSet, NebulAuthError>)
        ensures
            match parsed_url_path(url@) {
                Some(path) => out matches Ok(set) && exists|timestamp: u128, nonce: Seq<char>|
                    timestamp <= max_millis() && is_well_formed_nonce(nonce) && set@
                        == #[trigger] expected_signing_headers(
                        method@,
                        canonical_path_of(path, self.spec_base_path()),
                        timestamp as nat,
                        nonce,
                        body_string@,
                        secret@,
                    ),
                None => out matches Err(e) && e.is_config(unparsable_url()),
            },
            out matches Ok(set) ==> ({
                &&& set.wf()
                &&& timestamp_valued(set@)
                &&& nonce_valued(set@)
                &&& digest_valued(set@, signature_name())
                &&& digest_valued(set@, body_hash_name())
            }),
    {
        let timestamp = current_timestamp_ms();
        let nonce = random_nonce();
        match self.sign_request(method, url, body_string, secret, timestamp, nonce.as_str()) {
            Ok(signed) => {
                let set = signing_header_set(&signed);
                proof {
                    lemma_signing_headers_values(
                        signed.timestamp@,
                        signed.nonce@,
                        signed.signature@,
                        signed.body_hash@,
                    );
                    lemma_decimal_text_digits(timestamp as nat);
                    let path = parsed_url_path(url@)->0;
                    assert(set@ == expected_signing_headers(
                        method@,
                        canonical_path_of(path, self.spec_base_path()),
                        timestamp as nat,
                        nonce@,
                        body_string@,
                        secret@,
                    ));
                }
                Ok(set)
            },
            Err(e) => Err(e),
        }
    }

    /// Checks the credentials of a call and picks them.
    pub fn resolve(
        &self,
        use_pop: bool,
        access_token: Option<&str>,
        pop_key: Option<&str>,
    ) -> (out: Result<ResolvedAuth, NebulAuthError>)
        ensures
            match self.plan_for(use_pop, opt_text(access_token), opt_text(pop_key)) {
                Ok(plan) => out matches Ok(resolved) && resolved@ == plan && resolved.wf(),
                Err(message) => out matches Err(e) && e.is_config(message),
            },
    {
        let bearer_token: Option<&str> = match &self.options.bearer_token {
            Some(t) => Some(t.as_str()),
            None => None,
        };
        let signing_secret: Option<&str> = match &self.options.signing_secret {
            Some(s) => Some(s.as_str()),
            None => None,
        };
        resolve_auth(
            self.options.replay_protection,
            bearer_token,
            signing_secret,
            use_pop,
            access_token,
            pop_key,
        )
    }

    /// Builds the headers of a call whose credentials are resolved, signed at
    /// the given timestamp with the given nonce where the regime signs.
    pub fn headers_for(
        &self,
        resolved: &ResolvedAuth,
        method: &str,
        url: &str,
        body_string: &str,
        timestamp: u128,
        nonce: &str,
    ) -> (out: Result<AuthHeaderSet, NebulAuthError>)
        ensures
            ended_as(
                out,
                expected_auth_headers(
                    resolved@,
                    method@,
                    url@,
                    self.spec_base_path(),
                    body_string@,
                    timestamp as nat,
                    nonce@,
                ),
            ),
            out matches Ok(set) ==> set.wf() && signed_values_shaped(set@, resolved.regime),
    {
        if !resolved.regime.is_signed() {
            return Ok(bearer_header_set(resolved.token.as_str()));
        }
        let secret: &str = match &resolved.secret {
            Some(secret) => secret.as_str(),
            None => {
                return Err(
                    NebulAuthError::config(
                        "signing_secret is required when replay_protection is nonce/strict",
                    ),
                );
            },
        };
        match self.sign_request(method, url, body_string, secret, timestamp, nonce) {
            Ok(signed) => {
                proof {
                    lemma_auth_headers_by_regime(
                        resolved.regime,
                        resolved.token@,
                        signed.timestamp@,
                        signed.nonce@,
                        signed.signature@,
                        signed.body_hash@,
                    );
                    lemma_decimal_text_digits(timestamp as nat);
                }
                Ok(assemble_headers(resolved.regime, resolved.token.as_str(), &signed))
            },
            Err(e) => Err(e),
        }
    }

    /// Builds the headers of a call at a given timestamp and with a given
    /// nonce. Missing credentials end the call before anything is signed.
    pub fn build_auth_headers_at(
        &self,
        method: &str,
        url: &str,
        body_string: &str,
        use_pop: bool,
        access_token: Option<&str>,
        pop_key: Option<&str>,
        timestamp: u128,
        nonce: &str,
    ) -> (out: Result<AuthHeaderSet, NebulAuthError>)
        ensures
            ended_as(
                out,
                self.expected_outcome(
                    method@,
                    url@,
                    body_string@,
                    use_pop,
                    opt_text(access_token),
                    opt_text(pop_key),
                    timestamp as nat,
                    nonce@,
                ),
            ),
            out matches Ok(set) ==> ({
                let regime = regime_of(self.spec_options().replay_protection, use_pop);
                &&& set.wf()
                &&& sent_by_regime(set@, regime)
                &&& signed_values_shaped(set@, regime)
            }),
    {
        let resolved = match self.resolve(use_pop, access_token, pop_key) {
            Ok(resolved) => resolved,
            Err(e) => {
                return Err(e);
            },
        };
        let out = self.headers_for(&resolved, method, url, body_string, timestamp, nonce);
        proof {
            if out is Ok {
                lemma_auth_plan_regime(
                    self.spec_options().replay_protection,
                    opt_string_text(self.spec_options().bearer_token),
                    opt_string_text(self.spec_options().signing_secret),
                    use_pop,
                    opt_text(access_token),
                    opt_text(pop_key),
                );
                lemma_outcome_headers_by_regime(
                    resolved@,
                    method@,
                    url@,
                    self.spec_base_path(),
                    body_string@,
                    timestamp as nat,
                    nonce@,
                );
            }
        }
        out
    }

    /// Builds the headers of a call: an authorization header always, and under
    /// a signing regime the headers of a signature made with the time of the
    /// system clock and a fresh nonce. Either the whole set comes back or an
    /// error. Missing credentials end the call before anything is signed, and
    /// the clock and the random source are read under a signing regime only.
    pub fn build_auth_headers(
        &self,
        method: &str,
        url: &str,
        body_string: &str,
        use_pop: bool,
        access_token: Option<&str>,
        pop_key: Option<&str>,
    ) -> (out: Result<AuthHeaderSet, NebulAuthError>)
        ensures
            match self.plan_for(use_pop, opt_text(access_token), opt_text(pop_key)) {
                Err(message) => out matches Err(e) && e.is_config(message),
                Ok(plan) => if plan.regime.signs() {
                    exists|timestamp: u128, nonce: Seq<char>|
                        timestamp <= max_millis() && is_well_formed_nonce(nonce) && ended_as(
                            out,
                            #[trigger] expected_auth_headers(
                                plan,
                                method@,
                                url@,
                                self.spec_base_path(),
                                body_string@,
                                timestamp as nat,
                                nonce,
                            ),
                        )
                } else {
                    out matches Ok(set) && set@ == seq![
                        (authorization_name(), bearer_value(plan.token)),
                    ]
                },
            },
            out matches Ok(set) ==> ({
                let regime = regime_of(self.spec_options().replay_protection, use_pop);
                &&& set.wf()
                &&& sent_by_regime(set@, regime)
                &&& signed_values_shaped(set@, regime)
                &&& regime.signs() ==> nonce_valued(set@)
            }),
    {
        let resolved = match self.resolve(use_pop, access_token, pop_key) {
            Ok(resolved) => resolved,
            Err(e) => {
                return Err(e);
            },
        };
        proof {
            lemma_auth_plan_regime(
                self.spec_options().replay_protection,
                opt_string_text(self.spec_options().bearer_token),
                opt_string_text(self.spec_options().signing_secret),
                use_pop,
                opt_text(access_token),
                opt_text(pop_key),
            );
        }
        if !resolved.regime.is_signed() {
            let set = bearer_header_set(resolved.token.as_str());
            proof {
                lemma_outcome_headers_by_regime(
                    resolved@,
                    method@,
                    url@,
                    self.spec_base_path(),
                    body_string@,
                    0,
                    Seq::empty(),
                );
            }
            return Ok(set);
        }
        let timestamp = current_timestamp_ms();
        let nonce = random_nonce();
        let out = self.headers_for(&resolved, method, url, body_string, timestamp, nonce.as_str());
        proof {
            if out is Ok {
                lemma_outcome_headers_by_regime(
                    resolved@,
                    method@,
                    url@,
                    self.spec_base_path(),
                    body_string@,
                    timestamp as nat,
                    nonce@,
                );
            }
        }
        out
    }

    /// The service slug of a redemption: the one of the call, else the one of
    /// the client; without either the call fails.
    pub fn resolve_service_slug(
        &self,
        service_slug: Option<String>,
    ) -> (out: Result<String, NebulAuthError>)
        ensures
            match service_slug {
                Some(slug) => out == Ok::<String, NebulAuthError>(slug),
                None => match self.spec_options().service_slug {
                    Some(slug) => out matches Ok(s) && s@ == slug@,
                    None => out matches Err(e) && e.is_config(missing_service_slug()),
                },
            },
    {
        match service_slug {
            Some(slug) => Ok(slug),
            None => match &self.options.service_slug {
                Some(slug) => Ok(slug.clone()),
                None => Err(
                    NebulAuthError::config(
                        "service_slug is required either in client options or redeem_key input",
                    ),
                ),
            },
        }
    }
}

/// What the headers of a call hold, whenever the call yields headers: the
/// authorization header with the token always, the signature exactly under a
/// signing regime, and the digest of the body exactly under the strict and
/// the proof-of-possession regime. So strict mode always sends the digest, the
/// nonce mode never does, and both send the signature.
pub proof fn lemma_outcome_headers_by_regime(
    plan: AuthPlan,
    method: Seq<char>,
    url: Seq<char>,
    base_path: Seq<char>,
    body: Seq<char>,
    timestamp: nat,
    nonce: Seq<char>,
)
    requires
        expected_auth_headers(plan, method, url, base_path, body, timestamp, nonce) is Ok,
    ensures
        ({
            let headers = expected_auth_headers(
                plan,
                method,
                url,
                base_path,
                body,
                timestamp,
                nonce,
            )->Ok_0;
            &&& header_value(headers, authorization_name()) == Some(bearer_value(plan.token))
            &&& sent_by_regime(headers, plan.regime)
            &&& plan.regime.signs() ==> header_value(headers, nonce_name()) == Some(nonce)
            &&& plan.regime.signs() ==> header_value(headers, timestamp_name()) == Some(
                decimal_text(timestamp),
            )
            &&& plan.regime.exposes_body_hash() ==> header_value(headers, body_hash_name())
                == Some(body_hash_text(body))
        }),
{
    let body_hash = body_hash_text(body);
    if plan.regime.signs() {
        let path = canonical_path_of(parsed_url_path(url)->0, base_path);
        let canonical = canonical_text(uppercase_text(method), path, timestamp, nonce, body_hash);
        let signature = signature_text(plan.secret->0, canonical);
        lemma_auth_headers_by_regime(
            plan.regime,
            plan.token,
            decimal_text(timestamp),
            nonce,
            signature,
            body_hash,
        );
        lemma_auth_headers_authorization(
            plan.regime,
            plan.token,
            decimal_text(timestamp),
            nonce,
            signature,
            body_hash,
        );
    } else {
        lemma_auth_headers_by_regime(plan.regime, plan.token, nonce, nonce, nonce, nonce);
        lemma_auth_headers_authorization(plan.regime, plan.token, nonce, nonce, nonce, nonce);
    }
}

/// A proof-of-possession call with access token and key is signed with the
/// key under every client, also one whose replay protection is off and one
/// without credentials of its own: where the address parses, the call yields
/// the access token, a signature and the digest of the body.
pub proof fn lemma_pop_call_is_signed(
    client: NebulAuthClient,
    method: Seq<char>,
    url: Seq<char>,
    body: Seq<char>,
    access_token: Seq<char>,
    pop_key: Seq<char>,
    timestamp: nat,
    nonce: Seq<char>,
)
    ensures
        ({
            let outcome = client.expected_outcome(
                method,
                url,
                body,
                true,
                Some(access_token),
                Some(pop_key),
                timestamp,
                nonce,
            );
            match parsed_url_path(url) {
                Some(path) => {
                    &&& outcome == Ok::<Seq<HeaderText>, Seq<char>>(
                        signed_request_headers(
                            AuthRegime::Pop,
                            access_token,
                            pop_key,
                            method,
                            canonical_path_of(path, client.spec_base_path()),
                            timestamp,
                            nonce,
                            body,
                        ),
                    )
                    &&& has_header(outcome->Ok_0, signature_name())
                    &&& has_header(outcome->Ok_0, body_hash_name())
                    &&& header_value(outcome->Ok_0, authorization_name()) == Some(
                        bearer_value(access_token),
                    )
                },
                None => outcome == Err::<Seq<HeaderText>, Seq<char>>(unparsable_url()),
            }
        }),
{
    let plan = AuthPlan { regime: AuthRegime::Pop, token: access_token, secret: Some(pop_key) };
    if parsed_url_path(url) is Some {
        lemma_outcome_headers_by_regime(
            plan,
            method,
            url,
            client.spec_base_path(),
            body,
            timestamp,
            nonce,
        );
    }
}

/// A client in a signing mode without signing secret never yields headers for
/// a call of its own: the call ends in a configuration error, whatever the
/// request, and nothing goes out unsigned.
pub proof fn lemma_signing_mode_needs_secret(
    client: NebulAuthClient,
    method: Seq<char>,
    url: Seq<char>,
    body: Seq<char>,
    access_token: Option<Seq<char>>,
    pop_key: Option<Seq<char>>,
    timestamp: nat,
    nonce: Seq<char>,
)
    requires
        client.spec_options().replay_protection != ReplayProtectionMode::Off,
        client.spec_options().signing_secret is None,
    ensures
        client.expected_outcome(method, url, body, false, access_token, pop_key, timestamp, nonce)
            is Err,
        client.spec_options().bearer_token is Some ==> client.expected_outcome(
            method,
            url,
            body,
            false,
            access_token,
            pop_key,
            timestamp,
            nonce,
        ) == Err::<Seq<HeaderText>, Seq<char>>(missing_signing_secret()),
{
}

/// Checks that a reset names a Discord id, a key, or both.
pub fn check_reset_target(input: &ResetHwidInput) -> (out: Result<(), NebulAuthError>)
    ensures
        input.discord_id is Some || input.key is Some ==> out is Ok,
        input.discord_id is None && input.key is None ==> (out matches Err(e) && e.is_config(
            missing_reset_target(),
        )),
{
    if input.discord_id.is_none() && input.key.is_none() {
        return Err(NebulAuthError::config("reset_hwid requires at least discord_id or key"));
    }
    Ok(())
}

} // verus!
