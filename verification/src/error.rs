//! The error type of the library.

use vstd::prelude::*;

verus! {

/// The error of a URL that could not be parsed.
#[verifier::external_type_specification]
#[verifier::external_body]
pub struct ExParseError(url::ParseError);

/// The error of a request that the transport could not complete.
#[verifier::external_type_specification]
#[verifier::external_body]
pub struct ExRequestError(reqwest::Error);

/// What can go wrong in a call of the client.
#[derive(Debug)]
pub enum NebulAuthError {
    /// A credential, secret, key or address that the call needs is missing or
    /// unusable. The caller mends it by supplying the right configuration.
    Config(String),
    /// The transport failed.
    Request(reqwest::Error),
    /// The client's base address could not be parsed.
    Url(url::ParseError),
    /// The keyed digest rejected the secret.
    Crypto(String),
}

impl NebulAuthError {
    /// Whether this is a configuration error with the given message.
    pub open spec fn is_config(self, message: Seq<char>) -> bool {
        self matches NebulAuthError::Config(m) && m@ == message
    }

    /// Whether this is a crypto error with the given message.
    pub open spec fn is_crypto(self, message: Seq<char>) -> bool {
        self matches NebulAuthError::Crypto(m) && m@ == message
    }

    /// A configuration error with the given message.
    pub fn config(message: &str) -> (e: NebulAuthError)
        ensures
            e.is_config(message@),
    {
        NebulAuthError::Config(message.to_owned())
    }

    /// A crypto error with the given message.
    pub fn crypto(message: &str) -> (e: NebulAuthError)
        ensures
            e.is_crypto(message@),
    {
        NebulAuthError::Crypto(message.to_owned())
    }
}

} // verus!
