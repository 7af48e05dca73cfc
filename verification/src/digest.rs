//! SHA-256 digests and HMAC-SHA256 tags, and their hexadecimal texts.

use vstd::prelude::*;
use crate::hex::{hex_lower, hex_text, is_hex_digest_text, lemma_hex_text_injective};
use hmac::Mac;
use sha2::Digest;

verus! {

/// An error of the `digest` family of crates: a key of a length that the
/// keyed digest does not take.
#[verifier::external_type_specification]
#[verifier::external_body]
pub struct ExInvalidLength(hmac::digest::InvalidLength);

/// The SHA-256 digest of a byte sequence.
pub uninterp spec fn sha256_digest(data: Seq<u8>) -> Seq<u8>;

/// The HMAC-SHA256 tag of `message` under `key`.
pub uninterp spec fn hmac_sha256_tag(key: Seq<u8>, message: Seq<u8>) -> Seq<u8>;

/// The number of bytes of a SHA-256 digest, and of an HMAC-SHA256 tag.
pub open spec fn digest_len() -> nat {
    32
}

/// The header text of a request body's digest: the lowercase hexadecimal text
/// of the SHA-256 digest of the body's bytes.
pub open spec fn body_hash_text(body: Seq<char>) -> Seq<char> {
    hex_text(sha256_digest(vstd::utf8::encode_utf8(body)))
}

/// The signature text of a message: the lowercase hexadecimal text of its
/// HMAC-SHA256 tag under the secret's bytes.
pub open spec fn signature_text(secret: Seq<char>, message: Seq<char>) -> Seq<char> {
    hex_text(hmac_sha256_tag(vstd::utf8::encode_utf8(secret), vstd::utf8::encode_utf8(message)))
}

/// Whether HMAC-SHA256 gives two different messages the same tag under one
/// key.
pub open spec fn hmac_collision(key: Seq<u8>, first: Seq<u8>, second: Seq<u8>) -> bool {
    first != second && hmac_sha256_tag(key, first) == hmac_sha256_tag(key, second)
}

/// Different texts have different bytes.
pub proof fn lemma_utf8_injective(first: Seq<char>, second: Seq<char>)
    requires
        vstd::utf8::encode_utf8(first) == vstd::utf8::encode_utf8(second),
    ensures
        first == second,
{
    vstd::utf8::encode_utf8_decode_utf8(first);
    vstd::utf8::encode_utf8_decode_utf8(second);
}

/// Two different messages have the same signature text under one secret only
/// where the keyed digest itself collides on their bytes. Encoding the
/// message and the tag loses nothing.
pub proof fn lemma_equal_signatures_are_collisions(
    secret: Seq<char>,
    first: Seq<char>,
    second: Seq<char>,
)
    requires
        first != second,
        signature_text(secret, first) == signature_text(secret, second),
    ensures
        hmac_collision(
            vstd::utf8::encode_utf8(secret),
            vstd::utf8::encode_utf8(first),
            vstd::utf8::encode_utf8(second),
        ),
{
    lemma_signature_text_determines_tag(secret, first, secret, second);
    if vstd::utf8::encode_utf8(first) == vstd::utf8::encode_utf8(second) {
        lemma_utf8_injective(first, second);
    }
}

/// Equal signature texts come from equal tags: the hexadecimal text loses
/// nothing of the tag.
pub proof fn lemma_signature_text_determines_tag(
    secret1: Seq<char>,
    message1: Seq<char>,
    secret2: Seq<char>,
    message2: Seq<char>,
)
    requires
        signature_text(secret1, message1) == signature_text(secret2, message2),
    ensures
        hmac_sha256_tag(vstd::utf8::encode_utf8(secret1), vstd::utf8::encode_utf8(message1))
            == hmac_sha256_tag(
            vstd::utf8::encode_utf8(secret2),
            vstd::utf8::encode_utf8(message2),
        ),
{
    lemma_hex_text_injective(
        hmac_sha256_tag(vstd::utf8::encode_utf8(secret1), vstd::utf8::encode_utf8(message1)),
        hmac_sha256_tag(vstd::utf8::encode_utf8(secret2), vstd::utf8::encode_utf8(message2)),
    );
}

/// Computes the SHA-256 digest of `data`.
///
/// Trusted: `sha2::Sha256::digest`, which hashes the whole input in one call.
/// The result is a function of the input alone and has 32 bytes, the output
/// size that the crate declares for SHA-256.
#[verifier::external_body]
pub(crate) fn sha256(data: &[u8]) -> (out: Vec<u8>)
    ensures
        out@ == sha256_digest(data@),
        out@.len() == digest_len(),
{
    sha2::Sha256::digest(data).to_vec()
}

/// Computes the HMAC-SHA256 tag of `message` under `key`.
///
/// Trusted: `hmac::Hmac::<sha2::Sha256>::new_from_slice`, `update` and
/// `finalize`. The keyed digest takes a key of any length (longer keys are
/// hashed down, shorter ones padded), so initialisation always succeeds; the
/// tag is a function of key and message alone and has 32 bytes.
#[verifier::external_body]
pub(crate) fn hmac_sha256(key: &[u8], message: &[u8]) -> (out: Result<
    Vec<u8>,
    hmac::digest::InvalidLength,
>)
    ensures
        out is Ok,
        out->Ok_0@ == hmac_sha256_tag(key@, message@),
        out->Ok_0@.len() == digest_len(),
{
    let mut mac = hmac::Hmac::<sha2::Sha256>::new_from_slice(key)?;
    mac.update(message);
    Ok(mac.finalize().into_bytes().to_vec())
}

/// Returns the SHA-256 digest of `body` as 64 lowercase hexadecimal
/// characters. The digest covers exactly the bytes given, and nothing else of
/// the request.
pub fn hash_hex(body: &[u8]) -> (output: String)
    ensures
        output@ == hex_text(sha256_digest(body@)),
        is_hex_digest_text(output@),
{
    let digest = sha256(body);
    hex_lower(digest.as_slice())
}

/// Returns the SHA-256 digest of the bytes of `input` as 64 lowercase
/// hexadecimal characters.
pub fn sha256_hex(input: &str) -> (output: String)
    ensures
        output@ == body_hash_text(input@),
        is_hex_digest_text(output@),
{
    hash_hex(input.as_bytes())
}

} // verus!
