//! Single-use random tokens for replay protection.

use vstd::prelude::*;
use crate::text::single_line;
use base64::Engine;
use rand::RngCore;

verus! {

/// The number of random bytes behind one nonce.
pub const NONCE_BYTES: usize = 16;

/// The unpadded base64 text of a byte sequence in the URL-safe alphabet.
pub uninterp spec fn base64_url_text(bytes: Seq<u8>) -> Seq<char>;

/// Whether `c` belongs to the URL-safe base64 alphabet.
pub open spec fn is_base64_url_char(c: char) -> bool {
    ('A' <= c && c <= 'Z') || ('a' <= c && c <= 'z') || ('0' <= c && c <= '9') || c == '-' || c
        == '_'
}

/// The length of the unpadded base64 text of `n` bytes: four characters for
/// each full group of three bytes, and two or three for a last group of one or
/// two bytes.
pub open spec fn base64_unpadded_len(n: nat) -> nat {
    4 * (n / 3) + if n % 3 == 0 {
        0nat
    } else {
        (n % 3 + 1) as nat
    }
}

/// Whether `s` has the shape of a nonce: the unpadded URL-safe base64 text of
/// sixteen bytes.
pub open spec fn is_nonce_text(s: Seq<char>) -> bool {
    exists|bytes: Seq<u8>| bytes.len() == NONCE_BYTES && s == #[trigger] base64_url_text(bytes)
}

/// Whether `s` is well formed as a nonce: the unpadded URL-safe base64 text
/// of sixteen bytes, which has 22 characters of that alphabet.
pub open spec fn is_well_formed_nonce(s: Seq<char>) -> bool {
    &&& is_nonce_text(s)
    &&& s.len() == 22
    &&& forall|i: int| 0 <= i < s.len() ==> is_base64_url_char(#[trigger] s[i])
}

/// A text in the URL-safe base64 alphabet holds no line break.
pub proof fn lemma_base64_text_single_line(s: Seq<char>)
    requires
        forall|i: int| 0 <= i < s.len() ==> is_base64_url_char(#[trigger] s[i]),
    ensures
        single_line(s),
{
}

/// Fills a fresh buffer of sixteen bytes from the thread's random generator.
///
/// Trusted: `rand::thread_rng` and `RngCore::fill_bytes`. Nothing is promised
/// of the bytes: every value may come back. The generator is seeded by the
/// operating system and panics where the system gives it no seed.
#[verifier::external_body]
pub(crate) fn random_bytes() -> (bytes: [u8; 16]) {
    let mut bytes = [0u8; 16];
    rand::thread_rng().fill_bytes(&mut bytes);
    bytes
}

/// Encodes `bytes` as unpadded base64 text in the URL-safe alphabet.
///
/// Trusted: `Engine::encode` of `base64::engine::general_purpose::URL_SAFE_NO_PAD`.
/// The text is a function of the bytes alone; its characters come from the
/// alphabet `A-Z a-z 0-9 - _`, and its length is the one that the crate's
/// `encoded_len` computes without padding. The crate panics where that length
/// does not fit the machine word, which the bound on the input rules out.
#[verifier::external_body]
pub(crate) fn base64_url_no_pad(bytes: &[u8]) -> (text: String)
    requires
        bytes@.len() <= usize::MAX / 2,
    ensures
        text@ == base64_url_text(bytes@),
        text@.len() == base64_unpadded_len(bytes@.len()),
        forall|i: int| 0 <= i < text@.len() ==> is_base64_url_char(#[trigger] text@[i]),
{
    base64::engine::general_purpose::URL_SAFE_NO_PAD.encode(bytes)
}

/// Encodes sixteen bytes as a nonce text.
pub fn nonce_from_bytes(bytes: &[u8; 16]) -> (nonce: String)
    ensures
        nonce@ == base64_url_text(bytes@),
        is_well_formed_nonce(nonce@),
{
    let slice = vstd::array::array_as_slice(bytes);
    base64_url_no_pad(slice)
}

/// Produces a fresh nonce: sixteen random bytes as unpadded URL-safe base64.
/// No record is kept of the nonces handed out.
pub fn random_nonce() -> (nonce: String)
    ensures
        is_well_formed_nonce(nonce@),
{
    let bytes = random_bytes();
    nonce_from_bytes(&bytes)
}

} // verus!
