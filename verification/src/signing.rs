//! The canonical text of a request and its signature.

use vstd::prelude::*;
use vstd::string::StringExecFns;
use crate::decimal::{
    decimal_text, lemma_decimal_text_digits, lemma_decimal_text_injective, u128_to_decimal,
};
use crate::digest::{
    body_hash_text, hmac_collision, hmac_sha256, lemma_equal_signatures_are_collisions,
    sha256_hex, signature_text,
};
use crate::error::NebulAuthError;
use crate::hex::{hex_lower, is_hex_digest_text};
use crate::text::{newline, push_char, single_line, to_uppercase, uppercase_text};

verus! {

/// Two fields joined by a line break.
pub open spec fn line_then(first: Seq<char>, rest: Seq<char>) -> Seq<char> {
    first + seq![newline()] + rest
}

/// The canonical text of a request: method, path, timestamp, nonce and body
/// hash, in this order, one per line, with no line break after the last.
pub open spec fn canonical_text(
    method: Seq<char>,
    path: Seq<char>,
    timestamp: nat,
    nonce: Seq<char>,
    body_hash: Seq<char>,
) -> Seq<char> {
    line_then(
        method,
        line_then(path, line_then(decimal_text(timestamp), line_then(nonce, body_hash))),
    )
}

/// The message of the error for a secret that the keyed digest rejects.
pub open spec fn invalid_secret_message() -> Seq<char> {
    "invalid signing secret"@
}

/// What is signed for one request. The values live for one call: nothing of
/// them is kept for the next.
#[derive(Debug, Clone)]
pub struct SigningInput {
    /// The HTTP method in upper case.
    pub method: String,
    /// The canonical path: it starts with a slash and lies below the base path.
    pub path: String,
    /// Milliseconds since the Unix epoch.
    pub timestamp: u128,
    /// The single-use token of this request.
    pub nonce: String,
    /// The lowercase hexadecimal SHA-256 digest of the body.
    pub body_hash: String,
}

/// The result of signing one request.
#[derive(Debug, Clone)]
pub struct SignedRequest {
    /// The exact text that was signed.
    pub canonical: String,
    /// The lowercase hexadecimal HMAC-SHA256 tag of the canonical text.
    pub signature: String,
    /// The timestamp in decimal.
    pub timestamp: String,
    /// The nonce.
    pub nonce: String,
    /// The lowercase hexadecimal SHA-256 digest of the body.
    pub body_hash: String,
}

impl SigningInput {
    /// The canonical text of this input.
    pub open spec fn canonical(self) -> Seq<char> {
        canonical_text(
            self.method@,
            self.path@,
            self.timestamp as nat,
            self.nonce@,
            self.body_hash@,
        )
    }

    /// Gathers the signing input of a request: the method in upper case and
    /// the digest of the body, with the path, timestamp and nonce as given.
    pub fn for_request(
        method: &str,
        path: &str,
        timestamp: u128,
        nonce: &str,
        body: &str,
    ) -> (input: SigningInput)
        ensures
            input.method@ == uppercase_text(method@),
            input.path@ == path@,
            input.timestamp == timestamp,
            input.nonce@ == nonce@,
            input.body_hash@ == body_hash_text(body@),
            is_hex_digest_text(input.body_hash@),
    {
        SigningInput {
            method: to_uppercase(method),
            path: path.to_owned(),
            timestamp,
            nonce: nonce.to_owned(),
            body_hash: sha256_hex(body),
        }
    }

    /// Builds the canonical text.
    pub fn canonical_string(&self) -> (out: String)
        ensures
            out@ == self.canonical(),
    {
        let timestamp = u128_to_decimal(self.timestamp);
        let mut out = String::new();
        out.append(self.method.as_str());
        push_char(&mut out, '\n');
        out.append(self.path.as_str());
        push_char(&mut out, '\n');
        out.append(timestamp.as_str());
        push_char(&mut out, '\n');
        out.append(self.nonce.as_str());
        push_char(&mut out, '\n');
        out.append(self.body_hash.as_str());
        out
    }

    /// Signs the canonical text with `secret` and returns it with the
    /// signature and the header values. The keyed digest takes a secret of any
    /// length, so signing succeeds on every input.
    pub fn sign(&self, secret: &str) -> (out: Result<SignedRequest, NebulAuthError>)
        ensures
            out matches Ok(signed) && signed.canonical@ == self.canonical() && signed.signature@
                == signature_text(secret@, self.canonical()) && is_hex_digest_text(signed.signature@)
                && signed.timestamp@ == decimal_text(self.timestamp as nat) && signed.nonce@
                == self.nonce@ && signed.body_hash@ == self.body_hash@,
    {
        let canonical = self.canonical_string();
        match hmac_sha256(secret.as_bytes(), canonical.as_str().as_bytes()) {
            Ok(tag) => {
                let signature = hex_lower(tag.as_slice());
                Ok(
                    SignedRequest {
                        canonical,
                        signature,
                        timestamp: u128_to_decimal(self.timestamp),
                        nonce: self.nonce.clone(),
                        body_hash: self.body_hash.clone(),
                    },
                )
            },
            Err(_) => Err(NebulAuthError::crypto("invalid signing secret")),
        }
    }
}

/// Signing is a function of what is signed and of the secret: two inputs with
/// the same method, path, timestamp, nonce and body hash have the same
/// canonical text, and under the same secret the same signature.
pub proof fn lemma_signing_is_deterministic(
    first: SigningInput,
    second: SigningInput,
    first_secret: Seq<char>,
    second_secret: Seq<char>,
)
    requires
        first.method@ == second.method@,
        first.path@ == second.path@,
        first.timestamp == second.timestamp,
        first.nonce@ == second.nonce@,
        first.body_hash@ == second.body_hash@,
        first_secret == second_secret,
    ensures
        first.canonical() == second.canonical(),
        signature_text(first_secret, first.canonical()) == signature_text(
            second_secret,
            second.canonical(),
        ),
{
}

/// A text that starts with a field without line breaks determines that field
/// and what follows its line break.
pub proof fn lemma_line_then_injective(a: Seq<char>, ra: Seq<char>, b: Seq<char>, rb: Seq<char>)
    requires
        single_line(a),
        single_line(b),
        line_then(a, ra) == line_then(b, rb),
    ensures
        a == b,
        ra == rb,
{
    let s = line_then(a, ra);
    let t = line_then(b, rb);
    if a.len() < b.len() {
        assert(s[a.len() as int] == newline());
        assert(t[a.len() as int] == b[a.len() as int]);
        assert(false);
    }
    if b.len() < a.len() {
        assert(t[b.len() as int] == newline());
        assert(s[b.len() as int] == a[b.len() as int]);
        assert(false);
    }
    assert forall|i: int| 0 <= i < a.len() implies a[i] == b[i] by {
        assert(s[i] == a[i]);
        assert(t[i] == b[i]);
    }
    assert(a =~= b);
    assert(s.len() == t.len());
    assert forall|i: int| 0 <= i < ra.len() implies ra[i] == rb[i] by {
        assert(s[a.len() + 1 + i] == ra[i]);
        assert(t[b.len() + 1 + i] == rb[i]);
    }
    assert(ra =~= rb);
}

/// The canonical text keeps its fields apart: where method, path and nonce
/// hold no line break, two requests with the same canonical text agree in
/// every field. Joining the fields cannot make two different requests look
/// alike.
pub proof fn lemma_canonical_text_injective(
    method1: Seq<char>,
    path1: Seq<char>,
    timestamp1: nat,
    nonce1: Seq<char>,
    body_hash1: Seq<char>,
    method2: Seq<char>,
    path2: Seq<char>,
    timestamp2: nat,
    nonce2: Seq<char>,
    body_hash2: Seq<char>,
)
    requires
        single_line(method1),
        single_line(path1),
        single_line(nonce1),
        single_line(method2),
        single_line(path2),
        single_line(nonce2),
        canonical_text(method1, path1, timestamp1, nonce1, body_hash1) == canonical_text(
            method2,
            path2,
            timestamp2,
            nonce2,
            body_hash2,
        ),
    ensures
        method1 == method2,
        path1 == path2,
        timestamp1 == timestamp2,
        nonce1 == nonce2,
        body_hash1 == body_hash2,
{
    lemma_decimal_text_digits(timestamp1);
    lemma_decimal_text_digits(timestamp2);
    let n1 = line_then(nonce1, body_hash1);
    let n2 = line_then(nonce2, body_hash2);
    let t1 = line_then(decimal_text(timestamp1), n1);
    let t2 = line_then(decimal_text(timestamp2), n2);
    lemma_line_then_injective(method1, line_then(path1, t1), method2, line_then(path2, t2));
    lemma_line_then_injective(path1, t1, path2, t2);
    lemma_line_then_injective(decimal_text(timestamp1), n1, decimal_text(timestamp2), n2);
    lemma_line_then_injective(nonce1, body_hash1, nonce2, body_hash2);
    lemma_decimal_text_injective(timestamp1, timestamp2);
}

/// Two requests that differ in any of their fields, in one or in several,
/// are signed over different texts and get different signatures, unless the
/// keyed digest collides on the two texts. Where several fields differ at
/// once, method, path and nonce must hold no line break: a line break inside
/// a field could pass for the one between two fields.
pub proof fn lemma_changed_field_changes_signature(
    secret: Seq<char>,
    method1: Seq<char>,
    path1: Seq<char>,
    timestamp1: nat,
    nonce1: Seq<char>,
    body_hash1: Seq<char>,
    method2: Seq<char>,
    path2: Seq<char>,
    timestamp2: nat,
    nonce2: Seq<char>,
    body_hash2: Seq<char>,
)
    requires
        single_line(method1),
        single_line(path1),
        single_line(nonce1),
        single_line(method2),
        single_line(path2),
        single_line(nonce2),
        method1 != method2 || path1 != path2 || timestamp1 != timestamp2 || nonce1 != nonce2
            || body_hash1 != body_hash2,
    ensures
        ({
            let first = canonical_text(method1, path1, timestamp1, nonce1, body_hash1);
            let second = canonical_text(method2, path2, timestamp2, nonce2, body_hash2);
            &&& first != second
            &&& signature_text(secret, first) != signature_text(secret, second) || hmac_collision(
                vstd::utf8::encode_utf8(secret),
                vstd::utf8::encode_utf8(first),
                vstd::utf8::encode_utf8(second),
            )
        }),
{
    let first = canonical_text(method1, path1, timestamp1, nonce1, body_hash1);
    let second = canonical_text(method2, path2, timestamp2, nonce2, body_hash2);
    if first == second {
        lemma_canonical_text_injective(
            method1,
            path1,
            timestamp1,
            nonce1,
            body_hash1,
            method2,
            path2,
            timestamp2,
            nonce2,
            body_hash2,
        );
    }
    if signature_text(secret, first) == signature_text(secret, second) {
        lemma_equal_signatures_are_collisions(secret, first, second);
    }
}

/// Equal texts that start alike and end alike are alike in the middle.
pub proof fn lemma_middle_determined(
    prefix: Seq<char>,
    first: Seq<char>,
    second: Seq<char>,
    suffix: Seq<char>,
)
    requires
        prefix + first + suffix == prefix + second + suffix,
    ensures
        first == second,
{
    let s = prefix + first + suffix;
    let t = prefix + second + suffix;
    assert(s.len() == t.len());
    assert forall|i: int| 0 <= i < first.len() implies first[i] == second[i] by {
        assert(s[prefix.len() + i] == first[i]);
        assert(t[prefix.len() + i] == second[i]);
    }
    assert(first =~= second);
}

/// Changing one field of a request, whichever it is and whatever the fields
/// hold, changes what is signed: two requests that agree in four fields and
/// have the same canonical text agree in the fifth.
pub proof fn lemma_single_field_determined(
    method1: Seq<char>,
    path1: Seq<char>,
    timestamp1: nat,
    nonce1: Seq<char>,
    body_hash1: Seq<char>,
    method2: Seq<char>,
    path2: Seq<char>,
    timestamp2: nat,
    nonce2: Seq<char>,
    body_hash2: Seq<char>,
)
    requires
        canonical_text(method1, path1, timestamp1, nonce1, body_hash1) == canonical_text(
            method2,
            path2,
            timestamp2,
            nonce2,
            body_hash2,
        ),
        ({
            ||| path1 == path2 && timestamp1 == timestamp2 && nonce1 == nonce2 && body_hash1
                == body_hash2
            ||| method1 == method2 && timestamp1 == timestamp2 && nonce1 == nonce2 && body_hash1
                == body_hash2
            ||| method1 == method2 && path1 == path2 && nonce1 == nonce2 && body_hash1
                == body_hash2
            ||| method1 == method2 && path1 == path2 && timestamp1 == timestamp2 && body_hash1
                == body_hash2
            ||| method1 == method2 && path1 == path2 && timestamp1 == timestamp2 && nonce1
                == nonce2
        }),
    ensures
        method1 == method2,
        path1 == path2,
        timestamp1 == timestamp2,
        nonce1 == nonce2,
        body_hash1 == body_hash2,
{
    let nl = seq![newline()];
    let none = Seq::<char>::empty();
    let d1 = decimal_text(timestamp1);
    let d2 = decimal_text(timestamp2);
    let c1 = canonical_text(method1, path1, timestamp1, nonce1, body_hash1);
    let c2 = canonical_text(method2, path2, timestamp2, nonce2, body_hash2);
    if method1 != method2 {
        let suffix = nl + path1 + nl + d1 + nl + nonce1 + nl + body_hash1;
        assert(c1 =~= none + method1 + suffix);
        assert(c2 =~= none + method2 + suffix);
        lemma_middle_determined(none, method1, method2, suffix);
    } else if path1 != path2 {
        let prefix = method1 + nl;
        let suffix = nl + d1 + nl + nonce1 + nl + body_hash1;
        assert(c1 =~= prefix + path1 + suffix);
        assert(c2 =~= prefix + path2 + suffix);
        lemma_middle_determined(prefix, path1, path2, suffix);
    } else if timestamp1 != timestamp2 {
        let prefix = method1 + nl + path1 + nl;
        let suffix = nl + nonce1 + nl + body_hash1;
        assert(c1 =~= prefix + d1 + suffix);
        assert(c2 =~= prefix + d2 + suffix);
        lemma_middle_determined(prefix, d1, d2, suffix);
        lemma_decimal_text_injective(timestamp1, timestamp2);
    } else if nonce1 != nonce2 {
        let prefix = method1 + nl + path1 + nl + d1 + nl;
        let suffix = nl + body_hash1;
        assert(c1 =~= prefix + nonce1 + suffix);
        assert(c2 =~= prefix + nonce2 + suffix);
        lemma_middle_determined(prefix, nonce1, nonce2, suffix);
    } else if body_hash1 != body_hash2 {
        let prefix = method1 + nl + path1 + nl + d1 + nl + nonce1 + nl;
        assert(c1 =~= prefix + body_hash1 + none);
        assert(c2 =~= prefix + body_hash2 + none);
        lemma_middle_determined(prefix, body_hash1, body_hash2, none);
    }
}

/// Two requests that differ in one field only, whichever it is, get
/// different signatures under one secret unless the keyed digest collides on
/// their canonical texts. Nothing is asked of what the fields hold.
pub proof fn lemma_single_field_changes_signature(
    secret: Seq<char>,
    method1: Seq<char>,
    path1: Seq<char>,
    timestamp1: nat,
    nonce1: Seq<char>,
    body_hash1: Seq<char>,
    method2: Seq<char>,
    path2: Seq<char>,
    timestamp2: nat,
    nonce2: Seq<char>,
    body_hash2: Seq<char>,
)
    requires
        ({
            ||| method1 != method2 && path1 == path2 && timestamp1 == timestamp2 && nonce1
                == nonce2 && body_hash1 == body_hash2
            ||| method1 == method2 && path1 != path2 && timestamp1 == timestamp2 && nonce1
                == nonce2 && body_hash1 == body_hash2
            ||| method1 == method2 && path1 == path2 && timestamp1 != timestamp2 && nonce1
                == nonce2 && body_hash1 == body_hash2
            ||| method1 == method2 && path1 == path2 && timestamp1 == timestamp2 && nonce1
                != nonce2 && body_hash1 == body_hash2
            ||| method1 == method2 && path1 == path2 && timestamp1 == timestamp2 && nonce1
                == nonce2 && body_hash1 != body_hash2
        }),
    ensures
        ({
            let first = canonical_text(method1, path1, timestamp1, nonce1, body_hash1);
            let second = canonical_text(method2, path2, timestamp2, nonce2, body_hash2);
            &&& first != second
            &&& signature_text(secret, first) != signature_text(secret, second) || hmac_collision(
                vstd::utf8::encode_utf8(secret),
                vstd::utf8::encode_utf8(first),
                vstd::utf8::encode_utf8(second),
            )
        }),
{
    let first = canonical_text(method1, path1, timestamp1, nonce1, body_hash1);
    let second = canonical_text(method2, path2, timestamp2, nonce2, body_hash2);
    if first == second {
        lemma_single_field_determined(
            method1,
            path1,
            timestamp1,
            nonce1,
            body_hash1,
            method2,
            path2,
            timestamp2,
            nonce2,
            body_hash2,
        );
    }
    if signature_text(secret, first) == signature_text(secret, second) {
        lemma_equal_signatures_are_collisions(secret, first, second);
    }
}

/// Two requests that differ only in the nonce are signed over different
/// texts, and get different signatures unless the keyed digest collides on
/// them: a captured signature belongs to one nonce.
pub proof fn lemma_nonce_changes_signature(
    secret: Seq<char>,
    method: Seq<char>,
    path: Seq<char>,
    timestamp: nat,
    nonce1: Seq<char>,
    nonce2: Seq<char>,
    body_hash: Seq<char>,
)
    requires
        nonce1 != nonce2,
    ensures
        ({
            let first = canonical_text(method, path, timestamp, nonce1, body_hash);
            let second = canonical_text(method, path, timestamp, nonce2, body_hash);
            &&& first != second
            &&& signature_text(secret, first) != signature_text(secret, second) || hmac_collision(
                vstd::utf8::encode_utf8(secret),
                vstd::utf8::encode_utf8(first),
                vstd::utf8::encode_utf8(second),
            )
        }),
{
    lemma_single_field_changes_signature(
        secret,
        method,
        path,
        timestamp,
        nonce1,
        body_hash,
        method,
        path,
        timestamp,
        nonce2,
        body_hash,
    );
}

} // verus!
