//! Lowercase hexadecimal encoding of bytes.

use vstd::prelude::*;
use crate::text::push_char;

verus! {

/// The lowercase hexadecimal digit of a four-bit value.
pub open spec fn hex_digit(n: u8) -> char {
    if n < 10 {
        (0x30 + n) as char
    } else {
        (0x61 + (n - 10)) as char
    }
}

/// The two digits of one byte, most significant nibble first.
pub open spec fn hex_pair(b: u8) -> Seq<char> {
    seq![hex_digit(b >> 4), hex_digit(b & 0x0f)]
}

/// The hexadecimal text of a byte sequence: two digits per byte, in order.
pub open spec fn hex_text(bytes: Seq<u8>) -> Seq<char>
    decreases bytes.len(),
{
    if bytes.len() == 0 {
        Seq::empty()
    } else {
        hex_text(bytes.drop_last()) + hex_pair(bytes.last())
    }
}

/// Whether `c` is one of `0-9` or `a-f`.
pub open spec fn is_lower_hex(c: char) -> bool {
    ('0' <= c && c <= '9') || ('a' <= c && c <= 'f')
}

/// Whether `s` has the shape of a digest of 32 bytes in hexadecimal: 64
/// characters, each one of `0-9` or `a-f`.
pub open spec fn is_hex_digest_text(s: Seq<char>) -> bool {
    s.len() == 64 && forall|i: int| 0 <= i < s.len() ==> is_lower_hex(#[trigger] s[i])
}

/// The hexadecimal text has two characters per byte.
pub proof fn lemma_hex_text_len(bytes: Seq<u8>)
    ensures
        hex_text(bytes).len() == 2 * bytes.len(),
    decreases bytes.len(),
{
    if bytes.len() > 0 {
        lemma_hex_text_len(bytes.drop_last());
    }
}

/// Both nibbles of a byte are below sixteen.
pub proof fn lemma_nibbles_in_range(b: u8)
    ensures
        (b >> 4) < 16,
        (b & 0x0f) < 16,
{
    assert((b >> 4) < 16 && (b & 0x0f) < 16) by (bit_vector);
}

/// The character at each position of the hexadecimal text is the digit of the
/// matching nibble; in particular it is a lowercase hexadecimal digit.
pub proof fn lemma_hex_text_index(bytes: Seq<u8>, i: int)
    requires
        0 <= i < 2 * bytes.len(),
    ensures
        hex_text(bytes).len() == 2 * bytes.len(),
        hex_text(bytes)[i] == if i % 2 == 0 {
            hex_digit(bytes[i / 2] >> 4)
        } else {
            hex_digit(bytes[i / 2] & 0x0f)
        },
        is_lower_hex(hex_text(bytes)[i]),
    decreases bytes.len(),
{
    lemma_hex_text_len(bytes);
    lemma_hex_text_len(bytes.drop_last());
    lemma_nibbles_in_range(bytes[i / 2]);
    if i < 2 * (bytes.len() - 1) {
        lemma_hex_text_index(bytes.drop_last(), i);
    }
}

/// A hexadecimal digit determines its nibble.
pub proof fn lemma_hex_digit_injective(a: u8, b: u8)
    requires
        a < 16,
        b < 16,
        hex_digit(a) == hex_digit(b),
    ensures
        a == b,
{
}

/// Distinct byte sequences have distinct hexadecimal texts.
pub proof fn lemma_hex_text_injective(a: Seq<u8>, b: Seq<u8>)
    requires
        hex_text(a) == hex_text(b),
    ensures
        a == b,
{
    lemma_hex_text_len(a);
    lemma_hex_text_len(b);
    assert forall|k: int| 0 <= k < a.len() implies a[k] == b[k] by {
        lemma_hex_text_index(a, 2 * k);
        lemma_hex_text_index(b, 2 * k);
        lemma_hex_text_index(a, 2 * k + 1);
        lemma_hex_text_index(b, 2 * k + 1);
        let x = a[k];
        let y = b[k];
        lemma_nibbles_in_range(x);
        lemma_nibbles_in_range(y);
        lemma_hex_digit_injective(x >> 4, y >> 4);
        lemma_hex_digit_injective(x & 0x0f, y & 0x0f);
        assert((x >> 4) == (y >> 4) && (x & 0x0f) == (y & 0x0f) ==> x == y) by (bit_vector);
    }
}

/// Returns the lowercase hexadecimal digit of `n`, a value of four bits.
pub fn nibble_to_hex(n: u8) -> (c: char)
    requires
        n < 16,
    ensures
        c == hex_digit(n),
        is_lower_hex(c),
{
    if n < 10 {
        (0x30u8 + n) as char
    } else {
        (0x61u8 + (n - 10)) as char
    }
}

/// Encodes `bytes` as lowercase hexadecimal text, two digits per byte with the
/// most significant nibble first.
pub fn hex_lower(bytes: &[u8]) -> (output: String)
    ensures
        output@ == hex_text(bytes@),
        output@.len() == 2 * bytes@.len(),
        forall|i: int| 0 <= i < output@.len() ==> is_lower_hex(#[trigger] output@[i]),
{
    let mut output = String::new();
    let mut i: usize = 0;
    while i < bytes.len()
        invariant
            0 <= i <= bytes@.len(),
            output@ == hex_text(bytes@.take(i as int)),
        decreases bytes@.len() - i,
    {
        let byte: u8 = bytes[i];
        proof {
            lemma_nibbles_in_range(byte);
            let next = bytes@.take(i + 1);
            assert(next.drop_last() =~= bytes@.take(i as int));
        }
        push_char(&mut output, nibble_to_hex(byte >> 4));
        push_char(&mut output, nibble_to_hex(byte & 0x0f));
        i += 1;
    }
    proof {
        assert(bytes@.take(i as int) =~= bytes@);
        lemma_hex_text_len(bytes@);
        assert forall|k: int| 0 <= k < output@.len() implies is_lower_hex(
            #[trigger] output@[k],
        ) by {
            lemma_hex_text_index(bytes@, k);
        }
    }
    output
}

} // verus!
