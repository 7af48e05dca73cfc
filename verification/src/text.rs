//! Small string helpers shared by the other modules.

use vstd::prelude::*;

verus! {

/// The character that separates the fields of a canonical request text.
pub open spec fn newline() -> char {
    '\n'
}

/// Whether `s` holds no line break.
pub open spec fn single_line(s: Seq<char>) -> bool {
    forall|i: int| 0 <= i < s.len() ==> s[i] != newline()
}

/// Appends one character to `s`.
///
/// Trusted: `String::push` of the standard library, which appends the given
/// character to the end of the string.
#[verifier::external_body]
pub(crate) fn push_char(s: &mut String, c: char)
    ensures
        final(s)@ == old(s)@.push(c),
{
    s.push(c)
}

/// Removes `prefix` from the front of `s`, where `s` starts with it.
///
/// Trusted: `str::strip_prefix` of the standard library, which returns the
/// rest of the string after the prefix where the string starts with the
/// prefix, and nothing where it does not.
#[verifier::external_body]
pub(crate) fn strip_prefix<'a>(s: &'a str, prefix: &str) -> (rest: Option<&'a str>)
    ensures
        match rest {
            Some(r) => s@ == prefix@ + r@,
            None => !prefix@.is_prefix_of(s@),
        },
{
    s.strip_prefix(prefix)
}

/// The uppercase form of a text.
pub uninterp spec fn uppercase_text(s: Seq<char>) -> Seq<char>;

/// Returns the uppercase form of `s`.
///
/// Trusted: `str::to_uppercase` of the standard library. The result is a
/// function of the text alone.
#[verifier::external_body]
pub(crate) fn to_uppercase(s: &str) -> (upper: String)
    ensures
        upper@ == uppercase_text(s@),
{
    s.to_uppercase()
}

/// Whether `c` is white space: one of the characters that Unicode marks as
/// `White_Space`.
pub open spec fn is_white_space(c: char) -> bool {
    let n = c as u32;
    ||| 0x09 <= n <= 0x0D
    ||| n == 0x20
    ||| n == 0x85
    ||| n == 0xA0
    ||| n == 0x1680
    ||| 0x2000 <= n <= 0x200A
    ||| n == 0x2028
    ||| n == 0x2029
    ||| n == 0x202F
    ||| n == 0x205F
    ||| n == 0x3000
}

/// `s` without the white space at its start.
pub open spec fn without_leading_white_space(s: Seq<char>) -> Seq<char>
    decreases s.len(),
{
    if s.len() > 0 && is_white_space(s[0]) {
        without_leading_white_space(s.skip(1))
    } else {
        s
    }
}

/// `s` without the white space at its end.
pub open spec fn without_trailing_white_space(s: Seq<char>) -> Seq<char>
    decreases s.len(),
{
    if s.len() > 0 && is_white_space(s.last()) {
        without_trailing_white_space(s.drop_last())
    } else {
        s
    }
}

/// A text without its leading and trailing white space.
pub open spec fn trimmed_text(s: Seq<char>) -> Seq<char> {
    without_trailing_white_space(without_leading_white_space(s))
}

/// Whether a text is blank: empty, or white space throughout.
pub open spec fn is_blank(s: Seq<char>) -> bool {
    forall|i: int| 0 <= i < s.len() ==> is_white_space(#[trigger] s[i])
}

/// Stripping the white space at the start leaves nothing of a blank text, and
/// of no other text.
pub proof fn lemma_without_leading_white_space(s: Seq<char>)
    ensures
        without_leading_white_space(s).len() == 0 <==> is_blank(s),
        without_leading_white_space(s).len() > 0 ==> !is_white_space(
            without_leading_white_space(s)[0],
        ),
    decreases s.len(),
{
    if s.len() > 0 && is_white_space(s[0]) {
        let rest = s.skip(1);
        lemma_without_leading_white_space(rest);
        if is_blank(rest) {
            assert forall|i: int| 0 <= i < s.len() implies is_white_space(#[trigger] s[i]) by {
                if i > 0 {
                    assert(s[i] == rest[i - 1]);
                }
            }
        }
        if is_blank(s) {
            assert forall|i: int| 0 <= i < rest.len() implies is_white_space(
                #[trigger] rest[i],
            ) by {
                assert(rest[i] == s[i + 1]);
            }
        }
    } else if s.len() > 0 {
        assert(!is_white_space(s[0]));
    }
}

/// Stripping the white space at the end leaves something of every text that
/// does not start with white space, but the empty one.
pub proof fn lemma_without_trailing_white_space(s: Seq<char>)
    ensures
        s.len() > 0 && !is_white_space(s[0]) ==> without_trailing_white_space(s).len() > 0,
    decreases s.len(),
{
    if s.len() > 1 && is_white_space(s.last()) {
        lemma_without_trailing_white_space(s.drop_last());
    }
}

/// A text trims to nothing exactly where it is blank.
pub proof fn lemma_trimmed_text_empty(s: Seq<char>)
    ensures
        trimmed_text(s).len() == 0 <==> is_blank(s),
{
    lemma_without_leading_white_space(s);
    lemma_without_trailing_white_space(without_leading_white_space(s));
}

/// Returns `s` without leading and trailing white space.
///
/// Trusted: `str::trim` of the standard library, which removes leading and
/// trailing white space: the characters that Unicode marks as `White_Space`.
#[verifier::external_body]
pub(crate) fn trim<'a>(s: &'a str) -> (trimmed: &'a str)
    ensures
        trimmed@ == trimmed_text(s@),
{
    s.trim()
}

/// `s` without the run of `c` at its end.
pub open spec fn without_trailing(s: Seq<char>, c: char) -> Seq<char>
    decreases s.len(),
{
    if s.len() > 0 && s.last() == c {
        without_trailing(s.drop_last(), c)
    } else {
        s
    }
}

/// `s` without the run of `c` at its start.
pub open spec fn without_leading(s: Seq<char>, c: char) -> Seq<char>
    decreases s.len(),
{
    if s.len() > 0 && s[0] == c {
        without_leading(s.skip(1), c)
    } else {
        s
    }
}

/// Returns `s` without the run of `c` at its end.
///
/// Trusted: `str::trim_end_matches` of the standard library with a character
/// as the pattern, which removes every suffix that matches, again and again.
#[verifier::external_body]
pub(crate) fn trim_end_matches<'a>(s: &'a str, c: char) -> (trimmed: &'a str)
    ensures
        trimmed@ == without_trailing(s@, c),
{
    s.trim_end_matches(c)
}

/// Returns `s` without the run of `c` at its start.
///
/// Trusted: `str::trim_start_matches` of the standard library with a character
/// as the pattern, which removes every prefix that matches, again and again.
#[verifier::external_body]
pub(crate) fn trim_start_matches<'a>(s: &'a str, c: char) -> (trimmed: &'a str)
    ensures
        trimmed@ == without_leading(s@, c),
{
    s.trim_start_matches(c)
}

/// What a trimmed run leaves: a text that does not end with `c`.
pub proof fn lemma_without_trailing_end(s: Seq<char>, c: char)
    ensures
        without_trailing(s, c).len() == 0 || without_trailing(s, c).last() != c,
        without_trailing(s, c).is_prefix_of(s),
    decreases s.len(),
{
    if s.len() > 0 && s.last() == c {
        lemma_without_trailing_end(s.drop_last(), c);
    }
}

} // verus!
