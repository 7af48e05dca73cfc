//! The path of a request as the verifying server sees it: the path of the
//! target address below the client's base path.

use vstd::prelude::*;
use vstd::string::StrSliceExecFns;
use vstd::string::StringExecFns;
use crate::text::strip_prefix;

verus! {

/// The path component of `url` where it parses as an absolute URL, and `None`
/// where it does not.
pub uninterp spec fn parsed_url_path(url: Seq<char>) -> Option<Seq<char>>;

/// Parses `url` and returns its path component.
///
/// Trusted: `url::Url::parse` followed by `Url::path`. Whether the text parses,
/// and the path it then has, depend on the text alone.
#[verifier::external_body]
pub(crate) fn url_path(url: &str) -> (out: Result<String, url::ParseError>)
    ensures
        out is Ok <==> parsed_url_path(url@) is Some,
        out matches Ok(path) ==> parsed_url_path(url@) == Some(path@),
{
    Ok(url::Url::parse(url)?.path().to_string())
}

/// What is left of `path` below `base_path`: the path without that prefix
/// where the base path is not empty and the path starts with it, a single
/// slash where nothing is left, and the whole path otherwise.
pub open spec fn below_base(path: Seq<char>, base_path: Seq<char>) -> Seq<char> {
    if base_path.len() > 0 && base_path.is_prefix_of(path) {
        if path.len() == base_path.len() {
            seq!['/']
        } else {
            path.skip(base_path.len() as int)
        }
    } else {
        path
    }
}

/// `s` with a slash in front unless it starts with one.
pub open spec fn with_leading_slash(s: Seq<char>) -> Seq<char> {
    if s.len() > 0 && s[0] == '/' {
        s
    } else {
        seq!['/'] + s
    }
}

/// The canonical path of a request whose address has the path `path`, for a
/// client with the base path `base_path`.
pub open spec fn canonical_path_of(path: Seq<char>, base_path: Seq<char>) -> Seq<char> {
    with_leading_slash(below_base(path, base_path))
}

/// The canonical path always starts with a slash.
pub proof fn lemma_canonical_path_starts_with_slash(path: Seq<char>, base_path: Seq<char>)
    ensures
        canonical_path_of(path, base_path).len() > 0,
        canonical_path_of(path, base_path)[0] == '/',
{
}

/// A path that does not start with the base path is kept whole, but for the
/// leading slash.
pub proof fn lemma_canonical_path_without_prefix(path: Seq<char>, base_path: Seq<char>)
    requires
        !base_path.is_prefix_of(path),
    ensures
        canonical_path_of(path, base_path) == with_leading_slash(path),
{
}

/// Whether `s` starts with a slash.
pub fn starts_with_slash(s: &str) -> (yes: bool)
    ensures
        yes == (s@.len() > 0 && s@[0] == '/'),
{
    !s.is_empty() && s.get_char(0) == '/'
}

/// Strips the base path from `path` and makes sure that the result starts with
/// a slash. A path that does not start with the base path is not an error: it
/// is resolved as it stands.
pub fn resolve_canonical_path(path: &str, base_path: &str) -> (out: String)
    ensures
        out@ == canonical_path_of(path@, base_path@),
        out@.len() > 0,
        out@[0] == '/',
{
    proof {
        reveal_strlit("/");
    }
    let stripped: Option<&str> = if base_path.is_empty() {
        None
    } else {
        strip_prefix(path, base_path)
    };
    let below: &str = match stripped {
        Some(rest) => {
            if rest.is_empty() {
                "/"
            } else {
                rest
            }
        },
        None => path,
    };
    if starts_with_slash(below) {
        below.to_owned()
    } else {
        let mut out = String::from_str("/");
        out.append(below);
        out
    }
}

} // verus!
