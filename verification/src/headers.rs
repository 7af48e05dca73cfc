//! The set of headers that authenticate one request.

use vstd::prelude::*;

verus! {

/// The name of the header that carries the bearer token.
pub open spec fn authorization_name() -> Seq<char> {
    "Authorization"@
}

/// The name of the header that carries the timestamp.
pub open spec fn timestamp_name() -> Seq<char> {
    "X-Timestamp"@
}

/// The name of the header that carries the nonce.
pub open spec fn nonce_name() -> Seq<char> {
    "X-Nonce"@
}

/// The name of the header that carries the signature.
pub open spec fn signature_name() -> Seq<char> {
    "X-Signature"@
}

/// The name of the header that carries the digest of the body.
pub open spec fn body_hash_name() -> Seq<char> {
    "X-Body-Sha256"@
}

/// The value of the authorization header for a token.
pub open spec fn bearer_value(token: Seq<char>) -> Seq<char> {
    "Bearer "@ + token
}

/// A header as a pair of texts: name, then value.
pub type HeaderText = (Seq<char>, Seq<char>);

/// Whether a list of headers holds one of the given name.
pub open spec fn has_header(headers: Seq<HeaderText>, name: Seq<char>) -> bool {
    exists|i: int| 0 <= i < headers.len() && (#[trigger] headers[i]).0 == name
}

/// The value of the first header of the given name, if there is one.
pub open spec fn header_value(headers: Seq<HeaderText>, name: Seq<char>) -> Option<Seq<char>>
    decreases headers.len(),
{
    if headers.len() == 0 {
        None
    } else if headers[0].0 == name {
        Some(headers[0].1)
    } else {
        header_value(headers.skip(1), name)
    }
}

/// Whether no name occurs twice in a list of headers.
pub open spec fn distinct_names(headers: Seq<HeaderText>) -> bool {
    forall|i: int, j: int|
        0 <= i < j < headers.len() ==> (#[trigger] headers[i]).0 != (#[trigger] headers[j]).0
}

/// A lookup finds a value exactly where a header of that name is present.
pub proof fn lemma_header_value_present(headers: Seq<HeaderText>, name: Seq<char>)
    ensures
        header_value(headers, name) is Some <==> has_header(headers, name),
    decreases headers.len(),
{
    if headers.len() > 0 {
        if headers[0].0 != name {
            let rest = headers.skip(1);
            lemma_header_value_present(rest, name);
            if has_header(headers, name) {
                let i = choose|i: int| 0 <= i < headers.len() && (#[trigger] headers[i]).0 == name;
                assert(rest[i - 1] == headers[i]);
            }
        }
    }
}

/// A list without a name twice stays so when a header of a new name is added.
pub proof fn lemma_push_keeps_names_distinct(
    headers: Seq<HeaderText>,
    name: Seq<char>,
    value: Seq<char>,
)
    requires
        distinct_names(headers),
        !has_header(headers, name),
    ensures
        distinct_names(headers.push((name, value))),
{
    let longer = headers.push((name, value));
    assert forall|i: int, j: int| 0 <= i < j < longer.len() implies (#[trigger] longer[i]).0 != (
    #[trigger] longer[j]).0 by {
        if j == headers.len() {
            assert(longer[i] == headers[i]);
        } else {
            assert(longer[i] == headers[i]);
            assert(longer[j] == headers[j]);
        }
    }
}

/// One header: a name and its value.
#[derive(Debug, Clone)]
pub struct Header {
    pub name: String,
    pub value: String,
}

impl View for Header {
    type V = HeaderText;

    open spec fn view(&self) -> HeaderText {
        (self.name@, self.value@)
    }
}

/// The headers that authenticate one request, in the order in which they were
/// put together. It is handed out whole or not at all.
#[derive(Debug, Clone)]
pub struct AuthHeaderSet {
    pub entries: Vec<Header>,
}

impl View for AuthHeaderSet {
    type V = Seq<HeaderText>;

    open spec fn view(&self) -> Seq<HeaderText> {
        self.entries@.map_values(|h: Header| h@)
    }
}

impl AuthHeaderSet {
    /// The set maps names to values: no name occurs twice.
    pub open spec fn wf(&self) -> bool {
        distinct_names(self@)
    }

    /// A set with no header.
    pub fn new() -> (set: AuthHeaderSet)
        ensures
            set@ == Seq::<HeaderText>::empty(),
            set.wf(),
    {
        let set = AuthHeaderSet { entries: Vec::new() };
        set
    }

    /// Adds a header of a name that the set does not hold yet, at the end.
    pub fn push(&mut self, name: &str, value: String)
        requires
            old(self).wf(),
            !has_header(old(self)@, name@),
        ensures
            final(self)@ == old(self)@.push((name@, value@)),
            final(self).wf(),
    {
        let header = Header { name: name.to_owned(), value };
        self.entries.push(header);
        proof {
            lemma_push_keeps_names_distinct(old(self)@, name@, value@);
        }
    }

    /// The number of headers.
    pub fn len(&self) -> (n: usize)
        ensures
            n == self@.len(),
    {
        self.entries.len()
    }

    /// The value of the header called `name`, where the set holds one.
    pub fn get(&self, name: &str) -> (value: Option<String>)
        ensures
            value is Some <==> has_header(self@, name@),
            match value {
                Some(v) => header_value(self@, name@) == Some(v@),
                None => header_value(self@, name@) is None,
            },
    {
        let wanted = name.to_owned();
        let mut i: usize = 0;
        assert(self@.skip(0) =~= self@);
        while i < self.entries.len()
            invariant
                0 <= i <= self.entries@.len(),
                wanted@ == name@,
                header_value(self@, name@) == header_value(self@.skip(i as int), name@),
            decreases self.entries@.len() - i,
        {
            if self.entries[i].name == wanted {
                proof {
                    lemma_header_value_present(self@, name@);
                }
                return Some(self.entries[i].value.clone());
            }
            assert(self@.skip(i as int).skip(1) =~= self@.skip(i + 1));
            i += 1;
        }
        proof {
            lemma_header_value_present(self@, name@);
        }
        None
    }

    /// Whether the set holds a header called `name`.
    pub fn contains_key(&self, name: &str) -> (yes: bool)
        ensures
            yes == has_header(self@, name@),
    {
        self.get(name).is_some()
    }
}

} // verus!
