//! Building the URI of an API call from a member's base address and a path.
use vstd::prelude::*;
use vstd::string::StringExecFns;

use crate::error::Error;

verus! {

/// `http::Uri`, carried through opaquely to the code that sends the request.
#[verifier::external_type_specification]
#[verifier::external_body]
pub struct ExUri(http::Uri);

/// `http::uri::InvalidUri`, the error of a text that is not a URI, carried in
/// `Error::InvalidUri`.
#[verifier::external_type_specification]
#[verifier::external_body]
pub struct ExInvalidUri(http::uri::InvalidUri);

/// Whether `http` accepts a text as a URI.
pub uninterp spec fn uri_accepts(s: Seq<char>) -> bool;

/// Relies on `<http::Uri as FromStr>::from_str`: it fails on the empty text, and
/// whether it succeeds depends on the text alone.
#[verifier::external_body]
fn parse_uri(s: &str) -> (r: Result<http::Uri, http::uri::InvalidUri>)
    ensures
        r.is_ok() == uri_accepts(s@),
        s@.len() == 0 ==> r.is_err(),
{
    s.parse::<http::Uri>()
}

/// The text of the URI for `path` under the base address `endpoint`: the two joined by
/// exactly one added `/` unless the base already ends with one.
pub open spec fn uri_text(endpoint: Seq<char>, path: Seq<char>) -> Seq<char> {
    if endpoint.len() > 0 && endpoint.last() == '/' {
        endpoint + path
    } else {
        endpoint + seq!['/'] + path
    }
}

/// Joins a member's base address and an API path into the text of a URI.
pub fn join_uri(endpoint: &str, path: &str) -> (r: String)
    ensures
        r@ == uri_text(endpoint@, path@),
{
    let mut text = String::from_str(endpoint);
    let n = endpoint.unicode_len();
    if n == 0 || endpoint.get_char(n - 1) != '/' {
        text.append("/");
        proof {
            reveal_strlit("/");
        }
    }
    text.append(path);
    proof {
        reveal_strlit("/");
    }
    assert(text@ =~= uri_text(endpoint@, path@));
    text
}

/// Constructs the URI of an API call. Fails with `Error::InvalidUri` exactly when the
/// joined text is not a URI; no request is made either way.
pub fn build_uri(endpoint: &str, path: &str) -> (r: Result<http::Uri, Error>)
    ensures
        r.is_ok() == uri_accepts(uri_text(endpoint@, path@)),
        r matches Err(e) ==> e is InvalidUri,
{
    let text = join_uri(endpoint, path);
    match parse_uri(text.as_str()) {
        Ok(u) => Ok(u),
        Err(e) => Err(Error::InvalidUri(e)),
    }
}

/// The base addresses of the cluster's members, in the order they are tried. Never
/// empty, and fixed once made.
#[derive(Debug)]
pub struct Endpoints {
    list: Vec<String>,
}

impl View for Endpoints {
    type V = Seq<Seq<char>>;

    closed spec fn view(&self) -> Seq<Seq<char>> {
        self.list@.map_values(|e: String| e@)
    }
}

impl Endpoints {
    /// The list of members, or `None` if it is empty.
    pub fn new(list: Vec<String>) -> (r: Option<Endpoints>)
        ensures
            r is Some <==> list@.len() > 0,
            r matches Some(e) ==> e@ == list@.map_values(|s: String| s@),
    {
        if list.len() == 0 {
            None
        } else {
            Some(Endpoints { list })
        }
    }

    /// The number of members.
    pub fn len(&self) -> (r: usize)
        ensures
            r == self@.len(),
            r > 0,
    {
        proof {
            use_type_invariant(self);
        }
        self.list.len()
    }

    /// The base address of the first member.
    pub fn first(&self) -> (r: &str)
        ensures
            r@ == self@[0],
    {
        proof {
            use_type_invariant(self);
        }
        self.list[0].as_str()
    }

    /// The base address of the member at position `i`.
    pub fn get(&self, i: usize) -> (r: &str)
        requires
            i < self@.len(),
        ensures
            r@ == self@[i as int],
    {
        self.list[i].as_str()
    }

    #[verifier::type_invariant]
    closed spec fn inv(&self) -> bool {
        self.list@.len() > 0
    }
}

} // verus!
