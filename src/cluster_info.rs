//! Cluster metadata carried in the headers of every etcd response.
use vstd::prelude::*;

verus! {

/// One response header: its name in lower case, as HTTP header maps keep it, and its
/// raw value.
#[derive(Clone, Debug, PartialEq, Eq)]
pub struct Header {
    pub name: String,
    pub value: Vec<u8>,
}

/// Header that carries the store's modification index.
pub const ETCD_INDEX_HEADER: &'static str = "x-etcd-index";

/// Header that carries the Raft commit index.
pub const RAFT_INDEX_HEADER: &'static str = "x-raft-index";

/// Header that carries the Raft term.
pub const RAFT_TERM_HEADER: &'static str = "x-raft-term";

/// Information about the state of the cluster, read from response headers.
#[derive(Clone, Copy, Debug, PartialEq, Eq, Hash)]
pub struct ClusterInfo {
    /// The index of the store when the response was produced.
    pub etcd_index: Option<u64>,
    /// The Raft commit index.
    pub raft_index: Option<u64>,
    /// The Raft term.
    pub raft_term: Option<u64>,
}

pub open spec fn is_digit(b: u8) -> bool {
    48 <= b && b <= 57
}

pub open spec fn all_digits(s: Seq<u8>) -> bool {
    forall|i: int| 0 <= i < s.len() ==> is_digit(#[trigger] s[i])
}

/// The number that a string of decimal digits denotes.
pub open spec fn digits_value(s: Seq<u8>) -> nat
    decreases s.len(),
{
    if s.len() == 0 {
        0
    } else {
        digits_value(s.drop_last()) * 10 + (s.last() - 48) as nat
    }
}

/// The digits of an unsigned decimal, after an optional leading `+`.
pub open spec fn unsigned_digits(s: Seq<u8>) -> Seq<u8> {
    if s.len() > 0 && s[0] == 43 {
        s.drop_first()
    } else {
        s
    }
}

/// What a header value reads as when taken as an unsigned 64-bit integer: an optional
/// `+` and at least one decimal digit, denoting a value that fits; anything else reads
/// as absent.
pub open spec fn parse_unsigned(s: Seq<u8>) -> Option<u64> {
    let d = unsigned_digits(s);
    if d.len() > 0 && all_digits(d) && digits_value(d) <= u64::MAX {
        Some(digits_value(d) as u64)
    } else {
        None
    }
}

/// The value of the first header named `name`, if any.
pub open spec fn header_value(headers: Seq<Header>, name: Seq<char>) -> Option<Seq<u8>>
    decreases headers.len(),
{
    if headers.len() == 0 {
        None
    } else if headers[0].name@ == name {
        Some(headers[0].value@)
    } else {
        header_value(headers.drop_first(), name)
    }
}

/// What a header yields for a counter of the cluster information.
pub open spec fn header_counter(headers: Seq<Header>, name: Seq<char>) -> Option<u64> {
    match header_value(headers, name) {
        Some(v) => parse_unsigned(v),
        None => None,
    }
}

/// The cluster information that a set of response headers carries.
pub open spec fn cluster_info_of(headers: Seq<Header>) -> ClusterInfo {
    ClusterInfo {
        etcd_index: header_counter(headers, ETCD_INDEX_HEADER@),
        raft_index: header_counter(headers, RAFT_INDEX_HEADER@),
        raft_term: header_counter(headers, RAFT_TERM_HEADER@),
    }
}

proof fn lemma_digits_value_prefix(s: Seq<u8>, i: int)
    requires
        0 <= i <= s.len(),
        all_digits(s),
    ensures
        digits_value(s.subrange(0, i)) <= digits_value(s),
    decreases s.len() - i,
{
    if i < s.len() {
        lemma_digits_value_prefix(s, i + 1);
        let p = s.subrange(0, i + 1);
        assert(p.drop_last() =~= s.subrange(0, i));
        assert(is_digit(s[i]));
    } else {
        assert(s.subrange(0, i) =~= s);
    }
}

/// Reads a header value as an unsigned 64-bit integer.
pub fn parse_counter(value: &[u8]) -> (r: Option<u64>)
    ensures
        r == parse_unsigned(value@),
{
    let len = value.len();
    let start: usize = if len > 0 && value[0] == 43u8 { 1 } else { 0 };
    let ghost d = unsigned_digits(value@);
    assert(d =~= value@.subrange(start as int, len as int));
    if start >= len {
        return None;
    }
    let mut acc: u64 = 0;
    let mut i: usize = start;
    while i < len
        invariant
            start <= i <= len,
            len == value@.len(),
            d == unsigned_digits(value@),
            d =~= value@.subrange(start as int, len as int),
            all_digits(d.subrange(0, i - start)),
            acc as nat == digits_value(d.subrange(0, i - start)),
        decreases len - i,
    {
        let b = value[i];
        let ghost p = d.subrange(0, i + 1 - start);
        assert(p.drop_last() =~= d.subrange(0, i - start));
        assert(d[i - start] == b);
        assert(p.last() == b);
        if b < 48u8 || b > 57u8 {
            assert(!is_digit(d[i - start]));
            return None;
        }
        let next = match acc.checked_mul(10) {
            Some(m) => m.checked_add((b - 48u8) as u64),
            None => None,
        };
        assert(all_digits(p)) by {
            assert forall|k: int| 0 <= k < p.len() implies is_digit(#[trigger] p[k]) by {
                if k < p.len() - 1 {
                    assert(p[k] == d.subrange(0, i - start)[k]);
                }
            }
        };
        match next {
            Some(n) => {
                acc = n;
            },
            None => {
                proof {
                    assert(digits_value(p) == acc * 10 + (b - 48) as nat);
                    if all_digits(d) {
                        lemma_digits_value_prefix(d, i + 1 - start);
                    } else {
                        let k = choose|k: int| 0 <= k < d.len() && !is_digit(#[trigger] d[k]);
                        assert(!is_digit(d[k]));
                    }
                }
                return None;
            },
        }
        i = i + 1;
    }
    assert(d.subrange(0, len - start) =~= d);
    Some(acc)
}

/// Whether two texts are the same character for character.
fn same_text(a: &str, b: &str) -> (r: bool)
    ensures
        r == (a@ == b@),
{
    let n = a.unicode_len();
    if n != b.unicode_len() {
        return false;
    }
    let mut i: usize = 0;
    while i < n
        invariant
            n == a@.len(),
            n == b@.len(),
            0 <= i <= n,
            forall|k: int| 0 <= k < i ==> a@[k] == b@[k],
        decreases n - i,
    {
        if a.get_char(i) != b.get_char(i) {
            return false;
        }
        i = i + 1;
    }
    assert(a@ =~= b@);
    true
}

/// Finds the value of the first header named `name`.
pub fn find_header<'a>(headers: &'a [Header], name: &str) -> (r: Option<&'a Vec<u8>>)
    ensures
        match r {
            Some(v) => header_value(headers@, name@) == Some(v@),
            None => header_value(headers@, name@).is_none(),
        },
{
    let mut i: usize = 0;
    assert(headers@.subrange(0, headers@.len() as int) =~= headers@);
    while i < headers.len()
        invariant
            0 <= i <= headers@.len(),
            header_value(headers@, name@) == header_value(headers@.subrange(i as int, headers@.len() as int), name@),
        decreases headers.len() - i,
    {
        let ghost rest = headers@.subrange(i as int, headers@.len() as int);
        assert(rest.drop_first() =~= headers@.subrange(i + 1, headers@.len() as int));
        if same_text(headers[i].name.as_str(), name) {
            return Some(&headers[i].value);
        }
        i = i + 1;
    }
    None
}

/// Reads one counter of the cluster information from the headers.
pub fn read_counter(headers: &[Header], name: &str) -> (r: Option<u64>)
    ensures
        r == header_counter(headers@, name@),
{
    match find_header(headers, name) {
        Some(v) => parse_counter(v.as_slice()),
        None => None,
    }
}

impl ClusterInfo {
    /// Reads the cluster information out of a response's headers. A header that is
    /// missing or does not hold an unsigned integer leaves its field absent.
    pub fn from_headers(headers: &[Header]) -> (r: ClusterInfo)
        ensures
            r == cluster_info_of(headers@),
    {
        ClusterInfo {
            etcd_index: read_counter(headers, ETCD_INDEX_HEADER),
            raft_index: read_counter(headers, RAFT_INDEX_HEADER),
            raft_term: read_counter(headers, RAFT_TERM_HEADER),
        }
    }
}

} // verus!
