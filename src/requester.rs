//! One attempt against one member: turning what came back into a response or an error.
use vstd::prelude::*;

use crate::cluster_info::{
    cluster_info_of, header_value, parse_unsigned, ClusterInfo, Header, ETCD_INDEX_HEADER,
    RAFT_INDEX_HEADER, RAFT_TERM_HEADER,
};
use crate::error::{ApiError, Error};

verus! {

/// A successful answer from the cluster: the decoded payload and the cluster
/// information from the response headers.
#[derive(Clone, Debug, PartialEq, Eq)]
pub struct Response<T> {
    /// The decoded payload.
    pub data: T,
    /// Information about the cluster when it answered.
    pub cluster_info: ClusterInfo,
}

/// What one request to one member came back with, before classification.
pub enum Reply<T> {
    /// No HTTP response was received; the text describes why.
    Unreachable(String),
    /// A status in the success range, with the response headers and the outcome of
    /// decoding the body as the expected payload.
    Success { headers: Vec<Header>, payload: Result<T, String> },
    /// A status outside the success range, with the outcome of decoding the body as
    /// etcd's error payload.
    Failure { payload: Result<ApiError, String> },
}

/// Whether an HTTP status code is in the success range.
pub open spec fn is_success(status: u16) -> bool {
    200 <= status && status <= 299
}

/// Whether an HTTP status code is in the success range, which decides whether the body
/// is read as the payload or as an error.
pub fn is_success_status(status: u16) -> (r: bool)
    ensures
        r == is_success(status),
{
    200 <= status && status <= 299
}

/// The result that a reply stands for.
pub open spec fn classified<T>(reply: Reply<T>) -> Result<Response<T>, Error> {
    match reply {
        Reply::Unreachable(m) => Err(Error::Transport(m)),
        Reply::Success { headers, payload } => match payload {
            Ok(data) => Ok(Response { data, cluster_info: cluster_info_of(headers@) }),
            Err(m) => Err(Error::Decode(m)),
        },
        Reply::Failure { payload } => match payload {
            Ok(e) => Err(Error::Api(e)),
            Err(m) => Err(Error::Decode(m)),
        },
    }
}

/// Classifies the reply of one attempt: a transport failure, an etcd error, a body that
/// does not decode, or a response whose cluster information is read from its headers.
pub fn classify<T>(reply: Reply<T>) -> (r: Result<Response<T>, Error>)
    ensures
        r == classified(reply),
{
    match reply {
        Reply::Unreachable(m) => Err(Error::Transport(m)),
        Reply::Success { headers, payload } => match payload {
            Ok(data) => {
                let cluster_info = ClusterInfo::from_headers(headers.as_slice());
                Ok(Response { data, cluster_info })
            },
            Err(m) => Err(Error::Decode(m)),
        },
        Reply::Failure { payload } => match payload {
            Ok(e) => Err(Error::Api(e)),
            Err(m) => Err(Error::Decode(m)),
        },
    }
}

/// Whether the header `name` is present and its first value reads as `v`.
pub open spec fn header_reads_as(headers: Seq<Header>, name: Seq<char>, v: u64) -> bool {
    header_value(headers, name) matches Some(t) && parse_unsigned(t) == Some(v)
}

/// A decoded success never fails on account of its headers, and each counter of its
/// cluster information is present exactly when its header is present and holds an
/// unsigned integer, with that integer as its value.
pub proof fn lemma_headers_never_fail<T>(headers: Vec<Header>, data: T)
    ensures
        classified(Reply::Success { headers, payload: Ok(data) }) == Ok::<Response<T>, Error>(
            Response { data, cluster_info: cluster_info_of(headers@) },
        ),
        forall|v: u64|
            cluster_info_of(headers@).etcd_index == Some(v) <==> header_reads_as(
                headers@,
                ETCD_INDEX_HEADER@,
                v,
            ),
        forall|v: u64|
            cluster_info_of(headers@).raft_index == Some(v) <==> header_reads_as(
                headers@,
                RAFT_INDEX_HEADER@,
                v,
            ),
        forall|v: u64|
            cluster_info_of(headers@).raft_term == Some(v) <==> header_reads_as(
                headers@,
                RAFT_TERM_HEADER@,
                v,
            ),
{
}

} // verus!
