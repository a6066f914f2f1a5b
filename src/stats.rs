//! etcd's statistics API: the records it returns and the URIs it is reached at.
use vstd::prelude::*;

use crate::error::Error;
use crate::uri::{build_uri, uri_accepts, uri_text, Endpoints};

verus! {

/// Path of the statistics about the cluster leader.
pub const LEADER_STATS_PATH: &'static str = "v2/stats/leader";

/// Path of the statistics about one member.
pub const SELF_STATS_PATH: &'static str = "v2/stats/self";

/// Path of the statistics about the operations one member handled.
pub const STORE_STATS_PATH: &'static str = "v2/stats/store";

/// Statistics about the number of successful and failed Raft RPC requests to an etcd node.
#[derive(Clone, Copy, Debug, PartialEq, Eq, Hash, Structural)]
pub struct CountStats {
    /// The number of times an RPC request to the node failed.
    pub fail: u64,
    /// The number of times an RPC request to the node succeeded.
    pub success: u64,
}

/// A small amount of information about the leader of the cluster.
#[derive(Clone, Debug, PartialEq, Eq, Hash)]
pub struct LeaderInfo {
    /// The unique Raft ID of the leader.
    pub id: String,
    /// The time the leader started.
    pub start_time: String,
    /// The amount of time the leader has been up.
    pub uptime: String,
}

/// Statistics about the operations handled by an etcd member.
#[derive(Clone, Copy, Debug, PartialEq, Eq, Hash, Structural)]
pub struct StoreStats {
    /// The number of failed compare and delete operations.
    pub compare_and_delete_fail: u64,
    /// The number of successful compare and delete operations.
    pub compare_and_delete_success: u64,
    /// The number of failed compare and swap operations.
    pub compare_and_swap_fail: u64,
    /// The number of successful compare and swap operations.
    pub compare_and_swap_success: u64,
    /// The number of failed create operations.
    pub create_fail: u64,
    /// The number of successful create operations.
    pub create_success: u64,
    /// The number of failed delete operations.
    pub delete_fail: u64,
    /// The number of successful delete operations.
    pub delete_success: u64,
    /// The number of expire operations.
    pub expire_count: u64,
    /// The number of failed get operations.
    pub get_fail: u64,
    /// The number of successful get operations.
    pub get_success: u64,
    /// The number of failed set operations.
    pub set_fail: u64,
    /// The number of successful set operations.
    pub set_success: u64,
    /// The number of failed update operations.
    pub update_fail: u64,
    /// The number of successful update operations.
    pub update_success: u64,
    /// The number of watchers.
    pub watchers: u64,
}

/// The URI of the leader statistics, asked of the first member.
pub fn leader_stats_uri(endpoints: &Endpoints) -> (r: Result<http::Uri, Error>)
    ensures
        r.is_ok() == uri_accepts(uri_text(endpoints@[0], LEADER_STATS_PATH@)),
        r matches Err(e) ==> e is InvalidUri,
{
    build_uri(endpoints.first(), LEADER_STATS_PATH)
}

/// The URI of the statistics about the member at `endpoint`.
pub fn self_stats_uri(endpoint: &str) -> (r: Result<http::Uri, Error>)
    ensures
        r.is_ok() == uri_accepts(uri_text(endpoint@, SELF_STATS_PATH@)),
        r matches Err(e) ==> e is InvalidUri,
{
    build_uri(endpoint, SELF_STATS_PATH)
}

/// The URI of the store statistics of the member at `endpoint`.
pub fn store_stats_uri(endpoint: &str) -> (r: Result<http::Uri, Error>)
    ensures
        r.is_ok() == uri_accepts(uri_text(endpoint@, STORE_STATS_PATH@)),
        r matches Err(e) ==> e is InvalidUri,
{
    build_uri(endpoint, STORE_STATS_PATH)
}

} // verus!
