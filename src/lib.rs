//! A client core for etcd's v2 HTTP API: the request dispatcher that tries cluster
//! members in order, fans a query out to every member, classifies failures, and reads
//! cluster metadata out of response headers.
pub use crate::cluster_info::{ClusterInfo, Header};
pub use crate::error::{ApiError, Error};
pub use crate::requester::Response;

pub mod cluster_info;
pub mod error;
pub mod failover;
pub mod fan_out;
pub mod requester;
pub mod stats;
pub mod uri;
