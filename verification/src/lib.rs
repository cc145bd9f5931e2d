//! Verified core rules of an Iggy message-streaming server: cgroup memory
//! headroom, consumer-offset storage, cluster metadata, HTTP error grading,
//! bearer credentials, JWT claims, CPU allowance, sharding settings and
//! user-header identities.

pub mod cgroup;
mod clock;
pub mod cluster;
pub mod cpus;
pub mod credentials;
pub mod http_error;
pub mod jwt;
pub mod login;
pub mod messages;
pub mod offsets;
pub mod sessions;
pub mod sharding;
pub mod text;
pub mod user_headers;
