//! A node of a test network that runs as a single-replica stateful set in a
//! cluster: its endpoints, the cluster commands that control it, and the
//! decisions taken around them.

pub mod text;
pub mod node;
pub mod lifecycle;
pub mod forward;
pub mod endpoint_url;
