//! Orchestration layer for periodic peer discovery and topic advertisement.
//!
//! The crate decides *when* to probe the network for peers and *how* to fan a
//! topic operation out across a set of candidate nodes, aggregating the
//! per-node outcomes. The discovery engine itself (wire protocol, routing
//! table, lookups) is an external collaborator: callers perform its
//! operations and hand the results back to the state machines defined here.

pub mod advertise;
pub mod discovery;
pub mod fanout;
pub mod iteration;
pub mod node;
pub mod query;
pub mod topic;
