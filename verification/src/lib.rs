//! Multi-node swarm provisioning and connectivity convergence.
//!
//! The crate builds network topologies for a set of peer nodes, derives each
//! node's configuration, plans node construction step by step, and decides
//! when every node's live connection count has reached its expected bootstrap
//! count. Dialing, transports, script execution and certificate checking are
//! collaborators reached through narrow interfaces; this crate wires them
//! together and observes them.

pub mod abi;
pub mod address;
pub mod barrier;
pub mod config;
pub mod factory;
pub mod identity;
pub mod lifecycle;
pub mod swarm;
pub mod topology;
