//! Topology snapshots and the balancers that select endpoints from them.

pub mod discovery;
pub mod load_balancer;
pub mod sync;
