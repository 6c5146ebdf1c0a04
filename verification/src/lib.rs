//! Client-side endpoint selection for a database client.
//!
//! A load balancer answers one question: to which address should the next
//! request for a given service go? The topology it draws from is a
//! [`internal::discovery::DiscoveryState`], replaced as a whole whenever the
//! cluster changes. The `grpc_wrapper` modules hold the parameters that
//! accompany an operation on the wire.

pub mod errors;
pub mod grpc_wrapper;
pub mod internal;
