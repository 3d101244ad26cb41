//! Lifecycle coordinator for a replicated storage cluster.
//!
//! Every node of the cluster runs the same coordinator.  Nodes discover each
//! other through an external membership mechanism and must converge, without
//! a central process, on a single volume topology and on a single
//! in-progress upgrade at a time.  The decision logic lives here, verified;
//! the surrounding process performs the I/O and feeds the results back in as
//! plain values.

pub mod allocate;
pub mod block;
pub mod ctdb;
pub mod encryption;
pub mod lifecycle;
pub mod metrics;
pub mod peer;
pub mod quorum;
pub mod samba;
pub mod text;
pub mod topology;
pub mod updatedb;
pub mod upgrade;
pub mod volume;
