//! Control-plane core for a distributed block-storage platform.
//!
//! The library models the desired configuration (specs) and the observed
//! runtime condition (states) of storage resources, serializes mutations
//! through a per-resource operation sequencer, projects every spec onto a
//! persistent key-value store, tracks data-plane node liveness through a
//! registration watchdog, and drives observed state toward desired state
//! with a reconciler.  All decision logic is verified; gRPC transports,
//! store drivers and the async runtime live outside the library and hand
//! it plain values.

pub mod dispatch;
pub mod errors;
pub mod ha;
pub mod laws;
pub mod nexus;
pub mod nexus_child;
pub mod node;
pub mod pool;
pub mod reconciler;
pub mod recovery;
pub mod registry;
pub mod replica;
pub mod rpc;
pub mod service;
pub mod store;
pub mod table;
pub mod transport;
pub mod volume;
