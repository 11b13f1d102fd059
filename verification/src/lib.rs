//! The concurrent workload-execution engine of a load-generation bench
//! for a clustered row store: partitioning a fixed task space across
//! concurrency units, bounding admission, executing deterministic
//! write/read tasks and verifying what reads return, reporting monotonic
//! progress, and coordinating per-node statement preparation. Connecting
//! to a cluster and driving the wire protocol are left to the driver; the
//! engine's decisions are all here, with their contracts.

pub mod admission;
pub mod config;
pub mod engine;
pub mod executor;
pub mod partition;
pub mod prepare;
pub mod progress;
pub mod row;
pub mod schema;
pub mod store;
