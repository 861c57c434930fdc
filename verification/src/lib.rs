//! A load-generation harness for a publish/subscribe message broker.
//!
//! An operator submits a production workload (topic, payload, message count,
//! parallelism, acknowledgement level); the library validates it, partitions
//! it across producer workers, aggregates the workers' outcomes into a result,
//! and tracks the job's lifecycle in a registry that concurrent status
//! queries read.

pub mod acks;
pub mod send_spec;
pub mod split;
pub mod executor;
pub mod hosts;
pub mod registry;
pub mod replication;
pub mod worker;
