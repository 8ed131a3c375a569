//! Verified core of a content-addressed image indexing pipeline: batching and
//! chunking, bounded worker pools, content addressing and deduplication, the
//! per-item ingest state machine, and the reduction of many probe vectors into
//! the bounded set accepted by a recommend query.

pub mod batching;
pub mod paths;
pub mod content;
pub mod ingest;
pub mod pool;
pub mod query;
pub mod config;
pub mod preprocess;
pub mod env_config;
