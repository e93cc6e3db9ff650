//! Verified core of a reader for sharded cluster-operation traces.
//!
//! A trace table is stored as a fixed, ordered set of numbered shard files of
//! comma-delimited rows.  This crate provides, as verified code:
//! the shard-walking state machine and shard file naming, the closed-set enum
//! codecs, and the schema-driven decoding of raw rows into typed records.
//! File input itself stays outside the library; callers hand rows in as plain
//! field sequences and drive the shard cursor.

pub mod common;
pub mod iter;
pub mod job_events;
pub mod machine_attributes;
pub mod machine_events;
pub mod schema;
pub mod task_events;
pub mod task_usage;
