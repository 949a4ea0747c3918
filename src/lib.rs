//! Ingestion of newline-delimited JSON observations into partitions, one
//! columnar file per (name, UTC date) partition.

pub mod text;
pub mod record;
pub mod json;
pub mod stream;
pub mod partition;
pub mod columns;
pub mod plan;
