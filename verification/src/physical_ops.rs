//! The operators of a physical plan.

pub mod parquet;
