//! Physical-plan nodes for reading and writing partitioned Parquet tables.
//!
//! A plan is a tree of operators, [`PhysicalPlan`]. Two operators are defined
//! here: [`TabularScanParquet`], a leaf that reads a table, and
//! [`TabularWriteParquet`], which runs the plan below it and writes the rows
//! that come out. Both are plain descriptions: a planner builds them, an
//! executor reads their fields, and nothing in them changes in between. What
//! they describe is held in the descriptor types of the other modules.
//!
//! Every type has a view, written `@`: the mathematical value that it stands
//! for, with strings as sequences of characters and shared handles replaced by
//! what they point to. `==` on each type is proved to decide equality of
//! views, so two plans are equal when they describe the same work, whether or
//! not they share any allocation.

pub mod expr;
pub mod file_format;
pub mod names;
pub mod partitioning;
pub mod physical_ops;
pub mod physical_plan;
pub mod pushdowns;
pub mod schema;
pub mod sink_info;
pub mod source_info;

pub use partitioning::PartitionSpec;
pub use physical_ops::parquet::{TabularScanParquet, TabularWriteParquet};
pub use physical_plan::PhysicalPlan;
