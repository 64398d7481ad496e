use daft_plan::file_format::FileFormat;
use daft_plan::partitioning::{PartitionScheme, PartitionSpec};
use daft_plan::physical_ops::parquet::{TabularScanParquet, TabularWriteParquet};
use daft_plan::physical_plan::PhysicalPlan;
use daft_plan::pushdowns::Pushdowns;
use daft_plan::schema::{DataType, Field, Schema, SchemaRef};
use daft_plan::sink_info::OutputFileInfo;
use daft_plan::source_info::ExternalSourceInfo;
use std::sync::Arc;

fn schema() -> SchemaRef {
    Arc::new(Schema { fields: vec![Field { name: "id".to_string(), dtype: DataType::UInt64 }] })
}

fn scan(path: &str) -> PhysicalPlan {
    PhysicalPlan::TabularScanParquet(TabularScanParquet::new(
        schema(),
        ExternalSourceInfo {
            source_schema: schema(),
            file_paths: Arc::new(vec![path.to_string()]),
            file_format: FileFormat::Parquet,
        },
        Arc::new(PartitionSpec { scheme: PartitionScheme::Random, num_partitions: 1, by: None }),
        Pushdowns::default(),
    ))
}

fn write(root_dir: &str, input: PhysicalPlan) -> PhysicalPlan {
    PhysicalPlan::TabularWriteParquet(TabularWriteParquet::new(
        schema(),
        OutputFileInfo {
            root_dir: root_dir.to_string(),
            file_format: FileFormat::Parquet,
            partition_cols: None,
            compression: None,
        },
        Arc::new(input),
    ))
}

#[test]
fn plans_of_the_same_kind_compare_by_their_node() {
    assert!(scan("a") == scan("a"));
    assert!(scan("a") != scan("b"));
    assert!(write("out", scan("a")) == write("out", scan("a")));
    assert!(write("out", scan("a")) != write("tmp", scan("a")));
}

#[test]
fn a_scan_is_never_equal_to_a_write() {
    assert!(scan("a") != write("out", scan("a")));
    assert!(write("out", scan("a")) != scan("a"));
}

#[test]
fn stacked_writes_compare_down_to_the_leaf() {
    let tower = |leaf: &str| write("c", write("b", write("a", scan(leaf))));
    assert!(tower("x") == tower("x"));
    assert!(tower("x") != tower("y"));
    assert!(tower("x") != write("c", write("b", scan("x"))));
}

#[test]
fn a_cloned_plan_is_equal_to_the_first() {
    let plan = write("out", write("mid", scan("a")));
    assert!(plan.clone() == plan);
}
