use daft_plan::expr::Expr;
use daft_plan::file_format::FileFormat;
use daft_plan::partitioning::{PartitionScheme, PartitionSpec};
use daft_plan::physical_ops::parquet::{TabularScanParquet, TabularWriteParquet};
use daft_plan::physical_plan::PhysicalPlan;
use daft_plan::pushdowns::Pushdowns;
use daft_plan::schema::{DataType, Field, Schema, SchemaRef};
use daft_plan::sink_info::OutputFileInfo;
use daft_plan::source_info::ExternalSourceInfo;
use std::sync::Arc;

fn schema_of(columns: &[(&str, DataType)]) -> SchemaRef {
    Arc::new(Schema {
        fields: columns.iter().map(|(n, t)| Field { name: n.to_string(), dtype: *t }).collect(),
    })
}

fn scan_plan(limit: Option<usize>) -> Arc<PhysicalPlan> {
    let schema = schema_of(&[("id", DataType::UInt64), ("day", DataType::Date)]);
    Arc::new(PhysicalPlan::TabularScanParquet(TabularScanParquet::new(
        schema.clone(),
        ExternalSourceInfo {
            source_schema: schema,
            file_paths: Arc::new(vec!["t/0.parquet".to_string()]),
            file_format: FileFormat::Parquet,
        },
        Arc::new(PartitionSpec { scheme: PartitionScheme::Unknown, num_partitions: 1, by: None }),
        Pushdowns { filters: None, columns: None, limit },
    )))
}

fn sink(root_dir: &str) -> OutputFileInfo {
    OutputFileInfo {
        root_dir: root_dir.to_string(),
        file_format: FileFormat::Parquet,
        partition_cols: Some(vec![Expr::Column("day".to_string())]),
        compression: None,
    }
}

fn out_schema() -> SchemaRef {
    schema_of(&[("id", DataType::UInt64), ("day", DataType::Date)])
}

fn write() -> TabularWriteParquet {
    TabularWriteParquet::new(out_schema(), sink("out"), scan_plan(None))
}

#[test]
fn write_new_reads_back_every_field() {
    let input = scan_plan(Some(3));
    let node = TabularWriteParquet::new(out_schema(), sink("out"), input.clone());
    assert!(*node.schema == *out_schema());
    assert!(node.file_info == sink("out"));
    assert_eq!(node.file_info.root_dir, "out");
    assert!(*node.input == *input);
    assert!(*node.input == *scan_plan(Some(3)));
    match &*node.input {
        PhysicalPlan::TabularScanParquet(scan) => assert_eq!(scan.pushdowns.limit, Some(3)),
        PhysicalPlan::TabularWriteParquet(_) => panic!("the input is a scan"),
    }
}

#[test]
fn write_new_keeps_the_plan_it_is_given_without_copying_it() {
    let input = scan_plan(None);
    let schema = out_schema();
    let node = TabularWriteParquet::new(schema.clone(), sink("out"), input.clone());
    assert!(Arc::ptr_eq(&node.input, &input));
    assert!(Arc::ptr_eq(&node.schema, &schema));
    assert_eq!(Arc::strong_count(&input), 2);
}

#[test]
fn one_plan_can_feed_two_writes() {
    let input = scan_plan(None);
    let first = TabularWriteParquet::new(out_schema(), sink("first"), input.clone());
    let second = TabularWriteParquet::new(out_schema(), sink("second"), input.clone());
    assert!(Arc::ptr_eq(&first.input, &second.input));
    assert_eq!(Arc::strong_count(&input), 3);
    assert!(*first.input == *second.input);
    assert!(first != second);
    drop(first);
    assert_eq!(Arc::strong_count(&input), 2);
    drop(second);
    assert_eq!(Arc::strong_count(&input), 1);
}

#[test]
fn write_new_accepts_a_schema_that_the_input_does_not_produce() {
    let node = TabularWriteParquet::new(
        schema_of(&[("other", DataType::Boolean)]),
        sink("out"),
        scan_plan(None),
    );
    assert_eq!(node.schema.fields[0].name, "other");
    let empty = TabularWriteParquet::new(schema_of(&[]), sink(""), scan_plan(None));
    assert_eq!(empty.schema.fields.len(), 0);
    assert_eq!(empty.file_info.root_dir, "");
}

#[test]
fn writes_from_equal_arguments_are_equal() {
    assert!(write() == write());
    assert!(!(write() != write()));
}

#[test]
fn writes_over_equal_but_separate_plans_are_equal() {
    let shared = scan_plan(None);
    let a = TabularWriteParquet::new(out_schema(), sink("out"), shared.clone());
    let b = TabularWriteParquet::new(out_schema(), sink("out"), scan_plan(None));
    assert!(!Arc::ptr_eq(&a.input, &b.input));
    assert!(a == b);
}

#[test]
fn writes_differ_when_the_schema_differs() {
    let other =
        TabularWriteParquet::new(schema_of(&[("id", DataType::UInt64)]), sink("out"), scan_plan(None));
    assert!(other != write());
    assert!(write() != other);
}

#[test]
fn writes_differ_when_the_destination_differs() {
    let other = TabularWriteParquet::new(out_schema(), sink("elsewhere"), scan_plan(None));
    assert!(other != write());
}

#[test]
fn writes_differ_when_the_input_differs() {
    let other = TabularWriteParquet::new(out_schema(), sink("out"), scan_plan(Some(1)));
    assert!(other != write());
}

#[test]
fn a_cloned_write_is_equal_and_shares_its_input() {
    let node = write();
    let copy = node.clone();
    assert!(copy == node);
    assert!(Arc::ptr_eq(&copy.input, &node.input));
}
