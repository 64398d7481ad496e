//! Reading a partitioned Parquet table, and writing a plan's rows as Parquet.

use crate::partitioning::{PartitionSpec, PartitionSpecView};
use crate::physical_plan::{PhysicalPlan, PhysicalPlanView};
use crate::pushdowns::{Pushdowns, PushdownsView};
use crate::schema::{FieldView, SchemaRef};
use crate::sink_info::{OutputFileInfo, OutputFileInfoView};
use crate::source_info::{ExternalSourceInfo, ExternalSourceInfoView};
use std::sync::Arc;
use vstd::prelude::*;
use vstd::std_specs::cmp::PartialEqSpec;

verus! {

/// A leaf of a plan: read a partitioned Parquet table, keeping the columns of
/// `projection_schema`. The pushdowns are hints; nothing here enforces them.
#[derive(Clone, Debug)]
pub struct TabularScanParquet {
    /// The columns that the scan produces, in order.
    pub projection_schema: SchemaRef,
    /// Where the table lies and how it is stored.
    pub external_info: ExternalSourceInfo,
    /// How the table's rows are divided into partitions.
    pub partition_spec: Arc<PartitionSpec>,
    /// What the scan may skip.
    pub pushdowns: Pushdowns,
}

/// What a [`TabularScanParquet`] stands for.
pub struct TabularScanParquetView {
    pub projection_schema: Seq<FieldView>,
    pub external_info: ExternalSourceInfoView,
    pub partition_spec: PartitionSpecView,
    pub pushdowns: PushdownsView,
}

impl View for TabularScanParquet {
    type V = TabularScanParquetView;

    open spec fn view(&self) -> TabularScanParquetView {
        TabularScanParquetView {
            projection_schema: self.projection_schema@,
            external_info: self.external_info@,
            partition_spec: self.partition_spec@,
            pushdowns: self.pushdowns@,
        }
    }
}

impl TabularScanParquet {
    /// The scan whose fields are the four values given.
    pub open spec fn spec_new(
        projection_schema: SchemaRef,
        external_info: ExternalSourceInfo,
        partition_spec: Arc<PartitionSpec>,
        pushdowns: Pushdowns,
    ) -> Self {
        TabularScanParquet { projection_schema, external_info, partition_spec, pushdowns }
    }

    /// Builds the scan that holds exactly the four values given. Nothing is
    /// checked and nothing is copied: every combination of arguments is
    /// accepted, also one whose columns do not fit together, and each handle
    /// is stored as it came.
    #[verifier::when_used_as_spec(spec_new)]
    pub fn new(
        projection_schema: SchemaRef,
        external_info: ExternalSourceInfo,
        partition_spec: Arc<PartitionSpec>,
        pushdowns: Pushdowns,
    ) -> (node: Self)
        ensures
            node.projection_schema == projection_schema,
            node.external_info == external_info,
            node.partition_spec == partition_spec,
            node.pushdowns == pushdowns,
            node == Self::spec_new(projection_schema, external_info, partition_spec, pushdowns),
    {
        Self { projection_schema, external_info, partition_spec, pushdowns }
    }
}

impl PartialEq for TabularScanParquet {
    fn eq(&self, other: &Self) -> (r: bool) {
        *self.projection_schema == *other.projection_schema
            && self.external_info == other.external_info
            && *self.partition_spec == *other.partition_spec
            && self.pushdowns == other.pushdowns
    }
}

impl vstd::std_specs::cmp::PartialEqSpecImpl for TabularScanParquet {
    open spec fn obeys_eq_spec() -> bool {
        true
    }

    open spec fn eq_spec(&self, other: &Self) -> bool {
        self@ == other@
    }
}

impl Eq for TabularScanParquet {}

/// A plan with one input: run `input`, then write its rows as Parquet to the
/// place that `file_info` names.
#[derive(Clone, Debug)]
pub struct TabularWriteParquet {
    /// The schema of the rows that are written.
    pub schema: SchemaRef,
    /// Where the rows go and how.
    pub file_info: OutputFileInfo,
    /// The plan whose rows are written.
    pub input: Arc<PhysicalPlan>,
}

/// What a [`TabularWriteParquet`] stands for.
pub struct TabularWriteParquetView {
    pub schema: Seq<FieldView>,
    pub file_info: OutputFileInfoView,
    pub input: Box<PhysicalPlanView>,
}

impl View for TabularWriteParquet {
    type V = TabularWriteParquetView;

    open spec fn view(&self) -> TabularWriteParquetView
        decreases self,
    {
        TabularWriteParquetView {
            schema: self.schema@,
            file_info: self.file_info@,
            input: Box::new((*self.input).view()),
        }
    }
}

impl TabularWriteParquet {
    /// The write whose fields are the three values given.
    pub open spec fn spec_new(
        schema: SchemaRef,
        file_info: OutputFileInfo,
        input: Arc<PhysicalPlan>,
    ) -> Self {
        TabularWriteParquet { schema, file_info, input }
    }

    /// Builds the write that holds exactly the three values given. Nothing is
    /// checked and nothing is copied: `schema` need not fit what `input`
    /// produces, and `input` is stored as the handle that came, so one plan
    /// can feed several writes.
    #[verifier::when_used_as_spec(spec_new)]
    pub fn new(
        schema: SchemaRef,
        file_info: OutputFileInfo,
        input: Arc<PhysicalPlan>,
    ) -> (node: Self)
        ensures
            node.schema == schema,
            node.file_info == file_info,
            node.input == input,
            node == Self::spec_new(schema, file_info, input),
    {
        Self { schema, file_info, input }
    }
}

impl PartialEq for TabularWriteParquet {
    fn eq(&self, other: &Self) -> (r: bool)
        decreases self,
    {
        *self.schema == *other.schema
            && self.file_info == other.file_info
            && *self.input == *other.input
    }
}

impl vstd::std_specs::cmp::PartialEqSpecImpl for TabularWriteParquet {
    open spec fn obeys_eq_spec() -> bool {
        true
    }

    open spec fn eq_spec(&self, other: &Self) -> bool {
        self@ == other@
    }
}

impl Eq for TabularWriteParquet {}

/// Two scans compare equal exactly when their arguments compare equal one by
/// one. So scans built from equal arguments are equal, and a change in any
/// single argument gives a scan that differs from the first.
pub proof fn lemma_scan_equality(
    schema_a: SchemaRef,
    info_a: ExternalSourceInfo,
    partition_a: Arc<PartitionSpec>,
    pushdowns_a: Pushdowns,
    schema_b: SchemaRef,
    info_b: ExternalSourceInfo,
    partition_b: Arc<PartitionSpec>,
    pushdowns_b: Pushdowns,
)
    ensures
        TabularScanParquet::new(schema_a, info_a, partition_a, pushdowns_a).eq_spec(
            &TabularScanParquet::new(schema_b, info_b, partition_b, pushdowns_b),
        ) == (schema_a@ == schema_b@ && info_a@ == info_b@ && partition_a@ == partition_b@
            && pushdowns_a@ == pushdowns_b@),
{
}

/// Two writes compare equal exactly when their arguments compare equal one by
/// one. So writes built from equal arguments are equal, and a change in any
/// single argument, the plan below included, gives a write that differs from
/// the first.
pub proof fn lemma_write_equality(
    schema_a: SchemaRef,
    info_a: OutputFileInfo,
    input_a: Arc<PhysicalPlan>,
    schema_b: SchemaRef,
    info_b: OutputFileInfo,
    input_b: Arc<PhysicalPlan>,
)
    ensures
        TabularWriteParquet::new(schema_a, info_a, input_a).eq_spec(
            &TabularWriteParquet::new(schema_b, info_b, input_b),
        ) == (schema_a@ == schema_b@ && info_a@ == info_b@ && input_a@ == input_b@),
{
}

} // verus!
