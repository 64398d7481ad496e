//! The tree of operators that an executor walks.

use crate::physical_ops::parquet::{
    TabularScanParquet, TabularScanParquetView, TabularWriteParquet, TabularWriteParquetView,
};
use vstd::prelude::*;

verus! {

/// A physical plan: one operator, with the plans that feed it below it.
#[derive(Clone, Debug)]
pub enum PhysicalPlan {
    /// A leaf: read a partitioned Parquet table.
    TabularScanParquet(TabularScanParquet),
    /// Run the plan below, then write its rows as Parquet.
    TabularWriteParquet(TabularWriteParquet),
}

/// What a [`PhysicalPlan`] stands for: the same tree, over the views of its
/// operators.
pub enum PhysicalPlanView {
    TabularScanParquet(TabularScanParquetView),
    TabularWriteParquet(TabularWriteParquetView),
}

impl View for PhysicalPlan {
    type V = PhysicalPlanView;

    open spec fn view(&self) -> PhysicalPlanView
        decreases self,
    {
        match self {
            PhysicalPlan::TabularScanParquet(scan) => PhysicalPlanView::TabularScanParquet(scan@),
            PhysicalPlan::TabularWriteParquet(write) => PhysicalPlanView::TabularWriteParquet(
                write@,
            ),
        }
    }
}

impl PartialEq for PhysicalPlan {
    fn eq(&self, other: &Self) -> (r: bool)
        decreases self,
    {
        match (self, other) {
            (PhysicalPlan::TabularScanParquet(a), PhysicalPlan::TabularScanParquet(b)) => *a == *b,
            (PhysicalPlan::TabularWriteParquet(a), PhysicalPlan::TabularWriteParquet(b)) => {
                *a == *b
            },
            _ => false,
        }
    }
}

impl vstd::std_specs::cmp::PartialEqSpecImpl for PhysicalPlan {
    open spec fn obeys_eq_spec() -> bool {
        true
    }

    open spec fn eq_spec(&self, other: &Self) -> bool {
        self@ == other@
    }
}

impl Eq for PhysicalPlan {}

} // verus!
