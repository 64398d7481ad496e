//! How the rows of a table are divided into partitions.

use crate::expr::{exprs_eq, exprs_view, Expr, ExprView};
use vstd::prelude::*;

verus! {

/// The rule by which a row is assigned to a partition.
#[derive(Clone, Copy, Debug, PartialEq, Eq, Structural)]
pub enum PartitionScheme {
    Range,
    Hash,
    Random,
    Unknown,
}

/// The division of a table into partitions: the rule, the number of
/// partitions, and the expressions that the rule is applied to, if any.
#[derive(Clone, Debug)]
pub struct PartitionSpec {
    pub scheme: PartitionScheme,
    pub num_partitions: usize,
    pub by: Option<Vec<Expr>>,
}

/// What a [`PartitionSpec`] stands for.
pub struct PartitionSpecView {
    pub scheme: PartitionScheme,
    pub num_partitions: nat,
    pub by: Option<Seq<ExprView>>,
}

impl View for PartitionSpec {
    type V = PartitionSpecView;

    open spec fn view(&self) -> PartitionSpecView {
        PartitionSpecView {
            scheme: self.scheme,
            num_partitions: self.num_partitions as nat,
            by: match self.by {
                Some(by) => Some(exprs_view(by@)),
                None => None,
            },
        }
    }
}

impl PartialEq for PartitionSpec {
    fn eq(&self, other: &Self) -> (r: bool) {
        let same_by = match (&self.by, &other.by) {
            (Some(a), Some(b)) => exprs_eq(a, b),
            (None, None) => true,
            _ => false,
        };
        self.scheme == other.scheme && self.num_partitions == other.num_partitions && same_by
    }
}

impl vstd::std_specs::cmp::PartialEqSpecImpl for PartitionSpec {
    open spec fn obeys_eq_spec() -> bool {
        true
    }

    open spec fn eq_spec(&self, other: &Self) -> bool {
        self@ == other@
    }
}

impl Eq for PartitionSpec {}

} // verus!
