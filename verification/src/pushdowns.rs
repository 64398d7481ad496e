//! Hints that a scan may use to read less.

use crate::expr::{Expr, ExprView};
use crate::names::{names_eq, names_view};
use std::sync::Arc;
use vstd::prelude::*;

verus! {

/// Advisory hints handed to a scan: a filter on the rows, the columns that are
/// wanted, and a bound on the number of rows. A scan may honour them or not.
#[derive(Clone, Debug)]
pub struct Pushdowns {
    /// Rows that fail this predicate are not needed.
    pub filters: Option<Arc<Expr>>,
    /// Only these columns are needed.
    pub columns: Option<Arc<Vec<String>>>,
    /// No more than this many rows are needed.
    pub limit: Option<usize>,
}

/// What a [`Pushdowns`] stands for.
pub struct PushdownsView {
    pub filters: Option<ExprView>,
    pub columns: Option<Seq<Seq<char>>>,
    pub limit: Option<nat>,
}

impl View for Pushdowns {
    type V = PushdownsView;

    open spec fn view(&self) -> PushdownsView {
        PushdownsView {
            filters: match self.filters {
                Some(filter) => Some(filter@),
                None => None,
            },
            columns: match self.columns {
                Some(columns) => Some(names_view(columns@)),
                None => None,
            },
            limit: match self.limit {
                Some(limit) => Some(limit as nat),
                None => None,
            },
        }
    }
}

impl Default for Pushdowns {
    /// The pushdowns that give no hint.
    fn default() -> (r: Self)
        ensures
            r.filters is None,
            r.columns is None,
            r.limit is None,
    {
        Pushdowns { filters: None, columns: None, limit: None }
    }
}

impl PartialEq for Pushdowns {
    fn eq(&self, other: &Self) -> (r: bool) {
        let same_filters = match (&self.filters, &other.filters) {
            (Some(a), Some(b)) => **a == **b,
            (None, None) => true,
            _ => false,
        };
        let same_columns = match (&self.columns, &other.columns) {
            (Some(a), Some(b)) => names_eq(a, b),
            (None, None) => true,
            _ => false,
        };
        let same_limit = match (self.limit, other.limit) {
            (Some(a), Some(b)) => a == b,
            (None, None) => true,
            _ => false,
        };
        same_filters && same_columns && same_limit
    }
}

impl vstd::std_specs::cmp::PartialEqSpecImpl for Pushdowns {
    open spec fn obeys_eq_spec() -> bool {
        true
    }

    open spec fn eq_spec(&self, other: &Self) -> bool {
        self@ == other@
    }
}

impl Eq for Pushdowns {}

} // verus!
