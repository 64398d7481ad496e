//! Expressions over columns, as they appear in filters and partitioning keys.

use std::sync::Arc;
use vstd::prelude::*;

verus! {

/// A binary operator of an expression.
#[derive(Clone, Copy, Debug, PartialEq, Eq, Structural)]
pub enum Operator {
    Eq,
    NotEq,
    Lt,
    LtEq,
    Gt,
    GtEq,
    And,
    Or,
}

/// A constant of an expression.
#[derive(Clone, Debug)]
pub enum LiteralValue {
    Null,
    Boolean(bool),
    Int64(i64),
    UInt64(u64),
    Utf8(String),
}

/// What a [`LiteralValue`] stands for.
pub enum LiteralView {
    Null,
    Boolean(bool),
    Int64(int),
    UInt64(nat),
    Utf8(Seq<char>),
}

impl View for LiteralValue {
    type V = LiteralView;

    open spec fn view(&self) -> LiteralView {
        match self {
            LiteralValue::Null => LiteralView::Null,
            LiteralValue::Boolean(b) => LiteralView::Boolean(*b),
            LiteralValue::Int64(i) => LiteralView::Int64(*i as int),
            LiteralValue::UInt64(u) => LiteralView::UInt64(*u as nat),
            LiteralValue::Utf8(s) => LiteralView::Utf8(s@),
        }
    }
}

impl PartialEq for LiteralValue {
    fn eq(&self, other: &Self) -> (r: bool) {
        match (self, other) {
            (LiteralValue::Null, LiteralValue::Null) => true,
            (LiteralValue::Boolean(a), LiteralValue::Boolean(b)) => *a == *b,
            (LiteralValue::Int64(a), LiteralValue::Int64(b)) => *a == *b,
            (LiteralValue::UInt64(a), LiteralValue::UInt64(b)) => *a == *b,
            (LiteralValue::Utf8(a), LiteralValue::Utf8(b)) => *a == *b,
            _ => false,
        }
    }
}

impl vstd::std_specs::cmp::PartialEqSpecImpl for LiteralValue {
    open spec fn obeys_eq_spec() -> bool {
        true
    }

    open spec fn eq_spec(&self, other: &Self) -> bool {
        self@ == other@
    }
}

impl Eq for LiteralValue {}

/// An expression over the columns of a table.
#[derive(Clone, Debug)]
pub enum Expr {
    Column(String),
    Literal(LiteralValue),
    Not(Arc<Expr>),
    IsNull(Arc<Expr>),
    BinaryOp { op: Operator, left: Arc<Expr>, right: Arc<Expr> },
}

/// What an [`Expr`] stands for: the same tree, over the views of its leaves.
pub enum ExprView {
    Column(Seq<char>),
    Literal(LiteralView),
    Not(Box<ExprView>),
    IsNull(Box<ExprView>),
    BinaryOp { op: Operator, left: Box<ExprView>, right: Box<ExprView> },
}

impl View for Expr {
    type V = ExprView;

    open spec fn view(&self) -> ExprView
        decreases self,
    {
        match self {
            Expr::Column(name) => ExprView::Column(name@),
            Expr::Literal(value) => ExprView::Literal(value@),
            Expr::Not(inner) => ExprView::Not(Box::new((**inner).view())),
            Expr::IsNull(inner) => ExprView::IsNull(Box::new((**inner).view())),
            Expr::BinaryOp { op, left, right } => ExprView::BinaryOp {
                op: *op,
                left: Box::new((**left).view()),
                right: Box::new((**right).view()),
            },
        }
    }
}

impl PartialEq for Expr {
    fn eq(&self, other: &Self) -> (r: bool)
        decreases self,
    {
        match (self, other) {
            (Expr::Column(a), Expr::Column(b)) => *a == *b,
            (Expr::Literal(a), Expr::Literal(b)) => *a == *b,
            (Expr::Not(a), Expr::Not(b)) => (**a).eq(&**b),
            (Expr::IsNull(a), Expr::IsNull(b)) => (**a).eq(&**b),
            (
                Expr::BinaryOp { op: op_a, left: left_a, right: right_a },
                Expr::BinaryOp { op: op_b, left: left_b, right: right_b },
            ) => *op_a == *op_b && (**left_a).eq(&**left_b) && (**right_a).eq(&**right_b),
            _ => false,
        }
    }
}

impl vstd::std_specs::cmp::PartialEqSpecImpl for Expr {
    open spec fn obeys_eq_spec() -> bool {
        true
    }

    open spec fn eq_spec(&self, other: &Self) -> bool {
        self@ == other@
    }
}

impl Eq for Expr {}

/// What a list of expressions stands for: the view of each, in order.
pub open spec fn exprs_view(exprs: Seq<Expr>) -> Seq<ExprView> {
    exprs.map_values(|e: Expr| e@)
}

/// Whether two lists hold the same expressions in the same order.
pub fn exprs_eq(a: &Vec<Expr>, b: &Vec<Expr>) -> (r: bool)
    ensures
        r == (exprs_view(a@) == exprs_view(b@)),
{
    if a.len() != b.len() {
        return false;
    }
    let n: usize = a.len();
    let mut i: usize = 0;
    while i < n
        invariant
            i <= n,
            n == a.len(),
            n == b.len(),
            forall|j: int| 0 <= j < i ==> a[j]@ == b[j]@,
        decreases n - i,
    {
        if a[i] != b[i] {
            assert(exprs_view(a@)[i as int] != exprs_view(b@)[i as int]);
            return false;
        }
        i += 1;
    }
    assert(exprs_view(a@) =~= exprs_view(b@));
    true
}

} // verus!
