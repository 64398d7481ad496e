//! Column types, fields and schemas.

use std::sync::Arc;
use vstd::prelude::*;

verus! {

/// The type of the values in one column.
#[derive(Clone, Copy, Debug, PartialEq, Eq, Structural)]
pub enum DataType {
    Null,
    Boolean,
    Int8,
    Int16,
    Int32,
    Int64,
    UInt8,
    UInt16,
    UInt32,
    UInt64,
    Float32,
    Float64,
    Utf8,
    Binary,
    Date,
}

/// One named, typed column.
#[derive(Clone, Debug)]
pub struct Field {
    pub name: String,
    pub dtype: DataType,
}

/// What a [`Field`] stands for: the characters of its name and its type.
pub struct FieldView {
    pub name: Seq<char>,
    pub dtype: DataType,
}

impl View for Field {
    type V = FieldView;

    open spec fn view(&self) -> FieldView {
        FieldView { name: self.name@, dtype: self.dtype }
    }
}

impl PartialEq for Field {
    fn eq(&self, other: &Self) -> (r: bool) {
        self.name == other.name && self.dtype == other.dtype
    }
}

impl vstd::std_specs::cmp::PartialEqSpecImpl for Field {
    open spec fn obeys_eq_spec() -> bool {
        true
    }

    open spec fn eq_spec(&self, other: &Self) -> bool {
        self@ == other@
    }
}

impl Eq for Field {}

/// An ordered sequence of typed columns.
#[derive(Clone, Debug)]
pub struct Schema {
    pub fields: Vec<Field>,
}

/// A schema behind a shared handle.
pub type SchemaRef = Arc<Schema>;

impl View for Schema {
    type V = Seq<FieldView>;

    open spec fn view(&self) -> Seq<FieldView> {
        self.fields@.map_values(|f: Field| f@)
    }
}

impl PartialEq for Schema {
    fn eq(&self, other: &Self) -> (r: bool) {
        if self.fields.len() != other.fields.len() {
            assert(self@.len() != other@.len());
            return false;
        }
        let n: usize = self.fields.len();
        let mut i: usize = 0;
        while i < n
            invariant
                i <= n,
                n == self.fields.len(),
                n == other.fields.len(),
                forall|j: int| 0 <= j < i ==> self.fields[j]@ == other.fields[j]@,
            decreases n - i,
        {
            if self.fields[i] != other.fields[i] {
                assert(self@[i as int] != other@[i as int]);
                return false;
            }
            i += 1;
        }
        assert(self@ =~= other@);
        true
    }
}

impl vstd::std_specs::cmp::PartialEqSpecImpl for Schema {
    open spec fn obeys_eq_spec() -> bool {
        true
    }

    open spec fn eq_spec(&self, other: &Self) -> bool {
        self@ == other@
    }
}

impl Eq for Schema {}

} // verus!
