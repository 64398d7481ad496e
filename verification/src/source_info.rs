//! Where the data of a table lies and how it is stored.

use crate::file_format::FileFormat;
use crate::names::{names_eq, names_view};
use crate::schema::{FieldView, SchemaRef};
use std::sync::Arc;
use vstd::prelude::*;

verus! {

/// The files that make up a table, their format, and the table's full schema.
/// The schema and the file list sit behind shared handles, so that several
/// plans reading the same table can hold the same description.
#[derive(Clone, Debug)]
pub struct ExternalSourceInfo {
    /// The full schema of the table, before any projection.
    pub source_schema: SchemaRef,
    /// The paths of the files that hold the table's rows.
    pub file_paths: Arc<Vec<String>>,
    /// The format of those files.
    pub file_format: FileFormat,
}

/// What an [`ExternalSourceInfo`] stands for.
pub struct ExternalSourceInfoView {
    pub source_schema: Seq<FieldView>,
    pub file_paths: Seq<Seq<char>>,
    pub file_format: FileFormat,
}

impl View for ExternalSourceInfo {
    type V = ExternalSourceInfoView;

    open spec fn view(&self) -> ExternalSourceInfoView {
        ExternalSourceInfoView {
            source_schema: self.source_schema@,
            file_paths: names_view(self.file_paths@),
            file_format: self.file_format,
        }
    }
}

impl PartialEq for ExternalSourceInfo {
    fn eq(&self, other: &Self) -> (r: bool) {
        *self.source_schema == *other.source_schema
            && names_eq(&self.file_paths, &other.file_paths)
            && self.file_format == other.file_format
    }
}

impl vstd::std_specs::cmp::PartialEqSpecImpl for ExternalSourceInfo {
    open spec fn obeys_eq_spec() -> bool {
        true
    }

    open spec fn eq_spec(&self, other: &Self) -> bool {
        self@ == other@
    }
}

impl Eq for ExternalSourceInfo {}

} // verus!
