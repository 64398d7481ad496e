//! Where the result of a plan is written and how.

use crate::expr::{exprs_eq, exprs_view, Expr, ExprView};
use crate::file_format::FileFormat;
use vstd::prelude::*;

verus! {

/// The destination of a write: the directory, the format of the files, the
/// expressions by which the output is split into directories, and the
/// compression codec, if any.
#[derive(Clone, Debug)]
pub struct OutputFileInfo {
    pub root_dir: String,
    pub file_format: FileFormat,
    pub partition_cols: Option<Vec<Expr>>,
    pub compression: Option<String>,
}

/// What an [`OutputFileInfo`] stands for.
pub struct OutputFileInfoView {
    pub root_dir: Seq<char>,
    pub file_format: FileFormat,
    pub partition_cols: Option<Seq<ExprView>>,
    pub compression: Option<Seq<char>>,
}

impl View for OutputFileInfo {
    type V = OutputFileInfoView;

    open spec fn view(&self) -> OutputFileInfoView {
        OutputFileInfoView {
            root_dir: self.root_dir@,
            file_format: self.file_format,
            partition_cols: match self.partition_cols {
                Some(cols) => Some(exprs_view(cols@)),
                None => None,
            },
            compression: match self.compression {
                Some(codec) => Some(codec@),
                None => None,
            },
        }
    }
}

impl PartialEq for OutputFileInfo {
    fn eq(&self, other: &Self) -> (r: bool) {
        let same_partition_cols = match (&self.partition_cols, &other.partition_cols) {
            (Some(a), Some(b)) => exprs_eq(a, b),
            (None, None) => true,
            _ => false,
        };
        let same_compression = match (&self.compression, &other.compression) {
            (Some(a), Some(b)) => *a == *b,
            (None, None) => true,
            _ => false,
        };
        self.root_dir == other.root_dir && self.file_format == other.file_format
            && same_partition_cols && same_compression
    }
}

impl vstd::std_specs::cmp::PartialEqSpecImpl for OutputFileInfo {
    open spec fn obeys_eq_spec() -> bool {
        true
    }

    open spec fn eq_spec(&self, other: &Self) -> bool {
        self@ == other@
    }
}

impl Eq for OutputFileInfo {}

} // verus!
