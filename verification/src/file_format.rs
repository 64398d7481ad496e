//! On-disk formats of tabular files.

use vstd::prelude::*;

verus! {

/// The format in which the files of a table are stored.
#[derive(Clone, Copy, Debug, PartialEq, Eq, Structural)]
pub enum FileFormat {
    Parquet,
    Csv,
    Json,
}

} // verus!
