//! Error type for level and palette data loading.

use vstd::prelude::*;

verus! {

/// Errors that can occur when loading level or palette data.
///
/// Grid-dimension mismatches are the structural errors signalled by level
/// resolution itself; the file-oriented variants are produced by the code
/// that reads and parses the data files before resolution runs.
#[derive(Debug, Clone)]
pub enum DataLoadError {
    /// File could not be found.
    FileNotFound(String),
    /// File could not be read.
    ReadError { path: String, details: String },
    /// Parsing a data file failed.
    ParseError { path: String, details: String },
    /// Grid dimensions don't match between layers.
    GridMismatch {
        expected_width: usize,
        expected_height: usize,
        actual_width: usize,
        actual_height: usize,
    },
    /// Invalid palette reference.
    UnknownPaletteEntry { character: char, x: usize, z: usize },
}

} // verus!
