//! Classifies one file path against a caller-supplied list of element types.
//!
//! Every element type is described by a glob pattern; a second list of glob
//! patterns marks paths that are deliberately ignored. The path is first made
//! relative to the project root, then tried against the ignore patterns, then
//! against the element patterns in the order given. A pattern that holds a
//! `/` is tried against the whole relative path, a pattern without one
//! against its last component, and neither `*` nor `?` matches a `/`.

pub mod anchor;
pub mod classify;
pub mod globs;
pub mod laws;
pub mod model;
pub mod normalize;


pub use crate::anchor::anchored_pattern;
pub use crate::classify::{analyze_file, compile_globset, compile_pattern};
pub use crate::model::{
    AnalyzeFileError, AnalyzeFileInput, AnalyzeFileResult, ElementDescriptor, PatternOrigin,
};
pub use crate::normalize::normalize_to_relative;
