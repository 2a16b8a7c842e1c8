//! The values that the command line hands the pipeline: the parsed
//! arguments and the fixed enumeration of size presets.

use vstd::prelude::*;

verus! {

/// A size preset, naming one of the five target character-grid widths.
#[derive(Clone, Debug, PartialEq, Eq)]
pub enum Size {
    ExtraSmall,
    Small,
    Normal,
    Large,
    ExtraLarge,
}

/// The parsed command-line arguments: image files to render, search terms
/// to look up remotely, and an optional size preset.
pub struct Cli {
    pub files: Vec<String>,
    pub find: Option<Vec<String>>,
    pub size: Option<Size>,
}

} // verus!
