//! The ways a run can fail, each with a message that names its stage.

use vstd::prelude::*;

use crate::font::FontError;
use crate::text::glue;

verus! {

#[derive(Clone, Debug, PartialEq, Eq)]
pub enum PipelineError {
    /// The record file is missing or cannot be read.
    InputRead { path: String },
    /// The record file does not hold a record.
    InputFormat { path: String },
    /// The font could not be loaded or found.
    Font(FontError),
    /// The document could not be written out.
    Render { path: String },
}

/// The message that reports `e`.
pub open spec fn message_of(e: PipelineError) -> Seq<char> {
    match e {
        PipelineError::InputRead { path } => "Failed to read input data file: "@ + path@,
        PipelineError::InputFormat { path } => "Invalid format in input file: "@ + path@,
        PipelineError::Font(FontError::Load { path }) => "Failed to load font from "@ + path@,
        PipelineError::Font(FontError::NotFound) => "No font found in any search directory"@,
        PipelineError::Render { path } => "Failed to render CV to output file: "@ + path@,
    }
}

impl PipelineError {
    /// A message for the user that says which stage failed.
    pub fn message(&self) -> (r: String)
        ensures
            r@ == message_of(*self),
    {
        match self {
            PipelineError::InputRead { path } => glue(
                "Failed to read input data file: ",
                path.as_str(),
            ),
            PipelineError::InputFormat { path } => glue(
                "Invalid format in input file: ",
                path.as_str(),
            ),
            PipelineError::Font(FontError::Load { path }) => glue(
                "Failed to load font from ",
                path.as_str(),
            ),
            PipelineError::Font(FontError::NotFound) => String::from_str(
                "No font found in any search directory",
            ),
            PipelineError::Render { path } => glue(
                "Failed to render CV to output file: ",
                path.as_str(),
            ),
        }
    }
}

} // verus!
