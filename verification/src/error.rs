//! What can go wrong while a render session is set up. None of it is retried:
//! the same sources would fail the same way.

use crate::gl::ShaderStage;
use vstd::prelude::*;
use vstd::string::StringExecFns;

verus! {

/// Why a render session could not be set up.
#[derive(Clone, Debug, PartialEq, Eq)]
pub enum PipelineError {
    /// The driver rejected the source of the shader unit of `stage`; `log` is
    /// what it said.
    Compile { stage: ShaderStage, log: String },
    /// The driver could not link the two shader units; `log` is what it said.
    Link { log: String },
    /// The linked program has no attribute or uniform called `name`.
    UnresolvedLocation { name: String },
    /// The driver gave no object where it was asked to allocate one.
    Allocation,
}

/// What a `PipelineError` says, with texts as sequences.
pub enum PipelineErrorView {
    Compile { stage: ShaderStage, log: Seq<char> },
    Link { log: Seq<char> },
    UnresolvedLocation { name: Seq<char> },
    Allocation,
}

impl View for PipelineError {
    type V = PipelineErrorView;

    open spec fn view(&self) -> PipelineErrorView {
        match *self {
            PipelineError::Compile { stage, log } => PipelineErrorView::Compile { stage, log: log@ },
            PipelineError::Link { log } => PipelineErrorView::Link { log: log@ },
            PipelineError::UnresolvedLocation { name } => PipelineErrorView::UnresolvedLocation {
                name: name@,
            },
            PipelineError::Allocation => PipelineErrorView::Allocation,
        }
    }
}

/// The diagnostic that the host shows for an error: a sentence that says which
/// step failed, then what the driver said or the name that was not found.
pub open spec fn diagnostic(error: PipelineErrorView) -> Seq<char> {
    match error {
        PipelineErrorView::Compile { stage, log } => "An error occurred compiling the shaders: "@
            + log,
        PipelineErrorView::Link { log } => "Unable to initialize the shader program: "@ + log,
        PipelineErrorView::UnresolvedLocation { name } => "Unable to find in the shader program: "@
            + name,
        PipelineErrorView::Allocation => "The graphics context returned no object"@,
    }
}

impl PipelineError {
    /// The diagnostic for this error.
    pub fn message(&self) -> (text: String)
        ensures
            text@ == diagnostic(self@),
    {
        match self {
            PipelineError::Compile { stage: _, log } => String::from_str(
                "An error occurred compiling the shaders: ",
            ).concat(log.as_str()),
            PipelineError::Link { log } => String::from_str(
                "Unable to initialize the shader program: ",
            ).concat(log.as_str()),
            PipelineError::UnresolvedLocation { name } => String::from_str(
                "Unable to find in the shader program: ",
            ).concat(name.as_str()),
            PipelineError::Allocation => String::from_str("The graphics context returned no object"),
        }
    }
}

/// Every error has something to say, whatever the driver said.
pub proof fn diagnostic_is_never_empty(error: PipelineErrorView)
    ensures
        diagnostic(error).len() > 0,
{
    reveal_strlit("An error occurred compiling the shaders: ");
    reveal_strlit("Unable to initialize the shader program: ");
    reveal_strlit("Unable to find in the shader program: ");
    reveal_strlit("The graphics context returned no object");
}

} // verus!
