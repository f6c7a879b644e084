//! Errors of the classification pipeline.

use vstd::prelude::*;

verus! {

/// The stage of the pipeline at which a run failed.
#[derive(Clone, Copy, Debug, PartialEq, Eq, Structural)]
pub enum ErrorKind {
    /// A local path is missing or cannot be used.
    Configuration,
    /// A remote artifact could not be fetched.
    Retrieval,
    /// The merge step could not be run, broke off, or left no model file.
    ResourceGeneration,
    /// The tokenizer's files are malformed.
    Tokenization,
    /// The forward pass failed or returned something unusable.
    ModelInference,
}

/// What the model library reports when loading or running a model fails.
#[derive(Clone, Copy, Debug, PartialEq, Eq, Structural)]
pub enum ModelFailure {
    /// A file could not be read.
    Io,
    /// A remote file could not be downloaded.
    Download,
    /// The tokenizer could not be set up or used.
    Tokenizer,
    /// The configuration does not fit the model.
    InvalidConfiguration,
    /// The tensor runtime failed.
    Tensor,
    /// A value was out of its range.
    Value,
    /// The model cannot do what was asked of it.
    Unsupported,
}

/// The stage of the pipeline that a failure of the model library belongs to:
/// files that cannot be read and settings that do not fit are faults of the
/// configuration, the rest follows the part that failed.
pub open spec fn kind_of(failure: ModelFailure) -> ErrorKind {
    match failure {
        ModelFailure::Io => ErrorKind::Configuration,
        ModelFailure::InvalidConfiguration => ErrorKind::Configuration,
        ModelFailure::Download => ErrorKind::Retrieval,
        ModelFailure::Tokenizer => ErrorKind::Tokenization,
        ModelFailure::Tensor => ErrorKind::ModelInference,
        ModelFailure::Value => ErrorKind::ModelInference,
        ModelFailure::Unsupported => ErrorKind::ModelInference,
    }
}

/// A failure, with the message shown to the user.
#[derive(Clone, Debug, PartialEq, Eq)]
pub struct PipelineError {
    pub kind: ErrorKind,
    pub message: String,
}

impl View for PipelineError {
    type V = (ErrorKind, Seq<char>);

    open spec fn view(&self) -> (ErrorKind, Seq<char>) {
        (self.kind, self.message@)
    }
}

impl PipelineError {
    /// An error of the given kind with the given message.
    pub fn new(kind: ErrorKind, message: String) -> (e: PipelineError)
        ensures
            e@ == (kind, message@),
    {
        PipelineError { kind, message }
    }

    /// The error for a failure of the model library, under the library's
    /// own message.
    pub fn from_model(failure: ModelFailure, message: String) -> (e: PipelineError)
        ensures
            e@ == (kind_of(failure), message@),
    {
        let kind = match failure {
            ModelFailure::Io | ModelFailure::InvalidConfiguration => ErrorKind::Configuration,
            ModelFailure::Download => ErrorKind::Retrieval,
            ModelFailure::Tokenizer => ErrorKind::Tokenization,
            ModelFailure::Tensor | ModelFailure::Value | ModelFailure::Unsupported => {
                ErrorKind::ModelInference
            },
        };
        PipelineError { kind, message }
    }
}

} // verus!
