//! What can go wrong in the import pipeline.
use vstd::prelude::*;

verus! {

/// The failures of the pipeline. Those that come from an outside tool or from
/// the file system carry its diagnostic text.
#[derive(Debug, PartialEq, Eq)]
pub enum ImportError {
    PathNotFound(String),
    MetadataError(String),
    IoError(String),
    InvalidFileName,
    CacheDirUnavailable(String),
    ExtractionFailed(String),
    ToolInvocationFailed(String),
    DateNotFound,
    DestinationUnavailable(String),
    ConversionFailed(String),
    CopyFailed(String),
    DeleteFailed(String),
}

/// How a run of an outside tool ended.
#[derive(Debug, PartialEq, Eq)]
pub enum ToolOutcome {
    /// The process could not be started; the text says why.
    NotStarted(String),
    /// The process ran; `success` is true for exit code zero.
    Exited { success: bool, stdout: String, stderr: String },
}

} // verus!
