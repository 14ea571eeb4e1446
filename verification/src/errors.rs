use vstd::prelude::*;

verus! {

/// Failure taxonomy of the enrichment pipeline.
///
/// `Extraction` aborts the whole pipeline (no text, no fallback).
/// `Lookup` is always absorbed internally by falling back to the completion
/// extractor.  `Configuration`, `Completion` and `Parse` describe the
/// completion path; they surface only when no registry record exists to fall
/// back on.
#[derive(Clone, Copy, Debug, PartialEq, Eq, Structural)]
pub enum MetadataError {
    /// The input bytes are not a parseable document.
    Extraction,
    /// The registry was unreachable, answered with a non-success status, or
    /// returned an unexpected shape.
    Lookup,
    /// The completion-service credential is not configured.
    Configuration,
    /// The completion request itself failed.
    Completion,
    /// The completion reply was not a well-formed record.
    Parse,
}

impl MetadataError {
    /// A short human-readable description, for logs and HTTP error bodies.
    pub fn describe(&self) -> (r: String)
        ensures
            *self is Extraction ==> r@ == "failed to extract text from the document"@,
            *self is Lookup ==> r@ == "registry lookup failed"@,
            *self is Configuration ==> r@ == "completion service credential is not set"@,
            *self is Completion ==> r@ == "completion request failed"@,
            *self is Parse ==> r@ == "failed to parse the completion reply"@,
    {
        match self {
            MetadataError::Extraction => String::from_str("failed to extract text from the document"),
            MetadataError::Lookup => String::from_str("registry lookup failed"),
            MetadataError::Configuration => String::from_str("completion service credential is not set"),
            MetadataError::Completion => String::from_str("completion request failed"),
            MetadataError::Parse => String::from_str("failed to parse the completion reply"),
        }
    }
}

} // verus!
