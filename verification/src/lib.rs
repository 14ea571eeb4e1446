//! Metadata-enrichment core of a reference-management backend.
//!
//! Given the text recovered from an uploaded paper, the library bounds it to
//! an excerpt, scans it for a DOI, and reconciles bibliographic metadata
//! from a registry lookup and a completion-based extractor under a strict
//! registry-first precedence policy.  The outside calls — parsing the bytes
//! into text, the registry lookup, the completion request — are made by the
//! surrounding application; this crate holds every decision the pipeline
//! takes and the exact merge semantics.

pub mod accounts;
pub mod completion;
pub mod errors;
pub mod extract;
pub mod pipeline;
pub mod record;
pub mod registry;
pub mod scanner;
pub mod upload;

pub use errors::MetadataError;
pub use record::CreateDocument;
