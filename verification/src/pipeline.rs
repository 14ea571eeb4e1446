use vstd::prelude::*;
use crate::errors::MetadataError;
use crate::extract::{extract_excerpt, excerpt_of};
use crate::record::{CreateDocument, record_complete, record_is_complete, spec_fill_gaps, fill_gaps};
use crate::scanner::{find_first_doi, first_doi};

verus! {

// The reconciliation engine drives one enrichment run.  The engine itself
// makes no outside call: the caller parses the uploaded bytes into text and
// hands the outcome to `pipeline_start`; after that each non-final state
// names the single network call the caller must perform next, and
// `pipeline_step` consumes the call's outcome.  A run is
//
//     pipeline_start -> { AwaitLookup | AwaitFullCompletion } -> ... -> Finished
//
// and every decision the run takes — which identifier is looked up, when the
// completion extractor is consulted, and how partial records merge — is fixed
// by the contracts below.

/// The engine's state between outside calls.
#[derive(Debug, PartialEq, Eq)]
pub enum EngineState {
    /// An identifier was found: the caller must look it up in the registry.
    AwaitLookup { excerpt: String, doi: String },
    /// No registry record is available: the caller must run the completion
    /// extractor on the excerpt, and its result decides the run.
    AwaitFullCompletion { excerpt: String },
    /// The registry answered with gaps: the caller must run the completion
    /// extractor on the original excerpt to fill them.
    AwaitGapFill { excerpt: String, registry: CreateDocument },
    /// The run is over.
    Finished { outcome: Result<CreateDocument, MetadataError> },
}

/// The outcome of the outside call a state demanded.
#[derive(Clone, Debug, PartialEq, Eq)]
pub enum EngineEvent {
    LookupSucceeded { record: CreateDocument },
    LookupFailed,
    CompletionSucceeded { record: CreateDocument },
    CompletionFailed { error: MetadataError },
}

/// The event answers the call that the state demanded.
pub open spec fn event_fits(state: EngineState, event: EngineEvent) -> bool {
    match state {
        EngineState::AwaitLookup { .. } => event is LookupSucceeded || event is LookupFailed,
        EngineState::AwaitFullCompletion { .. } => event is CompletionSucceeded
            || event is CompletionFailed,
        EngineState::AwaitGapFill { .. } => event is CompletionSucceeded
            || event is CompletionFailed,
        EngineState::Finished { .. } => false,
    }
}

/// The engine's transition relation.  For every state and fitting event it
/// determines the successor exactly:
/// - a complete registry record finishes the run as-is; a gappy one moves to
///   gap-filling with the registry record adopted;
/// - a failed lookup discards the identifier path and falls back to full
///   completion on the same excerpt;
/// - on the full-completion path the completion result (or its error) is the
///   run's outcome, verbatim;
/// - on the gap-fill path a completion result is merged registry-first, and a
///   completion failure returns the gappy registry record unchanged.
pub open spec fn step_rel(state: EngineState, event: EngineEvent, next: EngineState) -> bool {
    match (state, event) {
        (
            EngineState::AwaitLookup { excerpt, .. },
            EngineEvent::LookupSucceeded { record },
        ) => if record_complete(record) {
            next == EngineState::Finished { outcome: Ok(record) }
        } else {
            next == EngineState::AwaitGapFill { excerpt, registry: record }
        },
        (EngineState::AwaitLookup { excerpt, .. }, EngineEvent::LookupFailed) => next
            == EngineState::AwaitFullCompletion { excerpt },
        (
            EngineState::AwaitFullCompletion { .. },
            EngineEvent::CompletionSucceeded { record },
        ) => next == EngineState::Finished { outcome: Ok(record) },
        (
            EngineState::AwaitFullCompletion { .. },
            EngineEvent::CompletionFailed { error },
        ) => next == EngineState::Finished { outcome: Err(error) },
        (
            EngineState::AwaitGapFill { registry, .. },
            EngineEvent::CompletionSucceeded { record },
        ) => next == EngineState::Finished { outcome: Ok(spec_fill_gaps(registry, record)) },
        (
            EngineState::AwaitGapFill { registry, .. },
            EngineEvent::CompletionFailed { .. },
        ) => next == EngineState::Finished { outcome: Ok(registry) },
        _ => false,
    }
}

/// Starts a run on the outcome of text extraction, which the caller performs
/// on the uploaded bytes before the run: `Some` text when the bytes parsed
/// as a document, `None` when they did not.  Fails with the extraction error
/// — and issues no state that would demand a network call — exactly when
/// extraction failed; no downstream step is possible without text.
/// Otherwise the text is bounded to the excerpt, and the first state demands
/// a registry lookup of the excerpt's first identifier match when one
/// exists, a full completion run when none does.
pub fn pipeline_start(extracted: Option<String>) -> (r: Result<EngineState, MetadataError>)
    ensures
        r is Ok <==> extracted is Some,
        r matches Err(e) ==> e == MetadataError::Extraction,
        r matches Ok(state) ==> {
            let ex = excerpt_of(extracted->0@);
            match first_doi(ex) {
                Some(d) => state matches EngineState::AwaitLookup { excerpt, doi }
                    && excerpt@ == ex && doi@ == d,
                None => state matches EngineState::AwaitFullCompletion { excerpt }
                    && excerpt@ == ex,
            }
        },
{
    match extracted {
        Some(text) => {
            let excerpt = extract_excerpt(text.as_str());
            match find_first_doi(excerpt.as_str()) {
                Some(d) => Ok(EngineState::AwaitLookup { excerpt, doi: d }),
                None => Ok(EngineState::AwaitFullCompletion { excerpt }),
            }
        },
        None => Err(MetadataError::Extraction),
    }
}

/// Advances the engine by one outside-call outcome, following `step_rel`
/// exactly.
pub fn pipeline_step(state: EngineState, event: EngineEvent) -> (next: EngineState)
    requires
        event_fits(state, event),
    ensures
        step_rel(state, event, next),
{
    match (state, event) {
        (EngineState::AwaitLookup { excerpt, .. }, EngineEvent::LookupSucceeded { record }) => {
            if record_is_complete(&record) {
                EngineState::Finished { outcome: Ok(record) }
            } else {
                EngineState::AwaitGapFill { excerpt, registry: record }
            }
        },
        (EngineState::AwaitLookup { excerpt, .. }, EngineEvent::LookupFailed) => {
            EngineState::AwaitFullCompletion { excerpt }
        },
        (EngineState::AwaitFullCompletion { .. }, EngineEvent::CompletionSucceeded { record }) => {
            EngineState::Finished { outcome: Ok(record) }
        },
        (EngineState::AwaitFullCompletion { .. }, EngineEvent::CompletionFailed { error }) => {
            EngineState::Finished { outcome: Err(error) }
        },
        (EngineState::AwaitGapFill { registry, .. }, EngineEvent::CompletionSucceeded { record }) => {
            EngineState::Finished { outcome: Ok(fill_gaps(registry, record)) }
        },
        (EngineState::AwaitGapFill { registry, .. }, EngineEvent::CompletionFailed { .. }) => {
            EngineState::Finished { outcome: Ok(registry) }
        },
        _ => vstd::pervasive::unreached(),
    }
}

/// No transition ever demands a registry lookup: once a run has started, the
/// only outside call it can introduce is a completion request.  Together with
/// `pipeline_start`'s contract this shows that an excerpt without an
/// identifier match leads to a run that never consults the registry.
pub proof fn lemma_step_never_demands_lookup(
    state: EngineState,
    event: EngineEvent,
    next: EngineState,
)
    requires
        step_rel(state, event, next),
    ensures
        !(next is AwaitLookup),
{
}

/// A failed registry lookup discards the identifier path entirely: the run
/// falls back to full completion on the same excerpt, and the completion
/// extractor's result is then the run's outcome verbatim — no registry field
/// is ever merged in.
pub proof fn lemma_lookup_failure_falls_back(
    s0: EngineState,
    s1: EngineState,
    s2: EngineState,
    completion: CreateDocument,
)
    requires
        s0 is AwaitLookup,
        step_rel(s0, EngineEvent::LookupFailed, s1),
        step_rel(s1, EngineEvent::CompletionSucceeded { record: completion }, s2),
    ensures
        s1 matches EngineState::AwaitFullCompletion { excerpt } && excerpt == s0->AwaitLookup_excerpt,
        s2 == (EngineState::Finished { outcome: Ok::<CreateDocument, MetadataError>(completion) }),
{
}

/// A completion failure after a gappy registry success does not fail the run:
/// the outcome is the gappy registry record, unchanged.
pub proof fn lemma_gap_fill_failure_keeps_registry(
    s0: EngineState,
    s1: EngineState,
    error: MetadataError,
)
    requires
        s0 is AwaitGapFill,
        step_rel(s0, EngineEvent::CompletionFailed { error }, s1),
    ensures
        s1 == (EngineState::Finished {
            outcome: Ok::<CreateDocument, MetadataError>(s0->AwaitGapFill_registry),
        }),
{
}

} // verus!
