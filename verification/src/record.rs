use vstd::prelude::*;

verus! {

/// Canonical bibliographic record: the unit produced by every extraction path
/// and consumed by persistence.
///
/// A field counts as *missing* when it is the empty string for `title` and
/// `None` for every optional field; that exact test drives gap detection in
/// the reconciliation engine.
#[derive(Clone, Debug, PartialEq, Eq)]
pub struct CreateDocument {
    pub title: String,
    pub authors: Option<Vec<String>>,
    pub year: Option<i32>,
    pub publication_type: Option<String>,
    pub journal: Option<String>,
    pub volume: Option<String>,
    pub issue: Option<String>,
    pub pages: Option<String>,
    pub publisher: Option<String>,
    pub doi: Option<String>,
    pub url: Option<String>,
    pub abstract_text: Option<String>,
    pub keywords: Option<Vec<String>>,
    pub pdf_url: Option<String>,
}

/// A partial update of a stored document: a populated field replaces the
/// stored value, an absent one keeps it.
#[derive(Clone, Debug, PartialEq, Eq)]
pub struct UpdateDocument {
    pub title: Option<String>,
    pub authors: Option<Vec<String>>,
    pub year: Option<i32>,
    pub publication_type: Option<String>,
    pub journal: Option<String>,
    pub volume: Option<String>,
    pub issue: Option<String>,
    pub pages: Option<String>,
    pub publisher: Option<String>,
    pub doi: Option<String>,
    pub url: Option<String>,
    pub abstract_text: Option<String>,
    pub keywords: Option<Vec<String>>,
    pub pdf_url: Option<String>,
}

/// The record shape produced by the completion-only extraction path.
#[derive(Clone, Debug, PartialEq, Eq)]
pub struct ExtractedMetadata {
    pub title: Option<String>,
    pub authors: Option<Vec<String>>,
    pub year: Option<i32>,
    pub journal: Option<String>,
    pub doi: Option<String>,
    pub abstract_text: Option<String>,
}

/// The `title` field is missing exactly when it is the empty string.
pub open spec fn title_missing(r: CreateDocument) -> bool {
    r.title@.len() == 0
}

/// Every checked field is populated.  `doi` and `pdf_url` are never part of
/// the check: `doi` was just set by the lookup that produced the record, and
/// `pdf_url` is assigned by the caller after the pipeline finishes.
pub open spec fn record_complete(r: CreateDocument) -> bool {
    &&& !title_missing(r)
    &&& r.authors is Some
    &&& r.year is Some
    &&& r.journal is Some
    &&& r.publication_type is Some
    &&& r.volume is Some
    &&& r.issue is Some
    &&& r.pages is Some
    &&& r.publisher is Some
    &&& r.url is Some
    &&& r.abstract_text is Some
    &&& r.keywords is Some
}

/// Decides completeness of a record under the per-field emptiness test.
pub fn record_is_complete(r: &CreateDocument) -> (b: bool)
    ensures
        b == record_complete(*r),
{
    !r.title.as_str().is_empty() && r.authors.is_some() && r.year.is_some()
        && r.journal.is_some() && r.publication_type.is_some() && r.volume.is_some()
        && r.issue.is_some() && r.pages.is_some() && r.publisher.is_some() && r.url.is_some()
        && r.abstract_text.is_some() && r.keywords.is_some()
}

/// Registry-primary merge: a field of the completion record is taken only
/// where the registry record left that field missing.  `doi` and `pdf_url`
/// always keep the registry record's value.
pub open spec fn spec_fill_gaps(reg: CreateDocument, comp: CreateDocument) -> CreateDocument {
    CreateDocument {
        title: if reg.title@.len() == 0 { comp.title } else { reg.title },
        authors: if reg.authors is None { comp.authors } else { reg.authors },
        year: if reg.year is None { comp.year } else { reg.year },
        publication_type: if reg.publication_type is None { comp.publication_type } else { reg.publication_type },
        journal: if reg.journal is None { comp.journal } else { reg.journal },
        volume: if reg.volume is None { comp.volume } else { reg.volume },
        issue: if reg.issue is None { comp.issue } else { reg.issue },
        pages: if reg.pages is None { comp.pages } else { reg.pages },
        publisher: if reg.publisher is None { comp.publisher } else { reg.publisher },
        doi: reg.doi,
        url: if reg.url is None { comp.url } else { reg.url },
        abstract_text: if reg.abstract_text is None { comp.abstract_text } else { reg.abstract_text },
        keywords: if reg.keywords is None { comp.keywords } else { reg.keywords },
        pdf_url: reg.pdf_url,
    }
}

/// Copies into the registry record, field by field, exactly those fields the
/// registry left missing, taking each from the completion record.
pub fn fill_gaps(reg: CreateDocument, comp: CreateDocument) -> (r: CreateDocument)
    ensures
        r == spec_fill_gaps(reg, comp),
{
    CreateDocument {
        title: if reg.title.as_str().is_empty() { comp.title } else { reg.title },
        authors: if reg.authors.is_none() { comp.authors } else { reg.authors },
        year: if reg.year.is_none() { comp.year } else { reg.year },
        publication_type: if reg.publication_type.is_none() { comp.publication_type } else { reg.publication_type },
        journal: if reg.journal.is_none() { comp.journal } else { reg.journal },
        volume: if reg.volume.is_none() { comp.volume } else { reg.volume },
        issue: if reg.issue.is_none() { comp.issue } else { reg.issue },
        pages: if reg.pages.is_none() { comp.pages } else { reg.pages },
        publisher: if reg.publisher.is_none() { comp.publisher } else { reg.publisher },
        doi: reg.doi,
        url: if reg.url.is_none() { comp.url } else { reg.url },
        abstract_text: if reg.abstract_text.is_none() { comp.abstract_text } else { reg.abstract_text },
        keywords: if reg.keywords.is_none() { comp.keywords } else { reg.keywords },
        pdf_url: reg.pdf_url,
    }
}

/// Merge precedence: a field the registry populated keeps the registry's
/// value in the merged record, regardless of what the completion extractor
/// returned for it, and `doi` and `pdf_url` are never overwritten.
pub proof fn lemma_registry_precedence(reg: CreateDocument, comp: CreateDocument)
    ensures
        ({
            let m = spec_fill_gaps(reg, comp);
            &&& !title_missing(reg) ==> m.title == reg.title
            &&& reg.authors is Some ==> m.authors == reg.authors
            &&& reg.year is Some ==> m.year == reg.year
            &&& reg.publication_type is Some ==> m.publication_type == reg.publication_type
            &&& reg.journal is Some ==> m.journal == reg.journal
            &&& reg.volume is Some ==> m.volume == reg.volume
            &&& reg.issue is Some ==> m.issue == reg.issue
            &&& reg.pages is Some ==> m.pages == reg.pages
            &&& reg.publisher is Some ==> m.publisher == reg.publisher
            &&& m.doi == reg.doi
            &&& reg.url is Some ==> m.url == reg.url
            &&& reg.abstract_text is Some ==> m.abstract_text == reg.abstract_text
            &&& reg.keywords is Some ==> m.keywords == reg.keywords
            &&& m.pdf_url == reg.pdf_url
        }),
{
}

/// Gap-fill: a field the registry left missing takes, in the merged record,
/// exactly the completion extractor's value for that field, whether or not
/// that value is itself populated.
pub proof fn lemma_gap_fill(reg: CreateDocument, comp: CreateDocument)
    ensures
        ({
            let m = spec_fill_gaps(reg, comp);
            &&& title_missing(reg) ==> m.title == comp.title
            &&& reg.authors is None ==> m.authors == comp.authors
            &&& reg.year is None ==> m.year == comp.year
            &&& reg.publication_type is None ==> m.publication_type == comp.publication_type
            &&& reg.journal is None ==> m.journal == comp.journal
            &&& reg.volume is None ==> m.volume == comp.volume
            &&& reg.issue is None ==> m.issue == comp.issue
            &&& reg.pages is None ==> m.pages == comp.pages
            &&& reg.publisher is None ==> m.publisher == comp.publisher
            &&& reg.url is None ==> m.url == comp.url
            &&& reg.abstract_text is None ==> m.abstract_text == comp.abstract_text
            &&& reg.keywords is None ==> m.keywords == comp.keywords
        }),
{
}

/// The minimal record the upload path substitutes when the whole pipeline
/// fails: only the title is populated, from the uploaded file's name.
pub fn fallback_record(filename: String) -> (r: CreateDocument)
    ensures
        r.title == filename,
        r.authors is None,
        r.year is None,
        r.publication_type is None,
        r.journal is None,
        r.volume is None,
        r.issue is None,
        r.pages is None,
        r.publisher is None,
        r.doi is None,
        r.url is None,
        r.abstract_text is None,
        r.keywords is None,
        r.pdf_url is None,
{
    CreateDocument {
        title: filename,
        authors: None,
        year: None,
        publication_type: None,
        journal: None,
        volume: None,
        issue: None,
        pages: None,
        publisher: None,
        doi: None,
        url: None,
        abstract_text: None,
        keywords: None,
        pdf_url: None,
    }
}

/// Stamps the stored content path onto a finished record; every other field
/// is left untouched.  The upload path applies this whatever the pipeline's
/// outcome was.
pub fn with_pdf_url(rec: CreateDocument, path: String) -> (r: CreateDocument)
    ensures
        r == (CreateDocument { pdf_url: Some(path), ..rec }),
{
    CreateDocument { pdf_url: Some(path), ..rec }
}

} // verus!
