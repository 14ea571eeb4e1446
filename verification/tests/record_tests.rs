use scholarvault::record::{
    fallback_record, fill_gaps, record_is_complete, with_pdf_url, CreateDocument,
};

fn empty_record() -> CreateDocument {
    CreateDocument {
        title: String::new(),
        authors: None,
        year: None,
        publication_type: None,
        journal: None,
        volume: None,
        issue: None,
        pages: None,
        publisher: None,
        doi: None,
        url: None,
        abstract_text: None,
        keywords: None,
        pdf_url: None,
    }
}

#[test]
fn merge_keeps_populated_registry_fields() {
    let mut reg = empty_record();
    reg.title = "Registry title".to_string();
    reg.year = Some(2020);
    reg.journal = Some("Registry journal".to_string());
    reg.doi = Some("10.1234/abcd.5678".to_string());

    let mut comp = empty_record();
    comp.title = "Completion title".to_string();
    comp.year = Some(1999);
    comp.journal = Some("Completion journal".to_string());
    comp.doi = Some("10.9999/other".to_string());

    let merged = fill_gaps(reg, comp);
    assert_eq!(merged.title, "Registry title");
    assert_eq!(merged.year, Some(2020));
    assert_eq!(merged.journal, Some("Registry journal".to_string()));
    // the identifier that produced the registry hit is never overwritten
    assert_eq!(merged.doi, Some("10.1234/abcd.5678".to_string()));
}

#[test]
fn merge_fills_missing_registry_fields() {
    let mut reg = empty_record();
    reg.doi = Some("10.1234/abcd.5678".to_string());

    let mut comp = empty_record();
    comp.title = "Completion title".to_string();
    comp.authors = Some(vec!["A B".to_string(), "C D".to_string()]);
    comp.abstract_text = Some("Some abstract".to_string());
    comp.keywords = Some(vec!["k1".to_string()]);

    let merged = fill_gaps(reg, comp);
    assert_eq!(merged.title, "Completion title");
    assert_eq!(
        merged.authors,
        Some(vec!["A B".to_string(), "C D".to_string()])
    );
    assert_eq!(merged.abstract_text, Some("Some abstract".to_string()));
    assert_eq!(merged.keywords, Some(vec!["k1".to_string()]));
    assert_eq!(merged.doi, Some("10.1234/abcd.5678".to_string()));
}

#[test]
fn merge_never_takes_completion_doi_or_pdf_url() {
    let reg = empty_record();
    let mut comp = empty_record();
    comp.doi = Some("10.9999/guess".to_string());
    comp.pdf_url = Some("uploads/evil.pdf".to_string());

    let merged = fill_gaps(reg, comp);
    assert_eq!(merged.doi, None);
    assert_eq!(merged.pdf_url, None);
}

#[test]
fn completeness_checks_title_emptiness_and_option_fields() {
    let mut rec = empty_record();
    assert!(!record_is_complete(&rec));
    rec.title = "T".to_string();
    rec.authors = Some(vec![]);
    rec.year = Some(2024);
    rec.journal = Some(String::new());
    rec.publication_type = Some("journal-article".to_string());
    rec.volume = Some("1".to_string());
    rec.issue = Some("2".to_string());
    rec.pages = Some("3-4".to_string());
    rec.publisher = Some("P".to_string());
    rec.url = Some("https://example.org".to_string());
    rec.abstract_text = Some("A".to_string());
    assert!(!record_is_complete(&rec)); // keywords still missing
    rec.keywords = Some(vec!["k".to_string()]);
    assert!(record_is_complete(&rec));
    // doi and pdf_url play no part in the check
    assert_eq!(rec.doi, None);
    assert_eq!(rec.pdf_url, None);
}

#[test]
fn fallback_record_has_only_the_filename_title() {
    let rec = fallback_record("paper.pdf".to_string());
    assert_eq!(rec.title, "paper.pdf");
    assert_eq!(rec.authors, None);
    assert_eq!(rec.year, None);
    assert_eq!(rec.doi, None);
    assert_eq!(rec.keywords, None);
    assert_eq!(rec.pdf_url, None);
}

#[test]
fn with_pdf_url_touches_only_the_path() {
    let mut rec = empty_record();
    rec.title = "T".to_string();
    let rec = with_pdf_url(rec, "uploads/x.pdf".to_string());
    assert_eq!(rec.title, "T");
    assert_eq!(rec.pdf_url, Some("uploads/x.pdf".to_string()));
}
