use scholarvault::registry::{registry_record, RegistryAuthor, RegistryDate, RegistryWork};

fn empty_work() -> RegistryWork {
    RegistryWork {
        title: None,
        author: None,
        published: None,
        container_title: None,
        doi: None,
        abstract_text: None,
        volume: None,
        issue: None,
        page: None,
        publisher: None,
        publication_type: None,
        url: None,
    }
}

#[test]
fn maps_first_title_and_container_entry() {
    let mut work = empty_work();
    work.title = Some(vec!["Paper X".to_string(), "Alt title".to_string()]);
    work.container_title = Some(vec!["Journal J".to_string(), "Abbrev".to_string()]);
    let rec = registry_record("10.1234/abcd.5678".to_string(), work);
    assert_eq!(rec.title, "Paper X");
    assert_eq!(rec.journal, Some("Journal J".to_string()));
}

#[test]
fn empty_title_list_gives_empty_title() {
    let mut work = empty_work();
    work.title = Some(vec![]);
    work.container_title = Some(vec![]);
    let rec = registry_record("10.1/xxxx".to_string(), work);
    assert_eq!(rec.title, "");
    assert_eq!(rec.journal, None);
}

#[test]
fn authors_join_given_and_family_in_order() {
    let mut work = empty_work();
    work.author = Some(vec![
        RegistryAuthor { given: Some("A".to_string()), family: Some("B".to_string()) },
        RegistryAuthor { given: None, family: Some("Family".to_string()) },
        RegistryAuthor { given: Some("Given".to_string()), family: None },
        RegistryAuthor { given: None, family: None },
    ]);
    let rec = registry_record("10.1/xxxx".to_string(), work);
    assert_eq!(
        rec.authors,
        Some(vec![
            "A B".to_string(),
            "Family".to_string(),
            "Given".to_string(),
            "".to_string(),
        ])
    );
}

#[test]
fn year_is_first_number_of_first_date_tuple() {
    let mut work = empty_work();
    work.published = Some(RegistryDate { date_parts: Some(vec![vec![2020, 6, 1], vec![2021]]) });
    let rec = registry_record("10.1/xxxx".to_string(), work);
    assert_eq!(rec.year, Some(2020));

    let mut work = empty_work();
    work.published = Some(RegistryDate { date_parts: Some(vec![]) });
    assert_eq!(registry_record("10.1/xxxx".to_string(), work).year, None);

    let mut work = empty_work();
    work.published = Some(RegistryDate { date_parts: Some(vec![vec![]]) });
    assert_eq!(registry_record("10.1/xxxx".to_string(), work).year, None);

    let mut work = empty_work();
    work.published = Some(RegistryDate { date_parts: None });
    assert_eq!(registry_record("10.1/xxxx".to_string(), work).year, None);
}

#[test]
fn doi_echoes_the_identifier_not_the_reply() {
    let mut work = empty_work();
    work.doi = Some("10.9999/reply-field".to_string());
    let rec = registry_record("10.1234/asked".to_string(), work);
    assert_eq!(rec.doi, Some("10.1234/asked".to_string()));
}

#[test]
fn passthrough_fields_and_absent_keywords() {
    let mut work = empty_work();
    work.volume = Some("12".to_string());
    work.issue = Some("3".to_string());
    work.page = Some("45-67".to_string());
    work.publisher = Some("Pub".to_string());
    work.publication_type = Some("journal-article".to_string());
    work.url = Some("https://doi.org/10.1/xxxx".to_string());
    work.abstract_text = Some("An abstract".to_string());
    let rec = registry_record("10.1/xxxx".to_string(), work);
    assert_eq!(rec.volume, Some("12".to_string()));
    assert_eq!(rec.issue, Some("3".to_string()));
    assert_eq!(rec.pages, Some("45-67".to_string()));
    assert_eq!(rec.publisher, Some("Pub".to_string()));
    assert_eq!(rec.publication_type, Some("journal-article".to_string()));
    assert_eq!(rec.url, Some("https://doi.org/10.1/xxxx".to_string()));
    assert_eq!(rec.abstract_text, Some("An abstract".to_string()));
    assert_eq!(rec.keywords, None);
    assert_eq!(rec.pdf_url, None);
}

#[test]
fn author_names_are_trimmed() {
    let mut work = empty_work();
    work.author = Some(vec![RegistryAuthor {
        given: Some("  Ada ".to_string()),
        family: Some(" Lovelace  ".to_string()),
    }]);
    let rec = registry_record("10.1/xxxx".to_string(), work);
    assert_eq!(rec.authors, Some(vec!["Ada   Lovelace".to_string()]));
}
