use scholarvault::scanner::find_first_doi;

#[test]
fn finds_a_plain_identifier() {
    let r = find_first_doi("see 10.1234/abcd.5678 for details");
    assert_eq!(r, Some("10.1234/abcd.5678".to_string()));
}

#[test]
fn only_the_first_match_is_reported() {
    let r = find_first_doi("10.1111/aaaa then 10.2222/bbbb");
    assert_eq!(r, Some("10.1111/aaaa".to_string()));
}

#[test]
fn no_match_without_the_prefix() {
    assert_eq!(find_first_doi("101234/abcd"), None);
    assert_eq!(find_first_doi("11.1234/abcd"), None);
    assert_eq!(find_first_doi(""), None);
}

#[test]
fn digit_run_must_have_four_to_nine_digits() {
    assert_eq!(find_first_doi("10.123/abcd"), None);
    assert_eq!(find_first_doi("10.123456789/abcd"), Some("10.123456789/abcd".to_string()));
    assert_eq!(find_first_doi("10.1234567890/abcd"), None);
}

#[test]
fn suffix_needs_at_least_one_body_character() {
    assert_eq!(find_first_doi("10.1234/"), None);
    assert_eq!(find_first_doi("10.1234/ then"), None);
    assert_eq!(find_first_doi("10.1234/x"), Some("10.1234/x".to_string()));
}

#[test]
fn match_extends_through_the_full_body_charset() {
    let r = find_first_doi("doi:10.1016/j.cell.2023.01.002, cited");
    assert_eq!(r, Some("10.1016/j.cell.2023.01.002".to_string()));
    let r = find_first_doi("(10.1000/a-b._;():/z) end");
    assert_eq!(r, Some("10.1000/a-b._;():/z)".to_string()));
}

#[test]
fn match_stops_at_characters_outside_the_charset() {
    let r = find_first_doi("10.1234/abc def");
    assert_eq!(r, Some("10.1234/abc".to_string()));
    let r = find_first_doi("10.1234/abc#frag");
    assert_eq!(r, Some("10.1234/abc".to_string()));
}

#[test]
fn a_failed_prefix_does_not_hide_a_later_match() {
    let r = find_first_doi("10.12/short but 10.5555/ok");
    assert_eq!(r, Some("10.5555/ok".to_string()));
}
