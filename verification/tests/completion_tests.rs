use scholarvault::completion::{completion_prompt, PROMPT_HEAD, PROMPT_TAIL};

#[test]
fn prompt_is_the_fixed_template_around_the_excerpt() {
    let excerpt = "An excerpt of the paper text.";
    let prompt = completion_prompt(excerpt);
    assert_eq!(prompt, format!("{}{}{}", PROMPT_HEAD, excerpt, PROMPT_TAIL));
}

#[test]
fn prompt_instructs_strict_json_with_the_full_field_set() {
    let prompt = completion_prompt("text");
    assert!(prompt.starts_with(
        "Extract the following information from this academic paper text. \
         Return ONLY valid JSON with no additional text or markdown formatting."
    ));
    assert!(prompt.contains("Paper text:\ntext\n"));
    for field in [
        "\"title\"",
        "\"authors\"",
        "\"year\"",
        "\"publication_type\"",
        "\"journal\"",
        "\"volume\"",
        "\"issue\"",
        "\"pages\"",
        "\"publisher\"",
        "\"doi\"",
        "\"url\"",
        "\"abstract_text\"",
        "\"keywords\"",
    ] {
        assert!(prompt.contains(field), "missing {}", field);
    }
    assert!(prompt.ends_with("Do not include any text before or after the JSON."));
}

#[test]
fn prompt_keeps_the_excerpt_verbatim() {
    let excerpt = "line one\nline two with 10.1234/abcd.5678";
    let prompt = completion_prompt(excerpt);
    assert!(prompt.contains(excerpt));
}
