use vstd::prelude::*;

verus! {

// The completion-based extractor sends the service a single user-role
// message: a fixed instruction template with the excerpt embedded.  Building
// that message is pure and lives here; the request itself, with temperature
// zero and the bearer credential, is sent by the application.

/// Instruction text placed before the excerpt.
pub const PROMPT_HEAD: &'static str = "Extract the following information from this academic paper text. Return ONLY valid JSON with no additional text or markdown formatting.\n\nPaper text:\n";

/// Output-format instruction placed after the excerpt.
pub const PROMPT_TAIL: &'static str = "\n\nReturn JSON in this exact format:\n{\n  \"title\": \"paper title\",\n  \"authors\": [\"Author One\", \"Author Two\"],\n  \"year\": 2024,\n  \"publication_type\": \"journal-article\",\n  \"journal\": \"Journal Name\",\n  \"volume\": \"12\",\n  \"issue\": \"3\",\n  \"pages\": \"45-67\",\n  \"publisher\": \"Publisher Name\",\n  \"doi\": \"10.xxxx/xxxxx\",\n  \"url\": \"https://doi.org/10.xxxx/xxxxx\",\n  \"abstract_text\": \"abstract text\",\n  \"keywords\": [\"keyword1\", \"keyword2\", \"keyword3\"]\n}\n\nIf you cannot find a field, use null. The title field is required (use empty string if unknown). Do not include any text before or after the JSON.";

/// The single message sent to the completion service: the fixed template
/// with the excerpt embedded, nothing more.
pub fn completion_prompt(excerpt: &str) -> (r: String)
    ensures
        r@ == PROMPT_HEAD@ + excerpt@ + PROMPT_TAIL@,
{
    let mut prompt = String::from_str(PROMPT_HEAD);
    prompt.append(excerpt);
    prompt.append(PROMPT_TAIL);
    prompt
}

} // verus!
