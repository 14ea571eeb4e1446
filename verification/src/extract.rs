use vstd::prelude::*;
use vstd::string::StrSliceExecFns;

verus! {

// Text extraction itself — parsing the uploaded bytes into plain text — is
// the run's first outside call: the application performs it and hands the
// outcome to `pipeline_start`, the way the registry and completion calls are
// handed in as events.  What the library owns is the bound: the excerpt the
// scanner and the completion extractor see is the first
// `EXCERPT_CHAR_LIMIT` characters of whatever text came back.

/// Character bound of the text excerpt handed to the scanner and to the
/// completion extractor.
pub const EXCERPT_CHAR_LIMIT: usize = 4000;

/// The bounded excerpt of an extracted text: the text itself when it has at
/// most `EXCERPT_CHAR_LIMIT` characters, its first `EXCERPT_CHAR_LIMIT`
/// characters otherwise.
pub open spec fn excerpt_of(text: Seq<char>) -> Seq<char> {
    if text.len() <= EXCERPT_CHAR_LIMIT {
        text
    } else {
        text.take(EXCERPT_CHAR_LIMIT as int)
    }
}

/// Truncates extracted text to the bounded excerpt.  Truncation is
/// character-boundary safe.
pub fn extract_excerpt(text: &str) -> (r: String)
    ensures
        r@ == excerpt_of(text@),
{
    let n = text.unicode_len();
    let cut = if n > EXCERPT_CHAR_LIMIT {
        EXCERPT_CHAR_LIMIT
    } else {
        n
    };
    let excerpt = text.substring_char(0, cut).to_owned();
    proof {
        assert(excerpt@ =~= excerpt_of(text@));
    }
    excerpt
}

} // verus!
