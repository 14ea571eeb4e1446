use vstd::prelude::*;
use vstd::string::StrSliceExecFns;

verus! {

// The identifier scanner looks for the first substring of the excerpt shaped
//
//     "10." , four to nine decimal digits , "/" , one or more body characters
//
// where a body character is one of `- . _ ; ( ) / :`, an ASCII letter or a
// decimal digit.  Both runs are maximal: the digit run is the full run of
// digits after "10." (a longer or shorter run followed by '/' cannot match),
// and the body run extends as far as body characters continue.

pub open spec fn is_digit_char(c: char) -> bool {
    48 <= c as u32 && c as u32 <= 57
}

pub open spec fn is_doi_body_char(c: char) -> bool {
    ||| c == '-'
    ||| c == '.'
    ||| c == '_'
    ||| c == ';'
    ||| c == '('
    ||| c == ')'
    ||| c == '/'
    ||| c == ':'
    ||| (65 <= c as u32 && c as u32 <= 90)
    ||| (97 <= c as u32 && c as u32 <= 122)
    ||| is_digit_char(c)
}

/// Length of the maximal run of decimal digits starting at `i`.
pub open spec fn digit_run(s: Seq<char>, i: int) -> int
    decreases s.len() - i,
{
    if i < 0 || i >= s.len() || !is_digit_char(s[i]) {
        0
    } else {
        1 + digit_run(s, i + 1)
    }
}

/// Length of the maximal run of body characters starting at `i`.
pub open spec fn body_run(s: Seq<char>, i: int) -> int
    decreases s.len() - i,
{
    if i < 0 || i >= s.len() || !is_doi_body_char(s[i]) {
        0
    } else {
        1 + body_run(s, i + 1)
    }
}

/// An identifier match starts at position `i` of `s`.
pub open spec fn doi_match_at(s: Seq<char>, i: int) -> bool {
    &&& 0 <= i
    &&& i + 3 <= s.len()
    &&& s[i] == '1'
    &&& s[i + 1] == '0'
    &&& s[i + 2] == '.'
    &&& 4 <= digit_run(s, i + 3) <= 9
    &&& i + 3 + digit_run(s, i + 3) < s.len()
    &&& s[i + 3 + digit_run(s, i + 3)] == '/'
    &&& i + 4 + digit_run(s, i + 3) < s.len()
    &&& is_doi_body_char(s[i + 4 + digit_run(s, i + 3)])
}

/// One-past-the-end position of the match starting at `i`.
pub open spec fn doi_match_end(s: Seq<char>, i: int) -> int {
    let digits = digit_run(s, i + 3);
    i + 4 + digits + body_run(s, i + 4 + digits)
}

/// Start of the first match at or after position `i`, if any.
pub open spec fn first_doi_start_from(s: Seq<char>, i: int) -> Option<int>
    decreases s.len() - i,
{
    if i < 0 || i >= s.len() {
        None
    } else if doi_match_at(s, i) {
        Some(i)
    } else {
        first_doi_start_from(s, i + 1)
    }
}

/// The first identifier in `s`, in scan order, or `None` when no substring
/// of `s` matches the pattern.
pub open spec fn first_doi(s: Seq<char>) -> Option<Seq<char>> {
    match first_doi_start_from(s, 0) {
        Some(i) => Some(s.subrange(i, doi_match_end(s, i))),
        None => None,
    }
}

/// The start that `first_doi_start_from` reports is a match, and no earlier
/// position at or after `i` is one.
pub proof fn lemma_first_start_is_first(s: Seq<char>, i: int, j: int)
    requires
        0 <= i,
        first_doi_start_from(s, i) == Some(j),
    ensures
        i <= j < s.len(),
        doi_match_at(s, j),
        forall|k: int| i <= k < j ==> !doi_match_at(s, k),
    decreases s.len() - i,
{
    if i < s.len() && !doi_match_at(s, i) {
        lemma_first_start_is_first(s, i + 1, j);
    }
}

/// When `first_doi_start_from` reports no match, no position at or after `i`
/// is one.
pub proof fn lemma_no_start_no_match(s: Seq<char>, i: int)
    requires
        0 <= i,
        first_doi_start_from(s, i) is None,
    ensures
        forall|k: int| i <= k ==> !doi_match_at(s, k),
    decreases s.len() - i,
{
    if i < s.len() {
        lemma_no_start_no_match(s, i + 1);
    }
}

/// The identifier that `first_doi` reports is the first in scan order: a
/// match starts where `first_doi_start_from` points, no earlier position of
/// the excerpt starts one, and the reported identifier is exactly that
/// match's extent.
pub proof fn lemma_first_doi_is_first(s: Seq<char>, i: int)
    requires
        first_doi_start_from(s, 0) == Some(i),
    ensures
        doi_match_at(s, i),
        forall|k: int| 0 <= k < i ==> !doi_match_at(s, k),
        first_doi(s) == Some(s.subrange(i, doi_match_end(s, i))),
{
    lemma_first_start_is_first(s, 0, i);
}

/// When `first_doi` reports no identifier, no position of the excerpt starts
/// a match.
pub proof fn lemma_no_doi_no_match(s: Seq<char>)
    requires
        first_doi(s) is None,
    ensures
        forall|k: int| !doi_match_at(s, k),
{
    lemma_no_start_no_match(s, 0);
}

fn is_digit_exec(c: char) -> (b: bool)
    ensures
        b == is_digit_char(c),
{
    let u = c as u32;
    48 <= u && u <= 57
}

fn is_doi_body_exec(c: char) -> (b: bool)
    ensures
        b == is_doi_body_char(c),
{
    let u = c as u32;
    c == '-' || c == '.' || c == '_' || c == ';' || c == '(' || c == ')' || c == '/' || c == ':'
        || (65 <= u && u <= 90) || (97 <= u && u <= 122) || (48 <= u && u <= 57)
}

fn chars_of_str(s: &str) -> (r: Vec<char>)
    ensures
        r@ == s@,
{
    let n = s.unicode_len();
    let mut v: Vec<char> = Vec::new();
    let mut i: usize = 0;
    while i < n
        invariant
            i <= n,
            n == s@.len(),
            v@ == s@.take(i as int),
        decreases n - i,
    {
        let c = s.get_char(i);
        v.push(c);
        proof {
            assert(v@ =~= s@.take(i + 1));
        }
        i += 1;
    }
    proof {
        assert(v@ =~= s@);
    }
    v
}

/// Decides whether a match starts at `i`; on success returns its
/// one-past-the-end position.
fn doi_match_len_at(chars: &Vec<char>, i: usize) -> (r: Option<usize>)
    requires
        i < chars@.len(),
    ensures
        match r {
            Some(end) => {
                &&& doi_match_at(chars@, i as int)
                &&& end == doi_match_end(chars@, i as int)
                &&& i < end <= chars@.len()
            },
            None => !doi_match_at(chars@, i as int),
        },
{
    let n = chars.len();
    if !(chars[i] == '1' && i + 1 < n && chars[i + 1] == '0' && i + 2 < n && chars[i + 2] == '.') {
        return None;
    }
    let start = i + 3;
    let mut j = start;
    while j < n && is_digit_exec(chars[j])
        invariant
            start <= j <= n,
            n == chars@.len(),
            start == i + 3,
            digit_run(chars@, start as int) == j - start + digit_run(chars@, j as int),
        decreases n - j,
    {
        j += 1;
    }
    proof {
        assert(digit_run(chars@, j as int) == 0);
    }
    let run = j - start;
    if run < 4 || run > 9 {
        return None;
    }
    if j >= n || chars[j] != '/' {
        return None;
    }
    let bstart = j + 1;
    if bstart >= n || !is_doi_body_exec(chars[bstart]) {
        return None;
    }
    let mut k = bstart;
    while k < n && is_doi_body_exec(chars[k])
        invariant
            bstart <= k <= n,
            n == chars@.len(),
            body_run(chars@, bstart as int) == k - bstart + body_run(chars@, k as int),
        decreases n - k,
    {
        k += 1;
    }
    proof {
        assert(body_run(chars@, k as int) == 0);
    }
    Some(k)
}

/// Returns the first substring of the excerpt matching the identifier
/// pattern, in scan order, or `None` when the excerpt contains no match.
/// Deterministic and pure: later matches are never considered.
pub fn find_first_doi(excerpt: &str) -> (r: Option<String>)
    ensures
        r is Some <==> first_doi(excerpt@) is Some,
        r matches Some(m) ==> m@ == first_doi(excerpt@)->0,
{
    let chars = chars_of_str(excerpt);
    let n = chars.len();
    let mut i: usize = 0;
    while i < n
        invariant
            i <= n,
            n == chars@.len(),
            chars@ == excerpt@,
            first_doi_start_from(excerpt@, 0) == first_doi_start_from(excerpt@, i as int),
        decreases n - i,
    {
        match doi_match_len_at(&chars, i) {
            Some(end) => {
                let m = excerpt.substring_char(i, end);
                return Some(m.to_owned());
            },
            None => {
                i += 1;
            },
        }
    }
    None
}

} // verus!
