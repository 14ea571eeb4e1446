use vstd::prelude::*;
use vstd::string::StrSliceExecFns;
use crate::record::CreateDocument;

verus! {

// The registry answers a lookup with a work description; the application
// parses the wire reply into `RegistryWork` and the mapping below folds it
// into the canonical record shape.  The mapping is a pure function of the
// work description and of the identifier that was looked up.

/// One author entry of a registry reply.
#[derive(Clone, Debug, PartialEq, Eq)]
pub struct RegistryAuthor {
    pub given: Option<String>,
    pub family: Option<String>,
}

/// Publication date of a registry reply: outer list of date tuples, each a
/// year-first list of numbers.
#[derive(Clone, Debug, PartialEq, Eq)]
pub struct RegistryDate {
    pub date_parts: Option<Vec<Vec<i32>>>,
}

/// The fields of a registry reply that the mapping reads.
#[derive(Clone, Debug, PartialEq, Eq)]
pub struct RegistryWork {
    pub title: Option<Vec<String>>,
    pub author: Option<Vec<RegistryAuthor>>,
    pub published: Option<RegistryDate>,
    pub container_title: Option<Vec<String>>,
    /// Present on the wire, but the mapping never reads it: the canonical
    /// record echoes the identifier that was looked up instead.
    pub doi: Option<String>,
    pub abstract_text: Option<String>,
    pub volume: Option<String>,
    pub issue: Option<String>,
    pub page: Option<String>,
    pub publisher: Option<String>,
    pub publication_type: Option<String>,
    pub url: Option<String>,
}

/// Characters with the Unicode `White_Space` property, the set the name
/// join strips at either end.
pub open spec fn is_space_char(c: char) -> bool {
    ||| (9 <= c as u32 && c as u32 <= 13)
    ||| c as u32 == 32
    ||| c as u32 == 0x85
    ||| c as u32 == 0xA0
    ||| c as u32 == 0x1680
    ||| (0x2000 <= c as u32 && c as u32 <= 0x200A)
    ||| c as u32 == 0x2028
    ||| c as u32 == 0x2029
    ||| c as u32 == 0x202F
    ||| c as u32 == 0x205F
    ||| c as u32 == 0x3000
}

pub open spec fn trim_trailing(s: Seq<char>) -> Seq<char>
    decreases s.len(),
{
    if s.len() > 0 && is_space_char(s[s.len() - 1]) {
        trim_trailing(s.take(s.len() - 1))
    } else {
        s
    }
}

/// `s` with every leading and trailing space character removed.
pub open spec fn trim_spaces(s: Seq<char>) -> Seq<char>
    decreases s.len(),
{
    if s.len() > 0 && is_space_char(s[0]) {
        trim_spaces(s.subrange(1, s.len() as int))
    } else {
        trim_trailing(s)
    }
}

/// An author's display name: the given and family names (empty when absent)
/// joined with a single space, then trimmed.
pub open spec fn spec_author_name(a: RegistryAuthor) -> Seq<char> {
    let g = match a.given {
        Some(s) => s@,
        None => Seq::<char>::empty(),
    };
    let f = match a.family {
        Some(s) => s@,
        None => Seq::<char>::empty(),
    };
    trim_spaces(g + seq![' '] + f)
}

/// First element of an optional list of strings, `None` when the list is
/// absent or empty.
pub open spec fn first_entry(list: Option<Vec<String>>) -> Option<Seq<char>> {
    match list {
        Some(v) => if v@.len() > 0 {
            Some(v@[0]@)
        } else {
            None
        },
        None => None,
    }
}

/// The year of a registry reply: the first number of the first date tuple.
pub open spec fn spec_registry_year(published: Option<RegistryDate>) -> Option<i32> {
    match published {
        Some(d) => match d.date_parts {
            Some(dp) => if dp@.len() > 0 && dp@[0]@.len() > 0 {
                Some(dp@[0]@[0])
            } else {
                None
            },
            None => None,
        },
        None => None,
    }
}

fn is_space_exec(c: char) -> (b: bool)
    ensures
        b == is_space_char(c),
{
    let u = c as u32;
    (9 <= u && u <= 13) || u == 32 || u == 0x85 || u == 0xA0 || u == 0x1680
        || (0x2000 <= u && u <= 0x200A) || u == 0x2028 || u == 0x2029 || u == 0x202F
        || u == 0x205F || u == 0x3000
}

fn trim_string(s: &str) -> (r: String)
    ensures
        r@ == trim_spaces(s@),
{
    let n = s.unicode_len();
    proof {
        assert(s@.subrange(0, n as int) =~= s@);
    }
    let mut a: usize = 0;
    while a < n && is_space_exec(s.get_char(a))
        invariant
            a <= n,
            n == s@.len(),
            trim_spaces(s@) == trim_spaces(s@.subrange(a as int, n as int)),
        decreases n - a,
    {
        proof {
            let t = s@.subrange(a as int, n as int);
            assert(t.subrange(1, t.len() as int) =~= s@.subrange(a + 1, n as int));
        }
        a += 1;
    }
    proof {
        let t = s@.subrange(a as int, n as int);
        assert(trim_spaces(t) == trim_trailing(t));
    }
    let mut b: usize = n;
    while b > a && is_space_exec(s.get_char(b - 1))
        invariant
            a <= b <= n,
            n == s@.len(),
            trim_spaces(s@) == trim_trailing(s@.subrange(a as int, b as int)),
        decreases b,
    {
        proof {
            let u = s@.subrange(a as int, b as int);
            assert(u.take(u.len() - 1) =~= s@.subrange(a as int, b - 1));
        }
        b -= 1;
    }
    proof {
        let u = s@.subrange(a as int, b as int);
        assert(trim_trailing(u) == u);
    }
    s.substring_char(a, b).to_owned()
}

/// Builds an author's display name from a registry author entry.
fn author_name(a: &RegistryAuthor) -> (r: String)
    ensures
        r@ == spec_author_name(*a),
{
    let mut joined = String::new();
    match &a.given {
        Some(g) => joined.append(g.as_str()),
        None => (),
    }
    joined.append(" ");
    match &a.family {
        Some(f) => joined.append(f.as_str()),
        None => (),
    }
    proof {
        reveal_strlit(" ");
        assert(" "@ =~= seq![' ']);
    }
    trim_string(joined.as_str())
}

/// Maps a registry reply onto the canonical record: title, journal and year
/// take the first entry of their lists, authors keep the reply's order, the
/// `doi` field echoes the identifier that was looked up (never the reply's
/// own `doi`), and `keywords` stays absent — the registry has no such field.
pub fn registry_record(identifier: String, work: RegistryWork) -> (r: CreateDocument)
    ensures
        r.title@ == match first_entry(work.title) {
            Some(t) => t,
            None => Seq::<char>::empty(),
        },
        r.authors is Some <==> work.author is Some,
        r.authors matches Some(v) ==> {
            &&& v@.len() == work.author->0@.len()
            &&& forall|q: int| 0 <= q < v@.len() ==> (#[trigger] v@[q])@ == spec_author_name(work.author->0@[q])
        },
        r.year == spec_registry_year(work.published),
        r.journal is Some <==> first_entry(work.container_title) is Some,
        r.journal matches Some(j) ==> j@ == first_entry(work.container_title)->0,
        r.publication_type == work.publication_type,
        r.volume == work.volume,
        r.issue == work.issue,
        r.pages == work.page,
        r.publisher == work.publisher,
        r.doi == Some(identifier),
        r.url == work.url,
        r.abstract_text == work.abstract_text,
        r.keywords is None,
        r.pdf_url is None,
{
    let title: String = match &work.title {
        Some(ts) => if ts.len() > 0 {
            ts[0].clone()
        } else {
            String::new()
        },
        None => String::new(),
    };
    let authors: Option<Vec<String>> = match &work.author {
        Some(list) => {
            let mut out: Vec<String> = Vec::new();
            let mut idx: usize = 0;
            while idx < list.len()
                invariant
                    idx <= list@.len(),
                    out@.len() == idx,
                    forall|q: int| 0 <= q < idx as int ==> (#[trigger] out@[q])@ == spec_author_name(list@[q]),
                decreases list@.len() - idx,
            {
                let name = author_name(&list[idx]);
                out.push(name);
                idx += 1;
            }
            Some(out)
        },
        None => None,
    };
    let year: Option<i32> = match &work.published {
        Some(d) => match &d.date_parts {
            Some(dp) => if dp.len() > 0 && dp[0].len() > 0 {
                Some(dp[0][0])
            } else {
                None
            },
            None => None,
        },
        None => None,
    };
    let journal: Option<String> = match &work.container_title {
        Some(ts) => if ts.len() > 0 {
            Some(ts[0].clone())
        } else {
            None
        },
        None => None,
    };
    CreateDocument {
        title,
        authors,
        year,
        publication_type: work.publication_type,
        journal,
        volume: work.volume,
        issue: work.issue,
        pages: work.page,
        publisher: work.publisher,
        doi: Some(identifier),
        url: work.url,
        abstract_text: work.abstract_text,
        keywords: None,
        pdf_url: None,
    }
}

} // verus!
