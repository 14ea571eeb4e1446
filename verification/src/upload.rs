use vstd::prelude::*;
use vstd::string::StrSliceExecFns;

verus! {

// The upload endpoints accept a file only after validating its name and
// size; those checks are pure and live here.  Reading the multipart body and
// writing the file to disk stay with the application.

/// Upper bound, in bytes, of an accepted profile image (5 MiB).
pub const MAX_IMAGE_BYTES: usize = 5 * 1024 * 1024;

/// The name ends in `.pdf`, compared without regard to letter case.
pub open spec fn has_pdf_extension(s: Seq<char>) -> bool {
    &&& s.len() >= 4
    &&& s[s.len() - 4] == '.'
    &&& (s[s.len() - 3] == 'p' || s[s.len() - 3] == 'P')
    &&& (s[s.len() - 2] == 'd' || s[s.len() - 2] == 'D')
    &&& (s[s.len() - 1] == 'f' || s[s.len() - 1] == 'F')
}

/// Start of the name's extension: the position right after the last `.`, or
/// 0 when the name holds none (the whole name then counts as the extension,
/// as splitting on `.` and keeping the last piece would have it).
pub open spec fn ext_start(s: Seq<char>) -> int
    decreases s.len(),
{
    if s.len() == 0 {
        0
    } else if s[s.len() - 1] == '.' {
        s.len() as int
    } else {
        ext_start(s.take(s.len() - 1))
    }
}

/// The extension is `jpg`, `jpeg`, `png` or `webp`, without regard to letter
/// case.
pub open spec fn image_ext_ok(ext: Seq<char>) -> bool {
    ||| (ext.len() == 3 && (ext[0] == 'j' || ext[0] == 'J') && (ext[1] == 'p' || ext[1] == 'P')
        && (ext[2] == 'g' || ext[2] == 'G'))
    ||| (ext.len() == 4 && (ext[0] == 'j' || ext[0] == 'J') && (ext[1] == 'p' || ext[1] == 'P')
        && (ext[2] == 'e' || ext[2] == 'E') && (ext[3] == 'g' || ext[3] == 'G'))
    ||| (ext.len() == 3 && (ext[0] == 'p' || ext[0] == 'P') && (ext[1] == 'n' || ext[1] == 'N')
        && (ext[2] == 'g' || ext[2] == 'G'))
    ||| (ext.len() == 4 && (ext[0] == 'w' || ext[0] == 'W') && (ext[1] == 'e' || ext[1] == 'E')
        && (ext[2] == 'b' || ext[2] == 'B') && (ext[3] == 'p' || ext[3] == 'P'))
}

/// Accepts exactly the file names ending in `.pdf`, case-insensitively.
pub fn is_pdf_filename(name: &str) -> (b: bool)
    ensures
        b == has_pdf_extension(name@),
{
    let n = name.unicode_len();
    n >= 4 && name.get_char(n - 4) == '.'
        && (name.get_char(n - 3) == 'p' || name.get_char(n - 3) == 'P')
        && (name.get_char(n - 2) == 'd' || name.get_char(n - 2) == 'D')
        && (name.get_char(n - 1) == 'f' || name.get_char(n - 1) == 'F')
}

/// Accepts exactly the file names whose extension is an allowed image type.
pub fn is_image_filename(name: &str) -> (b: bool)
    ensures
        b == image_ext_ok(name@.skip(ext_start(name@))),
{
    let n = name.unicode_len();
    proof {
        assert(name@.take(n as int) =~= name@);
    }
    let mut j = n;
    while j > 0 && name.get_char(j - 1) != '.'
        invariant
            j <= n,
            n == name@.len(),
            ext_start(name@) == ext_start(name@.take(j as int)),
        decreases j,
    {
        proof {
            assert(name@.take(j as int).take(j - 1) =~= name@.take(j - 1));
        }
        j -= 1;
    }
    proof {
        assert(name@.take(n as int) =~= name@);
        assert(ext_start(name@) == j as int);
    }
    let len = n - j;
    if len == 3 {
        let c0 = name.get_char(j);
        let c1 = name.get_char(j + 1);
        let c2 = name.get_char(j + 2);
        (c0 == 'j' || c0 == 'J') && (c1 == 'p' || c1 == 'P') && (c2 == 'g' || c2 == 'G')
            || (c0 == 'p' || c0 == 'P') && (c1 == 'n' || c1 == 'N') && (c2 == 'g' || c2 == 'G')
    } else if len == 4 {
        let c0 = name.get_char(j);
        let c1 = name.get_char(j + 1);
        let c2 = name.get_char(j + 2);
        let c3 = name.get_char(j + 3);
        (c0 == 'j' || c0 == 'J') && (c1 == 'p' || c1 == 'P') && (c2 == 'e' || c2 == 'E')
            && (c3 == 'g' || c3 == 'G')
            || (c0 == 'w' || c0 == 'W') && (c1 == 'e' || c1 == 'E') && (c2 == 'b' || c2 == 'B')
                && (c3 == 'p' || c3 == 'P')
    } else {
        false
    }
}

/// Accepts exactly the payloads within the profile-image size bound.
pub fn image_size_ok(len: usize) -> (b: bool)
    ensures
        b == (len <= MAX_IMAGE_BYTES),
{
    len <= MAX_IMAGE_BYTES
}

} // verus!
