//! Naming of downloaded files: a safe base name from the request and an image
//! extension from the URL.
use vstd::prelude::*;
use crate::text::{lowercase_of, same_text, to_lower, trim_text, trimmed};

verus! {

/// A control character (Unicode category Cc), as `char::is_control` tells it.
pub open spec fn is_control_char(c: char) -> bool {
    (c as u32) <= 0x1f || (0x7f <= (c as u32) && (c as u32) <= 0x9f)
}

/// The character that stands for `c` in a file name.
pub open spec fn safe_char(c: char) -> char {
    if c == '/' || c == '\\' || c == ':' || c == '*' || c == '?' || c == '"' || c == '<' || c
        == '>' || c == '|' || is_control_char(c) {
        '_'
    } else {
        c
    }
}

/// `s` with every character that a file name cannot hold replaced by `_`, then trimmed.
pub open spec fn sanitized(s: Seq<char>) -> Seq<char> {
    trimmed(s.map_values(|c: char| safe_char(c)))
}

fn is_unsafe(c: char) -> (r: bool)
    ensures
        r == (safe_char(c) == '_' && c != '_'),
{
    let u = c as u32;
    c == '/' || c == '\\' || c == ':' || c == '*' || c == '?' || c == '"' || c == '<' || c == '>'
        || c == '|' || u <= 0x1f || (0x7f <= u && u <= 0x9f)
}

/// Makes a request safe to use as a file name.
pub fn sanitize_filename(s: &str) -> (r: String)
    ensures
        r@ == sanitized(s@),
{
    let n = s.unicode_len();
    let mut out = String::new();
    let mut i: usize = 0;
    proof {
        reveal_strlit("_");
    }
    while i < n
        invariant
            n == s@.len(),
            i <= n,
            out@ == s@.subrange(0, i as int).map_values(|c: char| safe_char(c)),
        decreases n - i,
    {
        let c = s.get_char(i);
        proof {
            reveal_strlit("_");
        }
        let ghost before = out@;
        if is_unsafe(c) {
            out.append("_");
        } else {
            let piece = s.substring_char(i, i + 1);
            out.append(piece);
        }
        assert(out@ =~= before.push(safe_char(c)));
        assert(s@.subrange(0, i + 1).map_values(|c: char| safe_char(c)) =~= s@.subrange(
            0,
            i as int,
        ).map_values(|c: char| safe_char(c)).push(safe_char(c)));
        i += 1;
    }
    assert(s@.subrange(0, n as int) =~= s@);
    trim_text(out.as_str())
}

/// The position of the last `.` in `s`, or -1.
pub open spec fn last_dot(s: Seq<char>) -> int
    decreases s.len(),
{
    if s.len() == 0 {
        -1
    } else if s.last() == '.' {
        s.len() - 1
    } else {
        last_dot(s.drop_last())
    }
}

proof fn lemma_last_dot_bounds(s: Seq<char>)
    ensures
        -1 <= last_dot(s) < s.len(),
        last_dot(s) >= 0 ==> s[last_dot(s)] == '.',
    decreases s.len(),
{
    if s.len() > 0 && s.last() != '.' {
        lemma_last_dot_bounds(s.drop_last());
    }
}

/// What follows the last `.` of a URL (all of it when there is none).
pub open spec fn url_suffix(url: Seq<char>) -> Seq<char> {
    url.subrange(last_dot(url) + 1, url.len() as int)
}

/// The extensions that are kept as they are.
pub open spec fn is_image_extension(e: Seq<char>) -> bool {
    e == "jpg"@ || e == "jpeg"@ || e == "png"@ || e == "gif"@ || e == "webp"@ || e == "svg"@
}

/// The extension for a file: the URL's suffix when its lower-case form,
/// `lowered`, is a known image extension, else `jpg`.
pub open spec fn chosen_extension(suffix: Seq<char>, lowered: Seq<char>) -> Seq<char> {
    if is_image_extension(lowered) {
        suffix
    } else {
        "jpg"@
    }
}

/// Takes what follows the last `.` of a URL.
pub fn url_suffix_of(url: &str) -> (r: String)
    ensures
        r@ == url_suffix(url@),
{
    let n = url.unicode_len();
    let mut i: usize = n;
    assert(url@.subrange(0, n as int) =~= url@);
    while i > 0
        invariant
            n == url@.len(),
            i <= n,
            last_dot(url@) == last_dot(url@.subrange(0, i as int)),
        decreases i,
    {
        if url.get_char(i - 1) == '.' {
            assert(url@.subrange(0, i as int).last() == '.');
            return String::from_str(url.substring_char(i, n));
        }
        assert(url@.subrange(0, i as int).drop_last() =~= url@.subrange(0, i - 1));
        i -= 1;
    }
    assert(url@.subrange(0, 0) =~= Seq::<char>::empty());
    String::from_str(url)
}

/// Chooses the extension given the URL's suffix and its lower-case form.
pub fn choose_extension(suffix: &str, lowered: &str) -> (r: String)
    ensures
        r@ == chosen_extension(suffix@, lowered@),
{
    if same_text(lowered, "jpg") || same_text(lowered, "jpeg") || same_text(lowered, "png")
        || same_text(lowered, "gif") || same_text(lowered, "webp") || same_text(lowered, "svg") {
        String::from_str(suffix)
    } else {
        String::from_str("jpg")
    }
}

/// The extension for an image downloaded from `url`.
pub fn image_extension(url: &str) -> (r: String)
    ensures
        r@ == chosen_extension(url_suffix(url@), lowercase_of(url_suffix(url@))),
{
    let suffix = url_suffix_of(url);
    let lowered = to_lower(suffix.as_str());
    choose_extension(suffix.as_str(), lowered.as_str())
}

/// The file name for an image: the sanitized request, a dot, the extension.
pub fn image_file_name(source_query: &str, url: &str) -> (r: String)
    ensures
        r@ == sanitized(source_query@) + "."@ + chosen_extension(
            url_suffix(url@),
            lowercase_of(url_suffix(url@)),
        ),
{
    let mut r = sanitize_filename(source_query);
    r.append(".");
    let e = image_extension(url);
    r.append(e.as_str());
    r
}

} // verus!
