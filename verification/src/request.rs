//! Request-line parsing: extracting the requested path from the first line
//! of an HTTP request, and classifying paths by their file extension.
use vstd::prelude::*;
use crate::text::is_ascii_ws;
use crate::text::is_ws;
use crate::text::lower_seq;
use crate::text::str_eq_lower;

verus! {

/// Index of the first character at or after `i` that is not ASCII whitespace.
pub open spec fn span_ws(s: Seq<char>, i: int) -> int
    decreases s.len() - i when 0 <= i <= s.len()
{
    if i < s.len() && is_ascii_ws(s[i]) {
        span_ws(s, i + 1)
    } else {
        i
    }
}

/// Index of the first ASCII whitespace character at or after `i`.
pub open spec fn span_token(s: Seq<char>, i: int) -> int
    decreases s.len() - i when 0 <= i <= s.len()
{
    if i < s.len() && !is_ascii_ws(s[i]) {
        span_token(s, i + 1)
    } else {
        i
    }
}

pub proof fn lemma_span_token_bounds(s: Seq<char>, i: int)
    requires
        0 <= i <= s.len(),
    ensures
        i <= span_token(s, i) <= s.len(),
    decreases s.len() - i,
{
    if i < s.len() && !is_ascii_ws(s[i]) {
        lemma_span_token_bounds(s, i + 1);
    }
}

/// The path named by a raw request line: the second whitespace-separated
/// token with its leading character removed. A bare `/` (the root) and a
/// line with fewer than two tokens both yield no path.
pub open spec fn request_path(s: Seq<char>) -> Option<Seq<char>> {
    let i1 = span_ws(s, span_token(s, span_ws(s, 0)));
    let e1 = span_token(s, i1);
    if i1 >= s.len() {
        None
    } else if e1 == i1 + 1 && s[i1] == '/' {
        None
    } else {
        Some(s.subrange(i1 + 1, e1))
    }
}

fn skip_ws(s: &str, from: usize) -> (r: usize)
    requires
        from as int <= s@.len(),
    ensures
        r as int == span_ws(s@, from as int),
        from <= r,
        r as int <= s@.len(),
        (r as int) < s@.len() ==> !is_ascii_ws(s@[r as int]),
{
    let len = s.unicode_len();
    let mut i: usize = from;
    while i < len
        invariant
            from <= i <= len,
            len == s@.len(),
            span_ws(s@, from as int) == span_ws(s@, i as int),
        decreases len - i,
    {
        if !is_ws(s.get_char(i)) {
            return i;
        }
        i = i + 1;
    }
    i
}

fn skip_token(s: &str, from: usize) -> (r: usize)
    requires
        from as int <= s@.len(),
    ensures
        r as int == span_token(s@, from as int),
        from <= r,
        r as int <= s@.len(),
        (r as int) < s@.len() ==> is_ascii_ws(s@[r as int]),
{
    let len = s.unicode_len();
    let mut i: usize = from;
    while i < len
        invariant
            from <= i <= len,
            len == s@.len(),
            span_token(s@, from as int) == span_token(s@, i as int),
        decreases len - i,
    {
        if is_ws(s.get_char(i)) {
            return i;
        }
        i = i + 1;
    }
    i
}

/// Parse a request line such as `GET / HTTP/1.1` to get the path and file
/// name. The root path `/` yields `None`.
pub fn parse_filename_from_request<'a>(line: &'a str) -> (r: Option<&'a str>)
    ensures
        match r {
            Some(p) => request_path(line@) == Some(p@),
            None => request_path(line@) is None,
        },
{
    let i0 = skip_ws(line, 0);
    let e0 = skip_token(line, i0);
    let i1 = skip_ws(line, e0);
    let e1 = skip_token(line, i1);
    let len = line.unicode_len();
    if i1 >= len {
        return None;
    }
    if e1 == i1 + 1 && line.get_char(i1) == '/' {
        return None;
    }
    proof {
        assert(span_token(line@, i1 as int) == span_token(line@, i1 + 1));
        lemma_span_token_bounds(line@, i1 + 1);
    }
    Some(line.substring_char(i1 + 1, e1))
}

/// Index of the last occurrence of `c` in `s`, if any.
pub open spec fn rfind(s: Seq<char>, c: char) -> Option<int>
    decreases s.len(),
{
    if s.len() == 0 {
        None
    } else if s[s.len() - 1] == c {
        Some(s.len() - 1)
    } else {
        rfind(s.drop_last(), c)
    }
}

pub proof fn lemma_rfind(s: Seq<char>, c: char)
    ensures
        match rfind(s, c) {
            Some(j) => 0 <= j < s.len() && s[j] == c && (forall|k: int|
                j < k < s.len() ==> s[k] != c),
            None => forall|k: int| 0 <= k < s.len() ==> s[k] != c,
        },
    decreases s.len(),
{
    if s.len() > 0 && s[s.len() - 1] != c {
        lemma_rfind(s.drop_last(), c);
        assert(forall|k: int| 0 <= k < s.len() - 1 ==> s.drop_last()[k] == s[k]);
    }
}

fn rfind_char(s: &str, c: char) -> (r: Option<usize>)
    ensures
        match r {
            Some(j) => rfind(s@, c) == Some(j as int) && (j as int) < s@.len(),
            None => rfind(s@, c) is None,
        },
{
    let len = s.unicode_len();
    let mut i: usize = len;
    while i > 0
        invariant
            i <= len,
            len == s@.len(),
            forall|k: int| i <= k < s@.len() ==> s@[k] != c,
        decreases i,
    {
        i = i - 1;
        if s.get_char(i) == c {
            proof {
                lemma_rfind(s@, c);
            }
            return Some(i);
        }
    }
    proof {
        lemma_rfind(s@, c);
    }
    None
}

/// The extension of a path: what follows the last `.` of the part after the
/// last `/`, provided that `.` is not the first character of the file name.
pub open spec fn extension_of(path: Seq<char>) -> Option<Seq<char>> {
    let ns = match rfind(path, '/') {
        Some(i) => i + 1,
        None => 0,
    };
    let name = path.subrange(ns, path.len() as int);
    match rfind(name, '.') {
        Some(j) => if j > 0 {
            Some(name.subrange(j + 1, name.len() as int))
        } else {
            None
        },
        None => None,
    }
}

/// The extension of `path`, as a borrowed slice.
pub fn extension<'a>(path: &'a str) -> (r: Option<&'a str>)
    ensures
        match r {
            Some(e) => extension_of(path@) == Some(e@),
            None => extension_of(path@) is None,
        },
{
    let len = path.unicode_len();
    let ns: usize = match rfind_char(path, '/') {
        Some(i) => i + 1,
        None => 0,
    };
    let name = path.substring_char(ns, len);
    let nlen = name.unicode_len();
    match rfind_char(name, '.') {
        Some(j) => if j > 0 {
            Some(name.substring_char(j + 1, nlen))
        } else {
            None
        },
        None => None,
    }
}

/// Whether the path's extension, lowercased, is `html` or `htm`. Matching
/// is ASCII-case-insensitive.
pub open spec fn is_html(path: Seq<char>) -> bool {
    match extension_of(path) {
        Some(e) => lower_seq(e) == "html"@ || lower_seq(e) == "htm"@,
        None => false,
    }
}

/// Whether `filepath` names an HTML file, by its extension.
pub fn is_html_file(filepath: &str) -> (r: bool)
    ensures
        r == is_html(filepath@),
{
    match extension(filepath) {
        Some(e) => str_eq_lower(e, "html") || str_eq_lower(e, "htm"),
        None => false,
    }
}

} // verus!
