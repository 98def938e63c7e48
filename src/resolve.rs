//! Mapping a request line to the page it asks for, a status and a content kind.
use vstd::prelude::*;
use vstd::string::*;

use crate::http::{kind_of_extension, HttpContentType, HttpStatusCode};
use crate::text::{second_word, second_word_of};

verus! {

/// The first index at or after `i` that does not hold `c`, or the length.
pub open spec fn skip_char(s: Seq<char>, c: char, i: int) -> int
    decreases s.len() - i,
{
    if i < 0 || i >= s.len() {
        s.len() as int
    } else if s[i] == c {
        skip_char(s, c, i + 1)
    } else {
        i
    }
}

/// The last index below `i` that holds `c`, or -1 if there is none.
pub open spec fn last_index_before(s: Seq<char>, c: char, i: int) -> int
    decreases i,
{
    if i <= 0 || i > s.len() {
        -1
    } else if s[i - 1] == c {
        i - 1
    } else {
        last_index_before(s, c, i - 1)
    }
}

/// The file a request target names under the content root: `.html` is added
/// to a target without a dot, then leading slashes are dropped.
pub open spec fn page_file(target: Seq<char>) -> Seq<char> {
    let t = if target.contains('.') {
        target
    } else {
        target + ".html"@
    };
    t.subrange(skip_char(t, '/', 0), t.len() as int)
}

/// The path under the content root that a request line asks for, or `Err`
/// when the line has no second word.
pub open spec fn page_path(request: Seq<char>) -> Result<Seq<char>, ()> {
    match second_word(request) {
        None => Err(()),
        Some(target) => if target.len() == 0 {
            Err(())
        } else if target == "/"@ {
            Ok("pages/index.html"@)
        } else {
            Ok("pages/"@ + page_file(target))
        },
    }
}

/// The end of the last part of a path that is neither empty nor `.`, looking
/// below index `i`: trailing separators and `.` parts are passed over, as
/// `Path::file_name` does.
pub open spec fn name_end(path: Seq<char>, i: int) -> int
    decreases i,
{
    if i <= 0 || i > path.len() {
        0
    } else if path[i - 1] == '/' {
        name_end(path, i - 1)
    } else if path[i - 1] == '.' && (i == 1 || path[i - 2] == '/') {
        name_end(path, i - 1)
    } else {
        i
    }
}

/// The file name of a path: its last part that is neither empty nor `.`.
pub open spec fn file_name(path: Seq<char>) -> Seq<char> {
    let end = name_end(path, path.len() as int);
    path.subrange(last_index_before(path, '/', end) + 1, end)
}

/// The extension of a path: what follows the last dot of its file name, where
/// that dot is not the name's first character. A name of `..` has none.
pub open spec fn extension(path: Seq<char>) -> Option<Seq<char>> {
    let name = file_name(path);
    let dot = last_index_before(name, '.', name.len() as int);
    if dot <= 0 || name == ".."@ {
        None
    } else {
        Some(name.subrange(dot + 1, name.len() as int))
    }
}

/// The content kind of a path: that of its extension, PNG where it has none.
pub open spec fn kind_of_path(path: Seq<char>) -> HttpContentType {
    match extension(path) {
        Some(e) => kind_of_extension(e),
        None => HttpContentType::Png,
    }
}

/// What a request line resolves to, given whether the page that `page_path`
/// names exists.
pub open spec fn resolution(request: Seq<char>, exists: bool) -> (
    Seq<char>,
    HttpStatusCode,
    HttpContentType,
) {
    match page_path(request) {
        Err(_) => ("pages/400.html"@, HttpStatusCode::BadRequest, HttpContentType::Html),
        Ok(p) => if exists {
            (p, HttpStatusCode::OK, kind_of_path(p))
        } else {
            ("pages/404.html"@, HttpStatusCode::NotFound, HttpContentType::Html)
        },
    }
}

proof fn lemma_last_index_bounds(s: Seq<char>, c: char, i: int)
    requires
        0 <= i <= s.len(),
    ensures
        -1 <= last_index_before(s, c, i) < i,
        last_index_before(s, c, i) >= 0 ==> s[last_index_before(s, c, i)] == c,
    decreases i,
{
    if i > 0 && s[i - 1] != c {
        lemma_last_index_bounds(s, c, i - 1);
    }
}

/// Returns `skip_char(s@, c, 0)`.
fn skip_leading(s: &str, c: char) -> (r: usize)
    ensures
        r == skip_char(s@, c, 0),
        r <= s@.len(),
{
    let n = s.unicode_len();
    let mut j: usize = 0;
    while j < n && s.get_char(j) == c
        invariant
            n == s@.len(),
            j <= n,
            skip_char(s@, c, 0) == skip_char(s@, c, j as int),
        decreases n - j,
    {
        j = j + 1;
    }
    j
}

/// Returns `last_index_before(s@, c, i) + 1`.
fn after_last(s: &str, c: char, i: usize) -> (r: usize)
    requires
        i <= s@.len(),
    ensures
        r == last_index_before(s@, c, i as int) + 1,
        r <= i,
{
    let mut j = i;
    while j > 0 && s.get_char(j - 1) != c
        invariant
            j <= i <= s@.len(),
            last_index_before(s@, c, i as int) == last_index_before(s@, c, j as int),
        decreases j,
    {
        j = j - 1;
    }
    j
}

/// Whether `s` holds the character `c`.
fn has_char(s: &str, c: char) -> (r: bool)
    ensures
        r == s@.contains(c),
{
    let n = s.unicode_len();
    let mut j: usize = 0;
    while j < n
        invariant
            n == s@.len(),
            j <= n,
            forall|k: int| 0 <= k < j ==> s@[k] != c,
        decreases n - j,
    {
        if s.get_char(j) == c {
            return true;
        }
        j = j + 1;
    }
    false
}

/// Builds the path to the page that a request line asks for.
///
/// Returns `Err` when the line has no second word.
pub fn build_path_to_page(request: &str) -> (r: Result<String, ()>)
    ensures
        match page_path(request@) {
            Ok(p) => r is Ok && r->Ok_0@ == p,
            Err(_) => r is Err,
        },
{
    let target = match second_word_of(request) {
        Some(t) => t,
        None => return Err(()),
    };
    if target.unicode_len() == 0 {
        return Err(());
    }
    if crate::text::str_eq(target, "/") {
        return Ok(String::from_str("pages/index.html"));
    }
    let mut page = String::from_str(target);
    if !has_char(target, '.') {
        page.append(".html");
    }
    let skip = skip_leading(page.as_str(), '/');
    let file = page.as_str().substring_char(skip, page.as_str().unicode_len());
    let mut path = String::from_str("pages/");
    path.append(file);
    Ok(path)
}

/// Returns `name_end(s@, s@.len())`.
fn file_name_end(s: &str) -> (r: usize)
    ensures
        r == name_end(s@, s@.len() as int),
        r <= s@.len(),
{
    let n = s.unicode_len();
    let mut j = n;
    while j > 0 && (s.get_char(j - 1) == '/' || (s.get_char(j - 1) == '.' && (j == 1 || s.get_char(
        j - 2,
    ) == '/')))
        invariant
            n == s@.len(),
            j <= n,
            name_end(s@, n as int) == name_end(s@, j as int),
        decreases j,
    {
        j = j - 1;
    }
    j
}

/// Returns the content kind of a path.
pub fn content_kind_of_path(path: &str) -> (r: HttpContentType)
    ensures
        r == kind_of_path(path@),
{
    let end = file_name_end(path);
    let start = after_last(path, '/', end);
    proof {
        lemma_last_index_bounds(path@, '/', end as int);
    }
    let name = path.substring_char(start, end);
    let m = name.unicode_len();
    let dot = after_last(name, '.', m);
    if dot <= 1 || crate::text::str_eq(name, "..") {
        HttpContentType::Png
    } else {
        proof {
            lemma_last_index_bounds(name@, '.', m as int);
        }
        let ext = name.substring_char(dot, m);
        HttpContentType::from(ext)
    }
}

/// Resolves a request line to the page to send, its status and its content
/// kind. `exists` tells whether the page that `build_path_to_page` names for
/// this line exists under the content root.
pub fn resolve_request(request: &str, exists: bool) -> (r: (String, HttpStatusCode, HttpContentType))
    ensures
        (r.0@, r.1, r.2) == resolution(request@, exists),
{
    match build_path_to_page(request) {
        Ok(path) => {
            if exists {
                let kind = content_kind_of_path(path.as_str());
                (path, HttpStatusCode::OK, kind)
            } else {
                (String::from_str("pages/404.html"), HttpStatusCode::NotFound, HttpContentType::Html)
            }
        },
        Err(_) => (
            String::from_str("pages/400.html"),
            HttpStatusCode::BadRequest,
            HttpContentType::Html,
        ),
    }
}

} // verus!
