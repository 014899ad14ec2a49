//! Parsing of one line of a symlink-specification file.
//!
//! A line holds a target path and a link path, separated by whitespace and
//! optionally surrounded by whitespace. A path is either a run of characters
//! that are neither whitespace nor `"`, or a `"`-delimited string that holds
//! no `"` (there is no escape). A line starting with `//` is a comment.

use vstd::prelude::*;
use vstd::string::StrSliceExecFns;
use crate::text::{chars_of, is_ws, is_ws_char};

verus! {

/// The first position at or after `i` that is not whitespace.
pub open spec fn skip_ws(s: Seq<char>, i: int) -> int
    decreases s.len() - i,
{
    if 0 <= i < s.len() && is_ws(s[i]) {
        skip_ws(s, i + 1)
    } else {
        i
    }
}

/// The first position at or after `i` that is whitespace or `"`.
pub open spec fn bare_end(s: Seq<char>, i: int) -> int
    decreases s.len() - i,
{
    if 0 <= i < s.len() && !is_ws(s[i]) && s[i] != '"' {
        bare_end(s, i + 1)
    } else {
        i
    }
}

/// The first position at or after `i` that is `"`.
pub open spec fn quote_end(s: Seq<char>, i: int) -> int
    decreases s.len() - i,
{
    if 0 <= i < s.len() && s[i] != '"' {
        quote_end(s, i + 1)
    } else {
        i
    }
}

/// Where the path token that starts at `i` ends (exclusive), if one starts there.
pub open spec fn token_end(s: Seq<char>, i: int) -> Option<int> {
    if 0 <= i < s.len() && s[i] == '"' {
        let j = quote_end(s, i + 1);
        if j < s.len() && j > i + 1 {
            Some(j + 1)
        } else {
            None
        }
    } else {
        let j = bare_end(s, i);
        if j > i {
            Some(j)
        } else {
            None
        }
    }
}

/// The two path tokens of a line, quotes included, when the line has the
/// shape `ws* token ws+ token ws*`.
pub open spec fn raw_tokens(s: Seq<char>) -> Option<(Seq<char>, Seq<char>)> {
    let a = skip_ws(s, 0);
    match token_end(s, a) {
        None => None,
        Some(b) => {
            let c = skip_ws(s, b);
            if c == b {
                None
            } else {
                match token_end(s, c) {
                    None => None,
                    Some(d) => if skip_ws(s, d) == s.len() {
                        Some((s.subrange(a, b), s.subrange(c, d)))
                    } else {
                        None
                    },
                }
            }
        },
    }
}

/// A token without its surrounding quotes, if it has them.
pub open spec fn unquote(t: Seq<char>) -> Seq<char> {
    if t.len() >= 2 && t[0] == '"' {
        t.subrange(1, t.len() - 1)
    } else {
        t
    }
}

/// The target and link paths of a line that has the two-path shape.
pub open spec fn spec_paths(s: Seq<char>) -> Option<(Seq<char>, Seq<char>)> {
    match raw_tokens(s) {
        None => None,
        Some((t, l)) => Some((unquote(t), unquote(l))),
    }
}

pub open spec fn is_comment(s: Seq<char>) -> bool {
    s.len() >= 2 && s[0] == '/' && s[1] == '/'
}

/// Ways a line expected to hold a symlink specification can be invalid.
#[derive(Debug, Clone, Copy, PartialEq, Eq, Structural)]
pub enum Invalid {
    /// The line does not have the two-path shape.
    NoMatch,
    /// The line has the two-path shape, but its target does not exist.
    TargetDoesNotExist,
}

/// The kinds of lines of a symlink-specification file.
#[derive(Debug, Clone, PartialEq, Eq)]
pub enum LineType {
    /// A line that holds no valid symlink specification.
    Invalid(Invalid),
    /// An empty line.
    Empty,
    /// A comment.
    Comment,
    /// A valid symlink specification.
    SlsSpec {
        /// The path the symlink points to.
        target: String,
        /// The path of the symlink.
        link: String,
    },
}

/// The mathematical value of a [`LineType`].
pub enum LineKind {
    Invalid(Invalid),
    Empty,
    Comment,
    SlsSpec { target: Seq<char>, link: Seq<char> },
}

impl View for LineType {
    type V = LineKind;

    open spec fn view(&self) -> LineKind {
        match self {
            LineType::Invalid(i) => LineKind::Invalid(*i),
            LineType::Empty => LineKind::Empty,
            LineType::Comment => LineKind::Comment,
            LineType::SlsSpec { target, link } => LineKind::SlsSpec { target: target@, link: link@ },
        }
    }
}

/// The kind of line `s`, when the existence check on its target answers
/// `target_exists`.
pub open spec fn classify(s: Seq<char>, target_exists: bool) -> LineKind {
    if is_comment(s) {
        LineKind::Comment
    } else if s.len() == 0 {
        LineKind::Empty
    } else {
        match spec_paths(s) {
            None => LineKind::Invalid(Invalid::NoMatch),
            Some((t, l)) => if target_exists {
                LineKind::SlsSpec { target: t, link: l }
            } else {
                LineKind::Invalid(Invalid::TargetDoesNotExist)
            },
        }
    }
}

fn skip_ws_at(s: &Vec<char>, i: usize) -> (r: usize)
    requires
        i <= s@.len(),
    ensures
        r as int == skip_ws(s@, i as int),
        i <= r <= s@.len(),
{
    let mut j = i;
    while j < s.len() && is_ws_char(s[j])
        invariant
            i <= j <= s@.len(),
            skip_ws(s@, j as int) == skip_ws(s@, i as int),
        decreases s@.len() - j,
    {
        j = j + 1;
    }
    j
}

fn bare_end_at(s: &Vec<char>, i: usize) -> (r: usize)
    requires
        i <= s@.len(),
    ensures
        r as int == bare_end(s@, i as int),
        i <= r <= s@.len(),
{
    let mut j = i;
    while j < s.len() && !is_ws_char(s[j]) && s[j] != '"'
        invariant
            i <= j <= s@.len(),
            bare_end(s@, j as int) == bare_end(s@, i as int),
        decreases s@.len() - j,
    {
        j = j + 1;
    }
    j
}

fn quote_end_at(s: &Vec<char>, i: usize) -> (r: usize)
    requires
        i <= s@.len(),
    ensures
        r as int == quote_end(s@, i as int),
        i <= r <= s@.len(),
{
    let mut j = i;
    while j < s.len() && s[j] != '"'
        invariant
            i <= j <= s@.len(),
            quote_end(s@, j as int) == quote_end(s@, i as int),
        decreases s@.len() - j,
    {
        j = j + 1;
    }
    j
}

fn token_end_at(s: &Vec<char>, i: usize) -> (r: Option<usize>)
    requires
        i <= s@.len(),
    ensures
        match r {
            None => token_end(s@, i as int) is None,
            Some(j) => token_end(s@, i as int) == Some(j as int) && i < j <= s@.len(),
        },
{
    if i < s.len() && s[i] == '"' {
        let j = quote_end_at(s, i + 1);
        if j < s.len() && j > i + 1 {
            Some(j + 1)
        } else {
            None
        }
    } else {
        let j = bare_end_at(s, i);
        if j > i {
            Some(j)
        } else {
            None
        }
    }
}

/// The positions `(a, b, c, d)` of the two tokens of `s`: `s[a..b]` and `s[c..d]`.
fn token_bounds(s: &Vec<char>) -> (r: Option<(usize, usize, usize, usize)>)
    ensures
        match r {
            None => raw_tokens(s@) is None,
            Some((a, b, c, d)) => {
                &&& a < b <= c < d <= s@.len()
                &&& raw_tokens(s@) == Some((s@.subrange(a as int, b as int), s@.subrange(c as int, d as int)))
            },
        },
{
    let a = skip_ws_at(s, 0);
    match token_end_at(s, a) {
        None => None,
        Some(b) => {
            let c = skip_ws_at(s, b);
            if c == b {
                None
            } else {
                match token_end_at(s, c) {
                    None => None,
                    Some(d) => if skip_ws_at(s, d) == s.len() {
                        Some((a, b, c, d))
                    } else {
                        None
                    },
                }
            }
        },
    }
}

/// The two path tokens of `line`, quotes included, or `None` when `line`
/// does not have the two-path shape.
pub fn spec_tokens(line: &str) -> (r: Option<(String, String)>)
    ensures
        match r {
            None => raw_tokens(line@) is None,
            Some((t, l)) => raw_tokens(line@) == Some((t@, l@)),
        },
{
    let s = chars_of(line);
    match token_bounds(&s) {
        None => None,
        Some((a, b, c, d)) => {
            let t = line.substring_char(a, b).to_string();
            let l = line.substring_char(c, d).to_string();
            Some((t, l))
        },
    }
}


/// The bounds of `s[a..b]` once its surrounding quotes, if any, are dropped.
fn unquoted_bounds(s: &Vec<char>, a: usize, b: usize) -> (r: (usize, usize))
    requires
        a <= b <= s@.len(),
    ensures
        r.0 <= r.1 <= s@.len(),
        s@.subrange(r.0 as int, r.1 as int) == unquote(s@.subrange(a as int, b as int)),
{
    if b - a >= 2 && s[a] == '"' {
        assert(s@.subrange(a + 1, b - 1) =~= s@.subrange(a as int, b as int).subrange(1, (b - a) - 1));
        (a + 1, b - 1)
    } else {
        (a, b)
    }
}

/// The target and link paths of `line`, quotes removed, or `None` when
/// `line` does not have the two-path shape.
pub fn spec_paths_of(line: &str) -> (r: Option<(String, String)>)
    ensures
        match r {
            None => spec_paths(line@) is None,
            Some((t, l)) => spec_paths(line@) == Some((t@, l@)),
        },
{
    let s = chars_of(line);
    match token_bounds(&s) {
        None => None,
        Some((a, b, c, d)) => {
            let (ta, tb) = unquoted_bounds(&s, a, b);
            let (lc, ld) = unquoted_bounds(&s, c, d);
            let t = line.substring_char(ta, tb).to_string();
            let l = line.substring_char(lc, ld).to_string();
            Some((t, l))
        },
    }
}

fn starts_as_comment(line: &str) -> (r: bool)
    ensures
        r == is_comment(line@),
{
    let s = chars_of(line);
    s.len() >= 2 && s[0] == '/' && s[1] == '/'
}

/// The kind of `line` when the existence check on its target answers
/// `target_exists`.
pub fn classify_line(line: &str, target_exists: bool) -> (r: LineType)
    ensures
        r@ == classify(line@, target_exists),
{
    if starts_as_comment(line) {
        LineType::Comment
    } else if line.is_empty() {
        LineType::Empty
    } else {
        match spec_paths_of(line) {
            None => LineType::Invalid(Invalid::NoMatch),
            Some((target, link)) => if target_exists {
                LineType::SlsSpec { target, link }
            } else {
                LineType::Invalid(Invalid::TargetDoesNotExist)
            },
        }
    }
}

/// Relies on `std::path::Path::exists`: whether something exists at `p`
/// (following symlinks). The answer depends on the filesystem.
#[verifier::external_body]
fn path_exists(p: &str) -> (r: bool) {
    std::path::Path::new(p).exists()
}

/// The kind of `line`. The target of a well-formed specification is looked
/// up on disk; everything else depends on the text alone.
pub fn line_type(line: &str) -> (r: LineType)
    ensures
        exists|target_exists: bool| r@ == classify(line@, target_exists),
        is_comment(line@) ==> r == LineType::Comment,
        line@.len() == 0 ==> r == LineType::Empty,
        !is_comment(line@) && spec_paths(line@) is None && line@.len() > 0
            ==> r == LineType::Invalid(Invalid::NoMatch),
{
    if starts_as_comment(line) {
        LineType::Comment
    } else if line.is_empty() {
        LineType::Empty
    } else {
        match spec_paths_of(line) {
            None => LineType::Invalid(Invalid::NoMatch),
            Some((target, link)) => {
                let exists = path_exists(target.as_str());
                let r = if exists {
                    LineType::SlsSpec { target, link }
                } else {
                    LineType::Invalid(Invalid::TargetDoesNotExist)
                };
                assert(r@ == classify(line@, exists));
                r
            },
        }
    }
}


/// Every character of `w` is whitespace.
pub open spec fn all_ws(w: Seq<char>) -> bool {
    forall|k: int| 0 <= k < w.len() ==> is_ws(#[trigger] w[k])
}

/// A path token written without quotes: one or more characters, none of
/// them whitespace or `"`.
pub open spec fn is_bare_token(x: Seq<char>) -> bool {
    x.len() > 0 && forall|k: int| 0 <= k < x.len() ==> !is_ws(#[trigger] x[k]) && x[k] != '"'
}

proof fn lemma_skip_ws_run(s: Seq<char>, i: int, k: int)
    requires
        0 <= i <= k <= s.len(),
        forall|j: int| i <= j < k ==> is_ws(#[trigger] s[j]),
        k == s.len() || !is_ws(s[k]),
    ensures
        skip_ws(s, i) == k,
    decreases k - i,
{
    if i < k {
        lemma_skip_ws_run(s, i + 1, k);
    }
}

proof fn lemma_bare_end_run(s: Seq<char>, i: int, k: int)
    requires
        0 <= i <= k <= s.len(),
        forall|j: int| i <= j < k ==> !is_ws(#[trigger] s[j]) && s[j] != '"',
        k == s.len() || is_ws(s[k]) || s[k] == '"',
    ensures
        bare_end(s, i) == k,
    decreases k - i,
{
    if i < k {
        lemma_bare_end_run(s, i + 1, k);
    }
}

/// A line that starts with `//` is a comment, whatever follows and whatever
/// the filesystem holds.
pub proof fn lemma_comment_line(s: Seq<char>, target_exists: bool)
    requires
        s.len() >= 2,
        s[0] == '/',
        s[1] == '/',
    ensures
        classify(s, target_exists) == LineKind::Comment,
{
}

/// The empty line is classified as empty, whatever the filesystem holds.
pub proof fn lemma_empty_line(target_exists: bool)
    ensures
        classify(Seq::<char>::empty(), target_exists) == LineKind::Empty,
{
}

/// Two unquoted, whitespace-free tokens separated by whitespace, with any
/// whitespace around them, give a specification whose paths are exactly
/// the two tokens when the target exists. A line that starts with `//` is
/// a comment instead, so it is left out.
pub proof fn lemma_bare_tokens_line(w1: Seq<char>, t: Seq<char>, w2: Seq<char>, l: Seq<char>, w3: Seq<char>)
    requires
        all_ws(w1),
        all_ws(w2),
        w2.len() > 0,
        all_ws(w3),
        is_bare_token(t),
        is_bare_token(l),
        !is_comment(w1 + t + w2 + l + w3),
    ensures
        spec_paths(w1 + t + w2 + l + w3) == Some((t, l)),
        classify(w1 + t + w2 + l + w3, true) == (LineKind::SlsSpec { target: t, link: l }),
{
    let s = w1 + t + w2 + l + w3;
    let a = w1.len() as int;
    let b = a + t.len();
    let c = b + w2.len();
    let d = c + l.len();
    assert(s.len() == d + w3.len());
    assert forall|j: int| 0 <= j < a implies s[j] == w1[j] by {}
    assert forall|j: int| a <= j < b implies s[j] == t[j - a] by {}
    assert forall|j: int| b <= j < c implies s[j] == w2[j - b] by {}
    assert forall|j: int| c <= j < d implies s[j] == l[j - c] by {}
    assert forall|j: int| d <= j < s.len() implies s[j] == w3[j - d] by {}
    assert(!is_ws(t[0]) && t[0] != '"');
    assert(!is_ws(l[0]) && l[0] != '"');
    assert forall|j: int| 0 <= j < a implies is_ws(#[trigger] s[j]) by {
        assert(is_ws(w1[j]));
    }
    lemma_skip_ws_run(s, 0, a);
    assert forall|j: int| a <= j < b implies !is_ws(#[trigger] s[j]) && s[j] != '"' by {
        assert(!is_ws(t[j - a]) && t[j - a] != '"');
    }
    assert(is_ws(w2[0]));
    lemma_bare_end_run(s, a, b);
    assert forall|j: int| b <= j < c implies is_ws(#[trigger] s[j]) by {
        assert(is_ws(w2[j - b]));
    }
    lemma_skip_ws_run(s, b, c);
    assert forall|j: int| c <= j < d implies !is_ws(#[trigger] s[j]) && s[j] != '"' by {
        assert(!is_ws(l[j - c]) && l[j - c] != '"');
    }
    if d < s.len() {
        assert(is_ws(w3[0]));
    }
    lemma_bare_end_run(s, c, d);
    assert forall|j: int| d <= j < s.len() implies is_ws(#[trigger] s[j]) by {
        assert(is_ws(w3[j - d]));
    }
    lemma_skip_ws_run(s, d, s.len() as int);
    assert(s.subrange(a, b) =~= t);
    assert(s.subrange(c, d) =~= l);
    assert(raw_tokens(s) == Some((t, l)));
    assert(s.len() > 0);
}


/// One or more characters, none of them whitespace.
pub open spec fn is_ws_free(x: Seq<char>) -> bool {
    x.len() > 0 && forall|k: int| 0 <= k < x.len() ==> !is_ws(#[trigger] x[k])
}

/// A path token written in quotes: `"`, one or more characters other than
/// `"`, and `"`.
pub open spec fn is_quoted_token(x: Seq<char>) -> bool {
    &&& x.len() >= 3
    &&& x[0] == '"'
    &&& x[x.len() - 1] == '"'
    &&& forall|k: int| 1 <= k < x.len() - 1 ==> #[trigger] x[k] != '"'
}

/// A word that holds a `"` without being a quoted path token.
pub open spec fn has_stray_quote(x: Seq<char>) -> bool {
    (exists|k: int| 0 <= k < x.len() && #[trigger] x[k] == '"') && !is_quoted_token(x)
}

proof fn lemma_quote_end_props(x: Seq<char>, i: int)
    requires
        0 <= i <= x.len(),
    ensures
        i <= quote_end(x, i) <= x.len(),
        forall|j: int| i <= j < quote_end(x, i) ==> #[trigger] x[j] != '"',
        quote_end(x, i) < x.len() ==> x[quote_end(x, i)] == '"',
    decreases x.len() - i,
{
    if i < x.len() && x[i] != '"' {
        lemma_quote_end_props(x, i + 1);
    }
}

proof fn lemma_bare_end_props(x: Seq<char>, i: int)
    requires
        0 <= i <= x.len(),
    ensures
        i <= bare_end(x, i) <= x.len(),
        forall|j: int| i <= j < bare_end(x, i) ==> !is_ws(#[trigger] x[j]) && x[j] != '"',
        bare_end(x, i) < x.len() ==> is_ws(x[bare_end(x, i)]) || x[bare_end(x, i)] == '"',
    decreases x.len() - i,
{
    if i < x.len() && !is_ws(x[i]) && x[i] != '"' {
        lemma_bare_end_props(x, i + 1);
    }
}

proof fn lemma_quote_end_run(s: Seq<char>, i: int, k: int)
    requires
        0 <= i <= k <= s.len(),
        forall|j: int| i <= j < k ==> #[trigger] s[j] != '"',
        k == s.len() || s[k] == '"',
    ensures
        quote_end(s, i) == k,
    decreases k - i,
{
    if i < k {
        lemma_quote_end_run(s, i + 1, k);
    }
}

/// In a line made of two whitespace-free words with whitespace around and
/// between them, a `"` that does not delimit a whole word makes the line
/// fail the two-path shape: quoting is all or nothing for each path. A line
/// that starts with `//` is a comment instead, so it is left out.
pub proof fn lemma_stray_quote_line(
    w1: Seq<char>,
    t: Seq<char>,
    w2: Seq<char>,
    l: Seq<char>,
    w3: Seq<char>,
    target_exists: bool,
)
    requires
        all_ws(w1),
        all_ws(w2),
        w2.len() > 0,
        all_ws(w3),
        is_ws_free(t),
        is_ws_free(l),
        has_stray_quote(t) || has_stray_quote(l),
        !is_comment(w1 + t + w2 + l + w3),
    ensures
        spec_paths(w1 + t + w2 + l + w3) is None,
        classify(w1 + t + w2 + l + w3, target_exists) == LineKind::Invalid(Invalid::NoMatch),
{
    let s = w1 + t + w2 + l + w3;
    let n = s.len() as int;
    let a = w1.len() as int;
    let b0 = a + t.len();
    let c0 = b0 + w2.len();
    let d0 = c0 + l.len();
    assert(n == d0 + w3.len());
    assert(!is_ws('"'));
    assert forall|j: int| 0 <= j < a implies s[j] == w1[j] by {}
    assert forall|j: int| a <= j < b0 implies s[j] == t[j - a] by {}
    assert forall|j: int| b0 <= j < c0 implies s[j] == w2[j - b0] by {}
    assert forall|j: int| c0 <= j < d0 implies s[j] == l[j - c0] by {}
    assert forall|j: int| d0 <= j < n implies s[j] == w3[j - d0] by {}
    assert forall|j: int| 0 <= j < a implies is_ws(#[trigger] s[j]) by {
        assert(is_ws(w1[j]));
    }
    assert(!is_ws(t[0]));
    lemma_skip_ws_run(s, 0, a);
    assert forall|j: int| b0 <= j < c0 implies is_ws(#[trigger] s[j]) && s[j] != '"' by {
        assert(is_ws(w2[j - b0]));
    }
    assert forall|j: int| d0 <= j < n implies is_ws(#[trigger] s[j]) && s[j] != '"' by {
        assert(is_ws(w3[j - d0]));
    }
    assert forall|j: int| a <= j < b0 implies !is_ws(#[trigger] s[j]) by {
        assert(!is_ws(t[j - a]));
    }
    assert forall|j: int| c0 <= j < d0 implies !is_ws(#[trigger] s[j]) by {
        assert(!is_ws(l[j - c0]));
    }
    lemma_skip_ws_run(s, d0, n);
    if has_stray_quote(t) {
        let qk = choose|k: int| 0 <= k < t.len() && #[trigger] t[k] == '"';
        if t[0] != '"' {
            lemma_bare_end_props(t, 0);
            lemma_bare_end_props(t, 1);
            let k = bare_end(t, 0);
            assert(k >= 1);
            assert(k <= qk);
            assert(t[k] == '"');
            assert forall|j: int| a <= j < a + k implies !is_ws(#[trigger] s[j]) && s[j] != '"' by {
                assert(t[j - a] != '"');
            }
            lemma_bare_end_run(s, a, a + k);
            assert(token_end(s, a) == Some(a + k));
            assert(skip_ws(s, a + k) == a + k);
        } else {
            lemma_quote_end_props(t, 1);
            let q = quote_end(t, 1);
            assert forall|j: int| a + 1 <= j < a + q implies #[trigger] s[j] != '"' by {
                assert(t[j - a] != '"');
            }
            if q < t.len() {
                lemma_quote_end_run(s, a + 1, a + q);
                if q > 1 {
                    if q + 1 < t.len() {
                        assert(s[a + q + 1] == t[q + 1]);
                        assert(skip_ws(s, a + q + 1) == a + q + 1);
                    } else {
                        assert(is_quoted_token(t));
                    }
                }
            } else {
                lemma_quote_end_props(l, 0);
                let m = quote_end(l, 0);
                assert forall|j: int| c0 <= j < c0 + m implies #[trigger] s[j] != '"' by {
                    assert(l[j - c0] != '"');
                }
                if m < l.len() {
                    assert(s[c0 + m] == '"');
                    lemma_quote_end_run(s, a + 1, c0 + m);
                    assert(token_end(s, a) == Some(c0 + m + 1));
                    if m + 1 < l.len() {
                        assert(s[c0 + m + 1] == l[m + 1]);
                        assert(skip_ws(s, c0 + m + 1) == c0 + m + 1);
                    } else {
                        assert(c0 + m + 1 == d0);
                        assert(bare_end(s, n) == n);
                    }
                } else {
                    lemma_quote_end_run(s, a + 1, n);
                }
            }
        }
    } else {
        assert(has_stray_quote(l));
        if is_quoted_token(t) {
            assert forall|j: int| a + 1 <= j < b0 - 1 implies #[trigger] s[j] != '"' by {
                assert(t[j - a] != '"');
            }
            lemma_quote_end_run(s, a + 1, b0 - 1);
        } else {
            assert forall|j: int| a <= j < b0 implies !is_ws(#[trigger] s[j]) && s[j] != '"' by {
                assert(t[j - a] != '"');
            }
            assert(is_ws(w2[0]));
            lemma_bare_end_run(s, a, b0);
        }
        assert(token_end(s, a) == Some(b0));
        assert(!is_ws(l[0]));
        lemma_skip_ws_run(s, b0, c0);
        let qk = choose|k: int| 0 <= k < l.len() && #[trigger] l[k] == '"';
        if l[0] != '"' {
            lemma_bare_end_props(l, 0);
            lemma_bare_end_props(l, 1);
            let k = bare_end(l, 0);
            assert(k >= 1);
            assert(k <= qk);
            assert(l[k] == '"');
            assert forall|j: int| c0 <= j < c0 + k implies !is_ws(#[trigger] s[j]) && s[j] != '"' by {
                assert(l[j - c0] != '"');
            }
            lemma_bare_end_run(s, c0, c0 + k);
            assert(token_end(s, c0) == Some(c0 + k));
            assert(skip_ws(s, c0 + k) == c0 + k);
        } else {
            lemma_quote_end_props(l, 1);
            let q = quote_end(l, 1);
            assert forall|j: int| c0 + 1 <= j < c0 + q implies #[trigger] s[j] != '"' by {
                assert(l[j - c0] != '"');
            }
            if q < l.len() {
                lemma_quote_end_run(s, c0 + 1, c0 + q);
                if q > 1 {
                    if q + 1 < l.len() {
                        assert(s[c0 + q + 1] == l[q + 1]);
                        assert(skip_ws(s, c0 + q + 1) == c0 + q + 1);
                    } else {
                        assert(is_quoted_token(l));
                    }
                }
            } else {
                lemma_quote_end_run(s, c0 + 1, n);
            }
        }
    }
}

} // verus!
