//! Paths as text, with `/` as the separator.

use vstd::prelude::*;
use vstd::string::{StrSliceExecFns, StringExecFns};

verus! {

/// An absolute path starts at the root.
pub open spec fn is_absolute_path(p: Seq<char>) -> bool {
    p.len() > 0 && p[0] == '/'
}

/// The path without what ends it and names no segment: trailing slashes and
/// a trailing `.` after a slash (`a/./` becomes `a`).
pub open spec fn trim_trailing(p: Seq<char>) -> Seq<char>
    decreases p.len(),
{
    if p.len() > 0 && p.last() == '/' {
        trim_trailing(p.drop_last())
    } else if p.len() >= 2 && p.last() == '.' && p[p.len() - 2] == '/' {
        trim_trailing(p.drop_last())
    } else {
        p
    }
}

/// The length of the part of `p` up to and including its last slash (0 when it has none).
pub open spec fn dir_prefix_len(p: Seq<char>) -> nat
    decreases p.len(),
{
    if p.len() == 0 {
        0
    } else if p.last() == '/' {
        p.len()
    } else {
        dir_prefix_len(p.drop_last())
    }
}

/// The last segment of the path, trailing slashes and `.` segments ignored;
/// none when that segment is empty, `.` or `..`.
pub open spec fn file_name(p: Seq<char>) -> Option<Seq<char>> {
    let t = trim_trailing(p);
    let name = t.subrange(dir_prefix_len(t) as int, t.len() as int);
    if name.len() == 0 || name == seq!['.'] || name == seq!['.', '.'] {
        None
    } else {
        Some(name)
    }
}

/// The "partial" form of a path: its last segment with `_` in front
/// (`foo/bar` becomes `foo/_bar`).
pub open spec fn partial_form(p: Seq<char>) -> Option<Seq<char>> {
    match file_name(p) {
        Some(name) => {
            let t = trim_trailing(p);
            Some(t.subrange(0, dir_prefix_len(t) as int) + seq!['_'] + name)
        },
        None => None,
    }
}

/// The directory that holds the path: none for the root and the empty path,
/// the empty path for a single relative segment.
pub open spec fn parent_dir(p: Seq<char>) -> Option<Seq<char>> {
    let t = trim_trailing(p);
    if t.len() == 0 {
        None
    } else {
        let d = trim_trailing(t.subrange(0, dir_prefix_len(t) as int));
        if dir_prefix_len(t) == 0 {
            Some(Seq::empty())
        } else if d.len() == 0 {
            Some(seq!['/'])
        } else {
            Some(d)
        }
    }
}

/// `rel` placed under `base`; an absolute `rel` stands for itself.
pub open spec fn join_path(base: Seq<char>, rel: Seq<char>) -> Seq<char> {
    if is_absolute_path(rel) || base.len() == 0 {
        rel
    } else if base.last() == '/' {
        base + rel
    } else {
        base + seq!['/'] + rel
    }
}

proof fn lemma_trim_prefix(p: Seq<char>)
    ensures
        trim_trailing(p).len() <= p.len(),
        trim_trailing(p) == p.subrange(0, trim_trailing(p).len() as int),
    decreases p.len(),
{
    if (p.len() > 0 && p.last() == '/') || (p.len() >= 2 && p.last() == '.' && p[p.len() - 2]
        == '/') {
        lemma_trim_prefix(p.drop_last());
        assert(p.drop_last().subrange(0, trim_trailing(p).len() as int) =~= p.subrange(
            0,
            trim_trailing(p).len() as int,
        ));
    } else {
        assert(p.subrange(0, p.len() as int) =~= p);
    }
}

proof fn lemma_dir_prefix(p: Seq<char>)
    ensures
        dir_prefix_len(p) <= p.len(),
        dir_prefix_len(p) > 0 ==> p[dir_prefix_len(p) - 1] == '/',
        forall|i: int| dir_prefix_len(p) <= i < p.len() ==> p[i] != '/',
    decreases p.len(),
{
    if p.len() > 0 && p.last() != '/' {
        lemma_dir_prefix(p.drop_last());
        assert forall|i: int| dir_prefix_len(p) <= i < p.len() implies p[i] != '/' by {
            if i < p.len() - 1 {
                assert(p.drop_last()[i] == p[i]);
            }
        }
    }
}

/// The length of `p` without what `trim_trailing` removes.
fn trimmed_len(p: &str) -> (r: usize)
    ensures
        r == trim_trailing(p@).len(),
{
    let n = p.unicode_len();
    let mut k: usize = n;
    assert(p@.subrange(0, n as int) =~= p@);
    while k > 0 && (p.get_char(k - 1) == '/' || (k >= 2 && p.get_char(k - 1) == '.' && p.get_char(
        k - 2,
    ) == '/'))
        invariant
            k <= n,
            n == p@.len(),
            trim_trailing(p@) == trim_trailing(p@.subrange(0, k as int)),
        decreases k,
    {
        let ghost q = p@.subrange(0, k as int);
        assert(q.last() == p@[k - 1]);
        assert(k >= 2 ==> q[q.len() - 2] == p@[k - 2]);
        assert(q.drop_last() =~= p@.subrange(0, k - 1));
        k = k - 1;
    }
    let ghost q = p@.subrange(0, k as int);
    if k > 0 {
        assert(q.last() == p@[k - 1]);
    }
    if k >= 2 {
        assert(q[q.len() - 2] == p@[k - 2]);
    }
    assert(trim_trailing(q) == q);
    k
}

/// The position after the last slash among the first `len` characters of `p`.
fn dir_prefix_end(p: &str, len: usize) -> (r: usize)
    requires
        len <= p@.len(),
    ensures
        r == dir_prefix_len(p@.subrange(0, len as int)),
{
    let mut k: usize = len;
    while k > 0 && p.get_char(k - 1) != '/'
        invariant
            k <= len <= p@.len(),
            dir_prefix_len(p@.subrange(0, len as int)) == dir_prefix_len(p@.subrange(0, k as int)),
        decreases k,
    {
        assert(p@.subrange(0, k as int).drop_last() =~= p@.subrange(0, k - 1));
        k = k - 1;
    }
    if k > 0 {
        assert(p@.subrange(0, k as int).last() == p@[k - 1]);
    }
    k
}

/// Whether `p` is an absolute path.
pub fn is_absolute(p: &str) -> (r: bool)
    ensures
        r == is_absolute_path(p@),
{
    p.unicode_len() > 0 && p.get_char(0) == '/'
}

/// The partial form of `p` (`dir/name` becomes `dir/_name`), when `p` ends in a file name.
pub fn partial_path(p: &str) -> (r: Option<String>)
    ensures
        r.deep_view() == partial_form(p@),
{
    let t = trimmed_len(p);
    proof {
        lemma_trim_prefix(p@);
    }
    let k = dir_prefix_end(p, t);
    let ghost ts = p@.subrange(0, t as int);
    assert(ts == trim_trailing(p@));
    proof {
        lemma_dir_prefix(ts);
    }
    let name = p.substring_char(k, t);
    assert(name@ =~= ts.subrange(k as int, t as int));
    let n = name.unicode_len();
    if n == 0 || (n == 1 && name.get_char(0) == '.') || (n == 2 && name.get_char(0) == '.'
        && name.get_char(1) == '.') {
        assert(n == 1 ==> name@[0] == '.' ==> name@ =~= seq!['.']);
        assert(n == 2 ==> name@[0] == '.' ==> name@[1] == '.' ==> name@ =~= seq!['.', '.']);
        return None;
    }
    assert(name@ != seq!['.']) by {
        if n == 1 {
            assert(name@[0] != '.');
        }
    }
    assert(name@ != seq!['.', '.']) by {
        if n == 2 {
            assert(name@[0] != '.' || name@[1] != '.');
        }
    }
    let mut out = String::from_str(p.substring_char(0, k));
    proof {
        reveal_strlit("_");
    }
    out.append("_");
    out.append(name);
    assert(out@ =~= ts.subrange(0, k as int) + seq!['_'] + name@);
    Some(out)
}

/// The directory that holds `p`, when it has one.
pub fn parent_path(p: &str) -> (r: Option<String>)
    ensures
        r.deep_view() == parent_dir(p@),
{
    let t = trimmed_len(p);
    proof {
        lemma_trim_prefix(p@);
    }
    let ghost ts = p@.subrange(0, t as int);
    assert(ts == trim_trailing(p@));
    if t == 0 {
        return None;
    }
    let k = dir_prefix_end(p, t);
    proof {
        lemma_dir_prefix(ts);
    }
    if k == 0 {
        proof {
            reveal_strlit("");
        }
        return Some(String::from_str(""));
    }
    let head = p.substring_char(0, k);
    assert(head@ =~= ts.subrange(0, k as int));
    let d = trimmed_len(head);
    proof {
        lemma_trim_prefix(head@);
    }
    if d == 0 {
        proof {
            reveal_strlit("/");
        }
        assert("/"@ =~= seq!['/']);
        Some(String::from_str("/"))
    } else {
        let dir = head.substring_char(0, d);
        Some(String::from_str(dir))
    }
}

/// `rel` placed under `base`.
pub fn join(base: &str, rel: &str) -> (r: String)
    ensures
        r@ == join_path(base@, rel@),
{
    let n = base.unicode_len();
    if is_absolute(rel) || n == 0 {
        return String::from_str(rel);
    }
    let mut out = String::from_str(base);
    if base.get_char(n - 1) != '/' {
        proof {
            reveal_strlit("/");
        }
        out.append("/");
    }
    out.append(rel);
    assert(out@ =~= join_path(base@, rel@));
    out
}

/// The regular expression of the bundler convention `~pkg/...`: a `~` at the
/// start, followed by a segment that it captures.
pub open spec fn tilde_pattern() -> Seq<char> {
    seq!['^', '~', '(', '[', '^', '/', ']', '+', ')']
}

/// Whether `s` starts with `~` followed by a character other than `/`.
pub open spec fn has_tilde_prefix(s: Seq<char>) -> bool {
    s.len() >= 2 && s[0] == '~' && s[1] != '/'
}

/// `s` without the `~` of the convention, when it has one.
pub open spec fn strip_tilde(s: Seq<char>) -> Seq<char> {
    if has_tilde_prefix(s) {
        s.subrange(1, s.len() as int)
    } else {
        s
    }
}

/// Relies on regex::Regex::new and regex::Regex::is_match: the pattern
/// `^~([^/]+)` compiles, and a text matches it exactly when it starts with `~`
/// and one character other than `/`.
#[verifier::external_body]
fn regex_is_match(pattern: &str, text: &str) -> (r: bool)
    requires
        pattern@ == tilde_pattern(),
    ensures
        r == has_tilde_prefix(text@),
{
    match regex::Regex::new(pattern) {
        Ok(re) => re.is_match(text),
        Err(_) => false,
    }
}

/// Relies on regex::Regex::new and regex::Regex::replace: with the pattern
/// `^~([^/]+)` and the replacement `$1`, the first match (the `~` and the
/// segment after it) is replaced by the segment, which drops the `~`; a text
/// without a match is returned as it is.
#[verifier::external_body]
fn regex_replace(pattern: &str, text: &str, replacement: &str) -> (r: String)
    requires
        pattern@ == tilde_pattern(),
        replacement@ == seq!['$', '1'],
    ensures
        r@ == strip_tilde(text@),
{
    match regex::Regex::new(pattern) {
        Ok(re) => re.replace(text, replacement).into_owned(),
        Err(_) => text.to_string(),
    }
}

fn tilde_pattern_text() -> (r: &'static str)
    ensures
        r@ == tilde_pattern(),
{
    proof {
        reveal_strlit("^~([^/]+)");
    }
    "^~([^/]+)"
}

/// Whether `s` follows the `~pkg/...` convention.
pub fn matches_tilde_prefix(s: &str) -> (r: bool)
    ensures
        r == has_tilde_prefix(s@),
{
    regex_is_match(tilde_pattern_text(), s)
}

/// `s` with the leading `~` of the `~pkg/...` convention removed.
pub fn strip_tilde_prefix(s: &str) -> (r: String)
    ensures
        r@ == strip_tilde(s@),
{
    proof {
        reveal_strlit("$1");
    }
    assert("$1"@ =~= seq!['$', '1']);
    regex_replace(tilde_pattern_text(), s, "$1")
}

/// What `absolutize_with` makes of `path` against the directory `cwd`.
pub uninterp spec fn absolutized(path: Seq<char>, cwd: Seq<char>) -> Seq<char>;

/// Relies on sugar_path::SugarPath::absolutize_with: an absolute path is
/// normalized, a relative one is put under `cwd` and normalized; the result
/// depends on the two texts alone, and it is absolute (lexical normalization
/// keeps the root). It panics when neither is absolute.
#[verifier::external_body]
pub(crate) fn absolutize_with(path: &str, cwd: &str) -> (r: String)
    requires
        is_absolute_path(path@) || is_absolute_path(cwd@),
    ensures
        r@ == absolutized(path@, cwd@),
        is_absolute_path(r@),
{
    sugar_path::SugarPath::absolutize_with(std::path::Path::new(path), cwd).to_string_lossy().into_owned()
}

/// Relies on path_slash::PathExt::to_slash_lossy: on Unix, where `/` is the
/// only separator, it gives back the text of the path unchanged.
#[verifier::external_body]
pub(crate) fn to_slash_lossy(path: &str) -> (r: String)
    ensures
        r@ == path@,
{
    path_slash::PathExt::to_slash_lossy(std::path::Path::new(path)).into_owned()
}

/// Relies on std::path::Path::is_dir: whether a directory stands at `path`;
/// the answer comes from the file system, so nothing is known of it.
#[verifier::external_body]
pub(crate) fn is_existing_dir(path: &str) -> bool {
    std::path::Path::new(path).is_dir()
}

} // verus!
