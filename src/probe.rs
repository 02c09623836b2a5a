//! Probe requests and the rules shared by both resolution strategies: where a
//! search starts, the two-phase probe, and the first answer winning.

use crate::paths::{is_existing_dir, parent_dir, parent_path, partial_form, partial_path};
use vstd::prelude::*;
use vstd::string::{StrSliceExecFns, StringExecFns};

verus! {

/// One request handed to the path resolver: `request` looked up from the
/// directory `base`.
pub struct Probe {
    pub base: String,
    pub request: String,
}

impl View for Probe {
    type V = (Seq<char>, Seq<char>);

    open spec fn view(&self) -> (Seq<char>, Seq<char>) {
        (self.base@, self.request@)
    }
}

pub open spec fn probes_view(v: Seq<Probe>) -> Seq<(Seq<char>, Seq<char>)> {
    v.map_values(|p: Probe| p@)
}

/// The name that stands for "no file": standard input.
pub open spec fn stdin_name() -> Seq<char> {
    seq!['s', 't', 'd', 'i', 'n']
}

/// The importing path with "stdin" replaced by the entry file, or by the
/// working directory when there is no entry file.
pub open spec fn context_path(current: Seq<char>, file: Option<Seq<char>>, pwd: Seq<char>) -> Seq<
    char,
> {
    if current == stdin_name() {
        match file {
            Some(f) => f,
            None => pwd,
        }
    } else {
        current
    }
}

/// Where a search starts: the path itself if it is a directory, else its
/// parent, else the working directory.
pub open spec fn search_base(p: Seq<char>, p_is_dir: bool, pwd: Seq<char>) -> Seq<char> {
    if p_is_dir {
        p
    } else {
        match parent_dir(p) {
            Some(d) => d,
            None => pwd,
        }
    }
}

/// The literal request, then its partial form when it has one.
pub open spec fn two_phase(base: Seq<char>, request: Seq<char>) -> Seq<(Seq<char>, Seq<char>)> {
    match partial_form(request) {
        Some(q) => seq![(base, request), (base, q)],
        None => seq![(base, request)],
    }
}

/// The first answer that names a file; none when every probe came back empty.
pub open spec fn first_found(outcomes: Seq<Option<Seq<char>>>) -> Option<Seq<char>>
    decreases outcomes.len(),
{
    if outcomes.len() == 0 {
        None
    } else if outcomes[0] is Some {
        outcomes[0]
    } else {
        first_found(outcomes.drop_first())
    }
}

/// Whether `p` is the text "stdin".
pub fn is_stdin(p: &str) -> (r: bool)
    ensures
        r == (p@ == stdin_name()),
{
    let n = p.unicode_len();
    if n != 5 {
        return false;
    }
    let r = p.get_char(0) == 's' && p.get_char(1) == 't' && p.get_char(2) == 'd' && p.get_char(3)
        == 'i' && p.get_char(4) == 'n';
    assert(r ==> p@ =~= stdin_name());
    r
}

/// The importing path, with "stdin" replaced as `context_path` says.
pub fn context_of(current: &str, file: &Option<String>, pwd: &String) -> (r: String)
    ensures
        r@ == context_path(current@, file.deep_view(), pwd@),
{
    if is_stdin(current) {
        match file {
            Some(f) => f.clone(),
            None => pwd.clone(),
        }
    } else {
        String::from_str(current)
    }
}

/// Where a search from `p` starts, given whether `p` is a directory.
pub fn search_base_of(p: &str, p_is_dir: bool, pwd: &String) -> (r: String)
    ensures
        r@ == search_base(p@, p_is_dir, pwd@),
{
    if p_is_dir {
        return String::from_str(p);
    }
    match parent_path(p) {
        Some(d) => d,
        None => pwd.clone(),
    }
}

/// Where the search for an import of `current` starts: "stdin" stands for the
/// entry file or the working directory; a directory is kept, a file gives its
/// parent. Whether the path is a directory is asked of the file system.
pub fn search_context_of(current: &str, file: &Option<String>, pwd: &String) -> (r: String)
    ensures
        ({
            let c = context_path(current@, file.deep_view(), pwd@);
            r@ == search_base(c, true, pwd@) || r@ == search_base(c, false, pwd@)
        }),
{
    let p = context_of(current, file, pwd);
    let p_is_dir = is_existing_dir(p.as_str());
    search_base_of(p.as_str(), p_is_dir, pwd)
}

/// Appends the two-phase probe of `request` from `base` to `out`.
pub fn push_two_phase(base: &str, request: &str, out: &mut Vec<Probe>)
    ensures
        probes_view(final(out)@) == probes_view(old(out)@) + two_phase(base@, request@),
{
    let first = Probe { base: String::from_str(base), request: String::from_str(request) };
    out.push(first);
    match partial_path(request) {
        Some(q) => {
            let second = Probe { base: String::from_str(base), request: q };
            out.push(second);
        },
        None => {},
    }
    assert(probes_view(out@) =~= probes_view(old(out)@) + two_phase(base@, request@));
}

/// The first answer that names a file.
pub fn first_found_path(outcomes: &Vec<Option<String>>) -> (r: Option<String>)
    ensures
        r.deep_view() == first_found(outcomes.deep_view()),
{
    let mut i: usize = 0;
    assert(outcomes.deep_view().subrange(0, outcomes@.len() as int) =~= outcomes.deep_view());
    while i < outcomes.len()
        invariant
            i <= outcomes@.len(),
            first_found(outcomes.deep_view()) == first_found(outcomes.deep_view().subrange(
                i as int,
                outcomes@.len() as int,
            )),
        decreases outcomes@.len() - i,
    {
        let ghost rest = outcomes.deep_view().subrange(i as int, outcomes@.len() as int);
        assert(rest[0] == outcomes@[i as int].deep_view());
        if outcomes[i].is_some() {
            return outcomes[i].clone();
        }
        assert(rest.drop_first() =~= outcomes.deep_view().subrange(i + 1, outcomes@.len() as int));
        i = i + 1;
    }
    None
}

} // verus!
