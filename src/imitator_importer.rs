//! The local resolution strategy: Sass import conventions on the file system
//! alone, with no host callback.

use crate::paths::{
    absolutize_with, absolutized, dir_prefix_len, file_name, has_tilde_prefix, is_absolute,
    is_absolute_path, join, join_path, matches_tilde_prefix, partial_form, strip_tilde,
    strip_tilde_prefix, to_slash_lossy, trim_trailing,
};
use crate::probe::{
    context_path, first_found, probes_view, push_two_phase, search_base, search_context_of,
    two_phase, Probe,
};
use crate::resolver::{
    bases_absolute, probe_run, sass_extensions, sass_index_names, PathResolver, ProbeTrace,
    ResolverOptions,
};
use vstd::prelude::*;
use vstd::string::StringExecFns;

verus! {

/// The two-phase probes of `request` under each load path, in the order given.
pub open spec fn load_path_probes(
    base: Seq<char>,
    load_paths: Seq<Seq<char>>,
    request: Seq<char>,
) -> Seq<(Seq<char>, Seq<char>)>
    decreases load_paths.len(),
{
    if load_paths.len() == 0 {
        Seq::empty()
    } else {
        two_phase(base, join_path(load_paths[0], request)) + load_path_probes(
            base,
            load_paths.drop_first(),
            request,
        )
    }
}

/// The probes of an import, in order, from the directory `context` made
/// absolute: an absolute request is probed as it is; `~pkg/...` loses its `~` and gets
/// the two-phase probe; any other request gets the two-phase probe from the
/// context, then under each load path.
pub open spec fn import_plan(
    context: Seq<char>,
    pwd: Seq<char>,
    request: Seq<char>,
    load_paths: Seq<Seq<char>>,
) -> Seq<(Seq<char>, Seq<char>)> {
    if is_absolute_path(request) {
        seq![(absolutized(context, pwd), request)]
    } else if has_tilde_prefix(request) {
        two_phase(absolutized(context, pwd), strip_tilde(request))
    } else {
        two_phase(absolutized(context, pwd), request) + load_path_probes(
            absolutized(context, pwd),
            load_paths,
            request,
        )
    }
}

/// Resolves imports by the file-system conventions of Sass.
pub struct ImitatorImporter {
    pwd: String,
    file: Option<String>,
    sass_file_resolver: PathResolver,
    sass_context_resolver: PathResolver,
}

impl ImitatorImporter {
    /// The working directory.
    pub closed spec fn spec_pwd(&self) -> Seq<char> {
        self.pwd@
    }

    /// The entry file, if the compilation has one.
    pub closed spec fn spec_file(&self) -> Option<Seq<char>> {
        self.file.deep_view()
    }

    /// The options of the resolver of files ("resource" mode).
    pub closed spec fn file_options(&self) -> ResolverOptions {
        self.sass_file_resolver.spec_options()
    }

    /// The options of the resolver of directories ("context" mode).
    pub closed spec fn context_options(&self) -> ResolverOptions {
        self.sass_context_resolver.spec_options()
    }

    /// An absolute working directory, and both resolvers built with the Sass
    /// extensions and index names, links followed, one in each mode.
    pub open spec fn wf(&self) -> bool {
        &&& is_absolute_path(self.spec_pwd())
        &&& self.file_options().extensions.deep_view() == sass_extensions()
        &&& self.file_options().main_files.deep_view() == sass_index_names()
        &&& self.file_options().symlinks
        &&& !self.file_options().resolve_to_context
        &&& self.context_options().extensions.deep_view() == sass_extensions()
        &&& self.context_options().main_files.deep_view() == sass_index_names()
        &&& self.context_options().symlinks
        &&& self.context_options().resolve_to_context
    }

    /// An importer for the entry file `file`, run from the working directory `pwd`.
    pub fn new(file: Option<String>, pwd: String) -> (r: Self)
        requires
            is_absolute_path(pwd@),
        ensures
            r.wf(),
            r.spec_pwd() == pwd@,
            r.spec_file() == file.deep_view(),
    {
        ImitatorImporter {
            pwd,
            file,
            sass_file_resolver: PathResolver::new(ResolverOptions::sass(false)),
            sass_context_resolver: PathResolver::new(ResolverOptions::sass(true)),
        }
    }

    /// The import path with `/` separators.
    pub fn normalize_import_path(&self, import_path: &str) -> (r: String)
        ensures
            r@ == import_path@,
    {
        to_slash_lossy(import_path)
    }

    /// The two-phase probes of `import_path` from `current_path`, made absolute.
    pub fn sass_file_probes(&self, current_path: &str, import_path: &str) -> (r: Vec<Probe>)
        requires
            self.wf(),
        ensures
            probes_view(r@) == two_phase(absolutized(current_path@, self.spec_pwd()), import_path@),
            bases_absolute(probes_view(r@)),
    {
        let base = absolutize_with(current_path, self.pwd.as_str());
        let import_path = self.normalize_import_path(import_path);
        let mut plan: Vec<Probe> = Vec::new();
        assert(probes_view(plan@) =~= Seq::empty());
        push_two_phase(base.as_str(), import_path.as_str(), &mut plan);
        assert(probes_view(plan@) =~= two_phase(base@, import_path@));
        plan
    }

    /// Resolves `import_path` from `current_path`: the path itself, then its
    /// partial form; the first file found. The probes made are in `trace`.
    pub fn sass_file_resolve(&self, current_path: &str, import_path: &str, trace: &mut ProbeTrace) -> (r:
        Option<String>)
        requires
            self.wf(),
            old(trace).asked().len() == 0,
            old(trace).answers().len() == 0,
        ensures
            probe_run(
                two_phase(absolutized(current_path@, self.spec_pwd()), import_path@),
                false,
                *final(trace),
                r.deep_view(),
            ),
    {
        let plan = self.sass_file_probes(current_path, import_path);
        self.sass_file_resolver.first_resolved(&plan, trace)
    }

    /// Resolves `import_path` from `current_path` in context mode, where a
    /// directory is an answer; no partial form is tried. The one probe made is
    /// in `trace`.
    pub fn sass_context_resolve(&self, current_path: &str, import_path: &str, trace: &mut ProbeTrace) -> (r:
        Option<String>)
        requires
            self.wf(),
            old(trace).asked().len() == 0,
            old(trace).answers().len() == 0,
        ensures
            probe_run(
                seq![(absolutized(current_path@, self.spec_pwd()), import_path@)],
                true,
                *final(trace),
                r.deep_view(),
            ),
    {
        let import_path = self.normalize_import_path(import_path);
        let base = absolutize_with(current_path, self.pwd.as_str());
        let r = self.sass_context_resolver.resolve(base.as_str(), import_path.as_str(), trace);
        proof {
            let t = *final(trace);
            assert(t.answers() =~= seq![r.deep_view()]);
            assert(t.answers().drop_first() =~= Seq::<Option<Seq<char>>>::empty());
            assert(first_found(Seq::<Option<Seq<char>>>::empty()) is None);
        }
        r
    }

    /// Where the search for an import of `current_path` starts: "stdin" stands
    /// for the entry file or the working directory; a directory is kept, a file
    /// gives its parent. Whether the path is a directory is asked of the file
    /// system.
    pub fn search_context(&self, current_path: &str) -> (r: String)
        ensures
            ({
                let c = context_path(current_path@, self.spec_file(), self.spec_pwd());
                r@ == search_base(c, true, self.spec_pwd()) || r@ == search_base(
                    c,
                    false,
                    self.spec_pwd(),
                )
            }),
    {
        search_context_of(current_path, &self.file, &self.pwd)
    }

    /// The probes of `import_path` from the directory `context`, in order.
    pub fn import_plan(&self, context: &str, import_path: &str, load_paths: &Vec<String>) -> (r: Vec<
        Probe,
    >)
        requires
            self.wf(),
        ensures
            probes_view(r@) == import_plan(
                context@,
                self.spec_pwd(),
                import_path@,
                load_paths.deep_view(),
            ),
            bases_absolute(probes_view(r@)),
    {
        let mut plan: Vec<Probe> = Vec::new();
        if is_absolute(import_path) {
            let base = absolutize_with(context, self.pwd.as_str());
            plan.push(Probe { base, request: String::from_str(import_path) });
            assert(probes_view(plan@) =~= seq![(absolutized(context@, self.spec_pwd()), import_path@)]);
            return plan;
        }
        if matches_tilde_prefix(import_path) {
            let rest = strip_tilde_prefix(import_path);
            let tilde_plan = self.sass_file_probes(context, rest.as_str());
            return tilde_plan;
        }
        let base = absolutize_with(context, self.pwd.as_str());
        assert(probes_view(plan@) =~= Seq::empty());
        push_two_phase(base.as_str(), import_path, &mut plan);
        assert(probes_view(plan@) =~= two_phase(base@, import_path@));
        assert(bases_absolute(two_phase(base@, import_path@)));
        let ghost lps = load_paths.deep_view();
        assert(lps.subrange(0, lps.len() as int) =~= lps);
        let mut i: usize = 0;
        while i < load_paths.len()
            invariant
                i <= load_paths@.len(),
                lps == load_paths.deep_view(),
                base@ == absolutized(context@, self.spec_pwd()),
                is_absolute_path(base@),
                bases_absolute(probes_view(plan@)),
                probes_view(plan@) + load_path_probes(base@, lps.subrange(i as int, lps.len() as int), import_path@)
                    == import_plan(context@, self.spec_pwd(), import_path@, lps),
            decreases load_paths@.len() - i,
        {
            let ghost before = probes_view(plan@);
            let ghost rest = lps.subrange(i as int, lps.len() as int);
            assert(rest[0] == load_paths@[i as int]@);
            assert(rest.drop_first() =~= lps.subrange(i + 1, lps.len() as int));
            let joined = join(load_paths[i].as_str(), import_path);
            push_two_phase(base.as_str(), joined.as_str(), &mut plan);
            assert(before + load_path_probes(base@, rest, import_path@) =~= probes_view(plan@)
                + load_path_probes(base@, rest.drop_first(), import_path@));
            let ghost pv = probes_view(plan@);
            assert(pv == before + two_phase(base@, joined@));
            assert forall|j: int| 0 <= j < pv.len() implies is_absolute_path(#[trigger] pv[j].0) by {
                if j >= before.len() {
                    assert(pv[j] == two_phase(base@, joined@)[j - before.len()]);
                } else {
                    assert(pv[j] == before[j]);
                }
            }
            i = i + 1;
        }
        assert(lps.subrange(i as int, lps.len() as int) =~= Seq::<Seq<char>>::empty());
        assert(probes_view(plan@) =~= probes_view(plan@) + load_path_probes(
            base@,
            Seq::<Seq<char>>::empty(),
            import_path@,
        ));
        plan
    }

    /// Resolves an import written in `current_path`: the probes of
    /// `import_plan` from the search context, in order, until one finds a
    /// file. The probes made are in `trace`.
    pub fn find_import(
        &self,
        current_path: &str,
        import_path: &str,
        load_paths: &Vec<String>,
        trace: &mut ProbeTrace,
    ) -> (r: Option<String>)
        requires
            self.wf(),
            old(trace).asked().len() == 0,
            old(trace).answers().len() == 0,
        ensures
            ({
                let c = context_path(current_path@, self.spec_file(), self.spec_pwd());
                let plan_dir = import_plan(
                    search_base(c, true, self.spec_pwd()),
                    self.spec_pwd(),
                    import_path@,
                    load_paths.deep_view(),
                );
                let plan_file = import_plan(
                    search_base(c, false, self.spec_pwd()),
                    self.spec_pwd(),
                    import_path@,
                    load_paths.deep_view(),
                );
                probe_run(plan_dir, false, *final(trace), r.deep_view()) || probe_run(
                    plan_file,
                    false,
                    *final(trace),
                    r.deep_view(),
                )
            }),
    {
        let context = self.search_context(current_path);
        let plan = self.import_plan(context.as_str(), import_path, load_paths);
        self.sass_file_resolver.first_resolved(&plan, trace)
    }
}

/// The first file found among two runs of probes made one after the other is
/// the first run's, when it found one, else the second run's: an earlier probe
/// always wins over a later one.
pub proof fn law_first_found_concat(first: Seq<Option<Seq<char>>>, second: Seq<Option<Seq<char>>>)
    ensures
        first_found(first + second) == (if first_found(first) is Some {
            first_found(first)
        } else {
            first_found(second)
        }),
    decreases first.len(),
{
    if first.len() == 0 {
        assert(first + second =~= second);
    } else {
        assert((first + second)[0] == first[0]);
        assert((first + second).drop_first() =~= first.drop_first() + second);
        law_first_found_concat(first.drop_first(), second);
    }
}

proof fn lemma_dir_prefix_of_segment(dir: Seq<char>, name: Seq<char>)
    requires
        forall|i: int| 0 <= i < name.len() ==> name[i] != '/',
    ensures
        dir_prefix_len(dir + seq!['/'] + name) == dir.len() + 1,
    decreases name.len(),
{
    let p = dir + seq!['/'] + name;
    if name.len() == 0 {
        assert(p.last() == '/');
    } else {
        assert(p.last() == name.last());
        assert(p.drop_last() =~= dir + seq!['/'] + name.drop_last());
        lemma_dir_prefix_of_segment(dir, name.drop_last());
    }
}

/// A relative request `dir/name` is probed first as written, then as
/// `dir/_name`; in a run of those probes (what `find_import` makes from the
/// search context), when the first finds nothing and the second finds a file,
/// that file is the answer.
pub proof fn law_partial_fallback(
    context: Seq<char>,
    pwd: Seq<char>,
    dir: Seq<char>,
    name: Seq<char>,
    load_paths: Seq<Seq<char>>,
    trace: ProbeTrace,
    r: Option<Seq<char>>,
    found: Seq<char>,
)
    requires
        !is_absolute_path(dir + seq!['/'] + name),
        !has_tilde_prefix(dir + seq!['/'] + name),
        name.len() > 0,
        name != seq!['.'],
        name != seq!['.', '.'],
        forall|i: int| 0 <= i < name.len() ==> name[i] != '/',
        probe_run(import_plan(context, pwd, dir + seq!['/'] + name, load_paths), false, trace, r),
        trace.answers().len() > 0 ==> trace.answers()[0] is None,
        trace.answers().len() > 1 ==> trace.answers()[1] == Some(found),
    ensures
        ({
            let base = absolutized(context, pwd);
            &&& trace.asked()[0] == (false, base, dir + seq!['/'] + name)
            &&& trace.asked()[1] == (false, base, dir + seq!['/', '_'] + name)
        }),
        r == Some(found),
{
    let request = dir + seq!['/'] + name;
    assert(trim_trailing(request) == request) by {
        assert(request.last() == name.last());
        if name.len() >= 2 {
            assert(request[request.len() - 2] == name[name.len() - 2]);
        } else {
            assert(request[request.len() - 2] == '/');
            assert(name =~= seq![name[0]]);
        }
    }
    lemma_dir_prefix_of_segment(dir, name);
    assert(request.subrange(dir.len() + 1 as int, request.len() as int) =~= name);
    assert(request.subrange(0, dir.len() + 1 as int) + seq!['_'] + name =~= dir + seq!['/', '_'] + name);
    assert(file_name(request) == Some(name));
    assert(partial_form(request) == Some(dir + seq!['/', '_'] + name));
    let base = absolutized(context, pwd);
    let plan = import_plan(context, pwd, request, load_paths);
    assert(plan == two_phase(base, request) + load_path_probes(base, load_paths, request));
    assert(plan[0] == (base, request));
    assert(plan[1] == (base, dir + seq!['/', '_'] + name));
    let a = trace.answers();
    let n = trace.asked().len();
    if n == 1 {
        assert(a.drop_first() =~= Seq::<Option<Seq<char>>>::empty());
        assert(first_found(Seq::<Option<Seq<char>>>::empty()) is None);
        assert(r is None);
        assert(false);
    }
    assert(n >= 2);
    assert(trace.asked()[0] == (false, plan[0].0, plan[0].1));
    assert(trace.asked()[1] == (false, plan[1].0, plan[1].1));
    assert(a.drop_first()[0] == a[1]);
    assert(first_found(a.drop_first()) == Some(found));
}

/// An absolute request is probed once, as it is written, from the context
/// made absolute: no partial form and no load path is tried, so the answer
/// is that one probe's, and a file that exists only as a partial is not found.
pub proof fn law_absolute_no_partial(
    context: Seq<char>,
    pwd: Seq<char>,
    request: Seq<char>,
    load_paths: Seq<Seq<char>>,
    trace: ProbeTrace,
    r: Option<Seq<char>>,
)
    requires
        is_absolute_path(request),
        probe_run(import_plan(context, pwd, request, load_paths), false, trace, r),
    ensures
        import_plan(context, pwd, request, load_paths) == seq![(absolutized(context, pwd), request)],
        trace.asked() == seq![(false, absolutized(context, pwd), request)],
        r == trace.answers()[0],
{
    let a = trace.answers();
    assert(trace.asked().len() == 1) by {
        if trace.asked().len() == 0 {
            assert(first_found(a) is None);
        }
    }
    assert(trace.asked() =~= seq![(false, absolutized(context, pwd), request)]);
    assert(a.drop_first() =~= Seq::<Option<Seq<char>>>::empty());
    assert(first_found(Seq::<Option<Seq<char>>>::empty()) is None);
}

/// `~rest` resolves as `rest` does by the two-phase probe from the context, made
/// absolute: the `~` is dropped and nothing else changes.
pub proof fn law_tilde_is_two_phase(
    context: Seq<char>,
    pwd: Seq<char>,
    rest: Seq<char>,
    load_paths: Seq<Seq<char>>,
)
    requires
        rest.len() > 0,
        rest[0] != '/',
    ensures
        import_plan(context, pwd, seq!['~'] + rest, load_paths) == two_phase(
            absolutized(context, pwd),
            rest,
        ),
{
    let s = seq!['~'] + rest;
    assert(s[0] == '~' && s[1] == rest[0]);
    assert(s.subrange(1, s.len() as int) =~= rest);
}

/// With load paths `[a, b]`, a bare request is probed from the context, then
/// under `a`, then under `b`; with the first file found winning, an answer
/// under `a` is taken before one under `b`.
pub proof fn law_load_path_order(
    context: Seq<char>,
    pwd: Seq<char>,
    request: Seq<char>,
    a: Seq<char>,
    b: Seq<char>,
)
    requires
        !is_absolute_path(request),
        !has_tilde_prefix(request),
    ensures
        ({
            let base = absolutized(context, pwd);
            import_plan(context, pwd, request, seq![a, b]) == two_phase(base, request) + two_phase(
                base,
                join_path(a, request),
            ) + two_phase(base, join_path(b, request))
        }),
{
    let base = absolutized(context, pwd);
    let lps = seq![a, b];
    assert(lps.drop_first() =~= seq![b]);
    assert(seq![b].drop_first() =~= Seq::<Seq<char>>::empty());
    assert(load_path_probes(base, Seq::<Seq<char>>::empty(), request) == Seq::<
        (Seq<char>, Seq<char>),
    >::empty());
    assert(load_path_probes(base, seq![b], request) =~= two_phase(base, join_path(b, request)) + Seq::empty());
    assert(load_path_probes(base, lps, request) =~= two_phase(base, join_path(a, request)) + two_phase(
        base,
        join_path(b, request),
    ));
    assert(import_plan(context, pwd, request, lps) =~= two_phase(base, request) + two_phase(
        base,
        join_path(a, request),
    ) + two_phase(base, join_path(b, request)));
}

} // verus!
