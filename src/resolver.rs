//! The path resolver: probes a request against an extension list and index
//! file names, through `nodejs_resolver`.

use crate::paths::is_absolute_path;
use crate::probe::{first_found, probes_view, Probe};
use vstd::prelude::*;
use vstd::string::StringExecFns;

verus! {

#[verifier::external_type_specification]
#[verifier::external_body]
pub struct ExResolver(nodejs_resolver::Resolver);

/// The extensions tried after a request, in this order.
pub open spec fn sass_extensions() -> Seq<Seq<char>> {
    seq![
        seq!['.', 's', 'a', 's', 's'],
        seq!['.', 's', 'c', 's', 's'],
        seq!['.', 'c', 's', 's'],
        seq!['.', 'i', 'm', 'p', 'o', 'r', 't', '.', 's', 'a', 's', 's'],
        seq!['.', 'i', 'm', 'p', 'o', 'r', 't', '.', 's', 'c', 's', 's'],
        seq!['.', 'i', 'm', 'p', 'o', 'r', 't', '.', 'c', 's', 's'],
    ]
}

/// The index file names tried inside a directory, in this order.
pub open spec fn sass_index_names() -> Seq<Seq<char>> {
    seq![seq!['_', 'i', 'n', 'd', 'e', 'x'], seq!['i', 'n', 'd', 'e', 'x']]
}

/// How a path resolver probes.
pub struct ResolverOptions {
    /// Suffixes tried after the request, in order.
    pub extensions: Vec<String>,
    /// File names tried inside a directory, in order.
    pub main_files: Vec<String>,
    /// Whether a symbolic link is replaced by the path it points to.
    pub symlinks: bool,
    /// Whether a directory is an answer of its own ("context" mode) rather
    /// than a place to look for an index file ("resource" mode).
    pub resolve_to_context: bool,
}

impl ResolverOptions {
    /// The options of Sass imports: the Sass extensions, `_index` and `index`,
    /// links followed.
    pub fn sass(resolve_to_context: bool) -> (r: Self)
        ensures
            r.extensions.deep_view() == sass_extensions(),
            r.main_files.deep_view() == sass_index_names(),
            r.symlinks,
            r.resolve_to_context == resolve_to_context,
    {
        proof {
            reveal_strlit(".sass");
            reveal_strlit(".scss");
            reveal_strlit(".css");
            reveal_strlit(".import.sass");
            reveal_strlit(".import.scss");
            reveal_strlit(".import.css");
            reveal_strlit("_index");
            reveal_strlit("index");
        }
        let extensions = vec![
            String::from_str(".sass"),
            String::from_str(".scss"),
            String::from_str(".css"),
            String::from_str(".import.sass"),
            String::from_str(".import.scss"),
            String::from_str(".import.css"),
        ];
        let main_files = vec![String::from_str("_index"), String::from_str("index")];
        assert forall|i: int| 0 <= i < 6 implies extensions@[i]@ =~= sass_extensions()[i] by {}
        assert forall|i: int| 0 <= i < 2 implies main_files@[i]@ =~= sass_index_names()[i] by {}
        assert(extensions.deep_view() =~= sass_extensions());
        assert(main_files.deep_view() =~= sass_index_names());
        ResolverOptions { extensions, main_files, symlinks: true, resolve_to_context }
    }
}

/// Relies on nodejs_resolver::Resolver::new: a resolver with these
/// extensions, main files, link policy and mode, and the crate's defaults
/// for the rest. It also switches on the crate's tracing when the
/// `RESOLVER_TRACE` environment variable names a level; that installs a
/// global subscriber, so with the variable set a second resolver in the same
/// process panics. Nothing that a precondition can state rules that out.
#[verifier::external_body]
fn new_resolver(
    extensions: Vec<String>,
    main_files: Vec<String>,
    symlinks: bool,
    resolve_to_context: bool,
) -> nodejs_resolver::Resolver {
    nodejs_resolver::Resolver::new(
        nodejs_resolver::Options {
            extensions,
            main_files,
            symlinks,
            resolve_to_context,
            ..Default::default()
        },
    )
}

/// Relies on nodejs_resolver::Resolver::resolve: the path of what `request`
/// names from the directory `base`, when the resolver finds a resource on
/// disk. The answer comes from the file system, so nothing is known of it.
/// A relative base such as `.` or `..` makes the crate panic while it makes
/// the base absolute, hence the precondition. The crate also unwraps the
/// reading of a `package.json` it meets on the way, so a broken one on disk
/// makes it panic; no precondition can rule that out.
#[verifier::external_body]
fn resolve_resource(resolver: &nodejs_resolver::Resolver, base: &str, request: &str) -> Option<
    String,
>
    requires
        is_absolute_path(base@),
{
    match resolver.resolve(std::path::Path::new(base), request) {
        Ok(nodejs_resolver::ResolveResult::Resource(resource)) => Some(
            resource.path.to_string_lossy().into_owned(),
        ),
        Ok(nodejs_resolver::ResolveResult::Ignored) => None,
        Err(_) => None,
    }
}

proof fn lemma_first_found_push(s: Seq<Option<Seq<char>>>, x: Option<Seq<char>>)
    requires
        first_found(s) is None,
    ensures
        first_found(s.push(x)) == x,
    decreases s.len(),
{
    if s.len() > 0 {
        assert(s[0] is None);
        assert(s.push(x)[0] is None);
        assert(s.push(x).drop_first() =~= s.drop_first().push(x));
        lemma_first_found_push(s.drop_first(), x);
    } else {
        assert(s.push(x).drop_first() =~= Seq::<Option<Seq<char>>>::empty());
        assert(first_found(Seq::<Option<Seq<char>>>::empty()) is None);
    }
}

/// The probes handed to path resolvers, in order, each with the answer that
/// came back. Only `PathResolver::resolve` adds to it.
pub struct ProbeTrace {
    asked: Ghost<Seq<(bool, Seq<char>, Seq<char>)>>,
    answers: Vec<Option<String>>,
}

impl ProbeTrace {
    /// Each probe handed out: whether the resolver was in context mode, the
    /// base and the request.
    pub closed spec fn asked(&self) -> Seq<(bool, Seq<char>, Seq<char>)> {
        self.asked@
    }

    /// The answer to each probe.
    pub closed spec fn answers(&self) -> Seq<Option<Seq<char>>> {
        self.answers.deep_view()
    }

    /// An empty trace.
    pub fn new() -> (r: Self)
        ensures
            r.asked() == Seq::<(bool, Seq<char>, Seq<char>)>::empty(),
            r.answers() == Seq::<Option<Seq<char>>>::empty(),
    {
        let r = ProbeTrace { asked: Ghost(Seq::empty()), answers: Vec::new() };
        assert(r.answers.deep_view() =~= Seq::<Option<Seq<char>>>::empty());
        r
    }

    /// The answers so far.
    pub fn answer_list(&self) -> (r: &Vec<Option<String>>)
        ensures
            r.deep_view() == self.answers(),
    {
        &self.answers
    }
}

/// Whether the bases of all probes are absolute paths.
pub open spec fn bases_absolute(plan: Seq<(Seq<char>, Seq<char>)>) -> bool {
    forall|i: int| 0 <= i < plan.len() ==> is_absolute_path(#[trigger] plan[i].0)
}

/// `trace` holds the run of `plan` by a resolver in context mode `context`,
/// and `r` is its result: the probes of a prefix of the plan were handed out
/// in order, every answer but the last found nothing, the run stopped at the
/// first file found or at the end of the plan, and `r` is that file, if any.
pub open spec fn probe_run(
    plan: Seq<(Seq<char>, Seq<char>)>,
    context: bool,
    trace: ProbeTrace,
    r: Option<Seq<char>>,
) -> bool {
    let n = trace.asked().len();
    &&& trace.answers().len() == n
    &&& n <= plan.len()
    &&& forall|i: int| 0 <= i < n ==> #[trigger] trace.asked()[i] == (context, plan[i].0, plan[i].1)
    &&& forall|i: int| 0 <= i < n - 1 ==> #[trigger] trace.answers()[i] is None
    &&& r == first_found(trace.answers())
    &&& (r is None ==> n == plan.len())
    &&& (r is Some ==> n > 0 && trace.answers()[n - 1] == r)
}

/// A path resolver and the options it was built with.
pub struct PathResolver {
    options: ResolverOptions,
    inner: nodejs_resolver::Resolver,
}

impl PathResolver {
    pub closed spec fn spec_options(&self) -> ResolverOptions {
        self.options
    }

    pub fn new(options: ResolverOptions) -> (r: Self)
        ensures
            r.spec_options() == options,
    {
        let inner = new_resolver(
            options.extensions.clone(),
            options.main_files.clone(),
            options.symlinks,
            options.resolve_to_context,
        );
        PathResolver { options, inner }
    }

    pub fn options(&self) -> (r: &ResolverOptions)
        ensures
            *r == self.spec_options(),
    {
        &self.options
    }

    /// Probes `request` from the directory `base`: the request itself, with
    /// each extension, then as a directory with each index name. The path
    /// found on disk, if any. The probe and its answer are added to `trace`.
    pub fn resolve(&self, base: &str, request: &str, trace: &mut ProbeTrace) -> (r: Option<String>)
        requires
            is_absolute_path(base@),
        ensures
            final(trace).asked() == old(trace).asked().push(
                (self.spec_options().resolve_to_context, base@, request@),
            ),
            final(trace).answers() == old(trace).answers().push(r.deep_view()),
    {
        let r = resolve_resource(&self.inner, base, request);
        let ghost before = trace.answers.deep_view();
        trace.asked = Ghost(trace.asked@.push((self.options.resolve_to_context, base@, request@)));
        trace.answers.push(r.clone());
        assert(trace.answers.deep_view() =~= before.push(r.deep_view()));
        r
    }

    /// Makes the probes of `plan` in order, recording them in `trace`, and
    /// stops at the first one that finds a file; that file is the result.
    pub fn first_resolved(&self, plan: &Vec<Probe>, trace: &mut ProbeTrace) -> (r: Option<String>)
        requires
            old(trace).asked().len() == 0,
            old(trace).answers().len() == 0,
            bases_absolute(probes_view(plan@)),
        ensures
            probe_run(
                probes_view(plan@),
                self.spec_options().resolve_to_context,
                *final(trace),
                r.deep_view(),
            ),
    {
        let ghost pv = probes_view(plan@);
        let ghost mode = self.spec_options().resolve_to_context;
        let mut i: usize = 0;
        while i < plan.len()
            invariant
                pv == probes_view(plan@),
                bases_absolute(pv),
                mode == self.spec_options().resolve_to_context,
                trace.asked().len() == i <= plan@.len(),
                trace.answers().len() == i,
                forall|j: int| 0 <= j < i ==> #[trigger] trace.asked()[j] == (mode, pv[j].0, pv[j].1),
                forall|j: int| 0 <= j < i ==> #[trigger] trace.answers()[j] is None,
                first_found(trace.answers()) is None,
            decreases plan@.len() - i,
        {
            assert(pv[i as int] == plan@[i as int]@);
            assert(is_absolute_path(pv[i as int].0));
            let ghost before = trace.answers();
            let found = self.resolve(plan[i].base.as_str(), plan[i].request.as_str(), trace);
            proof {
                lemma_first_found_push(before, found.deep_view());
            }
            if found.is_some() {
                return found;
            }
            i = i + 1;
        }
        None
    }
}

} // verus!
