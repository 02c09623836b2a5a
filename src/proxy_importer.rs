//! The callback bridge: decides, one step at a time, which host resolver
//! callback to invoke for an import or a read, and what its answer means.
//! The host side performs each call and reports how it went.

use crate::paths::is_absolute_path;
use crate::probe::{context_path, search_base, search_context_of};
use crate::probe::first_found;
use crate::resolver::{
    probe_run, sass_extensions, sass_index_names, PathResolver, ProbeTrace, ResolverOptions,
};
use vstd::prelude::*;
use vstd::string::StringExecFns;

verus! {

/// Which optional callbacks a modern host importer supplies.
#[derive(Clone, Copy, Debug, PartialEq, Eq, Structural)]
pub struct ImporterCallbacks {
    pub canonicalize: bool,
    pub load: bool,
    pub find_file_url: bool,
}

/// The host's resolver chain for one compilation: legacy importers (each a
/// single callback) or modern ones, never both.
pub enum ResolverChain {
    /// The number of legacy importer callbacks.
    Legacy(usize),
    Modern(Vec<ImporterCallbacks>),
}

/// A callback of a chain entry.
#[derive(Clone, Copy, Debug, PartialEq, Eq, Structural)]
pub enum CallbackKind {
    Legacy,
    FindFileUrl,
    Canonicalize,
}

/// One callback invocation that an import may need: entry and callback.
#[derive(Clone, Copy, Debug, PartialEq, Eq, Structural)]
pub struct CallSlot {
    pub entry: usize,
    pub kind: CallbackKind,
}

/// The callbacks of modern entry `i`: `findFileUrl` before `canonicalize`.
pub open spec fn entry_slots(i: int, e: ImporterCallbacks) -> Seq<CallSlot> {
    let f = if e.find_file_url {
        seq![CallSlot { entry: i as usize, kind: CallbackKind::FindFileUrl }]
    } else {
        Seq::empty()
    };
    let c = if e.canonicalize {
        seq![CallSlot { entry: i as usize, kind: CallbackKind::Canonicalize }]
    } else {
        Seq::empty()
    };
    f + c
}

/// The callbacks of a modern chain, entry by entry in chain order.
pub open spec fn modern_slots(entries: Seq<ImporterCallbacks>) -> Seq<CallSlot>
    decreases entries.len(),
{
    if entries.len() == 0 {
        Seq::empty()
    } else {
        modern_slots(entries.drop_last()) + entry_slots(entries.len() - 1, entries.last())
    }
}

/// The callbacks of a legacy chain: one per entry, in chain order.
pub open spec fn legacy_slots(n: nat) -> Seq<CallSlot> {
    Seq::new(n, |i: int| CallSlot { entry: i as usize, kind: CallbackKind::Legacy })
}

pub open spec fn chain_slots(chain: ResolverChain) -> Seq<CallSlot> {
    match chain {
        ResolverChain::Legacy(n) => legacy_slots(n as nat),
        ResolverChain::Modern(entries) => modern_slots(entries@),
    }
}

/// How one callback invocation of an import went.
pub enum SlotOutcome {
    /// The callback raised an error or its promise was rejected.
    Failed,
    /// The callback gave no path.
    Declined,
    /// The callback gave a path, and probing it with the extensions gave this.
    Resolved(Option<Seq<char>>),
}

/// Whether the search goes on past this outcome.
pub open spec fn continues(o: SlotOutcome) -> bool {
    o is Declined || o == SlotOutcome::Resolved(None)
}

/// The answer of a chain, given the outcomes of its callbacks in order: the
/// first failure gives none, the first path that probing resolved is the
/// answer, and running out of callbacks gives none.
pub open spec fn chain_result(outcomes: Seq<SlotOutcome>) -> Option<Seq<char>>
    decreases outcomes.len(),
{
    if outcomes.len() == 0 {
        None
    } else {
        match outcomes[0] {
            SlotOutcome::Failed => None,
            SlotOutcome::Resolved(Some(p)) => Some(p),
            _ => chain_result(outcomes.drop_first()),
        }
    }
}

/// A callback to invoke, with the arguments it gets.
pub struct CallRequest {
    pub entry: usize,
    pub kind: CallbackKind,
    /// The import as written.
    pub specifier: String,
    /// The importing path (the previous path of a legacy importer, the
    /// containing URL of a modern one).
    pub containing_url: String,
    /// Whether the call comes from an `@import`; always so here.
    pub from_import: bool,
}

/// What the host reports after carrying out an action.
pub enum SearchEvent {
    /// The callback failed.
    Failed,
    /// The callback returned, with a path or without one.
    Answered(Option<String>),
    /// The path that probing the answer gave, if any.
    Probed(Option<String>),
}

/// What the host is to do next.
pub enum SearchAction {
    /// Invoke this callback and report `Failed` or `Answered`.
    Call(CallRequest),
    /// Probe this path with the extensions and report `Probed`.
    Probe(String),
    /// The import resolves to this, or to nothing.
    Finish(Option<String>),
}

/// The state of the search for one import through the chain.
pub struct ImportSearch {
    slots: Vec<CallSlot>,
    next: usize,
    awaiting_probe: bool,
    done: bool,
    specifier: String,
    containing_url: String,
    history: Ghost<Seq<SlotOutcome>>,
}

impl ImportSearch {
    /// The callbacks this search may invoke, in order.
    pub closed spec fn spec_slots(&self) -> Seq<CallSlot> {
        self.slots@
    }

    /// The outcomes of the callbacks invoked so far.
    pub closed spec fn history(&self) -> Seq<SlotOutcome> {
        self.history@
    }

    /// The position of the callback in progress or next to invoke.
    pub closed spec fn position(&self) -> int {
        self.next as int
    }

    pub closed spec fn spec_awaiting_probe(&self) -> bool {
        self.awaiting_probe
    }

    pub closed spec fn spec_done(&self) -> bool {
        self.done
    }

    pub closed spec fn spec_specifier(&self) -> Seq<char> {
        self.specifier@
    }

    pub closed spec fn spec_containing_url(&self) -> Seq<char> {
        self.containing_url@
    }

    /// The search invariant: a position within the callbacks while the
    /// search runs, one outcome for each callback passed, and every outcome
    /// but the one that ended the search lets the search go on.
    pub open spec fn wf(&self) -> bool {
        &&& self.spec_slots().len() <= usize::MAX
        &&& 0 <= self.position() <= self.spec_slots().len()
        &&& !self.spec_done() ==> self.position() < self.spec_slots().len()
        &&& self.history().len() == self.position()
        &&& forall|i: int|
            0 <= i < self.history().len() && (!self.spec_done() || i < self.history().len() - 1)
                ==> continues(#[trigger] self.history()[i])
    }

    /// Whether the search has finished.
    pub fn is_done(&self) -> (r: bool)
        ensures
            r == self.spec_done(),
    {
        self.done
    }

    /// Whether the search waits for a `Probed` report.
    pub fn expects_probe(&self) -> (r: bool)
        ensures
            r == self.spec_awaiting_probe(),
    {
        self.awaiting_probe
    }

    fn call_request(&self) -> (r: CallRequest)
        requires
            self.next < self.slots@.len(),
        ensures
            r.entry == self.slots@[self.next as int].entry,
            r.kind == self.slots@[self.next as int].kind,
            r.specifier@ == self.specifier@,
            r.containing_url@ == self.containing_url@,
            r.from_import,
    {
        let slot = self.slots[self.next];
        CallRequest {
            entry: slot.entry,
            kind: slot.kind,
            specifier: self.specifier.clone(),
            containing_url: self.containing_url.clone(),
            from_import: true,
        }
    }

    /// Moves past the current callback, whose outcome let the search go on.
    fn advance(&mut self, outcome: Ghost<SlotOutcome>) -> (r: SearchAction)
        requires
            old(self).wf(),
            !old(self).done,
            continues(outcome@),
        ensures
            final(self).wf(),
            final(self).slots@ == old(self).slots@,
            final(self).specifier@ == old(self).specifier@,
            final(self).containing_url@ == old(self).containing_url@,
            final(self).history@ == old(self).history@.push(outcome@),
            final(self).next == old(self).next + 1,
            !final(self).awaiting_probe,
            final(self).done == (final(self).next == final(self).slots@.len()),
            final(self).done ==> r == SearchAction::Finish(None),
            !final(self).done ==> (r matches SearchAction::Call(c) && ({
                let s = *final(self);
                &&& c.entry == s.slots@[s.next as int].entry
                &&& c.kind == s.slots@[s.next as int].kind
                &&& c.specifier@ == s.specifier@
                &&& c.containing_url@ == s.containing_url@
                &&& c.from_import
            })),
    {
        self.history = Ghost(self.history@.push(outcome@));
        self.next = self.next + 1;
        self.awaiting_probe = false;
        if self.next == self.slots.len() {
            self.done = true;
            SearchAction::Finish(None)
        } else {
            SearchAction::Call(self.call_request())
        }
    }

    /// Takes the report of the action last handed out and returns the next
    /// action. A failure ends the search with no answer; a path that probing
    /// resolved ends it with that path; a missing path, or one that probing
    /// did not resolve, passes on to the next callback; after the last one the
    /// search ends with no answer.
    pub fn step(&mut self, event: SearchEvent) -> (r: SearchAction)
        requires
            old(self).wf(),
            !old(self).spec_done(),
            (event is Probed) == old(self).spec_awaiting_probe(),
        ensures
            final(self).wf(),
            final(self).spec_slots() == old(self).spec_slots(),
            final(self).spec_specifier() == old(self).spec_specifier(),
            final(self).spec_containing_url() == old(self).spec_containing_url(),
            match event {
                SearchEvent::Failed => final(self).history() == old(self).history().push(
                    SlotOutcome::Failed,
                ) && r == SearchAction::Finish(None) && final(self).spec_done(),
                SearchEvent::Answered(None) => final(self).history() == old(self).history().push(
                    SlotOutcome::Declined,
                ),
                SearchEvent::Answered(Some(p)) => ({
                    let s = *final(self);
                    &&& s.history() == old(self).history()
                    &&& s.position() == old(self).position()
                    &&& (r matches SearchAction::Probe(q) && q@ == p@)
                    &&& s.spec_awaiting_probe()
                    &&& !s.spec_done()
                }),
                SearchEvent::Probed(found) => {
                    &&& final(self).history() == old(self).history().push(
                        SlotOutcome::Resolved(found.deep_view()),
                    )
                    &&& (found is Some ==> r == SearchAction::Finish(found))
                    &&& (found is Some ==> final(self).spec_done())
                },
            },
            r matches SearchAction::Finish(answer) ==> final(self).spec_done() && answer.deep_view()
                == chain_result(final(self).history()),
            r matches SearchAction::Call(c) ==> ({
                let s = *final(self);
                &&& !s.spec_done()
                &&& !s.spec_awaiting_probe()
                &&& s.position() == s.history().len()
                &&& c.entry == s.spec_slots()[s.position()].entry
                &&& c.kind == s.spec_slots()[s.position()].kind
                &&& c.specifier@ == s.spec_specifier()
                &&& c.containing_url@ == s.spec_containing_url()
                &&& c.from_import
            }),
            final(self).spec_done() == (r is Finish),
            (r is Probe) == (event matches SearchEvent::Answered(Some(_))),
            final(self).spec_done() ==> final(self).history().len() == final(self).spec_slots().len()
                || !continues(final(self).history().last()),
            !final(self).spec_done() ==> final(self).position() < final(self).spec_slots().len(),
    {
        let ghost h0 = self.history@;
        match event {
            SearchEvent::Failed => {
                self.history = Ghost(self.history@.push(SlotOutcome::Failed));
                self.done = true;
                self.next = self.next + 1;
                proof {
                    lemma_chain_result_last(h0, SlotOutcome::Failed);
                }
                SearchAction::Finish(None)
            },
            SearchEvent::Answered(None) => {
                let r = self.advance(Ghost(SlotOutcome::Declined));
                proof {
                    lemma_chain_result_last(h0, SlotOutcome::Declined);
                }
                r
            },
            SearchEvent::Answered(Some(p)) => {
                self.awaiting_probe = true;
                SearchAction::Probe(p)
            },
            SearchEvent::Probed(Some(found)) => {
                let ghost o = SlotOutcome::Resolved(Some(found@));
                self.history = Ghost(self.history@.push(o));
                self.done = true;
                self.next = self.next + 1;
                proof {
                    lemma_chain_result_last(h0, o);
                }
                SearchAction::Finish(Some(found))
            },
            SearchEvent::Probed(None) => {
                let r = self.advance(Ghost(SlotOutcome::Resolved(None)));
                proof {
                    lemma_chain_result_last(h0, SlotOutcome::Resolved(None));
                }
                r
            },
        }
    }
}

/// After callbacks that all let the search go on, the chain's answer is what
/// the next outcome makes of it.
proof fn lemma_chain_result_last(h: Seq<SlotOutcome>, o: SlotOutcome)
    requires
        forall|i: int| 0 <= i < h.len() ==> continues(#[trigger] h[i]),
    ensures
        chain_result(h.push(o)) == chain_result(seq![o]),
        continues(o) ==> chain_result(h.push(o)) is None,
    decreases h.len(),
{
    if h.len() > 0 {
        assert(continues(h[0]));
        assert(h.push(o)[0] == h[0]);
        assert(h.push(o).drop_first() =~= h.drop_first().push(o));
        assert forall|i: int| 0 <= i < h.drop_first().len() implies continues(
            #[trigger] h.drop_first()[i],
        ) by {
            assert(h.drop_first()[i] == h[i + 1]);
        }
        lemma_chain_result_last(h.drop_first(), o);
    } else {
        assert(h.push(o) =~= seq![o]);
    }
    assert(seq![o][0] == o);
    assert(seq![o].drop_first() =~= Seq::<SlotOutcome>::empty());
    assert(chain_result(Seq::<SlotOutcome>::empty()) is None);
}

/// The entries of a modern chain that supply `load`, in chain order.
pub open spec fn load_entries(entries: Seq<ImporterCallbacks>) -> Seq<usize>
    decreases entries.len(),
{
    if entries.len() == 0 {
        Seq::empty()
    } else {
        load_entries(entries.drop_last()) + if entries.last().load {
            seq![(entries.len() - 1) as usize]
        } else {
            Seq::empty()
        }
    }
}

pub open spec fn chain_load_entries(chain: ResolverChain) -> Seq<usize> {
    match chain {
        ResolverChain::Legacy(_) => Seq::empty(),
        ResolverChain::Modern(entries) => load_entries(entries@),
    }
}

/// How one `load` invocation went.
pub enum LoadOutcome {
    /// The callback failed, with this message.
    Failed(Seq<char>),
    /// The callback gave no contents.
    Declined,
    /// The callback gave these contents.
    Loaded(Seq<char>),
}

/// Where the contents of a read come from.
pub enum ReadResult {
    Contents(Seq<char>),
    Error(Seq<char>),
    /// A direct read of this path from the file system.
    FromDisk(Seq<char>),
}

/// The outcome of a read of `path`, given the outcomes of the `load`
/// callbacks in order: the first contents win, the first failure is an
/// error, and when every callback declines the file is read from disk.
pub open spec fn read_result(path: Seq<char>, outcomes: Seq<LoadOutcome>) -> ReadResult
    decreases outcomes.len(),
{
    if outcomes.len() == 0 {
        ReadResult::FromDisk(path)
    } else {
        match outcomes[0] {
            LoadOutcome::Failed(m) => ReadResult::Error(m),
            LoadOutcome::Loaded(c) => ReadResult::Contents(c),
            LoadOutcome::Declined => read_result(path, outcomes.drop_first()),
        }
    }
}

/// What the host reports after a `load` call.
pub enum LoadEvent {
    Failed(String),
    Declined,
    Loaded(String),
}

/// What the host is to do next for a read.
pub enum ReadAction {
    /// Invoke `load` of this entry with the URL.
    CallLoad { entry: usize, url: String },
    /// The read gives these contents.
    Contents(String),
    /// The read fails with this message.
    Fail(String),
    /// Read this path from the file system.
    ReadFile(String),
}

/// The result that a final action stands for.
pub open spec fn read_action_result(a: ReadAction) -> Option<ReadResult> {
    match a {
        ReadAction::CallLoad { .. } => None,
        ReadAction::Contents(c) => Some(ReadResult::Contents(c@)),
        ReadAction::Fail(m) => Some(ReadResult::Error(m@)),
        ReadAction::ReadFile(p) => Some(ReadResult::FromDisk(p@)),
    }
}

pub open spec fn load_outcome_of(e: LoadEvent) -> LoadOutcome {
    match e {
        LoadEvent::Failed(m) => LoadOutcome::Failed(m@),
        LoadEvent::Declined => LoadOutcome::Declined,
        LoadEvent::Loaded(c) => LoadOutcome::Loaded(c@),
    }
}

/// The state of a read through the chain's `load` callbacks.
pub struct ReadSearch {
    entries: Vec<usize>,
    next: usize,
    path: String,
    done: bool,
    history: Ghost<Seq<LoadOutcome>>,
}

impl ReadSearch {
    pub closed spec fn spec_entries(&self) -> Seq<usize> {
        self.entries@
    }

    pub closed spec fn spec_path(&self) -> Seq<char> {
        self.path@
    }

    /// The outcomes of the `load` calls made so far.
    pub closed spec fn history(&self) -> Seq<LoadOutcome> {
        self.history@
    }

    pub closed spec fn spec_done(&self) -> bool {
        self.done
    }

    /// The position of the `load` call in progress.
    pub closed spec fn position(&self) -> int {
        self.next as int
    }

    /// The read invariant: a position within the `load` callbacks while the
    /// read runs, one outcome for each callback passed, all of them declines
    /// while the read runs.
    pub open spec fn wf(&self) -> bool {
        &&& self.spec_entries().len() <= usize::MAX
        &&& 0 <= self.position() <= self.spec_entries().len()
        &&& !self.spec_done() ==> self.position() < self.spec_entries().len()
        &&& self.history().len() == self.position()
        &&& !self.spec_done() ==> forall|i: int|
            0 <= i < self.history().len() ==> #[trigger] self.history()[i] is Declined
    }

    pub fn is_done(&self) -> (r: bool)
        ensures
            r == self.spec_done(),
    {
        self.done
    }

    /// Takes the report of the last `load` call and returns the next action.
    pub fn step(&mut self, event: LoadEvent) -> (r: ReadAction)
        requires
            old(self).wf(),
            !old(self).spec_done(),
        ensures
            final(self).wf(),
            final(self).spec_entries() == old(self).spec_entries(),
            final(self).spec_path() == old(self).spec_path(),
            final(self).history() == old(self).history().push(load_outcome_of(event)),
            r matches ReadAction::CallLoad { entry, url } ==> ({
                let s = *final(self);
                &&& !s.spec_done()
                &&& entry == s.spec_entries()[s.history().len() as int]
                &&& url@ == s.spec_path()
            }),
            r is CallLoad ==> event is Declined,
            !(r is CallLoad) ==> final(self).spec_done() && read_action_result(r) == Some(
                read_result(final(self).spec_path(), final(self).history()),
            ),
    {
        let ghost h0 = self.history@;
        let ghost o = load_outcome_of(event);
        self.history = Ghost(self.history@.push(o));
        self.next = self.next + 1;
        proof {
            lemma_read_result_last(self.path@, h0, o);
        }
        match event {
            LoadEvent::Failed(m) => {
                self.done = true;
                ReadAction::Fail(m)
            },
            LoadEvent::Loaded(c) => {
                self.done = true;
                ReadAction::Contents(c)
            },
            LoadEvent::Declined => {
                if self.next == self.entries.len() {
                    self.done = true;
                    ReadAction::ReadFile(self.path.clone())
                } else {
                    ReadAction::CallLoad { entry: self.entries[self.next], url: self.path.clone() }
                }
            },
        }
    }
}

proof fn lemma_read_result_last(path: Seq<char>, h: Seq<LoadOutcome>, o: LoadOutcome)
    requires
        forall|i: int| 0 <= i < h.len() ==> #[trigger] h[i] is Declined,
    ensures
        read_result(path, h.push(o)) == match o {
            LoadOutcome::Failed(m) => ReadResult::Error(m),
            LoadOutcome::Loaded(c) => ReadResult::Contents(c),
            LoadOutcome::Declined => ReadResult::FromDisk(path),
        },
        read_result(path, h) == ReadResult::FromDisk(path),
    decreases h.len(),
{
    if h.len() > 0 {
        assert(h[0] is Declined);
        assert(h.push(o)[0] == h[0]);
        assert(h.push(o).drop_first() =~= h.drop_first().push(o));
        assert forall|i: int| 0 <= i < h.drop_first().len() implies #[trigger] h.drop_first()[i] is Declined by {
            assert(h.drop_first()[i] == h[i + 1]);
        }
        lemma_read_result_last(path, h.drop_first(), o);
    } else {
        assert(h.push(o) =~= seq![o]);
    }
    assert(seq![o][0] == o);
    assert(seq![o].drop_first() =~= Seq::<LoadOutcome>::empty());
    assert(read_result(path, Seq::<LoadOutcome>::empty()) == ReadResult::FromDisk(path));
}

/// Resolves imports through the host's resolver chain.
pub struct ProxyImporter {
    chain: ResolverChain,
    file: Option<String>,
    pwd: String,
    sass_file_resolver: PathResolver,
}

impl ProxyImporter {
    pub closed spec fn spec_chain(&self) -> ResolverChain {
        self.chain
    }

    pub closed spec fn spec_file(&self) -> Option<Seq<char>> {
        self.file.deep_view()
    }

    pub closed spec fn spec_pwd(&self) -> Seq<char> {
        self.pwd@
    }

    /// The options of the resolver that probes the callbacks' answers.
    pub closed spec fn file_options(&self) -> ResolverOptions {
        self.sass_file_resolver.spec_options()
    }

    /// An absolute working directory, and a resolver of files built with the
    /// Sass extensions and index names, links followed.
    pub open spec fn wf(&self) -> bool {
        &&& is_absolute_path(self.spec_pwd())
        &&& self.file_options().extensions.deep_view() == sass_extensions()
        &&& self.file_options().main_files.deep_view() == sass_index_names()
        &&& self.file_options().symlinks
        &&& !self.file_options().resolve_to_context
    }

    pub(crate) fn with_chain(chain: ResolverChain, file: Option<String>, pwd: String) -> (r: Self)
        requires
            is_absolute_path(pwd@),
        ensures
            r.wf(),
            r.spec_chain() == chain,
            r.spec_file() == file.deep_view(),
            r.spec_pwd() == pwd@,
    {
        ProxyImporter {
            chain,
            file,
            pwd,
            sass_file_resolver: PathResolver::new(ResolverOptions::sass(false)),
        }
    }

    /// A bridge over modern importers, with the callbacks each supplies; none
    /// when the compilation has no importer list.
    pub fn from_sass_options(
        importers: Option<Vec<ImporterCallbacks>>,
        file: Option<String>,
        pwd: String,
    ) -> (r: Option<Self>)
        requires
            is_absolute_path(pwd@),
        ensures
            r is Some <==> importers is Some,
            r matches Some(p) ==> p.wf() && p.spec_chain() == ResolverChain::Modern(importers->0)
                && p.spec_file() == file.deep_view() && p.spec_pwd() == pwd@,
    {
        match importers {
            Some(i) => Some(Self::with_chain(ResolverChain::Modern(i), file, pwd)),
            None => None,
        }
    }

    /// A bridge over `importers` legacy importer callbacks; none when the
    /// compilation has no importer list.
    pub fn from_legacy_sass_options(importers: Option<usize>, file: Option<String>, pwd: String) -> (r:
        Option<Self>)
        requires
            is_absolute_path(pwd@),
        ensures
            r is Some <==> importers is Some,
            r matches Some(p) ==> p.wf() && p.spec_chain() == ResolverChain::Legacy(importers->0)
                && p.spec_file() == file.deep_view() && p.spec_pwd() == pwd@,
    {
        match importers {
            Some(n) => Some(Self::with_chain(ResolverChain::Legacy(n), file, pwd)),
            None => None,
        }
    }

    /// Probes a path that a callback returned with the extensions, from the
    /// working directory, with no partial form. The path found on disk, if
    /// any. The one probe made is in `trace`.
    pub fn resolve_path_with_ext(&self, p: &str, trace: &mut ProbeTrace) -> (r: Option<String>)
        requires
            self.wf(),
            old(trace).asked().len() == 0,
            old(trace).answers().len() == 0,
        ensures
            probe_run(seq![(self.spec_pwd(), p@)], false, *final(trace), r.deep_view()),
    {
        let r = self.sass_file_resolver.resolve(self.pwd.as_str(), p, trace);
        proof {
            let t = *final(trace);
            assert(t.answers() =~= seq![r.deep_view()]);
            assert(t.answers().drop_first() =~= Seq::<Option<Seq<char>>>::empty());
            assert(first_found(Seq::<Option<Seq<char>>>::empty()) is None);
        }
        r
    }

    /// The callbacks that an import may invoke, in order.
    pub fn call_slots(&self) -> (r: Vec<CallSlot>)
        ensures
            r@ == chain_slots(self.spec_chain()),
    {
        let mut slots: Vec<CallSlot> = Vec::new();
        match &self.chain {
            ResolverChain::Legacy(n) => {
                let mut i: usize = 0;
                while i < *n
                    invariant
                        i <= *n,
                        slots@ == legacy_slots(i as nat),
                    decreases *n - i,
                {
                    slots.push(CallSlot { entry: i, kind: CallbackKind::Legacy });
                    assert(slots@ =~= legacy_slots((i + 1) as nat));
                    i = i + 1;
                }
            },
            ResolverChain::Modern(entries) => {
                let mut i: usize = 0;
                assert(entries@.subrange(0, 0) =~= Seq::<ImporterCallbacks>::empty());
                while i < entries.len()
                    invariant
                        i <= entries@.len(),
                        slots@ == modern_slots(entries@.subrange(0, i as int)),
                    decreases entries@.len() - i,
                {
                    let e = entries[i];
                    let ghost before = slots@;
                    if e.find_file_url {
                        slots.push(CallSlot { entry: i, kind: CallbackKind::FindFileUrl });
                    }
                    if e.canonicalize {
                        slots.push(CallSlot { entry: i, kind: CallbackKind::Canonicalize });
                    }
                    let ghost next = entries@.subrange(0, i + 1);
                    assert(next.drop_last() =~= entries@.subrange(0, i as int));
                    assert(slots@ =~= before + entry_slots(i as int, e));
                    i = i + 1;
                }
                assert(entries@.subrange(0, entries@.len() as int) =~= entries@);
            },
        }
        slots
    }

    /// The entries whose `load` a read may invoke, in order.
    pub fn load_slots(&self) -> (r: Vec<usize>)
        ensures
            r@ == chain_load_entries(self.spec_chain()),
    {
        let mut out: Vec<usize> = Vec::new();
        match &self.chain {
            ResolverChain::Legacy(_) => {},
            ResolverChain::Modern(entries) => {
                let mut i: usize = 0;
                assert(entries@.subrange(0, 0) =~= Seq::<ImporterCallbacks>::empty());
                while i < entries.len()
                    invariant
                        i <= entries@.len(),
                        out@ == load_entries(entries@.subrange(0, i as int)),
                    decreases entries@.len() - i,
                {
                    let ghost before = out@;
                    if entries[i].load {
                        out.push(i);
                    }
                    let ghost next = entries@.subrange(0, i + 1);
                    assert(next.drop_last() =~= entries@.subrange(0, i as int));
                    assert(out@ =~= load_entries(next));
                    i = i + 1;
                }
                assert(entries@.subrange(0, entries@.len() as int) =~= entries@);
            },
        }
        out
    }

    /// Begins the search for `import_path`, written in `current_path`: the
    /// first callback to invoke, or the end when the chain has none. The
    /// callbacks get the search context of `current_path` as the importing
    /// path, as the local strategy computes it.
    pub fn start_find_import(&self, current_path: &str, import_path: &str) -> (r: (
        ImportSearch,
        SearchAction,
    ))
        ensures
            r.0.wf(),
            r.0.spec_slots() == chain_slots(self.spec_chain()),
            r.0.spec_specifier() == import_path@,
            ({
                let c = context_path(current_path@, self.spec_file(), self.spec_pwd());
                r.0.spec_containing_url() == search_base(c, true, self.spec_pwd())
                    || r.0.spec_containing_url() == search_base(c, false, self.spec_pwd())
            }),
            r.0.history() == Seq::<SlotOutcome>::empty(),
            r.0.position() == 0,
            !r.0.spec_awaiting_probe(),
            r.0.spec_done() == (chain_slots(self.spec_chain()).len() == 0),
            r.0.spec_done() ==> r.1 == SearchAction::Finish(None),
            !r.0.spec_done() ==> (r.1 matches SearchAction::Call(c) && ({
                let slot = chain_slots(self.spec_chain())[0];
                &&& c.entry == slot.entry
                &&& c.kind == slot.kind
                &&& c.specifier@ == import_path@
                &&& c.containing_url@ == r.0.spec_containing_url()
                &&& c.from_import
            })),
    {
        let slots = self.call_slots();
        let containing_url = search_context_of(current_path, &self.file, &self.pwd);
        let done = slots.len() == 0;
        let search = ImportSearch {
            slots,
            next: 0,
            awaiting_probe: false,
            done,
            specifier: String::from_str(import_path),
            containing_url,
            history: Ghost(Seq::empty()),
        };
        if done {
            (search, SearchAction::Finish(None))
        } else {
            let c = search.call_request();
            (search, SearchAction::Call(c))
        }
    }

    /// Begins a read of `path`: the first `load` to invoke, or a read from
    /// disk when the chain has no `load` callback.
    pub fn start_read(&self, path: &str) -> (r: (ReadSearch, ReadAction))
        ensures
            r.0.wf(),
            r.0.spec_entries() == chain_load_entries(self.spec_chain()),
            r.0.spec_path() == path@,
            r.0.history() == Seq::<LoadOutcome>::empty(),
            r.0.spec_done() == (chain_load_entries(self.spec_chain()).len() == 0),
            r.0.spec_done() ==> read_action_result(r.1) == Some(ReadResult::FromDisk(path@)),
            !r.0.spec_done() ==> (r.1 matches ReadAction::CallLoad { entry, url } && entry
                == chain_load_entries(self.spec_chain())[0] && url@ == path@),
    {
        let entries = self.load_slots();
        let done = entries.len() == 0;
        let first = if done {
            0
        } else {
            entries[0]
        };
        let search = ReadSearch {
            entries,
            next: 0,
            path: String::from_str(path),
            done,
            history: Ghost(Seq::empty()),
        };
        if done {
            (search, ReadAction::ReadFile(String::from_str(path)))
        } else {
            (search, ReadAction::CallLoad { entry: first, url: String::from_str(path) })
        }
    }
}

/// Once a callback fails, the import resolves to nothing, whatever the
/// callbacks after it would have given: there is no fallback to later entries
/// or to the file-system conventions.
pub proof fn law_failure_aborts(outcomes: Seq<SlotOutcome>, k: int)
    requires
        0 <= k < outcomes.len(),
        forall|i: int| 0 <= i < k ==> continues(#[trigger] outcomes[i]),
        outcomes[k] == SlotOutcome::Failed,
    ensures
        chain_result(outcomes) is None,
    decreases k,
{
    if k > 0 {
        assert(continues(outcomes[0]));
        assert forall|i: int| 0 <= i < k - 1 implies continues(#[trigger] outcomes.drop_first()[i]) by {
            assert(outcomes.drop_first()[i] == outcomes[i + 1]);
        }
        law_failure_aborts(outcomes.drop_first(), k - 1);
    }
}

/// The first callback whose path probing resolves gives the answer, after
/// callbacks that gave no path or a path that did not resolve, whatever the
/// callbacks after it would have given.
pub proof fn law_first_resolved_wins(outcomes: Seq<SlotOutcome>, k: int, found: Seq<char>)
    requires
        0 <= k < outcomes.len(),
        forall|i: int| 0 <= i < k ==> continues(#[trigger] outcomes[i]),
        outcomes[k] == SlotOutcome::Resolved(Some(found)),
    ensures
        chain_result(outcomes) == Some(found),
    decreases k,
{
    if k > 0 {
        assert(continues(outcomes[0]));
        assert forall|i: int| 0 <= i < k - 1 implies continues(#[trigger] outcomes.drop_first()[i]) by {
            assert(outcomes.drop_first()[i] == outcomes[i + 1]);
        }
        law_first_resolved_wins(outcomes.drop_first(), k - 1, found);
    }
}

/// In a modern chain of two entries, where the first supplies `canonicalize`
/// and the second supplies `findFileUrl`, the first entry's `canonicalize` is
/// its last callback and the second entry's `findFileUrl` comes right after
/// it; when the path of the former does not resolve and the path of the
/// latter does, the answer is the latter's.
pub proof fn law_second_entry_after_unresolved(
    first: ImporterCallbacks,
    second: ImporterCallbacks,
    outcomes: Seq<SlotOutcome>,
    found: Seq<char>,
)
    requires
        first.canonicalize,
        second.find_file_url,
        ({
            let k: int = if first.find_file_url {
                1
            } else {
                0
            };
            &&& outcomes.len() > k + 1
            &&& forall|i: int| 0 <= i < k ==> continues(#[trigger] outcomes[i])
            &&& outcomes[k] == SlotOutcome::Resolved(None)
            &&& outcomes[k + 1] == SlotOutcome::Resolved(Some(found))
        }),
    ensures
        ({
            let k: int = if first.find_file_url {
                1
            } else {
                0
            };
            let slots = modern_slots(seq![first, second]);
            &&& slots[k] == CallSlot { entry: 0, kind: CallbackKind::Canonicalize }
            &&& slots[k + 1] == CallSlot { entry: 1, kind: CallbackKind::FindFileUrl }
        }),
        chain_result(outcomes) == Some(found),
{
    let k: int = if first.find_file_url {
        1
    } else {
        0
    };
    let entries = seq![first, second];
    assert(entries.drop_last() =~= seq![first]);
    assert(seq![first].drop_last() =~= Seq::<ImporterCallbacks>::empty());
    assert(seq![first].last() == first);
    assert(modern_slots(Seq::<ImporterCallbacks>::empty()) == Seq::<CallSlot>::empty());
    let s0 = entry_slots(0, first);
    assert(modern_slots(seq![first]) =~= s0);
    assert(s0.len() == k + 1);
    assert(s0[k] == CallSlot { entry: 0, kind: CallbackKind::Canonicalize });
    let s1 = entry_slots(1, second);
    assert(s1[0] == CallSlot { entry: 1, kind: CallbackKind::FindFileUrl });
    assert(modern_slots(entries) == s0 + s1);
    assert forall|i: int| 0 <= i < k + 1 implies continues(#[trigger] outcomes[i]) by {
        if i == k {
            assert(outcomes[k] == SlotOutcome::Resolved(None));
        }
    }
    law_first_resolved_wins(outcomes, k + 1, found);
}

/// When no `load` callback gives contents or fails, a read of a path is a
/// direct read of that same path from the file system, so it gives the bytes
/// that such a read gives.
pub proof fn law_read_falls_back_to_disk(path: Seq<char>, outcomes: Seq<LoadOutcome>)
    requires
        forall|i: int| 0 <= i < outcomes.len() ==> #[trigger] outcomes[i] is Declined,
    ensures
        read_result(path, outcomes) == ReadResult::FromDisk(path),
    decreases outcomes.len(),
{
    if outcomes.len() > 0 {
        assert(outcomes[0] is Declined);
        assert forall|i: int| 0 <= i < outcomes.drop_first().len() implies #[trigger] outcomes.drop_first()[i] is Declined by {
            assert(outcomes.drop_first()[i] == outcomes[i + 1]);
        }
        law_read_falls_back_to_disk(path, outcomes.drop_first());
    }
}

} // verus!
