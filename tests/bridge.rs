use sass_import::entry::Importer;
use sass_import::resolver::ProbeTrace;
use sass_import::proxy_importer::{
    CallSlot, CallbackKind, ImporterCallbacks, LoadEvent, ProxyImporter, ReadAction,
    SearchAction, SearchEvent,
};

fn callbacks(canonicalize: bool, load: bool, find_file_url: bool) -> ImporterCallbacks {
    ImporterCallbacks { canonicalize, load, find_file_url }
}

fn modern(entries: Vec<ImporterCallbacks>) -> ProxyImporter {
    ProxyImporter::from_sass_options(Some(entries), Some("/proj/main.scss".to_string()), "/".to_string())
        .unwrap()
}

fn expect_call(a: SearchAction) -> (usize, CallbackKind, String, String) {
    match a {
        SearchAction::Call(c) => (c.entry, c.kind, c.specifier, c.containing_url),
        _ => panic!("expected a call"),
    }
}

#[test]
fn no_importer_list_gives_no_bridge() {
    assert!(ProxyImporter::from_sass_options(None, None, "/".to_string()).is_none());
    assert!(ProxyImporter::from_legacy_sass_options(None, None, "/".to_string()).is_none());
}

#[test]
fn modern_call_order() {
    let p = modern(vec![callbacks(true, false, true), callbacks(true, true, false)]);
    assert_eq!(
        p.call_slots(),
        vec![
            CallSlot { entry: 0, kind: CallbackKind::FindFileUrl },
            CallSlot { entry: 0, kind: CallbackKind::Canonicalize },
            CallSlot { entry: 1, kind: CallbackKind::Canonicalize },
        ]
    );
    assert_eq!(p.load_slots(), vec![1]);
}

#[test]
fn legacy_call_order() {
    let p = ProxyImporter::from_legacy_sass_options(Some(2), None, "/".to_string()).unwrap();
    assert_eq!(
        p.call_slots(),
        vec![
            CallSlot { entry: 0, kind: CallbackKind::Legacy },
            CallSlot { entry: 1, kind: CallbackKind::Legacy },
        ]
    );
    assert!(p.load_slots().is_empty());
}

#[test]
fn second_entry_wins_after_unresolved_canonicalize() {
    let p = modern(vec![callbacks(true, false, false), callbacks(false, false, true)]);
    let (mut s, a) = p.start_find_import("/proj/a.scss", "theme");
    assert_eq!(
        expect_call(a),
        (0, CallbackKind::Canonicalize, "theme".to_string(), "/proj".to_string())
    );
    let a = s.step(SearchEvent::Answered(Some("/x/missing".to_string())));
    assert!(matches!(a, SearchAction::Probe(ref q) if q == "/x/missing"));
    assert!(s.expects_probe());
    let a = s.step(SearchEvent::Probed(None));
    assert_eq!(expect_call(a).0, 1);
    let a = s.step(SearchEvent::Answered(Some("/y/theme".to_string())));
    assert!(matches!(a, SearchAction::Probe(_)));
    let a = s.step(SearchEvent::Probed(Some("/y/theme.scss".to_string())));
    assert!(matches!(a, SearchAction::Finish(Some(ref r)) if r == "/y/theme.scss"));
    assert!(s.is_done());
}

#[test]
fn callback_failure_aborts_search() {
    let p = modern(vec![callbacks(false, false, true), callbacks(false, false, true)]);
    let (mut s, a) = p.start_find_import("/proj/a.scss", "theme");
    assert_eq!(expect_call(a).0, 0);
    let a = s.step(SearchEvent::Failed);
    assert!(matches!(a, SearchAction::Finish(None)));
    assert!(s.is_done());
}

#[test]
fn failure_after_decline_aborts_search() {
    let p = ProxyImporter::from_legacy_sass_options(Some(3), None, "/".to_string()).unwrap();
    let (mut s, _) = p.start_find_import("/proj/a.scss", "x");
    let a = s.step(SearchEvent::Answered(None));
    assert_eq!(expect_call(a).0, 1);
    let a = s.step(SearchEvent::Failed);
    assert!(matches!(a, SearchAction::Finish(None)));
}

#[test]
fn exhausted_chain_gives_none() {
    let p = modern(vec![callbacks(true, false, false)]);
    let (mut s, _) = p.start_find_import("/proj/a.scss", "x");
    let a = s.step(SearchEvent::Answered(None));
    assert!(matches!(a, SearchAction::Finish(None)));
}

#[test]
fn empty_chain_finishes_at_once() {
    let p = modern(vec![callbacks(false, true, false)]);
    let (s, a) = p.start_find_import("/proj/a.scss", "x");
    assert!(matches!(a, SearchAction::Finish(None)));
    assert!(s.is_done());
}

#[test]
fn stdin_becomes_entry_directory_in_calls() {
    let p = modern(vec![callbacks(true, false, false)]);
    let (_, a) = p.start_find_import("stdin", "x");
    assert_eq!(expect_call(a).3, "/proj");
    let q = ProxyImporter::from_legacy_sass_options(Some(1), None, "/".to_string()).unwrap();
    let (_, a) = q.start_find_import("stdin", "x");
    assert_eq!(expect_call(a).3, "/");
}

#[test]
fn read_without_load_callbacks_reads_file() {
    let p = modern(vec![callbacks(true, false, true)]);
    let (s, a) = p.start_read("/proj/a.scss");
    assert!(matches!(a, ReadAction::ReadFile(ref f) if f == "/proj/a.scss"));
    assert!(s.is_done());
}

#[test]
fn read_all_declined_reads_file() {
    let p = modern(vec![callbacks(false, true, false), callbacks(false, true, false)]);
    let (mut s, a) = p.start_read("/proj/a.scss");
    assert!(matches!(a, ReadAction::CallLoad { entry: 0, .. }));
    let a = s.step(LoadEvent::Declined);
    assert!(matches!(a, ReadAction::CallLoad { entry: 1, ref url } if url == "/proj/a.scss"));
    let a = s.step(LoadEvent::Declined);
    assert!(matches!(a, ReadAction::ReadFile(ref f) if f == "/proj/a.scss"));
}

#[test]
fn read_first_contents_win() {
    let p = modern(vec![callbacks(false, true, false), callbacks(false, true, false)]);
    let (mut s, _) = p.start_read("/proj/a.scss");
    let a = s.step(LoadEvent::Loaded("a { }".to_string()));
    assert!(matches!(a, ReadAction::Contents(ref c) if c == "a { }"));
    assert!(s.is_done());
}

#[test]
fn read_load_failure_is_error() {
    let p = modern(vec![callbacks(false, true, false)]);
    let (mut s, _) = p.start_read("/proj/a.scss");
    let a = s.step(LoadEvent::Failed("boom".to_string()));
    assert!(matches!(a, ReadAction::Fail(ref m) if m == "boom"));
}

#[test]
fn probing_a_missing_answer_finds_nothing() {
    let p = modern(vec![]);
    assert_eq!(p.resolve_path_with_ext("/no/such/answer", &mut ProbeTrace::new()), None);
    assert_eq!(p.resolve_path_with_ext("/etc/passwd", &mut ProbeTrace::new()), Some("/etc/passwd".to_string()));
}

#[test]
fn strategy_follows_importer_list() {
    assert!(matches!(
        Importer::for_sass_options(None, None, "/".to_string()),
        Importer::Local(_)
    ));
    assert!(matches!(
        Importer::for_sass_options(Some(vec![]), None, "/".to_string()),
        Importer::Proxy(_)
    ));
    assert!(matches!(
        Importer::for_legacy_sass_options(None, None, "/".to_string()),
        Importer::Local(_)
    ));
    assert!(matches!(
        Importer::for_legacy_sass_options(Some(1), None, "/".to_string()),
        Importer::Proxy(_)
    ));
}

#[test]
fn calls_come_from_an_import() {
    let p = modern(vec![callbacks(true, false, false)]);
    let (_, a) = p.start_find_import("/proj/a.scss", "x");
    match a {
        SearchAction::Call(c) => assert!(c.from_import),
        _ => panic!("expected a call"),
    }
}
