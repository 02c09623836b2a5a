use sass_import::imitator_importer::ImitatorImporter;
use sass_import::probe::{first_found_path, Probe};
use sass_import::resolver::{PathResolver, ProbeTrace, ResolverOptions};

fn probe(base: &str, request: &str) -> (String, String) {
    (base.to_string(), request.to_string())
}

fn pairs(plan: Vec<Probe>) -> Vec<(String, String)> {
    plan.into_iter().map(|p| (p.base, p.request)).collect()
}

fn importer() -> ImitatorImporter {
    ImitatorImporter::new(None, "/work".to_string())
}

#[test]
fn plan_for_relative_request_tries_partial_then_load_paths() {
    let plan = importer().import_plan(
        "/proj/styles",
        "./dir/name",
        &vec!["/lib/a".to_string(), "/lib/b".to_string()],
    );
    assert_eq!(
        pairs(plan),
        vec![
            probe("/proj/styles", "./dir/name"),
            probe("/proj/styles", "./dir/_name"),
            probe("/proj/styles", "/lib/a/./dir/name"),
            probe("/proj/styles", "/lib/a/./dir/_name"),
            probe("/proj/styles", "/lib/b/./dir/name"),
            probe("/proj/styles", "/lib/b/./dir/_name"),
        ]
    );
}

#[test]
fn plan_for_absolute_request_is_one_probe() {
    let plan = importer().import_plan("/proj", "/abs/dir/name", &vec!["/lib".to_string()]);
    assert_eq!(pairs(plan), vec![probe("/proj", "/abs/dir/name")]);
    let plan = importer().import_plan("src", "/abs/x", &vec![]);
    assert_eq!(pairs(plan), vec![probe("/work/src", "/abs/x")]);
}

#[test]
fn plan_for_tilde_request_drops_tilde_and_load_paths() {
    let plan = importer().import_plan("/proj", "~pkg/file", &vec!["/lib".to_string()]);
    assert_eq!(
        pairs(plan),
        vec![probe("/proj", "pkg/file"), probe("/proj", "pkg/_file")]
    );
}

#[test]
fn plan_base_is_made_absolute_from_working_directory() {
    let plan = importer().import_plan("src", "./a", &vec![]);
    assert_eq!(
        pairs(plan),
        vec![probe("/work/src", "./a"), probe("/work/src", "./_a")]
    );
}

#[test]
fn sass_file_probes_are_two_phase() {
    let plan = importer().sass_file_probes("/proj", "./x/y");
    assert_eq!(
        pairs(plan),
        vec![probe("/proj", "./x/y"), probe("/proj", "./x/_y")]
    );
}

#[test]
fn normalize_keeps_slashes() {
    assert_eq!(importer().normalize_import_path("a/b/c.scss"), "a/b/c.scss");
}

#[test]
fn search_context_of_stdin_without_file_is_working_directory_or_its_parent() {
    let imp = ImitatorImporter::new(None, "/".to_string());
    assert_eq!(imp.search_context("stdin"), "/");
}

#[test]
fn first_found_takes_earliest_answer() {
    let none: Option<String> = None;
    assert_eq!(first_found_path(&vec![]), None);
    assert_eq!(first_found_path(&vec![none.clone(), none.clone()]), None);
    assert_eq!(
        first_found_path(&vec![none.clone(), Some("/a/_x.scss".to_string()), Some("/b/x.scss".to_string())]),
        Some("/a/_x.scss".to_string())
    );
    assert_eq!(
        first_found_path(&vec![Some("/a/x.scss".to_string()), Some("/b/x.scss".to_string())]),
        Some("/a/x.scss".to_string())
    );
}

#[test]
fn first_resolved_stops_when_nothing_is_found() {
    let imp = importer();
    let plan = imp.import_plan("/no/such", "./x", &vec!["/no/lib".to_string()]);
    let resolver = PathResolver::new(ResolverOptions::sass(false));
    let mut trace = ProbeTrace::new();
    assert_eq!(resolver.first_resolved(&plan, &mut trace), None);
    assert_eq!(trace.answer_list().len(), plan.len());
}

#[test]
fn first_resolved_stops_at_first_hit() {
    let resolver = PathResolver::new(ResolverOptions::sass(false));
    let plan = vec![
        Probe { base: "/".to_string(), request: "/no/such/file".to_string() },
        Probe { base: "/".to_string(), request: "/etc/passwd".to_string() },
        Probe { base: "/".to_string(), request: "/no/other".to_string() },
    ];
    let mut trace = ProbeTrace::new();
    assert_eq!(resolver.first_resolved(&plan, &mut trace), Some("/etc/passwd".to_string()));
    assert_eq!(trace.answer_list(), &vec![None, Some("/etc/passwd".to_string())]);
}

#[test]
fn plan_base_is_normalized() {
    let plan = importer().import_plan("styles/../theme", "./a", &vec![]);
    assert_eq!(
        pairs(plan),
        vec![probe("/work/theme", "./a"), probe("/work/theme", "./_a")]
    );
}
