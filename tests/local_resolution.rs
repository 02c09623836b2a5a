use sass_import::imitator_importer::ImitatorImporter;
use sass_import::resolver::{ProbeTrace, ResolverOptions};

fn importer() -> ImitatorImporter {
    ImitatorImporter::new(None, "/".to_string())
}

#[test]
fn sass_extension_order() {
    let o = ResolverOptions::sass(false);
    assert_eq!(
        o.extensions,
        vec![".sass", ".scss", ".css", ".import.sass", ".import.scss", ".import.css"]
    );
    assert_eq!(o.main_files, vec!["_index", "index"]);
    assert!(o.symlinks);
    assert!(!o.resolve_to_context);
    assert!(ResolverOptions::sass(true).resolve_to_context);
}

#[test]
fn missing_import_is_none() {
    let imp = importer();
    assert_eq!(
        imp.find_import("/no/such/dir/main.scss", "./nothing", &vec!["/no/such/lib".to_string()], &mut ProbeTrace::new()),
        None
    );
    assert_eq!(imp.find_import("/no/such/dir/main.scss", "~pkg/nothing", &vec![], &mut ProbeTrace::new()), None);
    assert_eq!(imp.find_import("/no/such/dir/main.scss", "/no/such/file", &vec![], &mut ProbeTrace::new()), None);
}

#[test]
fn absolute_existing_file_is_found() {
    let found = importer().find_import("/no/such/dir/main.scss", "/etc/passwd", &vec![], &mut ProbeTrace::new());
    assert_eq!(found, Some("/etc/passwd".to_string()));
}

#[test]
fn stdin_without_entry_file_searches_working_directory() {
    assert_eq!(importer().search_context("stdin"), "/");
}

#[test]
fn file_path_searches_its_directory() {
    assert_eq!(importer().search_context("/no/such/dir/main.scss"), "/no/such/dir");
}

#[test]
fn stdin_with_entry_file_searches_its_directory() {
    let imp = ImitatorImporter::new(Some("/no/such/entry.scss".to_string()), "/".to_string());
    assert_eq!(imp.search_context("stdin"), "/no/such");
}

#[test]
fn existing_directory_is_its_own_search_base() {
    assert_eq!(importer().search_context("/"), "/");
}

#[test]
fn missing_import_tries_every_probe_in_order() {
    let imp = importer();
    let lps = vec!["/no/such/lib".to_string()];
    let mut trace = ProbeTrace::new();
    assert_eq!(imp.find_import("/no/such/dir/main.scss", "./x", &lps, &mut trace), None);
    assert_eq!(trace.answer_list(), &vec![None, None, None, None]);
}

#[test]
fn relative_base_for_absolute_request_is_made_absolute() {
    let mut trace = ProbeTrace::new();
    assert_eq!(importer().find_import(".", "/no/such/file", &vec![], &mut trace), None);
    assert_eq!(trace.answer_list().len(), 1);
}

#[test]
fn context_mode_makes_one_probe() {
    let mut trace = ProbeTrace::new();
    assert_eq!(importer().sass_context_resolve("/no/such", "./dir", &mut trace), None);
    assert_eq!(trace.answer_list().len(), 1);
    let mut trace = ProbeTrace::new();
    assert_eq!(importer().sass_file_resolve("/no/such", "./dir/x", &mut trace), None);
    assert_eq!(trace.answer_list().len(), 2);
}
