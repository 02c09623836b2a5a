use sass_import::bindings::{
    get_entries_of_node_modules, JsFunctionDebugWrap, legacy_sass_settings, sass_settings, SassOutputStyle, SassSyntax,
};
use sass_import::errors::{decimal_string, to_legacy_sass_error, to_sass_error, ParseErrorInfo};

#[test]
fn entries_start_with_entry_directory() {
    let e = get_entries_of_node_modules(
        Some("/proj/src/main.scss".to_string()),
        Some(vec!["/lib/a".to_string(), "node_modules".to_string()]),
    );
    assert_eq!(e, vec!["/proj/src", "/lib/a", "node_modules"]);
}

#[test]
fn entries_without_file_or_paths() {
    assert!(get_entries_of_node_modules(None, None).is_empty());
    assert_eq!(get_entries_of_node_modules(Some("main.scss".to_string()), None), vec![""]);
    assert_eq!(get_entries_of_node_modules(None, Some(vec!["x".to_string()])), vec!["x"]);
}

#[test]
fn default_settings() {
    let s = sass_settings(None, None, None, None, None, None);
    assert_eq!(s.style, SassOutputStyle::expanded);
    assert_eq!(s.syntax, SassSyntax::scss);
    assert!(s.allows_charset);
    assert!(!s.quiet);
    assert!(s.load_paths.is_empty());
    assert_eq!(SassOutputStyle::default(), SassOutputStyle::expanded);
    assert_eq!(SassSyntax::default(), SassSyntax::scss);
}

#[test]
fn explicit_settings() {
    let s = sass_settings(
        Some("/p/a.scss".to_string()),
        Some(vec!["/l".to_string()]),
        Some(SassSyntax::css),
        Some(SassOutputStyle::compressed),
        Some(false),
        Some(true),
    );
    assert_eq!(s.style, SassOutputStyle::compressed);
    assert_eq!(s.syntax, SassSyntax::css);
    assert!(!s.allows_charset);
    assert!(s.quiet);
    assert_eq!(s.load_paths, vec!["/p", "/l"]);
}

#[test]
fn legacy_indented_syntax() {
    let s = legacy_sass_settings(None, None, Some(true), None, None, None);
    assert_eq!(s.syntax, SassSyntax::idented);
    let s = legacy_sass_settings(None, None, Some(false), None, None, None);
    assert_eq!(s.syntax, SassSyntax::scss);
}

#[test]
fn decimal_numbers() {
    assert_eq!(decimal_string(0), "0");
    assert_eq!(decimal_string(7), "7");
    assert_eq!(decimal_string(10), "10");
    assert_eq!(decimal_string(4096), "4096");
}

fn info() -> ParseErrorInfo {
    ParseErrorInfo {
        message: "expected \";\".".to_string(),
        begin_line: 2,
        begin_column: 4,
        end_line: 2,
        end_column: 9,
        text: "color".to_string(),
        context: "  color red\n".to_string(),
        url: "input.scss".to_string(),
    }
}

#[test]
fn sass_error_record() {
    let e = to_sass_error(Some("/p/a.scss".to_string()), info());
    let stack = "ParseError: expected \";\". at /p/a.scss:2:4-2:9 color";
    assert_eq!(e.name, "ParseError");
    assert_eq!(e.message, "expected \";\".");
    assert_eq!(e.sass_message, "expected \";\".");
    assert_eq!(e.sass_stack, stack);
    assert_eq!(e.stack.as_deref(), Some(stack));
    assert_eq!(e.stack_trace_limit, 1);
    assert_eq!(e.span.text, "color");
    assert_eq!(e.span.context.as_deref(), Some("  color red\n"));
    assert_eq!(e.span.url.as_deref(), Some("input.scss"));
    let start = e.span.start.unwrap();
    assert_eq!((start.line, start.column, start.offset), (2, 4, 0));
    let end = e.span.end.unwrap();
    assert_eq!((end.line, end.column, end.offset), (2, 9, 0));
}

#[test]
fn legacy_error_record() {
    let e = to_legacy_sass_error(None, info());
    assert_eq!(e.column, Some(4));
    assert_eq!(e.line, Some(2));
    assert_eq!(e.file.as_deref(), Some(""));
    assert_eq!(e.formatted.as_deref(), Some("expected \";\"."));
    assert_eq!(e.message.as_deref(), Some("expected \";\"."));
    assert_eq!(e.stack.as_deref(), Some("ParseError: expected \";\". at :2:4-2:9 color"));
    assert_eq!(e.name, "ParseError");
    assert_eq!(e.status, 1);
}

#[test]
fn callback_descriptions() {
    let present: Option<u8> = Some(1);
    let missing: Option<u8> = None;
    assert_eq!(
        JsFunctionDebugWrap::from_opt("load", &present).describe(),
        "function load() {<js-code>}"
    );
    assert_eq!(JsFunctionDebugWrap::from_opt("load", &missing).describe(), "None");
}

#[test]
fn large_positions_wrap_like_casts() {
    let mut e = info();
    e.begin_column = 70000;
    e.begin_line = 5_000_000_000;
    let r = to_sass_error(None, e.clone());
    assert_eq!(r.span.start.unwrap().column, 70000usize as i16);
    assert_eq!(r.sass_stack, "ParseError: expected \";\". at :5000000000:70000-2:9 color");
    let l = to_legacy_sass_error(None, e);
    assert_eq!(l.line, Some(5_000_000_000usize as u32));
}

#[test]
fn decimal_of_largest_value() {
    assert_eq!(decimal_string(usize::MAX), usize::MAX.to_string());
}
