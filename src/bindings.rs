//! The records exchanged with the host: options, results and errors, and the
//! settings a compilation derives from its options.

use crate::paths::{parent_dir, parent_path};
use vstd::prelude::*;
use vstd::string::StringExecFns;

verus! {

#[allow(non_camel_case_types)]
#[derive(Clone, Copy, Debug, PartialEq, Eq, Structural)]
pub enum SassOutputStyle {
    expanded,
    compressed,
}

impl Default for SassOutputStyle {
    fn default() -> (r: Self)
        ensures
            r == SassOutputStyle::expanded,
    {
        SassOutputStyle::expanded
    }
}

#[allow(non_camel_case_types)]
#[derive(Clone, Copy, Debug, PartialEq, Eq, Structural)]
pub enum SassSyntax {
    idented,
    css,
    scss,
}

impl Default for SassSyntax {
    fn default() -> (r: Self)
        ensures
            r == SassSyntax::scss,
    {
        SassSyntax::scss
    }
}

/// How a host callback shows in debug output: by its name when the callback
/// is there.
pub struct JsFunctionDebugWrap<'a> {
    name: Option<&'a str>,
}

/// `function <name>() {<js-code>}`, or `None` for a missing callback.
pub open spec fn callback_description(name: Option<Seq<char>>) -> Seq<char> {
    match name {
        Some(n) => seq!['f', 'u', 'n', 'c', 't', 'i', 'o', 'n', ' '] + n + seq![
            '(',
            ')',
            ' ',
            '{',
            '<',
            'j',
            's',
            '-',
            'c',
            'o',
            'd',
            'e',
            '>',
            '}',
        ],
        None => seq!['N', 'o', 'n', 'e'],
    }
}

impl<'a> JsFunctionDebugWrap<'a> {
    pub closed spec fn spec_name(&self) -> Option<Seq<char>> {
        match self.name {
            Some(n) => Some(n@),
            None => None,
        }
    }

    /// The wrapper of the callback `a`, shown as `name` when it is there.
    pub fn from_opt<A>(name: &'a str, a: &'a Option<A>) -> (r: JsFunctionDebugWrap<'a>)
        ensures
            r.spec_name() == (if a is Some {
                Some(name@)
            } else {
                None
            }),
    {
        match a {
            Some(_) => JsFunctionDebugWrap { name: Some(name) },
            None => JsFunctionDebugWrap { name: None },
        }
    }

    /// The text that debug output shows for the callback.
    pub fn describe(&self) -> (r: String)
        ensures
            r@ == callback_description(self.spec_name()),
    {
        match self.name {
            Some(name) => {
                proof {
                    reveal_strlit("function ");
                    reveal_strlit("() {<js-code>}");
                }
                let mut s = String::from_str("function ");
                s.append(name);
                s.append("() {<js-code>}");
                assert(s@ =~= callback_description(self.spec_name()));
                s
            },
            None => {
                proof {
                    reveal_strlit("None");
                }
                let s = String::from_str("None");
                assert(s@ =~= callback_description(self.spec_name()));
                s
            },
        }
    }
}

/// What a modern `load` callback returns.
#[derive(Clone, Debug)]
pub struct SassImporterResult {
    pub contents: String,
    pub source_map_url: Option<String>,
    pub syntax: SassSyntax,
}

/// The context handed to `canonicalize` and `findFileUrl`.
#[derive(Clone, Debug)]
pub struct SassCanonicalizeContext {
    pub containing_url: Option<String>,
    pub from_import: bool,
}

#[derive(Clone, Debug)]
pub struct SassResult {
    pub css: String,
    pub loaded_urls: Vec<String>,
    pub source_map: Option<String>,
}

#[derive(Clone, Debug)]
pub struct SassSourceLocation {
    pub column: i16,
    pub line: i16,
    pub offset: i64,
}

#[derive(Clone, Debug)]
pub struct SassSourceSpan {
    pub context: Option<String>,
    pub end: Option<SassSourceLocation>,
    pub start: Option<SassSourceLocation>,
    pub text: String,
    pub url: Option<String>,
}

#[derive(Clone, Debug)]
pub struct SassError {
    pub message: String,
    pub name: String,
    pub sass_message: String,
    pub sass_stack: String,
    pub span: SassSourceSpan,
    pub stack: Option<String>,
    pub stack_trace_limit: i64,
}

/// Either the compiled output or the error, never both.
#[derive(Clone, Debug)]
pub struct SassCompileResult {
    pub success: Option<SassResult>,
    pub failure: Option<SassError>,
}

#[derive(Clone, Debug)]
pub struct LegacySassStats {
    pub duration: i64,
    pub start: i64,
    pub end: i64,
    pub entry: String,
    pub included_files: Vec<String>,
}

/// What a legacy importer callback returns.
#[derive(Clone, Debug)]
pub struct LegacySassImportResult {
    pub file: Option<String>,
    pub contents: Option<String>,
}

/// The `this` of a legacy importer call.
#[derive(Clone, Debug)]
pub struct LegacyImporterThis {
    pub from_import: bool,
}

#[derive(Clone, Debug)]
pub struct LegacySassResult {
    pub css: String,
    pub stats: LegacySassStats,
    pub map: Option<String>,
}

#[derive(Clone, Debug)]
pub struct LegacySassError {
    pub column: Option<u32>,
    pub file: Option<String>,
    pub formatted: Option<String>,
    pub line: Option<u32>,
    pub message: Option<String>,
    pub stack: Option<String>,
    pub name: String,
    pub status: u32,
}

#[derive(Clone, Debug)]
pub struct LegacySassCompileResult {
    pub success: Option<LegacySassResult>,
    pub failure: Option<LegacySassError>,
}

/// The load paths of a compilation: the directory of the entry file, when it
/// has one, then the configured paths in order.
pub open spec fn node_module_entries(
    file: Option<Seq<char>>,
    paths: Option<Seq<Seq<char>>>,
) -> Seq<Seq<char>> {
    let head = match file {
        Some(f) => match parent_dir(f) {
            Some(d) => seq![d],
            None => Seq::empty(),
        },
        None => Seq::empty(),
    };
    head + match paths {
        Some(p) => p,
        None => Seq::empty(),
    }
}

/// The load paths of a compilation, as `node_module_entries` says.
pub fn get_entries_of_node_modules(file: Option<String>, paths: Option<Vec<String>>) -> (r: Vec<
    String,
>)
    ensures
        r.deep_view() == node_module_entries(file.deep_view(), paths.deep_view()),
{
    let mut entries: Vec<String> = Vec::new();
    match &file {
        Some(f) => match parent_path(f.as_str()) {
            Some(d) => entries.push(d),
            None => {},
        },
        None => {},
    }
    let ghost head = entries.deep_view();
    match paths {
        Some(p) => {
            let mut i: usize = 0;
            while i < p.len()
                invariant
                    i <= p@.len(),
                    entries.deep_view() == head + p.deep_view().subrange(0, i as int),
                decreases p@.len() - i,
            {
                let ghost before = entries.deep_view();
                entries.push(p[i].clone());
                assert(entries.deep_view() =~= before.push(p@[i as int]@));
                assert(p.deep_view().subrange(0, i + 1) =~= p.deep_view().subrange(0, i as int).push(
                    p@[i as int]@,
                ));
                i = i + 1;
            }
            assert(p.deep_view().subrange(0, p@.len() as int) =~= p.deep_view());
        },
        None => {
            assert(entries.deep_view() =~= head + Seq::<Seq<char>>::empty());
        },
    }
    assert(head =~= match file.deep_view() {
        Some(f) => match parent_dir(f) {
            Some(d) => seq![d],
            None => Seq::<Seq<char>>::empty(),
        },
        None => Seq::<Seq<char>>::empty(),
    });
    entries
}

/// What a compilation takes from its options.
#[derive(Clone, Debug)]
pub struct CompileSettings {
    pub style: SassOutputStyle,
    pub syntax: SassSyntax,
    pub load_paths: Vec<String>,
    pub allows_charset: bool,
    pub quiet: bool,
}

/// The settings of a modern compilation: expanded output, SCSS input,
/// `@charset` allowed and dependency warnings shown unless the options say
/// otherwise; the load paths of `node_module_entries`.
pub fn sass_settings(
    file: Option<String>,
    load_paths: Option<Vec<String>>,
    syntax: Option<SassSyntax>,
    style: Option<SassOutputStyle>,
    charset: Option<bool>,
    quiet_deps: Option<bool>,
) -> (r: CompileSettings)
    ensures
        r.style == (match style {
            Some(s) => s,
            None => SassOutputStyle::expanded,
        }),
        r.syntax == (match syntax {
            Some(s) => s,
            None => SassSyntax::scss,
        }),
        r.load_paths.deep_view() == node_module_entries(file.deep_view(), load_paths.deep_view()),
        r.allows_charset == (match charset {
            Some(c) => c,
            None => true,
        }),
        r.quiet == (match quiet_deps {
            Some(q) => q,
            None => false,
        }),
{
    CompileSettings {
        style: match style {
            Some(s) => s,
            None => SassOutputStyle::expanded,
        },
        syntax: match syntax {
            Some(s) => s,
            None => SassSyntax::scss,
        },
        load_paths: get_entries_of_node_modules(file, load_paths),
        allows_charset: match charset {
            Some(c) => c,
            None => true,
        },
        quiet: match quiet_deps {
            Some(q) => q,
            None => false,
        },
    }
}

/// The settings of a legacy compilation: as `sass_settings`, with the
/// include paths as load paths and the indented syntax when asked for.
pub fn legacy_sass_settings(
    file: Option<String>,
    include_paths: Option<Vec<String>>,
    indented_syntax: Option<bool>,
    output_style: Option<SassOutputStyle>,
    charset: Option<bool>,
    quiet_deps: Option<bool>,
) -> (r: CompileSettings)
    ensures
        r.style == (match output_style {
            Some(s) => s,
            None => SassOutputStyle::expanded,
        }),
        r.syntax == (if indented_syntax == Some(true) {
            SassSyntax::idented
        } else {
            SassSyntax::scss
        }),
        r.load_paths.deep_view() == node_module_entries(
            file.deep_view(),
            include_paths.deep_view(),
        ),
        r.allows_charset == (match charset {
            Some(c) => c,
            None => true,
        }),
        r.quiet == (match quiet_deps {
            Some(q) => q,
            None => false,
        }),
{
    let syntax = match indented_syntax {
        Some(true) => SassSyntax::idented,
        _ => SassSyntax::scss,
    };
    sass_settings(file, include_paths, Some(syntax), output_style, charset, quiet_deps)
}

} // verus!
