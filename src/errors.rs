//! Error records for the host, built from a parse error of the compiler.

use crate::bindings::{LegacySassError, SassError, SassSourceLocation, SassSourceSpan};
use vstd::prelude::*;
use vstd::string::StringExecFns;

verus! {

/// The digit character of `d < 10`.
pub open spec fn digit_char(d: nat) -> char {
    (('0' as int) + d) as char
}

/// `n` written in decimal.
pub open spec fn decimal(n: nat) -> Seq<char>
    decreases n,
{
    if n < 10 {
        seq![digit_char(n)]
    } else {
        decimal(n / 10).push(digit_char(n % 10))
    }
}

fn digit_str(d: usize) -> (r: &'static str)
    requires
        d < 10,
    ensures
        r@ == seq![digit_char(d as nat)],
{
    proof {
        reveal_strlit("0");
        reveal_strlit("1");
        reveal_strlit("2");
        reveal_strlit("3");
        reveal_strlit("4");
        reveal_strlit("5");
        reveal_strlit("6");
        reveal_strlit("7");
        reveal_strlit("8");
        reveal_strlit("9");
    }
    let r = if d == 0 {
        "0"
    } else if d == 1 {
        "1"
    } else if d == 2 {
        "2"
    } else if d == 3 {
        "3"
    } else if d == 4 {
        "4"
    } else if d == 5 {
        "5"
    } else if d == 6 {
        "6"
    } else if d == 7 {
        "7"
    } else if d == 8 {
        "8"
    } else {
        "9"
    };
    assert(r@ =~= seq![digit_char(d as nat)]);
    r
}

/// `n` written in decimal.
pub fn decimal_string(n: usize) -> (r: String)
    ensures
        r@ == decimal(n as nat),
    decreases n,
{
    if n < 10 {
        String::from_str(digit_str(n))
    } else {
        let mut s = decimal_string(n / 10);
        s.append(digit_str(n % 10));
        s
    }
}

/// Where and why parsing failed: the message, the positions of the start and
/// end of the offending span, its text, the text of the lines it covers and
/// the name of the file.
#[derive(Clone, Debug)]
pub struct ParseErrorInfo {
    pub message: String,
    pub begin_line: usize,
    pub begin_column: usize,
    pub end_line: usize,
    pub end_column: usize,
    pub text: String,
    pub context: String,
    pub url: String,
}

/// `ParseError: <message> at <file>:<line>:<column>-<line>:<column> <text>`.
pub open spec fn parse_error_stack(file: Seq<char>, e: ParseErrorInfo) -> Seq<char> {
    seq!['P', 'a', 'r', 's', 'e', 'E', 'r', 'r', 'o', 'r', ':', ' '] + e.message@ + seq![
        ' ',
        'a',
        't',
        ' ',
    ] + file + seq![':'] + decimal(e.begin_line as nat) + seq![':'] + decimal(
        e.begin_column as nat,
    ) + seq!['-'] + decimal(e.end_line as nat) + seq![':'] + decimal(e.end_column as nat) + seq![
        ' ',
    ] + e.text@
}

pub open spec fn file_or_empty(file: Option<Seq<char>>) -> Seq<char> {
    match file {
        Some(f) => f,
        None => Seq::empty(),
    }
}

fn parse_error_stack_string(file: &String, e: &ParseErrorInfo) -> (r: String)
    ensures
        r@ == parse_error_stack(file@, *e),
{
    proof {
        reveal_strlit("ParseError: ");
        reveal_strlit(" at ");
        reveal_strlit(":");
        reveal_strlit("-");
        reveal_strlit(" ");
    }
    let mut s = String::from_str("ParseError: ");
    s.append(e.message.as_str());
    s.append(" at ");
    s.append(file.as_str());
    s.append(":");
    s.append(decimal_string(e.begin_line).as_str());
    s.append(":");
    s.append(decimal_string(e.begin_column).as_str());
    s.append("-");
    s.append(decimal_string(e.end_line).as_str());
    s.append(":");
    s.append(decimal_string(e.end_column).as_str());
    s.append(" ");
    s.append(e.text.as_str());
    assert(s@ =~= parse_error_stack(file@, *e));
    s
}

fn file_text(file: Option<String>) -> (r: String)
    ensures
        r@ == file_or_empty(file.deep_view()),
{
    match file {
        Some(f) => f,
        None => String::new(),
    }
}

/// The error record of a modern compilation for a parse error in the
/// compilation whose entry file is `file`.
#[verifier::truncate]
pub fn to_sass_error(file: Option<String>, err: ParseErrorInfo) -> (r: SassError)
    ensures
        r.message@ == err.message@,
        r.sass_message@ == err.message@,
        r.name@ == seq!['P', 'a', 'r', 's', 'e', 'E', 'r', 'r', 'o', 'r'],
        r.sass_stack@ == parse_error_stack(file_or_empty(file.deep_view()), err),
        r.stack.deep_view() == Some(parse_error_stack(file_or_empty(file.deep_view()), err)),
        r.stack_trace_limit == 1,
        r.span.context.deep_view() == Some(err.context@),
        r.span.text@ == err.text@,
        r.span.url.deep_view() == Some(err.url@),
        r.span.start matches Some(l) && l.line == err.begin_line as i16 && l.column
            == err.begin_column as i16 && l.offset == 0,
        r.span.end matches Some(l) && l.line == err.end_line as i16 && l.column == err.end_column as i16
            && l.offset == 0,
{
    let file = file_text(file);
    let stack = parse_error_stack_string(&file, &err);
    proof {
        reveal_strlit("ParseError");
    }
    SassError {
        message: err.message.clone(),
        name: String::from_str("ParseError"),
        sass_message: err.message.clone(),
        sass_stack: stack.clone(),
        span: SassSourceSpan {
            context: Some(err.context.clone()),
            end: Some(
                SassSourceLocation {
                    column: err.end_column as i16,
                    line: err.end_line as i16,
                    offset: 0,
                },
            ),
            start: Some(
                SassSourceLocation {
                    column: err.begin_column as i16,
                    line: err.begin_line as i16,
                    offset: 0,
                },
            ),
            text: err.text.clone(),
            url: Some(err.url.clone()),
        },
        stack: Some(stack),
        stack_trace_limit: 1,
    }
}

/// The error record of a legacy compilation for a parse error in the
/// compilation whose entry file is `file`.
#[verifier::truncate]
pub fn to_legacy_sass_error(file: Option<String>, err: ParseErrorInfo) -> (r: LegacySassError)
    ensures
        r.column == Some(err.begin_column as u32),
        r.line == Some(err.begin_line as u32),
        r.file.deep_view() == Some(file_or_empty(file.deep_view())),
        r.formatted.deep_view() == Some(err.message@),
        r.message.deep_view() == Some(err.message@),
        r.stack.deep_view() == Some(parse_error_stack(file_or_empty(file.deep_view()), err)),
        r.name@ == seq!['P', 'a', 'r', 's', 'e', 'E', 'r', 'r', 'o', 'r'],
        r.status == 1,
{
    let file = file_text(file);
    let stack = parse_error_stack_string(&file, &err);
    proof {
        reveal_strlit("ParseError");
    }
    LegacySassError {
        column: Some(err.begin_column as u32),
        file: Some(file),
        formatted: Some(err.message.clone()),
        line: Some(err.begin_line as u32),
        message: Some(err.message.clone()),
        stack: Some(stack),
        name: String::from_str("ParseError"),
        status: 1,
    }
}

} // verus!
