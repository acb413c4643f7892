//! Script-editor support: finding which task function the cursor line
//! refers to, so the help browser can be opened on it.
//!
//! The scan walks the token stream up to and including the cursor's
//! line, remembering the most recent register keyword, and records a
//! function name each time one follows a keyword.  The last function
//! recorded under one of the runnable registers wins.

use crate::help::FuncType;
use nadi_core::parser::tokenizer::{TaskToken, Token};
use nadi_core::tasks::TaskKeyword;
use vstd::prelude::*;

verus! {

/// The register a keyword selects, when it selects one.
pub open spec fn spec_kw_class(k: TaskKeyword) -> Option<FuncType> {
    match k {
        TaskKeyword::Node => Some(FuncType::Node),
        TaskKeyword::Network => Some(FuncType::Network),
        TaskKeyword::Env => Some(FuncType::Env),
        _ => None,
    }
}

/// Scanner state: the line the next token starts, the register of the
/// keyword last seen (if a function name may still follow it), and the
/// function recorded last, with the register it followed.
#[verifier::ext_equal]
pub struct ScanState {
    pub line: int,
    pub state: Option<Option<FuncType>>,
    pub found: Option<(Option<FuncType>, Seq<char>)>,
}

/// How one token advances the scanner; tokens past the cursor line are
/// ignored.
pub open spec fn scan_step(s: ScanState, t: Token<'_>, line: usize) -> ScanState {
    if s.line > line {
        s
    } else {
        match t.ty {
            TaskToken::NewLine => ScanState { line: s.line + 1, ..s },
            TaskToken::Keyword(k) => ScanState { state: Some(spec_kw_class(k)), ..s },
            TaskToken::Function => match s.state {
                Some(cls) => ScanState { found: Some((cls, t.content@)), state: None, ..s },
                None => s,
            },
            _ => s,
        }
    }
}

/// The scanner after the first `i` tokens.
pub open spec fn scan_upto(tokens: Seq<Token<'_>>, line: usize, i: int) -> ScanState
    decreases i,
{
    if i <= 0 {
        ScanState { line: 0, state: None, found: None }
    } else {
        scan_step(scan_upto(tokens, line, i - 1), tokens[i - 1], line)
    }
}

/// How many newline tokens the first `i` tokens hold.
pub open spec fn spec_newline_count(tokens: Seq<Token<'_>>, i: int) -> int
    decreases i,
{
    if i <= 0 {
        0
    } else {
        spec_newline_count(tokens, i - 1) + if tokens[i - 1].ty is NewLine {
            1int
        } else {
            0int
        }
    }
}

/// The number of lines the token stream spans, counted as the text's
/// lines are: one per newline, plus a final line when the text does not
/// end in one; an empty text has none.
pub open spec fn spec_line_count(tokens: Seq<Token<'_>>) -> int {
    spec_newline_count(tokens, tokens.len() as int) + if tokens.len() > 0 && !(tokens.last().ty
        is NewLine) {
        1int
    } else {
        0int
    }
}

/// The function the cursor line refers to: the one last recorded under a
/// runnable register by the time the scan passes the line — and nothing
/// when the line lies beyond the text's last line.
pub open spec fn spec_function_at(tokens: Seq<Token<'_>>, line: usize) -> Option<
    (FuncType, Seq<char>),
> {
    if line >= spec_line_count(tokens) {
        None
    } else {
        match scan_upto(tokens, line, tokens.len() as int).found {
            Some(pair) => match pair.0 {
                Some(ft) => Some((ft, pair.1)),
                None => None,
            },
            None => None,
        }
    }
}

/// The newline count never exceeds the number of tokens counted.
proof fn lemma_newline_count_bound(tokens: Seq<Token<'_>>, i: int)
    requires
        0 <= i <= tokens.len(),
    ensures
        0 <= spec_newline_count(tokens, i) <= i,
    decreases i,
{
    if i > 0 {
        lemma_newline_count_bound(tokens, i - 1);
    }
}

/// Scans the token stream for the function the cursor line refers to,
/// exactly per `spec_function_at`.
pub fn scan_function_at<'a>(tokens: &Vec<Token<'a>>, line: usize) -> (r: Option<(FuncType, String)>)
    requires
        line < usize::MAX,
    ensures
        match spec_function_at(tokens@, line) {
            Some(pair) => {
                &&& r matches Some(got)
                &&& got.0 == pair.0
                &&& got.1@ == pair.1
            },
            None => r is None,
        },
{
    let n = tokens.len();
    let mut newlines: usize = 0;
    for i in 0..n
        invariant
            n == tokens@.len(),
            newlines == spec_newline_count(tokens@, i as int),
            newlines <= i,
    {
        match &tokens[i].ty {
            TaskToken::NewLine => {
                newlines = newlines + 1;
            },
            _ => (),
        }
    }
    let last_open = if n == 0 {
        false
    } else {
        match &tokens[n - 1].ty {
            TaskToken::NewLine => false,
            _ => true,
        }
    };
    proof {
        lemma_newline_count_bound(tokens@, n as int);
        if last_open {
            assert(spec_newline_count(tokens@, n as int) == spec_newline_count(
                tokens@,
                n as int - 1,
            ));
            lemma_newline_count_bound(tokens@, n as int - 1);
        }
    }
    let line_count = if last_open {
        newlines + 1
    } else {
        newlines
    };
    if line >= line_count {
        return None;
    }
    let mut cur_line: usize = 0;
    let mut state: Option<Option<FuncType>> = None;
    let mut found: Option<(Option<FuncType>, String)> = None;
    for i in 0..n
        invariant
            n == tokens@.len(),
            line < usize::MAX,
            cur_line <= line + 1,
            ({
                let s = scan_upto(tokens@, line, i as int);
                &&& cur_line == s.line
                &&& state == s.state
                &&& match found {
                    Some(got) => s.found matches Some(p) && got.0 == p.0 && got.1@ == p.1,
                    None => s.found is None,
                }
            }),
    {
        let t = &tokens[i];
        if cur_line <= line {
            match &t.ty {
                TaskToken::NewLine => {
                    cur_line = cur_line + 1;
                },
                TaskToken::Keyword(k) => {
                    let cls = match k {
                        TaskKeyword::Node => Some(FuncType::Node),
                        TaskKeyword::Network => Some(FuncType::Network),
                        TaskKeyword::Env => Some(FuncType::Env),
                        _ => None,
                    };
                    state = Some(cls);
                },
                TaskToken::Function => {
                    match state {
                        Some(cls) => {
                            found = Some((cls, t.content.to_owned()));
                            state = None;
                        },
                        None => (),
                    }
                },
                _ => (),
            }
        }
    }
    match found {
        Some(pair) => match pair.0 {
            Some(ft) => Some((ft, pair.1)),
            None => None,
        },
        None => None,
    }
}

/// Tokenizes the whole text and scans it for the function the cursor
/// line refers to.
pub fn function_at_line(text: &str, line: usize) -> (r: Option<(FuncType, String)>)
    requires
        line < usize::MAX,
{
    let tokens = nadi_core::parser::tokenizer::get_tokens(text);
    scan_function_at(&tokens, line)
}

} // verus!
