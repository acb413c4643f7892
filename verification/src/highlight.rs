//! Syntax highlighting for the console and the script editor: each line
//! is split by the engine's tokenizer and every token is classed by the
//! kind of file being displayed.

use vstd::prelude::*;

verus! {

/// Which kind of file the text being highlighted belongs to.
#[derive(Clone, Copy, Debug, PartialEq, Eq, Structural)]
pub enum NadiFileType {
    Network,
    Attribute,
    Tasks,
    Terminal,
}

impl NadiFileType {
    /// The file type a file extension selects, if any.
    pub fn from_extension(val: &str) -> (r: Option<NadiFileType>)
        ensures
            (r == Some(NadiFileType::Network)) <==> (val@ == "net"@ || val@ == "network"@),
            (r == Some(NadiFileType::Tasks)) <==> (val@ == "task"@ || val@ == "tasks"@),
            (r == Some(NadiFileType::Attribute)) <==> (val@ == "toml"@),
            (r == Some(NadiFileType::Terminal)) <==> (val@ == "log"@),
            (r is None) <==> !(val@ == "net"@ || val@ == "network"@ || val@ == "task"@ || val@
                == "tasks"@ || val@ == "toml"@ || val@ == "log"@),
    {
        proof {
            reveal_strlit("net");
            reveal_strlit("network");
            reveal_strlit("task");
            reveal_strlit("tasks");
            reveal_strlit("toml");
            reveal_strlit("log");
            assert("net"@.len() == 3 && "network"@.len() == 7 && "task"@.len() == 4);
            assert("tasks"@.len() == 5 && "toml"@.len() == 4 && "log"@.len() == 3);
            assert("task"@ != "toml"@) by {
                assert("task"@[1] == 'a' && "toml"@[1] == 'o');
            }
            assert("net"@ != "log"@) by {
                assert("net"@[0] == 'n' && "log"@[0] == 'l');
            }
        }
        if crate::text::str_eq(val, "net") || crate::text::str_eq(val, "network") {
            Some(NadiFileType::Network)
        } else if crate::text::str_eq(val, "task") || crate::text::str_eq(val, "tasks") {
            Some(NadiFileType::Tasks)
        } else if crate::text::str_eq(val, "toml") {
            Some(NadiFileType::Attribute)
        } else if crate::text::str_eq(val, "log") {
            Some(NadiFileType::Terminal)
        } else {
            None
        }
    }
}

/// The display class of one token.
#[derive(Clone, Copy, Debug, PartialEq, Eq, Structural)]
pub enum Highlight {
    Comment,
    Keyword,
    Symbol,
    Paren,
    Variable,
    Function,
    Bool,
    Number,
    DateTime,
    Text,
    Error,
    Plain,
}

/// The display class of a token kind, per file type.
pub open spec fn spec_from_token(
    tk: nadi_core::parser::tokenizer::TaskToken,
    ntf: NadiFileType,
) -> Highlight {
    match ntf {
        NadiFileType::Network => match tk {
            nadi_core::parser::tokenizer::TaskToken::Comment => Highlight::Comment,
            nadi_core::parser::tokenizer::TaskToken::Keyword(_) => Highlight::Variable,
            nadi_core::parser::tokenizer::TaskToken::PathSep => Highlight::Symbol,
            nadi_core::parser::tokenizer::TaskToken::Variable => Highlight::Variable,
            nadi_core::parser::tokenizer::TaskToken::Bool => Highlight::Variable,
            nadi_core::parser::tokenizer::TaskToken::String(_) => Highlight::Text,
            nadi_core::parser::tokenizer::TaskToken::Integer => Highlight::Variable,
            nadi_core::parser::tokenizer::TaskToken::Float => Highlight::Variable,
            nadi_core::parser::tokenizer::TaskToken::NewLine => Highlight::Plain,
            nadi_core::parser::tokenizer::TaskToken::WhiteSpace => Highlight::Plain,
            _ => Highlight::Error,
        },
        NadiFileType::Attribute => match tk {
            nadi_core::parser::tokenizer::TaskToken::Comment => Highlight::Comment,
            nadi_core::parser::tokenizer::TaskToken::Keyword(_) => Highlight::Variable,
            nadi_core::parser::tokenizer::TaskToken::ParenStart => Highlight::Paren,
            nadi_core::parser::tokenizer::TaskToken::BraceStart => Highlight::Paren,
            nadi_core::parser::tokenizer::TaskToken::BracketStart => Highlight::Paren,
            nadi_core::parser::tokenizer::TaskToken::Comma => Highlight::Symbol,
            nadi_core::parser::tokenizer::TaskToken::Dot => Highlight::Symbol,
            nadi_core::parser::tokenizer::TaskToken::ParenEnd => Highlight::Paren,
            nadi_core::parser::tokenizer::TaskToken::BraceEnd => Highlight::Paren,
            nadi_core::parser::tokenizer::TaskToken::BracketEnd => Highlight::Paren,
            nadi_core::parser::tokenizer::TaskToken::Assignment => Highlight::Symbol,
            nadi_core::parser::tokenizer::TaskToken::Variable => Highlight::Variable,
            nadi_core::parser::tokenizer::TaskToken::Bool => Highlight::Bool,
            nadi_core::parser::tokenizer::TaskToken::String(_) => Highlight::Text,
            nadi_core::parser::tokenizer::TaskToken::Integer => Highlight::Number,
            nadi_core::parser::tokenizer::TaskToken::Float => Highlight::Number,
            nadi_core::parser::tokenizer::TaskToken::Date => Highlight::DateTime,
            nadi_core::parser::tokenizer::TaskToken::Time => Highlight::DateTime,
            nadi_core::parser::tokenizer::TaskToken::DateTime => Highlight::DateTime,
            nadi_core::parser::tokenizer::TaskToken::PathSep => Highlight::Error,
            nadi_core::parser::tokenizer::TaskToken::Function => Highlight::Error,
            nadi_core::parser::tokenizer::TaskToken::NewLine => Highlight::Plain,
            nadi_core::parser::tokenizer::TaskToken::WhiteSpace => Highlight::Plain,
            _ => Highlight::Error,
        },
        NadiFileType::Tasks | NadiFileType::Terminal => match tk {
            nadi_core::parser::tokenizer::TaskToken::Comment => Highlight::Comment,
            nadi_core::parser::tokenizer::TaskToken::Keyword(_) => Highlight::Keyword,
            nadi_core::parser::tokenizer::TaskToken::AngleStart => Highlight::Paren,
            nadi_core::parser::tokenizer::TaskToken::ParenStart => Highlight::Paren,
            nadi_core::parser::tokenizer::TaskToken::BraceStart => Highlight::Paren,
            nadi_core::parser::tokenizer::TaskToken::BracketStart => Highlight::Paren,
            nadi_core::parser::tokenizer::TaskToken::PathSep => Highlight::Symbol,
            nadi_core::parser::tokenizer::TaskToken::Comma => Highlight::Symbol,
            nadi_core::parser::tokenizer::TaskToken::Dot => Highlight::Symbol,
            nadi_core::parser::tokenizer::TaskToken::And => Highlight::Symbol,
            nadi_core::parser::tokenizer::TaskToken::Or => Highlight::Symbol,
            nadi_core::parser::tokenizer::TaskToken::Not => Highlight::Symbol,
            nadi_core::parser::tokenizer::TaskToken::AngleEnd => Highlight::Paren,
            nadi_core::parser::tokenizer::TaskToken::ParenEnd => Highlight::Paren,
            nadi_core::parser::tokenizer::TaskToken::BraceEnd => Highlight::Paren,
            nadi_core::parser::tokenizer::TaskToken::BracketEnd => Highlight::Paren,
            nadi_core::parser::tokenizer::TaskToken::Variable => Highlight::Variable,
            nadi_core::parser::tokenizer::TaskToken::Function => Highlight::Function,
            nadi_core::parser::tokenizer::TaskToken::Assignment => Highlight::Symbol,
            nadi_core::parser::tokenizer::TaskToken::Bool => Highlight::Bool,
            nadi_core::parser::tokenizer::TaskToken::String(_) => Highlight::Text,
            nadi_core::parser::tokenizer::TaskToken::Integer => Highlight::Number,
            nadi_core::parser::tokenizer::TaskToken::Float => Highlight::Number,
            nadi_core::parser::tokenizer::TaskToken::Date => Highlight::DateTime,
            nadi_core::parser::tokenizer::TaskToken::Time => Highlight::DateTime,
            nadi_core::parser::tokenizer::TaskToken::DateTime => Highlight::DateTime,
            nadi_core::parser::tokenizer::TaskToken::NewLine => Highlight::Plain,
            nadi_core::parser::tokenizer::TaskToken::WhiteSpace => Highlight::Plain,
            _ => Highlight::Error,
        },
    }
}

impl Highlight {
    /// Classes one token for display, exactly per `spec_from_token`.
    pub fn from_token(
        tk: &nadi_core::parser::tokenizer::TaskToken,
        ntf: &NadiFileType,
    ) -> (r: Highlight)
        ensures
            r == spec_from_token(*tk, *ntf),
    {
        match ntf {
            NadiFileType::Network => match tk {
                nadi_core::parser::tokenizer::TaskToken::Comment => Highlight::Comment,
                nadi_core::parser::tokenizer::TaskToken::Keyword(_) => Highlight::Variable,
                nadi_core::parser::tokenizer::TaskToken::PathSep => Highlight::Symbol,
                nadi_core::parser::tokenizer::TaskToken::Variable => Highlight::Variable,
                nadi_core::parser::tokenizer::TaskToken::Bool => Highlight::Variable,
                nadi_core::parser::tokenizer::TaskToken::String(_) => Highlight::Text,
                nadi_core::parser::tokenizer::TaskToken::Integer => Highlight::Variable,
                nadi_core::parser::tokenizer::TaskToken::Float => Highlight::Variable,
                nadi_core::parser::tokenizer::TaskToken::NewLine => Highlight::Plain,
                nadi_core::parser::tokenizer::TaskToken::WhiteSpace => Highlight::Plain,
                _ => Highlight::Error,
            },
            NadiFileType::Attribute => match tk {
                nadi_core::parser::tokenizer::TaskToken::Comment => Highlight::Comment,
                nadi_core::parser::tokenizer::TaskToken::Keyword(_) => Highlight::Variable,
                nadi_core::parser::tokenizer::TaskToken::ParenStart => Highlight::Paren,
                nadi_core::parser::tokenizer::TaskToken::BraceStart => Highlight::Paren,
                nadi_core::parser::tokenizer::TaskToken::BracketStart => Highlight::Paren,
                nadi_core::parser::tokenizer::TaskToken::Comma => Highlight::Symbol,
                nadi_core::parser::tokenizer::TaskToken::Dot => Highlight::Symbol,
                nadi_core::parser::tokenizer::TaskToken::ParenEnd => Highlight::Paren,
                nadi_core::parser::tokenizer::TaskToken::BraceEnd => Highlight::Paren,
                nadi_core::parser::tokenizer::TaskToken::BracketEnd => Highlight::Paren,
                nadi_core::parser::tokenizer::TaskToken::Assignment => Highlight::Symbol,
                nadi_core::parser::tokenizer::TaskToken::Variable => Highlight::Variable,
                nadi_core::parser::tokenizer::TaskToken::Bool => Highlight::Bool,
                nadi_core::parser::tokenizer::TaskToken::String(_) => Highlight::Text,
                nadi_core::parser::tokenizer::TaskToken::Integer => Highlight::Number,
                nadi_core::parser::tokenizer::TaskToken::Float => Highlight::Number,
                nadi_core::parser::tokenizer::TaskToken::Date => Highlight::DateTime,
                nadi_core::parser::tokenizer::TaskToken::Time => Highlight::DateTime,
                nadi_core::parser::tokenizer::TaskToken::DateTime => Highlight::DateTime,
                nadi_core::parser::tokenizer::TaskToken::PathSep => Highlight::Error,
                nadi_core::parser::tokenizer::TaskToken::Function => Highlight::Error,
                nadi_core::parser::tokenizer::TaskToken::NewLine => Highlight::Plain,
                nadi_core::parser::tokenizer::TaskToken::WhiteSpace => Highlight::Plain,
                _ => Highlight::Error,
            },
            NadiFileType::Tasks | NadiFileType::Terminal => match tk {
                nadi_core::parser::tokenizer::TaskToken::Comment => Highlight::Comment,
                nadi_core::parser::tokenizer::TaskToken::Keyword(_) => Highlight::Keyword,
                nadi_core::parser::tokenizer::TaskToken::AngleStart => Highlight::Paren,
                nadi_core::parser::tokenizer::TaskToken::ParenStart => Highlight::Paren,
                nadi_core::parser::tokenizer::TaskToken::BraceStart => Highlight::Paren,
                nadi_core::parser::tokenizer::TaskToken::BracketStart => Highlight::Paren,
                nadi_core::parser::tokenizer::TaskToken::PathSep => Highlight::Symbol,
                nadi_core::parser::tokenizer::TaskToken::Comma => Highlight::Symbol,
                nadi_core::parser::tokenizer::TaskToken::Dot => Highlight::Symbol,
                nadi_core::parser::tokenizer::TaskToken::And => Highlight::Symbol,
                nadi_core::parser::tokenizer::TaskToken::Or => Highlight::Symbol,
                nadi_core::parser::tokenizer::TaskToken::Not => Highlight::Symbol,
                nadi_core::parser::tokenizer::TaskToken::AngleEnd => Highlight::Paren,
                nadi_core::parser::tokenizer::TaskToken::ParenEnd => Highlight::Paren,
                nadi_core::parser::tokenizer::TaskToken::BraceEnd => Highlight::Paren,
                nadi_core::parser::tokenizer::TaskToken::BracketEnd => Highlight::Paren,
                nadi_core::parser::tokenizer::TaskToken::Variable => Highlight::Variable,
                nadi_core::parser::tokenizer::TaskToken::Function => Highlight::Function,
                nadi_core::parser::tokenizer::TaskToken::Assignment => Highlight::Symbol,
                nadi_core::parser::tokenizer::TaskToken::Bool => Highlight::Bool,
                nadi_core::parser::tokenizer::TaskToken::String(_) => Highlight::Text,
                nadi_core::parser::tokenizer::TaskToken::Integer => Highlight::Number,
                nadi_core::parser::tokenizer::TaskToken::Float => Highlight::Number,
                nadi_core::parser::tokenizer::TaskToken::Date => Highlight::DateTime,
                nadi_core::parser::tokenizer::TaskToken::Time => Highlight::DateTime,
                nadi_core::parser::tokenizer::TaskToken::DateTime => Highlight::DateTime,
                nadi_core::parser::tokenizer::TaskToken::NewLine => Highlight::Plain,
                nadi_core::parser::tokenizer::TaskToken::WhiteSpace => Highlight::Plain,
                _ => Highlight::Error,
            },
        }
    }
}

/// Spans `(start, end, class)` cover the line one after another, each
/// starting where the one before ended, the first at 0.
pub open spec fn spans_consecutive(spans: Seq<(usize, usize, Highlight)>) -> bool {
    &&& (forall|i: int| 0 <= i < spans.len() ==> (#[trigger] spans[i]).0 <= spans[i].1)
    &&& (forall|i: int|
        0 < i < spans.len() ==> (#[trigger] spans[i]).0 == spans[i - 1].1)
    &&& (spans.len() > 0 ==> spans[0].0 == 0)
}

/// Splits one line with the engine's tokenizer and classes each token
/// for the given file type.  A line the tokenizer rejects (it contains
/// an invalid token) is shown as one error span — or one plain span on
/// the terminal, whose old output need not tokenize.
pub fn highlight_tokens(line: &str, ntf: &NadiFileType) -> (spans: Vec<(usize, usize, Highlight)>)
    ensures
        spans_consecutive(spans@),
{
    let tokens = nadi_core::parser::tokenizer::get_tokens(line);
    let n = tokens.len();
    let mut invalid = false;
    for i in 0..n
        invariant
            n == tokens@.len(),
    {
        match &tokens[i].ty {
            nadi_core::parser::tokenizer::TaskToken::Invalid(_) => {
                invalid = true;
            },
            nadi_core::parser::tokenizer::TaskToken::None => {
                invalid = true;
            },
            _ => (),
        }
    }
    if invalid {
        let class = match ntf {
            NadiFileType::Terminal => Highlight::Plain,
            _ => Highlight::Error,
        };
        let mut spans: Vec<(usize, usize, Highlight)> = Vec::new();
        spans.push((0, line.len(), class));
        return spans;
    }
    let mut spans: Vec<(usize, usize, Highlight)> = Vec::new();
    let mut offset: usize = 0;
    for i in 0..n
        invariant
            n == tokens@.len(),
            spans_consecutive(spans@),
            spans@.len() > 0 ==> offset == spans@.last().1,
            spans@.len() == 0 ==> offset == 0,
    {
        let ghost pre = spans@;
        let len = tokens[i].content.len();
        let end = offset.saturating_add(len);
        let class = Highlight::from_token(&tokens[i].ty, ntf);
        spans.push((offset, end, class));
        offset = end;
        proof {
            assert(spans@.last() == (spans@[spans@.len() - 1]));
            assert(forall|j: int|
                0 <= j < pre.len() ==> spans@[j] == #[trigger] pre[j]);
        }
    }
    spans
}

/// Line-by-line highlighter state: the current line and the file type
/// being displayed.
pub struct NadiHighlighter {
    curr_line: usize,
    settings: NadiFileType,
}

impl NadiHighlighter {
    /// A highlighter at the top of the text.
    pub fn new(settings: NadiFileType) -> (r: Self)
        ensures
            r.curr_line() == 0,
    {
        NadiHighlighter { curr_line: 0, settings }
    }

    /// Adopts new settings, keeping the position.
    pub fn update(&mut self, new_settings: NadiFileType)
        ensures
            final(self).curr_line() == old(self).curr_line(),
    {
        self.settings = new_settings;
    }

    /// Restarts highlighting from the given line.
    pub fn change_line(&mut self, line: usize)
        ensures
            final(self).curr_line() == line,
    {
        self.curr_line = line;
    }

    /// The line the next call will highlight.
    pub fn current_line(&self) -> (r: usize)
        ensures
            r == self.curr_line(),
    {
        self.curr_line
    }

    /// The line the next call will highlight (specification view).
    pub closed spec fn curr_line(&self) -> usize {
        self.curr_line
    }

    /// Highlights one line and advances to the next.  Terminal text is
    /// classed without advancing: the console re-highlights the same
    /// line as output accumulates.
    pub fn highlight_line(&mut self, line: &str) -> (spans: Vec<(usize, usize, Highlight)>)
        requires
            old(self).curr_line() < usize::MAX,
        ensures
            spans_consecutive(spans@),
            final(self).curr_line() == if old(self).is_terminal() {
                old(self).curr_line()
            } else {
                (old(self).curr_line() + 1) as usize
            },
    {
        let spans = highlight_tokens(line, &self.settings);
        match self.settings {
            NadiFileType::Terminal => (),
            _ => {
                self.curr_line = self.curr_line + 1;
            },
        }
        spans
    }

    /// Whether the highlighter displays terminal output.
    pub closed spec fn is_terminal(&self) -> bool {
        self.settings is Terminal
    }
}

} // verus!
