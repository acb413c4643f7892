use nadi_core::parser::tokenizer::TaskToken;
use nadi_core::tasks::TaskKeyword;
use nadi_terminal::highlight::{
    Highlight, NadiFileType, NadiHighlighter, highlight_tokens,
};

#[test]
fn token_classes_depend_on_file_type() {
    let kw = TaskToken::Keyword(TaskKeyword::Env);
    assert_eq!(
        Highlight::from_token(&kw, &NadiFileType::Tasks),
        Highlight::Keyword
    );
    assert_eq!(
        Highlight::from_token(&kw, &NadiFileType::Network),
        Highlight::Variable
    );
    assert_eq!(
        Highlight::from_token(&TaskToken::Integer, &NadiFileType::Tasks),
        Highlight::Number
    );
    assert_eq!(
        Highlight::from_token(&TaskToken::Integer, &NadiFileType::Network),
        Highlight::Variable
    );
    assert_eq!(
        Highlight::from_token(&TaskToken::Function, &NadiFileType::Attribute),
        Highlight::Error
    );
    assert_eq!(
        Highlight::from_token(&TaskToken::Function, &NadiFileType::Tasks),
        Highlight::Function
    );
    assert_eq!(
        Highlight::from_token(&TaskToken::WhiteSpace, &NadiFileType::Tasks),
        Highlight::Plain
    );
}

#[test]
fn spans_cover_a_task_line() {
    let line = "env echo(1)";
    let spans = highlight_tokens(line, &NadiFileType::Tasks);
    assert!(!spans.is_empty());
    assert_eq!(spans[0].0, 0);
    for w in spans.windows(2) {
        assert_eq!(w[0].1, w[1].0);
    }
    assert_eq!(spans.last().unwrap().1, line.len());
    // the keyword opens the line
    assert_eq!(spans[0].2, Highlight::Keyword);
}

#[test]
fn invalid_line_is_one_error_span() {
    let line = "env ~broken";
    let spans = highlight_tokens(line, &NadiFileType::Tasks);
    assert_eq!(spans.len(), 1);
    assert_eq!(spans[0], (0, line.len(), Highlight::Error));
    // terminal output need not tokenize, so it stays plain
    let spans = highlight_tokens(line, &NadiFileType::Terminal);
    assert_eq!(spans.len(), 1);
    assert_eq!(spans[0], (0, line.len(), Highlight::Plain));
}

#[test]
fn highlighter_advances_lines_except_for_terminal() {
    let mut hl = NadiHighlighter::new(NadiFileType::Tasks);
    assert_eq!(hl.current_line(), 0);
    hl.highlight_line("env echo(1)");
    assert_eq!(hl.current_line(), 1);
    hl.change_line(0);
    assert_eq!(hl.current_line(), 0);

    let mut term = NadiHighlighter::new(NadiFileType::Terminal);
    term.highlight_line("whatever output");
    assert_eq!(term.current_line(), 0);
}

#[test]
fn file_type_from_extension() {
    assert_eq!(
        NadiFileType::from_extension("net"),
        Some(NadiFileType::Network)
    );
    assert_eq!(
        NadiFileType::from_extension("network"),
        Some(NadiFileType::Network)
    );
    assert_eq!(
        NadiFileType::from_extension("tasks"),
        Some(NadiFileType::Tasks)
    );
    assert_eq!(
        NadiFileType::from_extension("toml"),
        Some(NadiFileType::Attribute)
    );
    assert_eq!(
        NadiFileType::from_extension("log"),
        Some(NadiFileType::Terminal)
    );
    assert_eq!(NadiFileType::from_extension("rs"), None);
}
