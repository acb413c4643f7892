//! Drives the terminal against the real task engine: parsed units are
//! executed through a `TaskContext` and their outcomes fed back.

use nadi_core::tasks::TaskContext;
use nadi_terminal::terminal::{Phase, Terminal};

#[test]
fn real_execution_of_literal_expressions() {
    let mut term = Terminal::new();
    let mut ctx = TaskContext::new(None);
    let script = "env 1\nenv 2".to_string();
    let n = term.submit(script.clone()).expect("script should parse");
    assert_eq!(n, 2);

    let mut results = Vec::new();
    while let Some(unit) = term.poll() {
        let res = ctx.execute(unit);
        if let Ok(Some(ref s)) = res {
            results.push(s.clone());
        }
        term.apply_outcome(String::new(), res);
    }
    assert_eq!(term.phase(), Phase::Completed);
    assert_eq!(term.progress(), 100);
    assert_eq!(term.exec_calls(), 2);
    assert_eq!(results, vec!["1".to_string(), "2".to_string()]);
}

#[test]
fn real_execution_surfaces_errors() {
    let mut term = Terminal::new();
    let mut ctx = TaskContext::new(None);
    // the attribute is not defined, so the first unit fails
    let script = "env no_such_attribute + 1\nenv 2".to_string();
    assert_eq!(term.submit(script), Ok(2));

    let unit = term.poll().expect("first unit");
    let res = ctx.execute(unit);
    assert!(res.is_err());
    term.apply_outcome(String::new(), res);
    assert_eq!(term.phase(), Phase::Aborted);
    assert_eq!(term.exec_calls(), 1);
    assert_eq!(term.done(), 0);
}
