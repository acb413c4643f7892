use nadi_terminal::terminal::{Command, Directive, Phase, Terminal};

fn ok(text: &str) -> Result<Option<String>, String> {
    Ok(Some(text.to_string()))
}

#[test]
fn two_unit_chain_runs_to_completion() {
    let mut term = Terminal::new();
    let script = "env echo(1)\nenv echo(2)".to_string();
    let n = term.submit(script.clone()).expect("script should parse");
    assert_eq!(n, 2);
    assert_eq!(term.progress(), 0);
    assert!(term.is_running());

    let u1 = term.poll().expect("first unit");
    let d1 = term.apply_outcome("out1\n".to_string(), ok("1"));
    assert_eq!(d1, Directive::RefreshAndContinue);
    assert_eq!(term.progress(), 50);
    drop(u1);

    let u2 = term.poll().expect("second unit");
    let d2 = term.apply_outcome("out2\n".to_string(), ok("2"));
    assert_eq!(d2, Directive::RefreshAndContinue);
    assert_eq!(term.progress(), 100);
    drop(u2);

    assert!(term.poll().is_none());
    assert_eq!(term.phase(), Phase::Completed);
    assert_eq!(term.progress(), 100);
    assert_eq!(term.exec_calls(), 2);
    assert_eq!(term.done(), 2);
    assert!(!term.is_running());

    assert_eq!(term.history().len(), 1);
    assert_eq!(term.history()[0], script);
    let expected = vec![
        script.clone(),
        "out1\n".to_string(),
        "1".to_string(),
        "out2\n".to_string(),
        "2".to_string(),
    ];
    assert_eq!(term.transcript().clone(), expected);
}

#[test]
fn unparseable_script_changes_nothing() {
    let mut term = Terminal::new();
    let err = term.submit("env ((".to_string());
    assert!(err.is_err());
    let msg = err.unwrap_err();
    assert!(!msg.is_empty());
    assert_eq!(term.status().clone(), msg);
    assert_eq!(term.exec_calls(), 0);
    assert_eq!(term.progress(), 0);
    assert_eq!(term.phase(), Phase::Idle);
    assert!(term.history().is_empty());
    assert!(term.transcript().is_empty());
    assert!(!term.is_running());
}

#[test]
fn failing_unit_aborts_chain() {
    let mut term = Terminal::new();
    let script = "env echo(1)\nenv echo(2)\nenv echo(3)".to_string();
    assert_eq!(term.submit(script.clone()), Ok(3));

    let _u1 = term.poll().expect("first unit");
    term.apply_outcome(String::new(), ok("1"));
    assert_eq!(term.progress(), 33);

    let _u2 = term.poll().expect("second unit");
    let d = term.apply_outcome("partial\n".to_string(), Err("boom".to_string()));
    assert_eq!(d, Directive::Stop);

    assert_eq!(term.phase(), Phase::Aborted);
    assert!(!term.is_running());
    assert_eq!(term.exec_calls(), 2);
    assert_eq!(term.done(), 1);
    // progress still reflects the single success out of three units
    assert_eq!(term.progress(), 33);
    let last = term.transcript().last().cloned().unwrap();
    assert_eq!(last, "boom");
}

#[test]
fn empty_script_completes_immediately() {
    let mut term = Terminal::new();
    let n = term.submit(String::new()).expect("empty script parses");
    assert_eq!(n, 0);
    assert!(term.poll().is_none());
    assert_eq!(term.phase(), Phase::Completed);
    assert_eq!(term.progress(), 100);
    assert_eq!(term.exec_calls(), 0);
}

#[test]
fn history_records_scripts_in_order() {
    let mut term = Terminal::new();
    let a = "env echo(1)".to_string();
    let b = "env echo(2)".to_string();
    let c = "env echo(3)".to_string();

    assert_eq!(term.submit(a.clone()), Ok(1));
    let _u = term.poll().unwrap();
    term.apply_outcome(String::new(), ok("1"));
    assert!(term.poll().is_none());

    assert_eq!(term.submit(b.clone()), Ok(1));
    let _u = term.poll().unwrap();
    term.apply_outcome(String::new(), Err("fail".to_string()));

    assert_eq!(term.submit(c.clone()), Ok(1));
    let _u = term.poll().unwrap();
    term.apply_outcome(String::new(), ok("3"));
    assert!(term.poll().is_none());

    assert_eq!(term.history().clone(), vec![a, b, c]);
}

#[test]
fn rejected_script_leaves_history_alone() {
    let mut term = Terminal::new();
    let a = "env echo(1)".to_string();
    assert_eq!(term.submit(a.clone()), Ok(1));
    let _u = term.poll().unwrap();
    term.apply_outcome(String::new(), ok("1"));
    assert!(term.poll().is_none());

    assert!(term.submit("env ((".to_string()).is_err());
    assert_eq!(term.history().clone(), vec![a]);
}

#[test]
fn captured_output_precedes_result_text() {
    let mut term = Terminal::new();
    let script = "env echo(1)".to_string();
    assert_eq!(term.submit(script.clone()), Ok(1));
    let _u = term.poll().unwrap();
    term.apply_outcome("xy".to_string(), ok("res"));
    let expected = vec![script, "xy".to_string(), "res".to_string()];
    assert_eq!(term.transcript().clone(), expected);
}

#[test]
fn outcome_without_result_text_appends_capture_only() {
    let mut term = Terminal::new();
    let script = "env echo(1)".to_string();
    assert_eq!(term.submit(script.clone()), Ok(1));
    let _u = term.poll().unwrap();
    term.apply_outcome("only-output".to_string(), Ok(None));
    let expected = vec![script, "only-output".to_string()];
    assert_eq!(term.transcript().clone(), expected);
}

#[test]
fn exec_command_routes_attr_requests() {
    let mut term = Terminal::new();
    term.command_change("attr".to_string());
    match term.exec_command() {
        Command::ShowAttrs(None) => (),
        _ => panic!("bare attr should inspect the network"),
    }

    term.command_change("attr station one".to_string());
    match term.exec_command() {
        Command::ShowAttrs(Some(args)) => assert_eq!(args, "station one"),
        _ => panic!("attr with argument should inspect a node"),
    }

    term.command_change("env echo(1)".to_string());
    match term.exec_command() {
        Command::Run(s) => assert_eq!(s, "env echo(1)"),
        _ => panic!("other commands run as scripts"),
    }

    term.command_change("attrx y".to_string());
    match term.exec_command() {
        Command::Run(s) => assert_eq!(s, "attrx y"),
        _ => panic!("attrx is not the attr command"),
    }
}

#[test]
fn history_prefix_lookup() {
    let mut term = Terminal::new();
    term.append_history("env echo(1)".to_string());
    term.append_history("network plot()".to_string());
    term.append_history("env load()".to_string());
    let matches = term.history_matches("env");
    assert_eq!(
        matches,
        vec!["env echo(1)".to_string(), "env load()".to_string()]
    );
    let all = term.history_matches("");
    assert_eq!(all.len(), 3);
    let none = term.history_matches("node");
    assert!(none.is_empty());
}

#[test]
fn recall_fills_command_line() {
    let mut term = Terminal::new();
    term.recall("env echo(1)".to_string());
    match term.exec_command() {
        Command::Run(s) => assert_eq!(s, "env echo(1)"),
        _ => panic!("recalled entry should run"),
    }
}

#[test]
fn current_template_empty_is_none() {
    let mut term = Terminal::new();
    assert!(term.current_template().is_none());
    term.set_label_template("{name}".to_string());
    assert!(term.current_template().is_some());
}

#[test]
fn default_driver_is_idle() {
    let term = Terminal::default();
    assert_eq!(term.phase(), Phase::Idle);
    assert!(term.history().is_empty());
    assert!(term.transcript().is_empty());
    assert_eq!(term.progress(), 0);
}

#[test]
fn embedding_keeps_the_state() {
    let mut term = Terminal::new();
    term.append_history("env echo(1)".to_string());
    let term = term.embed();
    assert_eq!(term.history().len(), 1);
    assert_eq!(term.phase(), Phase::Idle);
}

#[test]
fn two_tasks_on_one_line_are_rejected() {
    // task lists are newline-separated; the engine's own script entry
    // faults on this input, the driver reports it as a parse error
    let mut term = Terminal::new();
    let r = term.submit("exit exit".to_string());
    assert!(r.is_err());
    assert_eq!(term.phase(), Phase::Idle);
    assert!(term.history().is_empty());
    assert_eq!(term.exec_calls(), 0);
}

#[test]
fn out_of_range_date_is_rejected() {
    // "2020-99-99" lexes as a date token but names no date the engine
    // accepts; the driver rejects the script instead of faulting
    let mut term = Terminal::new();
    let r = term.submit("env f(2020-99-99)".to_string());
    assert!(r.is_err());
    assert_eq!(term.phase(), Phase::Idle);
    assert!(term.history().is_empty());
    // a well-formed date passes the same guard
    let r = term.submit("env f(2020-12-01)".to_string());
    assert!(r.is_ok());
}

#[test]
fn non_ascii_template_falls_back() {
    let mut term = Terminal::new();
    term.set_label_template("n\u{e9}-{name}".to_string());
    assert!(term.current_template().is_none());
    term.set_label_template("{name}".to_string());
    assert!(term.current_template().is_some());
}

#[test]
fn status_clears_on_the_next_interaction() {
    let mut term = Terminal::new();
    assert!(term.submit("env ((".to_string()).is_err());
    assert!(!term.status().is_empty());
    term.command_change("env echo(1)".to_string());
    assert!(term.status().is_empty());
}
