use nadi_terminal::editor::function_at_line;
use nadi_terminal::help::{FuncType, filter_functions, list_functions, matches_search, sort_names};

fn names(v: &[&str]) -> Vec<String> {
    v.iter().map(|s| s.to_string()).collect()
}

#[test]
fn search_terms_must_all_hit() {
    let terms = names(&["load", "file"]);
    assert!(matches_search("load_file", &terms, "network"));
    assert!(!matches_search("load_str", &terms, "network"));
    // a term equal to the register keyword always hits
    let terms = names(&["network", "file"]);
    assert!(matches_search("to_file", &terms, "network"));
    assert!(!matches_search("to_file", &terms, "node"));
    // no terms: everything matches
    assert!(matches_search("anything", &names(&[]), "env"));
}

#[test]
fn filter_keeps_order_and_matches() {
    let all = names(&["render", "load_file", "save_file", "calc"]);
    let got = filter_functions(&all, &names(&["file"]), "env");
    assert_eq!(got, names(&["load_file", "save_file"]));
}

#[test]
fn sorting_is_alphabetical() {
    let got = sort_names(names(&["render", "calc", "load_file", "calc"]));
    assert_eq!(got, names(&["calc", "calc", "load_file", "render"]));
}

#[test]
fn listing_filters_then_sorts() {
    let all = names(&["render_table", "load_file", "save_file", "calc"]);
    let got = list_functions(&all, &names(&["a"]), "env");
    assert_eq!(
        got,
        names(&["calc", "load_file", "render_table", "save_file"])
    );
    let got = list_functions(&all, &names(&["file"]), "env");
    assert_eq!(got, names(&["load_file", "save_file"]));
}

#[test]
fn function_under_cursor() {
    let text = "network load_file(\"x\")\nnode render(1)";
    assert_eq!(
        function_at_line(text, 0),
        Some((FuncType::Network, "load_file".to_string()))
    );
    assert_eq!(
        function_at_line(text, 1),
        Some((FuncType::Node, "render".to_string()))
    );
    assert_eq!(function_at_line("# just a comment", 0), None);
}

#[test]
fn no_function_beyond_the_text() {
    let text = "network load_file(\"x\")\nnode render(1)";
    assert_eq!(function_at_line(text, 2), None);
    assert_eq!(function_at_line(text, 100), None);
    // a trailing newline does not add a line
    assert_eq!(function_at_line("env echo(1)\n", 0).map(|p| p.1), Some("echo".to_string()));
    assert_eq!(function_at_line("env echo(1)\n", 1), None);
    assert_eq!(function_at_line("", 0), None);
}
