use nadi_terminal::attrs::AttrView;
use nadi_terminal::pane::{Pane, PaneType, should_spawn};
use nadi_terminal::terminal::percent;

#[test]
fn new_pane_is_blank() {
    let p = Pane::new();
    assert!(!p.is_pinned);
    assert!(p.ty.is_none());
}

#[test]
fn spawn_only_missing_views() {
    let mut panes = vec![Pane::new()];
    panes[0].ty = Some(PaneType::Terminal);
    assert!(!should_spawn(&panes, &Some(PaneType::Terminal)));
    assert!(should_spawn(&panes, &Some(PaneType::AttrView)));
    assert!(should_spawn(&panes, &None));
    panes.push(Pane::new());
    assert!(!should_spawn(&panes, &None));
}

#[test]
fn pane_names() {
    assert_eq!(PaneType::Terminal.name(), "Terminal");
    assert_eq!(PaneType::NetworkView.name(), "Network Viewer");
}

#[test]
fn attr_view_loads_rows() {
    let mut view = AttrView::default();
    assert_eq!(view.caption(), "");
    assert!(view.entries().is_empty());
    view.load_attrs(
        "Node[0]: outlet".to_string(),
        vec![(
            "name".to_string(),
            "String".to_string(),
            "\"outlet\"".to_string(),
        )],
    );
    assert_eq!(view.caption(), "Node[0]: outlet");
    assert_eq!(view.entries().len(), 1);
    assert_eq!(view.entries()[0].0, "name");
}

#[test]
fn percent_is_exact_integer_division() {
    assert_eq!(percent(0, 2), 0);
    assert_eq!(percent(1, 2), 50);
    assert_eq!(percent(2, 2), 100);
    assert_eq!(percent(1, 3), 33);
    assert_eq!(percent(2, 3), 66);
    assert_eq!(percent(3, 3), 100);
    assert_eq!(percent(0, 0), 100);
}
