//! Panes of the host window: each pane shows one view of the system, and
//! a view is opened in a new pane only when no pane shows it yet.

use vstd::prelude::*;

verus! {

/// The view a pane can show.
#[derive(Clone, Copy, Debug, PartialEq, Eq, Structural)]
pub enum PaneType {
    FunctionHelp,
    TextEditor,
    SvgView,
    NetworkView,
    Terminal,
    AttrView,
}

impl PaneType {
    /// The display name of the view.
    pub fn name(&self) -> (r: &'static str) {
        match self {
            PaneType::FunctionHelp => "Function Help",
            PaneType::TextEditor => "Text Editor",
            PaneType::SvgView => "Svg Viewer",
            PaneType::NetworkView => "Network Viewer",
            PaneType::Terminal => "Terminal",
            PaneType::AttrView => "Attributes",
        }
    }
}

/// One pane of the window: what it shows, and whether it is pinned.
pub struct Pane {
    pub is_pinned: bool,
    pub ty: Option<PaneType>,
}

impl Pane {
    /// A fresh pane: unpinned, with its view not chosen yet.
    pub fn new() -> (r: Self)
        ensures
            !r.is_pinned,
            r.ty is None,
    {
        Pane { is_pinned: false, ty: None }
    }
}

/// Whether two pane-type choices pick the same view.
pub fn same_choice(a: &Option<PaneType>, b: &Option<PaneType>) -> (r: bool)
    ensures
        r <==> *a == *b,
{
    match (a, b) {
        (Some(x), Some(y)) => *x == *y,
        (None, None) => true,
        _ => false,
    }
}

/// Whether a new pane for the chosen view should be opened: only when no
/// existing pane already shows it.
pub fn should_spawn(panes: &Vec<Pane>, ty: &Option<PaneType>) -> (r: bool)
    ensures
        r <==> !(exists|i: int| 0 <= i < panes@.len() && (#[trigger] panes@[i]).ty == *ty),
{
    let n = panes.len();
    for i in 0..n
        invariant
            n == panes@.len(),
            forall|j: int| 0 <= j < i ==> (#[trigger] panes@[j]).ty != *ty,
    {
        if same_choice(&panes[i].ty, ty) {
            return false;
        }
    }
    true
}

} // verus!
