use nadi_terminal::network::{NetworkData, NodeInput};

fn node(
    index: usize,
    name: &str,
    level: u64,
    rendered: Option<&str>,
    output: Option<usize>,
) -> NodeInput {
    NodeInput {
        index,
        name: name.to_string(),
        level,
        color: None,
        linecolor: Some((255, 0, 0)),
        textcolor: None,
        rendered: rendered.map(|s| s.to_string()),
        output,
    }
}

fn sample() -> Vec<NodeInput> {
    vec![
        node(0, "head", 2, Some("Head Station"), Some(2)),
        node(1, "mid", 1, None, Some(2)),
        node(2, "outlet", 0, None, None),
    ]
}

#[test]
fn refresh_builds_nodes_edges_and_maxlevel() {
    let net = NetworkData::new(sample());
    assert_eq!(net.nodes.len(), 3);
    assert_eq!(net.edges, vec![(0, 2), (1, 2)]);
    assert_eq!(net.maxlevel, 2);
    assert_eq!(net.nodes[0].pos, (2, 0));
    assert_eq!(net.nodes[2].pos, (0, 2));
    assert_eq!(net.nodes[1].linecolor, Some((255, 0, 0)));
}

#[test]
fn label_falls_back_to_node_name() {
    let net = NetworkData::new(sample());
    assert_eq!(net.nodes[0].label, "Head Station");
    assert_eq!(net.nodes[1].label, "mid");
    assert_eq!(net.nodes[2].label, "outlet");
}

fn same_content(a: &NetworkData, b: &NetworkData) -> bool {
    a.maxlevel == b.maxlevel
        && a.edges == b.edges
        && a.nodes.len() == b.nodes.len()
        && a.nodes.iter().zip(b.nodes.iter()).all(|(x, y)| {
            x.index == y.index
                && x.name == y.name
                && x.pos == y.pos
                && x.color == y.color
                && x.linecolor == y.linecolor
                && x.textcolor == y.textcolor
                && x.label == y.label
        })
}

#[test]
fn refresh_twice_gives_identical_content() {
    let mut a = NetworkData::new(sample());
    let b = NetworkData::new(sample());
    assert!(same_content(&a, &b));
    // refreshing over an existing snapshot leaves nothing of the old one
    a.update(sample());
    assert!(same_content(&a, &b));
    a.update(vec![node(0, "solo", 5, None, None)]);
    assert_eq!(a.nodes.len(), 1);
    assert_eq!(a.maxlevel, 5);
    assert!(a.edges.is_empty());
}

#[test]
fn empty_graph_snapshot() {
    let net = NetworkData::default();
    assert!(net.nodes.is_empty());
    assert!(net.edges.is_empty());
    assert_eq!(net.maxlevel, 0);
}
