use warnet_graph::error::GraphError;
use warnet_graph::render::render_document;
use warnet_graph::topology::{create_graph, MAX_NODES};
use warnet_graph::{handle_graph_command, GraphCommand};

const KEYS: [&str; 7] = [
    "version",
    "bitcoin_config",
    "tc_netem",
    "build_args",
    "exporter",
    "collect_logs",
    "image",
];

fn create(number: usize, version: Option<&str>, bitcoin_conf: Option<&str>) -> GraphCommand {
    GraphCommand::Create {
        number,
        outfile: None,
        version: version.map(|v| v.to_string()),
        bitcoin_conf: bitcoin_conf.map(|v| v.to_string()),
    }
}

fn elements<'a>(parent: &'a xmltree::Element, name: &str) -> Vec<&'a xmltree::Element> {
    parent
        .children
        .iter()
        .filter_map(|c| c.as_element())
        .filter(|e| e.name == name)
        .collect()
}

fn text(e: &xmltree::Element) -> String {
    e.get_text().map(|t| t.into_owned()).unwrap_or_default()
}

fn check_document(bytes: &[u8], nodes: usize, version: &str, config: &str) {
    let root = xmltree::Element::parse(bytes).unwrap();
    assert_eq!(root.name, "graphml");
    let keys = elements(&root, "key");
    assert_eq!(keys.len(), 7);
    for (k, key) in keys.iter().enumerate() {
        let kind = if k == 4 || k == 5 { "boolean" } else { "string" };
        assert_eq!(key.attributes.get("attr.name").map(|s| s.as_str()), Some(KEYS[k]));
        assert_eq!(key.attributes.get("attr.type").map(|s| s.as_str()), Some(kind));
        assert_eq!(key.attributes.get("for").map(|s| s.as_str()), Some("node"));
        assert_eq!(key.attributes.get("id").map(|s| s.as_str()), Some(KEYS[k]));
    }
    let graphs = elements(&root, "graph");
    assert_eq!(graphs.len(), 1);
    let node_elements = elements(graphs[0], "node");
    assert_eq!(node_elements.len(), nodes);
    let values = [version, config, "", "", "false", "false", ""];
    for (n, node) in node_elements.iter().enumerate() {
        assert_eq!(node.attributes.get("id"), Some(&format!("n{}", n)));
        assert_eq!(node.children.len(), 7);
        let data = elements(node, "data");
        assert_eq!(data.len(), 7);
        for k in 0..7 {
            assert_eq!(data[k].attributes.get("key").map(|s| s.as_str()), Some(KEYS[k]));
            assert_eq!(text(data[k]), values[k]);
        }
    }
    let edges = elements(graphs[0], "edge");
    assert!(edges.len() >= nodes);
    let mut pairs = Vec::new();
    for edge in edges {
        assert!(edge.children.is_empty());
        let pair = (
            edge.attributes.get("source").unwrap().clone(),
            edge.attributes.get("target").unwrap().clone(),
        );
        assert!(!pairs.contains(&pair));
        pairs.push(pair);
    }
    for n in 0..nodes {
        assert!(pairs.contains(&(format!("n{}", n), format!("n{}", (n + 1) % nodes))));
    }
}

#[test]
fn five_nodes_with_version_27() {
    let bytes = handle_graph_command(&create(5, Some("27.0"), None), "").unwrap();
    check_document(&bytes, 5, "27.0", "");
    let root = xmltree::Element::parse(bytes.as_slice()).unwrap();
    let graph = root.get_child("graph").unwrap();
    assert_eq!(elements(graph, "edge").len(), 20);
}

#[test]
fn missing_version_and_config_take_their_defaults() {
    let bytes = handle_graph_command(&create(4, None, None), "").unwrap();
    check_document(&bytes, 4, "26.0", "");
}

#[test]
fn config_text_counts_only_with_a_config_file() {
    let with = handle_graph_command(&create(3, None, Some("bitcoin.conf")), "[main]\nrpcuser=u").unwrap();
    check_document(&with, 3, "26.0", "[main]\nrpcuser=u");
    let without = handle_graph_command(&create(3, None, None), "[main]\nrpcuser=u").unwrap();
    check_document(&without, 3, "26.0", "");
}

#[test]
fn too_many_nodes_fail_the_command() {
    assert_eq!(
        handle_graph_command(&create(MAX_NODES + 1, None, None), ""),
        Err(GraphError::Construction)
    );
}

#[test]
fn rendering_twice_gives_the_same_bytes() {
    let graph = create_graph(12).unwrap();
    let first = render_document(&graph, "27.0", "k=v").unwrap();
    let second = render_document(&graph, "27.0", "k=v").unwrap();
    assert_eq!(first, second);
    check_document(&first, 12, "27.0", "k=v");
}

#[test]
fn two_node_document_is_fixed() {
    let first = handle_graph_command(&create(2, Some("27.0"), None), "").unwrap();
    let second = handle_graph_command(&create(2, Some("27.0"), None), "").unwrap();
    assert_eq!(first, second);
    let text = String::from_utf8(first).unwrap();
    assert!(text.starts_with("<?xml version=\"1.0\" encoding=\"UTF-8\"?>\n<graphml"));
    assert!(!text.contains('\r'));
    assert!(text.contains(
        "\n    <key attr.name=\"version\" attr.type=\"string\" for=\"node\" id=\"version\" />\n"
    ));
    assert!(text.contains("\n        <node id=\"n0\">\n            <data key=\"version\">27.0</data>\n"));
    assert!(text.contains("\n            <data key=\"exporter\">false</data>\n"));
    assert!(text.contains("\n        <edge id=\"e0\" source=\"n0\" target=\"n1\" />\n"));
    assert!(text.contains("\n        <edge id=\"e1\" source=\"n1\" target=\"n0\" />\n"));
    assert!(text.ends_with("</graphml>"));
}

#[test]
fn empty_topology_renders_keys_and_an_empty_graph() {
    let bytes = handle_graph_command(&create(0, None, None), "").unwrap();
    let root = xmltree::Element::parse(bytes.as_slice()).unwrap();
    assert_eq!(elements(&root, "key").len(), 7);
    let graph = root.get_child("graph").unwrap();
    assert!(elements(graph, "node").is_empty());
    assert!(elements(graph, "edge").is_empty());
}
