use warnet_graph::document::{
    attribute_schema, augment_document, data_element, find_element, key_element, resolve_value,
    version_or_default, ValueRule,
};
use warnet_graph::error::GraphError;
use warnet_graph::render::{read_document, write_document};
use warnet_graph::xml::{XmlElement, XmlNode};

fn pair(a: &str, b: &str) -> (String, String) {
    (a.to_string(), b.to_string())
}

fn element(name: &str, attributes: &[(&str, &str)], children: Vec<XmlNode>) -> XmlElement {
    XmlElement {
        prefix: None,
        namespace: None,
        namespaces: None,
        name: name.to_string(),
        attributes: attributes.iter().map(|(a, b)| pair(a, b)).collect(),
        children,
    }
}

fn data(key: &str, value: &str) -> XmlNode {
    XmlNode::Element(element(
        "data",
        &[("key", key)],
        vec![XmlNode::Text(value.to_string())],
    ))
}

fn key(name: &str, kind: &str) -> XmlNode {
    XmlNode::Element(element(
        "key",
        &[("attr.name", name), ("attr.type", kind), ("for", "node"), ("id", name)],
        vec![],
    ))
}

fn all_data(version: &str, config: &str) -> Vec<XmlNode> {
    vec![
        data("version", version),
        data("bitcoin_config", config),
        data("tc_netem", ""),
        data("build_args", ""),
        data("exporter", "false"),
        data("collect_logs", "false"),
        data("image", ""),
    ]
}

fn all_keys() -> Vec<XmlNode> {
    vec![
        key("version", "string"),
        key("bitcoin_config", "string"),
        key("tc_netem", "string"),
        key("build_args", "string"),
        key("exporter", "boolean"),
        key("collect_logs", "boolean"),
        key("image", "string"),
    ]
}

#[test]
fn schema_has_seven_attributes_in_order() {
    let table = attribute_schema();
    let names: Vec<&str> = table.iter().map(|d| d.name).collect();
    assert_eq!(
        names,
        vec![
            "version",
            "bitcoin_config",
            "tc_netem",
            "build_args",
            "exporter",
            "collect_logs",
            "image"
        ]
    );
    let kinds: Vec<&str> = table.iter().map(|d| d.kind).collect();
    assert_eq!(
        kinds,
        vec!["string", "string", "string", "string", "boolean", "boolean", "string"]
    );
    let rules: Vec<ValueRule> = table.iter().map(|d| d.rule).collect();
    assert_eq!(
        rules,
        vec![
            ValueRule::Version,
            ValueRule::Config,
            ValueRule::Empty,
            ValueRule::Empty,
            ValueRule::False,
            ValueRule::False,
            ValueRule::Empty
        ]
    );
}

#[test]
fn version_defaults_to_26_0() {
    assert_eq!(version_or_default(&None), "26.0");
    assert_eq!(version_or_default(&Some("27.0".to_string())), "27.0");
    assert_eq!(version_or_default(&Some(String::new())), "");
}

#[test]
fn rules_resolve_to_their_values() {
    assert_eq!(resolve_value(ValueRule::Version, "27.0", "conf"), "27.0");
    assert_eq!(resolve_value(ValueRule::Config, "27.0", "conf"), "conf");
    assert_eq!(resolve_value(ValueRule::Empty, "27.0", "conf"), "");
    assert_eq!(resolve_value(ValueRule::False, "27.0", "conf"), "false");
}

#[test]
fn key_and_data_elements_carry_the_declaration() {
    let table = attribute_schema();
    assert_eq!(XmlNode::Element(key_element(&table[4])), key("exporter", "boolean"));
    assert_eq!(XmlNode::Element(data_element(&table[4], "27.0", "c")), data("exporter", "false"));
    assert_eq!(XmlNode::Element(data_element(&table[0], "27.0", "c")), data("version", "27.0"));
    assert_eq!(XmlNode::Element(data_element(&table[1], "27.0", "c")), data("bitcoin_config", "c"));
}

#[test]
fn new_element_is_bare_and_grows_in_order() {
    let mut e = XmlElement::new("node");
    assert_eq!(e, element("node", &[], vec![]));
    e.push_attribute("id", "n0");
    e.push_attribute("x", "1");
    e.push_child(XmlNode::Text("t".to_string()));
    e.push_child(XmlNode::Comment("c".to_string()));
    assert_eq!(
        e,
        element(
            "node",
            &[("id", "n0"), ("x", "1")],
            vec![XmlNode::Text("t".to_string()), XmlNode::Comment("c".to_string())]
        )
    );
}

#[test]
fn find_element_gives_the_first_of_that_name() {
    let children = vec![
        XmlNode::Text("graph".to_string()),
        XmlNode::Element(element("key", &[], vec![])),
        XmlNode::Element(element("graph", &[("id", "a")], vec![])),
        XmlNode::Element(element("graph", &[("id", "b")], vec![])),
    ];
    assert_eq!(find_element(&children, "graph"), Some(2));
    assert_eq!(find_element(&children, "key"), Some(1));
    assert_eq!(find_element(&children, "node"), None);
    assert_eq!(find_element(&Vec::new(), "graph"), None);
}

#[test]
fn augmentation_adds_keys_and_populates_nodes_only() {
    let node0 = element("node", &[("id", "n0")], vec![]);
    let node1 = element("node", &[("id", "n1")], vec![XmlNode::Comment("kept".to_string())]);
    let edge = element("edge", &[("id", "e0"), ("source", "n0"), ("target", "n1")], vec![]);
    let nested = element("other", &[], vec![XmlNode::Element(element("node", &[], vec![]))]);
    let graph = element(
        "graph",
        &[("edgedefault", "directed")],
        vec![
            XmlNode::Element(node0),
            XmlNode::Text("node".to_string()),
            XmlNode::Element(edge),
            XmlNode::Element(node1),
            XmlNode::Element(nested),
        ],
    );
    let stray = element("node", &[("id", "outside")], vec![]);
    let second = element("graph", &[], vec![XmlNode::Element(element("node", &[], vec![]))]);
    let root = element(
        "graphml",
        &[("a", "b")],
        vec![XmlNode::Element(stray), XmlNode::Element(graph), XmlNode::Element(second)],
    );

    let out = augment_document(root, "27.0", "rpcuser=x").unwrap();

    let mut node1_children = vec![XmlNode::Comment("kept".to_string())];
    node1_children.extend(all_data("27.0", "rpcuser=x"));
    let expected_graph = element(
        "graph",
        &[("edgedefault", "directed")],
        vec![
            XmlNode::Element(element("node", &[("id", "n0")], all_data("27.0", "rpcuser=x"))),
            XmlNode::Text("node".to_string()),
            XmlNode::Element(element(
                "edge",
                &[("id", "e0"), ("source", "n0"), ("target", "n1")],
                vec![],
            )),
            XmlNode::Element(element("node", &[("id", "n1")], node1_children)),
            XmlNode::Element(element(
                "other",
                &[],
                vec![XmlNode::Element(element("node", &[], vec![]))],
            )),
        ],
    );
    let mut expected_children = vec![
        XmlNode::Element(element("node", &[("id", "outside")], vec![])),
        XmlNode::Element(expected_graph),
        XmlNode::Element(element(
            "graph",
            &[],
            vec![XmlNode::Element(element("node", &[], vec![]))],
        )),
    ];
    expected_children.extend(all_keys());
    assert_eq!(out, element("graphml", &[("a", "b")], expected_children));
}

#[test]
fn augmentation_without_graph_element_fails() {
    let root = element(
        "graphml",
        &[],
        vec![
            XmlNode::Text("graph".to_string()),
            XmlNode::Element(element("node", &[], vec![])),
        ],
    );
    assert_eq!(augment_document(root, "26.0", ""), Err(GraphError::MissingGraph));
    let empty = element("graph", &[], vec![]);
    assert_eq!(augment_document(empty, "26.0", ""), Err(GraphError::MissingGraph));
}

#[test]
fn augmentation_of_an_empty_graph_adds_only_keys() {
    let root = element("graphml", &[], vec![XmlNode::Element(element("graph", &[], vec![]))]);
    let out = augment_document(root, "26.0", "").unwrap();
    let mut expected = vec![XmlNode::Element(element("graph", &[], vec![]))];
    expected.extend(all_keys());
    assert_eq!(out, element("graphml", &[], expected));
}

#[test]
fn malformed_document_is_a_document_failure() {
    assert_eq!(read_document(&b"<graphml><graph></graphml>".to_vec()), Err(GraphError::Document));
    assert_eq!(read_document(&Vec::new()), Err(GraphError::Document));
    assert_eq!(read_document(&b"<!--only a comment-->".to_vec()), Err(GraphError::Document));
    assert_eq!(read_document(&b"no markup at all".to_vec()), Err(GraphError::Document));
}

#[test]
fn reading_keeps_names_attributes_and_children_in_order() {
    let bytes = b"<?xml version=\"1.0\"?><r z=\"1\" a=\"2\"><x id=\"n0\"/>text<!--c--><y/></r>".to_vec();
    let root = read_document(&bytes).unwrap();
    assert_eq!(
        root,
        element(
            "r",
            &[("z", "1"), ("a", "2")],
            vec![
                XmlNode::Element(element("x", &[("id", "n0")], vec![])),
                XmlNode::Text("text".to_string()),
                XmlNode::Comment("c".to_string()),
                XmlNode::Element(element("y", &[], vec![])),
            ]
        )
    );
}

#[test]
fn writing_indents_by_four_spaces_and_reads_back() {
    let root = element(
        "r",
        &[("z", "1"), ("a", "2")],
        vec![
            XmlNode::Element(element("x", &[("id", "n0")], vec![data("version", "27.0")])),
            XmlNode::Element(element("y", &[], vec![])),
        ],
    );
    let bytes = write_document(&root).unwrap();
    let text = String::from_utf8(bytes.clone()).unwrap();
    assert_eq!(
        text,
        "<?xml version=\"1.0\" encoding=\"UTF-8\"?>\n<r z=\"1\" a=\"2\">\n    <x id=\"n0\">\n        <data key=\"version\">27.0</data>\n    </x>\n    <y />\n</r>"
    );
    assert_eq!(read_document(&bytes).unwrap(), root);
    assert_eq!(write_document(&root).unwrap(), bytes);
}
