//! The document augmenter: the fixed schema of per-node attributes, its key
//! declarations under the document root and its data values under every node
//! element of the graph element.

use vstd::prelude::*;
use crate::error::GraphError;
use crate::xml::{
    bare_element, text_of, ElementModel, NodeModel, Text, XmlElement, XmlNode,
};

verus! {

/// How the value of an attribute is found.
#[derive(Debug, Clone, Copy, PartialEq, Eq, Structural)]
pub enum ValueRule {
    /// The version that the caller chose.
    Version,
    /// The rendered node configuration.
    Config,
    /// An empty text, left for later editing.
    Empty,
    /// The boolean `false`.
    False,
}

/// One attribute of the schema: its name, its GraphML type and the rule for its value.
#[derive(Debug, Clone, Copy)]
pub struct AttributeDecl {
    pub name: &'static str,
    pub kind: &'static str,
    pub rule: ValueRule,
}

/// An attribute of the schema as texts.
pub struct AttributeSpec {
    pub name: Text,
    pub kind: Text,
    pub rule: ValueRule,
}

impl View for AttributeDecl {
    type V = AttributeSpec;

    open spec fn view(&self) -> AttributeSpec {
        AttributeSpec { name: self.name@, kind: self.kind@, rule: self.rule }
    }
}

/// The views of a list of declarations.
pub open spec fn decls_model(decls: Seq<AttributeDecl>) -> Seq<AttributeSpec> {
    decls.map_values(|d: AttributeDecl| d@)
}

/// The seven attributes that every node carries, in document order.
pub open spec fn schema() -> Seq<AttributeSpec> {
    seq![
        AttributeSpec { name: "version"@, kind: "string"@, rule: ValueRule::Version },
        AttributeSpec { name: "bitcoin_config"@, kind: "string"@, rule: ValueRule::Config },
        AttributeSpec { name: "tc_netem"@, kind: "string"@, rule: ValueRule::Empty },
        AttributeSpec { name: "build_args"@, kind: "string"@, rule: ValueRule::Empty },
        AttributeSpec { name: "exporter"@, kind: "boolean"@, rule: ValueRule::False },
        AttributeSpec { name: "collect_logs"@, kind: "boolean"@, rule: ValueRule::False },
        AttributeSpec { name: "image"@, kind: "string"@, rule: ValueRule::Empty },
    ]
}

/// The version that a node gets: the caller's, or "26.0" where there is none.
pub open spec fn chosen_version(version: Option<Text>) -> Text {
    match version {
        Some(v) => v,
        None => "26.0"@,
    }
}

/// The configuration text that a node gets: the rendered configuration, or
/// the empty text where there is none.
pub open spec fn chosen_config(config: Option<Text>) -> Text {
    match config {
        Some(c) => c,
        None => ""@,
    }
}

/// The value that a rule gives.
pub open spec fn resolve(rule: ValueRule, version: Text, config: Text) -> Text {
    match rule {
        ValueRule::Version => version,
        ValueRule::Config => config,
        ValueRule::Empty => ""@,
        ValueRule::False => "false"@,
    }
}

/// The `key` element that declares an attribute for nodes.
pub open spec fn key_declaration(a: AttributeSpec) -> ElementModel {
    ElementModel {
        attributes: seq![
            ("attr.name"@, a.name),
            ("attr.type"@, a.kind),
            ("for"@, "node"@),
            ("id"@, a.name),
        ],
        ..bare_element("key"@)
    }
}

/// The `data` element that gives a node its value of an attribute.
pub open spec fn data_value(a: AttributeSpec, version: Text, config: Text) -> ElementModel {
    ElementModel {
        attributes: seq![("key"@, a.name)],
        children: seq![NodeModel::Text(resolve(a.rule, version, config))],
        ..bare_element("data"@)
    }
}

/// The key declarations of the whole schema, in schema order.
pub open spec fn key_declarations() -> Seq<NodeModel> {
    schema().map_values(|a: AttributeSpec| NodeModel::Element(key_declaration(a)))
}

/// The data values of the whole schema, in schema order.
pub open spec fn data_values(version: Text, config: Text) -> Seq<NodeModel> {
    schema().map_values(|a: AttributeSpec| NodeModel::Element(data_value(a, version, config)))
}

/// `n` is an element of the given name.
pub open spec fn is_element_named(n: NodeModel, name: Text) -> bool {
    n matches NodeModel::Element(e) && e.name == name
}

/// The first index from `from` on at which an element of the given name stands.
pub open spec fn first_named_from(children: Seq<NodeModel>, name: Text, from: int) -> Option<int>
    decreases children.len() - from,
{
    if from < 0 || from >= children.len() {
        None
    } else if is_element_named(children[from], name) {
        Some(from)
    } else {
        first_named_from(children, name, from + 1)
    }
}

/// What `first_named_from` finds is an element of the given name with none
/// before it from `from` on; it finds nothing only where there is none.
pub proof fn first_named_is_first(children: Seq<NodeModel>, name: Text, from: int)
    requires
        0 <= from,
    ensures
        match first_named_from(children, name, from) {
            Some(at) => from <= at < children.len() && is_element_named(children[at], name)
                && forall|j: int| from <= j < at ==> !is_element_named(#[trigger] children[j], name),
            None => forall|j: int|
                from <= j < children.len() ==> !is_element_named(#[trigger] children[j], name),
        },
    decreases children.len() - from,
{
    if from < children.len() && !is_element_named(children[from], name) {
        first_named_is_first(children, name, from + 1);
    }
}

/// An element with more children behind its own.
pub open spec fn with_children(e: ElementModel, more: Seq<NodeModel>) -> ElementModel {
    ElementModel { children: e.children + more, ..e }
}

/// A child of the graph element after augmentation: a `node` element has the
/// data values behind its children, anything else is as it was.
pub open spec fn with_data(n: NodeModel, data: Seq<NodeModel>) -> NodeModel {
    match n {
        NodeModel::Element(e) => if e.name == "node"@ {
            NodeModel::Element(with_children(e, data))
        } else {
            n
        },
        _ => n,
    }
}

/// The graph element after augmentation.
pub open spec fn populated(graph: ElementModel, data: Seq<NodeModel>) -> ElementModel {
    ElementModel { children: graph.children.map_values(|n: NodeModel| with_data(n, data)), ..graph }
}

/// The augmented document: the key declarations stand behind the root's
/// children, and the first `graph` element among them is populated. There is
/// none where the root has no `graph` element.
pub open spec fn augmented(root: ElementModel, version: Text, config: Text) -> Option<
    ElementModel,
> {
    let children = root.children + key_declarations();
    match first_named_from(children, "graph"@, 0) {
        None => None,
        Some(at) => Some(
            ElementModel {
                children: children.update(
                    at,
                    NodeModel::Element(
                        populated(children[at]->Element_0, data_values(version, config)),
                    ),
                ),
                ..root
            },
        ),
    }
}

/// Every node gets exactly the seven declared keys, each once and in the
/// order of their declarations: the `key` of the i-th data value is the `id`
/// of the i-th key declaration.
pub proof fn data_keys_follow_declarations(version: Text, config: Text, i: int)
    requires
        0 <= i < 7,
    ensures
        key_declarations().len() == 7,
        data_values(version, config).len() == 7,
        key_declarations()[i] matches NodeModel::Element(key) && data_values(version, config)[i]
            matches NodeModel::Element(data) && key.name == "key"@ && data.name == "data"@
            && data.attributes.len() == 1 && data.attributes[0] == ("key"@, schema()[i].name)
            && key.attributes[3] == ("id"@, schema()[i].name),
        forall|j: int| 0 <= j < 7 && j != i ==> schema()[j].name != schema()[i].name,
{
    reveal_strlit("version");
    reveal_strlit("bitcoin_config");
    reveal_strlit("tc_netem");
    reveal_strlit("build_args");
    reveal_strlit("exporter");
    reveal_strlit("collect_logs");
    reveal_strlit("image");
    assert("version"@[0] == 'v' && "bitcoin_config"@[0] == 'b' && "tc_netem"@[0] == 't');
    assert("build_args"@[1] == 'u' && "bitcoin_config"@[1] == 'i');
    assert("exporter"@[0] == 'e' && "collect_logs"@[0] == 'c' && "image"@[0] == 'i');
}

/// In the populated graph element every `node` element keeps its children
/// and has the data values behind them; every other child is as it was.
pub proof fn populated_nodes_carry_data(graph: ElementModel, data: Seq<NodeModel>, i: int)
    requires
        0 <= i < graph.children.len(),
    ensures
        populated(graph, data).children.len() == graph.children.len(),
        is_element_named(graph.children[i], "node"@) ==> {
            let before = graph.children[i]->Element_0;
            let after = populated(graph, data).children[i];
            &&& after is Element
            &&& after->Element_0.name == "node"@
            &&& after->Element_0.attributes == before.attributes
            &&& after->Element_0.children.len() == before.children.len() + data.len()
            &&& after->Element_0.children.subrange(0, before.children.len() as int)
                == before.children
            &&& after->Element_0.children.subrange(
                before.children.len() as int,
                (before.children.len() + data.len()) as int,
            ) == data
        },
        !is_element_named(graph.children[i], "node"@) ==> populated(graph, data).children[i]
            == graph.children[i],
{
    if is_element_named(graph.children[i], "node"@) {
        let before = graph.children[i]->Element_0;
        let after = populated(graph, data).children[i]->Element_0;
        assert(after.children.subrange(0, before.children.len() as int) =~= before.children);
        assert(after.children.subrange(
            before.children.len() as int,
            (before.children.len() + data.len()) as int,
        ) =~= data);
    }
}

/// The version and the configuration of every node are those chosen: with no
/// version "26.0", with no configuration the empty text.
pub proof fn data_values_hold_choices(version: Option<Text>, config: Option<Text>)
    ensures
        data_values(chosen_version(version), chosen_config(config))[0] == NodeModel::Element(
            ElementModel {
                attributes: seq![("key"@, "version"@)],
                children: seq![NodeModel::Text(chosen_version(version))],
                ..bare_element("data"@)
            },
        ),
        data_values(chosen_version(version), chosen_config(config))[1] == NodeModel::Element(
            ElementModel {
                attributes: seq![("key"@, "bitcoin_config"@)],
                children: seq![NodeModel::Text(chosen_config(config))],
                ..bare_element("data"@)
            },
        ),
        version is None ==> chosen_version(version) == "26.0"@,
        config is None ==> chosen_config(config).len() == 0,
{
    reveal_strlit("");
}

/// The schema as a table.
pub fn attribute_schema() -> (table: Vec<AttributeDecl>)
    ensures
        decls_model(table@) == schema(),
{
    let table = vec![
        AttributeDecl { name: "version", kind: "string", rule: ValueRule::Version },
        AttributeDecl { name: "bitcoin_config", kind: "string", rule: ValueRule::Config },
        AttributeDecl { name: "tc_netem", kind: "string", rule: ValueRule::Empty },
        AttributeDecl { name: "build_args", kind: "string", rule: ValueRule::Empty },
        AttributeDecl { name: "exporter", kind: "boolean", rule: ValueRule::False },
        AttributeDecl { name: "collect_logs", kind: "boolean", rule: ValueRule::False },
        AttributeDecl { name: "image", kind: "string", rule: ValueRule::Empty },
    ];
    proof {
        assert(decls_model(table@) =~= schema());
    }
    table
}

/// The version to write: the caller's, or the default.
pub fn version_or_default<'a>(version: &'a Option<String>) -> (r: &'a str)
    ensures
        r@ == chosen_version(text_of(*version)),
{
    match version {
        Some(v) => v.as_str(),
        None => "26.0",
    }
}

/// The value that a rule gives.
pub fn resolve_value<'a>(rule: ValueRule, version: &'a str, config: &'a str) -> (r: &'a str)
    ensures
        r@ == resolve(rule, version@, config@),
{
    match rule {
        ValueRule::Version => version,
        ValueRule::Config => config,
        ValueRule::Empty => "",
        ValueRule::False => "false",
    }
}

/// Builds the `key` element that declares an attribute.
pub fn key_element(decl: &AttributeDecl) -> (e: XmlElement)
    ensures
        e@ == key_declaration(decl@),
{
    let mut e = XmlElement::new("key");
    e.push_attribute("attr.name", decl.name);
    e.push_attribute("attr.type", decl.kind);
    e.push_attribute("for", "node");
    e.push_attribute("id", decl.name);
    proof {
        assert(e@.attributes =~= key_declaration(decl@).attributes);
    }
    e
}

/// Builds the `data` element that holds a node's value of an attribute.
pub fn data_element(decl: &AttributeDecl, version: &str, config: &str) -> (e: XmlElement)
    ensures
        e@ == data_value(decl@, version@, config@),
{
    let mut e = XmlElement::new("data");
    e.push_attribute("key", decl.name);
    e.push_child(XmlNode::Text(resolve_value(decl.rule, version, config).to_string()));
    proof {
        assert(e@.attributes =~= data_value(decl@, version@, config@).attributes);
        assert(e@.children =~= data_value(decl@, version@, config@).children);
    }
    e
}

/// The first child that is an element of the given name.
pub fn find_element(children: &Vec<XmlNode>, name: &str) -> (r: Option<usize>)
    ensures
        r matches Some(at) ==> at < children@.len() && first_named_from(
            crate::xml::nodes_model(children@),
            name@,
            0,
        ) == Some(at as int),
        r is None ==> first_named_from(crate::xml::nodes_model(children@), name@, 0) is None,
{
    let wanted = name.to_string();
    let ghost models = crate::xml::nodes_model(children@);
    let mut at: usize = 0;
    while at < children.len()
        invariant
            at <= children@.len(),
            wanted@ == name@,
            models == crate::xml::nodes_model(children@),
            first_named_from(models, name@, 0) == first_named_from(models, name@, at as int),
        decreases children@.len() - at,
    {
        let found = match &children[at] {
            XmlNode::Element(e) => e.name == wanted,
            _ => false,
        };
        proof {
            assert(models[at as int] == children@[at as int]@);
            assert(found == is_element_named(models[at as int], name@));
        }
        if found {
            return Some(at);
        }
        at += 1;
    }
    None
}

/// Appends the key declarations of the schema to an element.
fn append_keys(root: &mut XmlElement, table: &Vec<AttributeDecl>)
    requires
        decls_model(table@) == schema(),
    ensures
        final(root)@ == with_children(old(root)@, key_declarations()),
{
    let mut k: usize = 0;
    proof {
        assert(decls_model(table@).len() == table@.len());
        assert(old(root)@.children + key_declarations().subrange(0, 0) =~= old(root)@.children);
    }
    while k < table.len()
        invariant
            k <= table@.len(),
            table@.len() == key_declarations().len(),
            decls_model(table@) == schema(),
            root@ == with_children(old(root)@, key_declarations().subrange(0, k as int)),
        decreases table@.len() - k,
    {
        let key = key_element(&table[k]);
        proof {
            assert(decls_model(table@)[k as int] == table@[k as int]@);
            assert(key_declarations()[k as int] == NodeModel::Element(key@));
            assert((old(root)@.children + key_declarations().subrange(0, k as int)).push(
                NodeModel::Element(key@),
            ) =~= old(root)@.children + key_declarations().subrange(0, k + 1));
        }
        root.push_child(XmlNode::Element(key));
        k += 1;
    }
    proof {
        assert(key_declarations().subrange(0, k as int) =~= key_declarations());
    }
}

/// Appends the data values of the schema to a node element.
fn append_data(node: &mut XmlElement, table: &Vec<AttributeDecl>, version: &str, config: &str)
    requires
        decls_model(table@) == schema(),
    ensures
        final(node)@ == with_children(old(node)@, data_values(version@, config@)),
{
    let ghost data = data_values(version@, config@);
    let mut k: usize = 0;
    proof {
        assert(decls_model(table@).len() == table@.len());
        assert(old(node)@.children + data.subrange(0, 0) =~= old(node)@.children);
    }
    while k < table.len()
        invariant
            k <= table@.len(),
            table@.len() == data.len(),
            data == data_values(version@, config@),
            decls_model(table@) == schema(),
            node@ == with_children(old(node)@, data.subrange(0, k as int)),
        decreases table@.len() - k,
    {
        let value = data_element(&table[k], version, config);
        proof {
            assert(decls_model(table@)[k as int] == table@[k as int]@);
            assert(data[k as int] == NodeModel::Element(value@));
            assert((old(node)@.children + data.subrange(0, k as int)).push(
                NodeModel::Element(value@),
            ) =~= old(node)@.children + data.subrange(0, k + 1));
        }
        node.push_child(XmlNode::Element(value));
        k += 1;
    }
    proof {
        assert(data.subrange(0, k as int) =~= data);
    }
}

/// Gives a child of the graph element its data values if it is a `node` element.
fn populate_child(child: XmlNode, table: &Vec<AttributeDecl>, version: &str, config: &str) -> (r:
    XmlNode)
    requires
        decls_model(table@) == schema(),
    ensures
        r@ == with_data(child@, data_values(version@, config@)),
{
    match child {
        XmlNode::Element(mut e) => {
            let tag = "node".to_string();
            if e.name == tag {
                append_data(&mut e, table, version, config);
            }
            XmlNode::Element(e)
        },
        other => other,
    }
}

/// Gives every `node` element directly under the graph element its data values.
fn populate_nodes(graph: &mut XmlElement, table: &Vec<AttributeDecl>, version: &str, config: &str)
    requires
        decls_model(table@) == schema(),
    ensures
        final(graph)@ == populated(old(graph)@, data_values(version@, config@)),
{
    let ghost data = data_values(version@, config@);
    let count = graph.children.len();
    let mut at: usize = 0;
    while at < count
        invariant
            at <= count,
            count == graph.children@.len(),
            count == old(graph).children@.len(),
            data == data_values(version@, config@),
            decls_model(table@) == schema(),
            graph.prefix == old(graph).prefix,
            graph.namespace == old(graph).namespace,
            graph.namespaces == old(graph).namespaces,
            graph.name == old(graph).name,
            graph.attributes == old(graph).attributes,
            forall|j: int|
                0 <= j < at ==> (#[trigger] graph.children@[j])@ == with_data(
                    old(graph).children@[j]@,
                    data,
                ),
            forall|j: int|
                at <= j < count ==> #[trigger] graph.children@[j] == old(graph).children@[j],
        decreases count - at,
    {
        let mut slot = XmlNode::Comment(String::new());
        graph.children.set_and_swap(at, &mut slot);
        let renewed = populate_child(slot, table, version, config);
        graph.children.set(at, renewed);
        at += 1;
    }
    proof {
        assert(final(graph)@.children =~= populated(old(graph)@, data).children);
    }
}

/// Populates a child of the root if it is an element.
fn populate_graph(child: XmlNode, table: &Vec<AttributeDecl>, version: &str, config: &str) -> (r:
    XmlNode)
    requires
        decls_model(table@) == schema(),
    ensures
        child@ is Element ==> r@ == NodeModel::Element(
            populated(child@->Element_0, data_values(version@, config@)),
        ),
{
    match child {
        XmlNode::Element(mut graph) => {
            populate_nodes(&mut graph, table, version, config);
            XmlNode::Element(graph)
        },
        other => other,
    }
}

/// Augments a plain graph document: appends the key declarations to the root,
/// then gives every `node` element under the first `graph` element of the
/// root its seven data values. Fails where the root holds no `graph` element.
pub fn augment_document(root: XmlElement, version: &str, config: &str) -> (r: Result<
    XmlElement,
    GraphError,
>)
    ensures
        match augmented(root@, version@, config@) {
            Some(doc) => r matches Ok(out) && out@ == doc,
            None => r == Err::<XmlElement, GraphError>(GraphError::MissingGraph),
        },
{
    let mut root = root;
    let table = attribute_schema();
    append_keys(&mut root, &table);
    let ghost children = root@.children;
    proof {
        crate::xml::children_model(root);
    }
    match find_element(&root.children, "graph") {
        None => Err(GraphError::MissingGraph),
        Some(at) => {
            let ghost held = root;
            let ghost expected = children.update(
                at as int,
                NodeModel::Element(
                    populated(children[at as int]->Element_0, data_values(version@, config@)),
                ),
            );
            proof {
                first_named_is_first(children, "graph"@, 0);
                assert(held.children@[at as int]@ == children[at as int]);
            }
            let mut slot = XmlNode::Comment(String::new());
            root.children.set_and_swap(at, &mut slot);
            assert(slot == held.children@[at as int]);
            let renewed = populate_graph(slot, &table, version, config);
            root.children.set(at, renewed);
            proof {
                assert forall|j: int| 0 <= j < expected.len() implies root@.children[j]
                    == expected[j] by {
                    assert(root@.children[j] == root.children@[j]@);
                    if j != at {
                        assert(root.children@[j] == held.children@[j]);
                        assert(held.children@[j]@ == children[j]);
                    }
                }
                assert(root@.children =~= expected);
            }
            Ok(root)
        },
    }
}

} // verus!
