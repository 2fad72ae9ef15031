//! Element trees: the library's own form of an XML document, its
//! mathematical model, and the passage to and from the XML reader and writer.

use vstd::prelude::*;

verus! {

/// An XML element: its qualified name, the namespaces it declares, its
/// attributes in document order and its children.
#[derive(Debug, PartialEq, Eq)]
pub struct XmlElement {
    pub prefix: Option<String>,
    pub namespace: Option<String>,
    pub namespaces: Option<Vec<(String, String)>>,
    pub name: String,
    pub attributes: Vec<(String, String)>,
    pub children: Vec<XmlNode>,
}

/// One child of an element.
#[derive(Debug, PartialEq, Eq)]
pub enum XmlNode {
    Element(XmlElement),
    Comment(String),
    CData(String),
    Text(String),
    ProcessingInstruction(String, Option<String>),
}

/// Text as a sequence of characters.
pub type Text = Seq<char>;

/// What an element is, apart from how it is stored.
pub struct ElementModel {
    pub prefix: Option<Text>,
    pub namespace: Option<Text>,
    pub namespaces: Option<Seq<(Text, Text)>>,
    pub name: Text,
    pub attributes: Seq<(Text, Text)>,
    pub children: Seq<NodeModel>,
}

/// What a child of an element is.
pub enum NodeModel {
    Element(ElementModel),
    Comment(Text),
    CData(Text),
    Text(Text),
    ProcessingInstruction(Text, Option<Text>),
}

/// The text that an optional string holds.
pub open spec fn text_of(s: Option<String>) -> Option<Text> {
    match s {
        Some(t) => Some(t@),
        None => None,
    }
}

/// The pairs of texts that a list of string pairs holds.
pub open spec fn pairs_of(pairs: Seq<(String, String)>) -> Seq<(Text, Text)> {
    pairs.map_values(|p: (String, String)| (p.0@, p.1@))
}

/// The model of an element.
pub open spec fn element_model(e: XmlElement) -> ElementModel
    decreases e,
{
    ElementModel {
        prefix: text_of(e.prefix),
        namespace: text_of(e.namespace),
        namespaces: match e.namespaces {
            Some(pairs) => Some(pairs_of(pairs@)),
            None => None,
        },
        name: e.name@,
        attributes: pairs_of(e.attributes@),
        children: Seq::new(
            e.children@.len(),
            |i: int|
                if 0 <= i < e.children@.len() {
                    node_model(e.children@[i])
                } else {
                    NodeModel::Text(Seq::empty())
                },
        ),
    }
}

/// The model of a child.
pub open spec fn node_model(n: XmlNode) -> NodeModel
    decreases n,
{
    match n {
        XmlNode::Element(e) => NodeModel::Element(element_model(e)),
        XmlNode::Comment(t) => NodeModel::Comment(t@),
        XmlNode::CData(t) => NodeModel::CData(t@),
        XmlNode::Text(t) => NodeModel::Text(t@),
        XmlNode::ProcessingInstruction(name, data) => NodeModel::ProcessingInstruction(
            name@,
            text_of(data),
        ),
    }
}

/// The models of a list of children.
pub open spec fn nodes_model(nodes: Seq<XmlNode>) -> Seq<NodeModel> {
    nodes.map_values(|n: XmlNode| node_model(n))
}

impl View for XmlElement {
    type V = ElementModel;

    open spec fn view(&self) -> ElementModel {
        element_model(*self)
    }
}

impl View for XmlNode {
    type V = NodeModel;

    open spec fn view(&self) -> NodeModel {
        node_model(*self)
    }
}

/// The children of an element's model are the models of its children.
pub proof fn children_model(e: XmlElement)
    ensures
        e@.children == nodes_model(e.children@),
{
    assert(e@.children =~= nodes_model(e.children@));
}

impl XmlElement {
    /// An element of the given name without namespace, attributes or children.
    pub fn new(name: &str) -> (e: XmlElement)
        ensures
            e@ == bare_element(name@),
    {
        let e = XmlElement {
            prefix: None,
            namespace: None,
            namespaces: None,
            name: name.to_string(),
            attributes: Vec::new(),
            children: Vec::new(),
        };
        proof {
            assert(e@.attributes =~= Seq::empty());
            assert(e@.children =~= Seq::empty());
        }
        e
    }

    /// Adds an attribute behind those that the element has.
    pub fn push_attribute(&mut self, name: &str, value: &str)
        ensures
            final(self)@ == (ElementModel {
                attributes: old(self)@.attributes.push((name@, value@)),
                ..old(self)@
            }),
    {
        self.attributes.push((name.to_string(), value.to_string()));
        proof {
            assert(final(self)@.attributes =~= old(self)@.attributes.push((name@, value@)));
            assert(final(self)@.children =~= old(self)@.children);
        }
    }

    /// Adds a child behind those that the element has.
    pub fn push_child(&mut self, child: XmlNode)
        ensures
            final(self)@ == (ElementModel {
                children: old(self)@.children.push(child@),
                ..old(self)@
            }),
    {
        self.children.push(child);
        proof {
            assert(final(self)@.children =~= old(self)@.children.push(child@));
        }
    }
}

/// The model of an element that has a name and nothing else.
pub open spec fn bare_element(name: Text) -> ElementModel {
    ElementModel {
        prefix: None,
        namespace: None,
        namespaces: None,
        name,
        attributes: Seq::empty(),
        children: Seq::empty(),
    }
}

#[verifier::external_type_specification]
#[verifier::external_body]
pub struct ExElement(xmltree::Element);

#[verifier::external_type_specification]
#[verifier::external_body]
pub struct ExXMLNode(xmltree::XMLNode);

#[verifier::external_type_specification]
#[verifier::external_body]
pub struct ExParseError(xmltree::ParseError);

#[verifier::external_type_specification]
#[verifier::external_body]
pub struct ExWriteError(xmltree::Error);

/// The element tree that the XML reader makes of a document, where it accepts it.
pub uninterp spec fn parsed_document(bytes: Seq<u8>) -> Option<ElementModel>;

/// The bytes that the XML writer makes of an element tree, with an XML
/// declaration and indented by `indent`, its lines ended by `line_separator`,
/// where it accepts the tree.
pub uninterp spec fn emitted_document(
    root: ElementModel,
    indent: Text,
    line_separator: Text,
) -> Option<Seq<u8>>;

/// Copies an `xmltree::Element` field by field, children included, the
/// attributes and namespaces in the order in which the element walks them.
#[verifier::external_body]
fn element_from_outside(e: &xmltree::Element) -> XmlElement {
    XmlElement {
        prefix: e.prefix.clone(),
        namespace: e.namespace.clone(),
        namespaces: e.namespaces.clone().map(|n| n.0.into_iter().collect()),
        name: e.name.clone(),
        attributes: e.attributes.clone().into_iter().collect(),
        children: e.children.iter().map(node_from_outside).collect(),
    }
}

/// Copies an `xmltree::XMLNode`, variant for variant.
#[verifier::external_body]
fn node_from_outside(n: &xmltree::XMLNode) -> XmlNode {
    match n {
        xmltree::XMLNode::Element(e) => XmlNode::Element(element_from_outside(e)),
        xmltree::XMLNode::Comment(t) => XmlNode::Comment(t.clone()),
        xmltree::XMLNode::CData(t) => XmlNode::CData(t.clone()),
        xmltree::XMLNode::Text(t) => XmlNode::Text(t.clone()),
        xmltree::XMLNode::ProcessingInstruction(name, data) => {
            XmlNode::ProcessingInstruction(name.clone(), data.clone())
        },
    }
}

/// Builds the `xmltree::Element` that holds what `e` holds, children
/// included; of two attributes of one name the element keeps the later value.
#[verifier::external_body]
fn element_to_outside(e: &XmlElement) -> xmltree::Element {
    let mut r = xmltree::Element::new(e.name.as_str());
    r.prefix = e.prefix.clone();
    r.namespace = e.namespace.clone();
    r.namespaces = e.namespaces.clone().map(|n| xmltree::Namespace(n.into_iter().collect()));
    r.attributes = e.attributes.iter().cloned().collect();
    r.children = e.children.iter().map(node_to_outside).collect();
    r
}

/// Builds the `xmltree::XMLNode` that holds what `n` holds, variant for variant.
#[verifier::external_body]
fn node_to_outside(n: &XmlNode) -> xmltree::XMLNode {
    match n {
        XmlNode::Element(e) => xmltree::XMLNode::Element(element_to_outside(e)),
        XmlNode::Comment(t) => xmltree::XMLNode::Comment(t.clone()),
        XmlNode::CData(t) => xmltree::XMLNode::CData(t.clone()),
        XmlNode::Text(t) => xmltree::XMLNode::Text(t.clone()),
        XmlNode::ProcessingInstruction(name, data) => {
            xmltree::XMLNode::ProcessingInstruction(name.clone(), data.clone())
        },
    }
}

/// `xmltree::Element::parse` on a buffer: the root element of the document,
/// or the reader's refusal, which a document without a root element gets too.
/// The tree depends on the bytes alone.
#[verifier::external_body]
pub(crate) fn parse_document(bytes: &Vec<u8>) -> (r: Result<XmlElement, xmltree::ParseError>)
    ensures
        r is Ok <==> parsed_document(bytes@) is Some,
        r matches Ok(root) ==> Some(root@) == parsed_document(bytes@),
{
    xmltree::Element::parse(bytes.as_slice()).map(|e| element_from_outside(&e))
}

/// `xmltree::Element::write_with_config` into a buffer, with an XML
/// declaration, indentation by `indent` and lines ended by `line_separator`.
/// The bytes depend on the tree and the two texts alone.
#[verifier::external_body]
pub(crate) fn emit_document(root: &XmlElement, indent: &str, line_separator: &str) -> (r: Result<
    Vec<u8>,
    xmltree::Error,
>)
    ensures
        r is Ok <==> emitted_document(root@, indent@, line_separator@) is Some,
        r matches Ok(bytes) ==> Some(bytes@) == emitted_document(
            root@,
            indent@,
            line_separator@,
        ),
{
    let config = xmltree::EmitterConfig::new()
        .write_document_declaration(true)
        .perform_indent(true)
        .indent_string(indent.to_string())
        .line_separator(line_separator.to_string());
    let mut bytes = Vec::new();
    element_to_outside(root).write_with_config(&mut bytes, config).map(|_| bytes)
}

} // verus!
