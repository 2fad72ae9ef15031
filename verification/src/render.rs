//! From a topology to the bytes of its document: the plain GraphML rendering
//! of the graph, read back as an element tree, augmented and written out.

use vstd::prelude::*;
use crate::document::{augment_document, augmented};
use crate::error::GraphError;
use crate::topology::{topology_edges, topology_nodes, Topology};
use crate::xml::{
    emit_document, emitted_document, parse_document, parsed_document, Text, XmlElement,
};

verus! {

#[verifier::external_type_specification]
#[verifier::external_body]
pub struct ExIoError(std::io::Error);

/// The plain GraphML document of a graph of `nodes` nodes with the given
/// edges, pretty-printed, where the GraphML writer produces one.
pub uninterp spec fn base_document(nodes: nat, edges: Seq<(int, int)>) -> Option<Seq<u8>>;

/// `petgraph_graphml::GraphMl::to_writer` into a buffer, pretty-printed and
/// without weights: nodes and edges are written by index, so the bytes depend
/// on the node count and the edge list alone. It panics only on a writer
/// failure other than one of I/O, which its fixed sequence of start and end
/// tags does not cause.
#[verifier::external_body]
fn write_graphml(graph: &Topology) -> (r: Result<Vec<u8>, std::io::Error>)
    ensures
        r is Ok <==> base_document(topology_nodes(*graph), topology_edges(*graph)) is Some,
        r matches Ok(bytes) ==> Some(bytes@) == base_document(
            topology_nodes(*graph),
            topology_edges(*graph),
        ),
{
    let mut bytes = Vec::new();
    petgraph_graphml::GraphMl::new(graph).pretty_print(true).to_writer(&mut bytes).map(|_| bytes)
}

/// One level of indentation in the written document.
pub open spec fn indentation() -> Text {
    "    "@
}

/// The end of a line in the written document.
pub open spec fn line_end() -> Text {
    "\n"@
}

/// The document of a graph: its plain GraphML rendering, read as an element
/// tree, augmented, and written with an XML declaration, four spaces of
/// indentation and newline line ends. Each step may fail.
pub open spec fn rendered(nodes: nat, edges: Seq<(int, int)>, version: Text, config: Text) -> Result<
    Seq<u8>,
    GraphError,
> {
    match base_document(nodes, edges) {
        None => Err(GraphError::Document),
        Some(plain) => match parsed_document(plain) {
            None => Err(GraphError::Document),
            Some(root) => match augmented(root, version, config) {
                None => Err(GraphError::MissingGraph),
                Some(doc) => match emitted_document(doc, indentation(), line_end()) {
                    None => Err(GraphError::Document),
                    Some(bytes) => Ok(bytes),
                },
            },
        },
    }
}

/// Two graphs of the same nodes and edges have the same document under the
/// same version and configuration: nothing else enters it.
pub proof fn rendering_is_repeatable(first: Topology, second: Topology, version: Text, config: Text)
    requires
        topology_nodes(first) == topology_nodes(second),
        topology_edges(first) == topology_edges(second),
    ensures
        rendered(topology_nodes(first), topology_edges(first), version, config) == rendered(
            topology_nodes(second),
            topology_edges(second),
            version,
            config,
        ),
{
}

/// Reads a document as an element tree.
pub fn read_document(bytes: &Vec<u8>) -> (r: Result<XmlElement, GraphError>)
    ensures
        match parsed_document(bytes@) {
            Some(root) => r matches Ok(out) && out@ == root,
            None => r == Err::<XmlElement, GraphError>(GraphError::Document),
        },
{
    match parse_document(bytes) {
        Ok(root) => Ok(root),
        Err(_) => Err(GraphError::Document),
    }
}

/// Writes an element tree as a document with an XML declaration, four spaces
/// of indentation and newline line ends.
pub fn write_document(root: &XmlElement) -> (r: Result<Vec<u8>, GraphError>)
    ensures
        match emitted_document(root@, indentation(), line_end()) {
            Some(bytes) => r matches Ok(out) && out@ == bytes,
            None => r == Err::<Vec<u8>, GraphError>(GraphError::Document),
        },
{
    match emit_document(root, "    ", "\n") {
        Ok(bytes) => Ok(bytes),
        Err(_) => Err(GraphError::Document),
    }
}

/// Renders the document of a graph with the given version and configuration
/// text on every node.
pub fn render_document(graph: &Topology, version: &str, config: &str) -> (r: Result<
    Vec<u8>,
    GraphError,
>)
    ensures
        r matches Ok(bytes) ==> rendered(
            topology_nodes(*graph),
            topology_edges(*graph),
            version@,
            config@,
        ) == Ok::<Seq<u8>, GraphError>(bytes@),
        r matches Err(e) ==> rendered(
            topology_nodes(*graph),
            topology_edges(*graph),
            version@,
            config@,
        ) == Err::<Seq<u8>, GraphError>(e),
{
    let plain = match write_graphml(graph) {
        Ok(bytes) => bytes,
        Err(_) => {
            return Err(GraphError::Document);
        },
    };
    let root = read_document(&plain)?;
    let doc = augment_document(root, version, config)?;
    write_document(&doc)
}

} // verus!
