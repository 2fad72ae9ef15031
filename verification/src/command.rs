//! The graph command: what the caller asks for, and the document it gets.

use vstd::prelude::*;
use crate::document::{chosen_config, chosen_version, version_or_default};
use crate::error::GraphError;
use crate::render::{render_document, rendered};
use crate::topology::{create_graph, generated, MAX_NODES};
use crate::xml::{text_of, Text};

verus! {

/// The graph commands.
#[derive(Debug)]
pub enum GraphCommand {
    /// Create a cycle graph with `number` nodes, and include 7 extra random
    /// outbounds per node. The document goes to `outfile`, or to standard
    /// output where there is none.
    Create {
        number: usize,
        outfile: Option<String>,
        version: Option<String>,
        bitcoin_conf: Option<String>,
    },
}

impl GraphCommand {
    /// The number of nodes asked for.
    pub open spec fn node_count(self) -> nat {
        self->number as nat
    }

    /// The version that every node gets.
    pub open spec fn node_version(self) -> Text {
        chosen_version(text_of(self->version))
    }

    /// The configuration text that every node gets, where `conf_contents` is
    /// the rendering of the configuration file: it counts only where the
    /// command names such a file.
    pub open spec fn node_config(self, conf_contents: Text) -> Text {
        chosen_config(
            if self->bitcoin_conf is Some {
                Some(conf_contents)
            } else {
                None
            },
        )
    }
}

/// Carries out a graph command up to the bytes of the document.
///
/// `conf_contents` is the rendering of the configuration file that the
/// command names; it is ignored where the command names none. The topology
/// is generated, so its extra edges are left open: the document is that of
/// some generated topology of the requested size.
pub fn handle_graph_command(command: &GraphCommand, conf_contents: &str) -> (r: Result<
    Vec<u8>,
    GraphError,
>)
    ensures
        command.node_count() > MAX_NODES ==> r == Err::<Vec<u8>, GraphError>(
            GraphError::Construction,
        ),
        r matches Err(e) && e == GraphError::Construction ==> command.node_count() > MAX_NODES,
        command.node_count() <= MAX_NODES ==> exists|edges: Seq<(int, int)>|
            #![trigger generated(command.node_count(), edges)]
            {
                &&& generated(command.node_count(), edges)
                &&& match rendered(
                    command.node_count(),
                    edges,
                    command.node_version(),
                    command.node_config(conf_contents@),
                ) {
                    Ok(bytes) => r matches Ok(out) && out@ == bytes,
                    Err(e) => r == Err::<Vec<u8>, GraphError>(e),
                }
            },
{
    match command {
        GraphCommand::Create { number, outfile: _, version, bitcoin_conf } => {
            let version_str = version_or_default(version);
            let graph = create_graph(*number)?;
            let config = if bitcoin_conf.is_some() {
                conf_contents
            } else {
                ""
            };
            let r = render_document(&graph, version_str, config);
            proof {
                let edges = crate::topology::topology_edges(graph);
                assert(generated(command.node_count(), edges));
            }
            r
        },
    }
}

} // verus!
