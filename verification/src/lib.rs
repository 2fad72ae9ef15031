//! Generation of peer-to-peer network topologies and their GraphML documents.
//!
//! A topology is a directed ring over all nodes plus up to seven extra random
//! outbound edges per node. Its document is the plain GraphML rendering of the
//! graph, extended by a fixed schema of per-node attributes.

pub mod command;
pub mod document;
pub mod error;
pub mod render;
pub mod topology;
pub mod xml;

pub use command::{handle_graph_command, GraphCommand};
pub use error::GraphError;
