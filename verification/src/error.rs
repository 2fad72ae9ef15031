//! The ways in which building a topology document can fail.

use vstd::prelude::*;

verus! {

/// Why a topology document could not be produced.
#[derive(Debug, Clone, Copy, PartialEq, Eq, Structural)]
pub enum GraphError {
    /// The base ring could not be built for the requested node count.
    Construction,
    /// The plain document could not be written or read back as an element tree.
    Document,
    /// The element tree holds no `graph` element directly under its root.
    MissingGraph,
}

impl GraphError {
    /// The description of each failure.
    pub open spec fn text(self) -> Seq<char> {
        match self {
            GraphError::Construction => "Create initial cycle graph"@,
            GraphError::Document => "Failed to write GraphML data"@,
            GraphError::MissingGraph => "GraphML document holds no graph element"@,
        }
    }

    /// A description of the stage that failed.
    pub fn message(&self) -> (r: String)
        ensures
            r@ == self.text(),
    {
        match self {
            GraphError::Construction => "Create initial cycle graph".to_string(),
            GraphError::Document => "Failed to write GraphML data".to_string(),
            GraphError::MissingGraph => "GraphML document holds no graph element".to_string(),
        }
    }
}

} // verus!
