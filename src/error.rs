use vstd::prelude::*;
use crate::models::NodeType;

verus! {

/// A field that a node of some kind must carry.
#[derive(Clone, Copy, Debug, PartialEq, Eq, Structural)]
pub enum Field {
    Speaker,
    Selections,
    Branches,
    Goto,
}

/// Why a dialogue could not be compiled.
#[derive(Clone, Copy, Debug, PartialEq, Eq, Structural)]
pub enum GdlError {
    /// A node of kind `node_type` lacks the required `field`.
    InvalidNodeContent { node_type: NodeType, field: Field },
}

/// The text that describes an error.
pub open spec fn description_of(e: GdlError) -> Seq<char> {
    match e {
        GdlError::InvalidNodeContent { node_type, field } => match (node_type, field) {
            (NodeType::Text, Field::Speaker) => "Text node requires speaker"@,
            (NodeType::Selection, Field::Selections) => "Selection node requires selections array"@,
            (NodeType::Branch, Field::Branches) => "Branch node requires branches array"@,
            (NodeType::Start, Field::Goto) => "Start node requires goto id"@,
            (NodeType::Omit, Field::Goto) => "Omit node requires goto id"@,
            _ => "Node lacks a required field"@,
        },
    }
}

impl GdlError {
    /// A fixed sentence that describes this error.
    pub fn description(&self) -> (r: &'static str)
        ensures
            r@ == description_of(*self),
    {
        match self {
            GdlError::InvalidNodeContent { node_type, field } => match (node_type, field) {
                (NodeType::Text, Field::Speaker) => "Text node requires speaker",
                (NodeType::Selection, Field::Selections) => "Selection node requires selections array",
                (NodeType::Branch, Field::Branches) => "Branch node requires branches array",
                (NodeType::Start, Field::Goto) => "Start node requires goto id",
                (NodeType::Omit, Field::Goto) => "Omit node requires goto id",
                _ => "Node lacks a required field",
            },
        }
    }
}

} // verus!
