use vstd::prelude::*;
use crate::error::{Field, GdlError};
use crate::models::{Dialogue, Node, NodeType};

verus! {

/// The field that a node of its kind must carry and lacks, if any.
pub open spec fn missing_field(n: Node) -> Option<Field> {
    match n.node_type {
        NodeType::Text => if n.speaker is None { Some(Field::Speaker) } else { None },
        NodeType::Selection => if n.selections is None { Some(Field::Selections) } else { None },
        NodeType::Branch => if n.branches is None { Some(Field::Branches) } else { None },
        NodeType::Start | NodeType::Omit => if n.goto is None { Some(Field::Goto) } else { None },
        NodeType::End => None,
    }
}

/// A node carries every field that its kind requires.
pub open spec fn is_valid(n: Node) -> bool {
    missing_field(n) is None
}

/// What validating a node gives.
pub open spec fn validation_of(n: Node) -> Result<(), GdlError> {
    match missing_field(n) {
        Some(f) => Err(GdlError::InvalidNodeContent { node_type: n.node_type, field: f }),
        None => Ok(()),
    }
}

impl Dialogue {
    /// Checks that `node` carries the fields that its kind requires.
    pub fn check_node_validation(&self, node: &Node) -> (r: Result<(), GdlError>)
        ensures
            r == validation_of(*node),
    {
        match node.node_type {
            NodeType::Text => {
                if node.speaker.is_none() {
                    return Err(
                        GdlError::InvalidNodeContent { node_type: NodeType::Text, field: Field::Speaker },
                    );
                }
            },
            NodeType::Selection => {
                if node.selections.is_none() {
                    return Err(
                        GdlError::InvalidNodeContent {
                            node_type: NodeType::Selection,
                            field: Field::Selections,
                        },
                    );
                }
            },
            NodeType::Branch => {
                if node.branches.is_none() {
                    return Err(
                        GdlError::InvalidNodeContent {
                            node_type: NodeType::Branch,
                            field: Field::Branches,
                        },
                    );
                }
            },
            NodeType::Start => {
                if node.goto.is_none() {
                    return Err(
                        GdlError::InvalidNodeContent { node_type: NodeType::Start, field: Field::Goto },
                    );
                }
            },
            NodeType::Omit => {
                if node.goto.is_none() {
                    return Err(
                        GdlError::InvalidNodeContent { node_type: NodeType::Omit, field: Field::Goto },
                    );
                }
            },
            NodeType::End => {},
        }
        Ok(())
    }
}

} // verus!
