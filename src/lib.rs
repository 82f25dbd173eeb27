//! Branching dialogue graphs: a model of typed nodes, a validator for the
//! fields each kind of node requires, and a compiler from a dialogue to a
//! Graphviz digraph document.

pub mod dot;
pub mod error;
pub mod models;
pub mod validate;
