//! The type-representation core of a C front-end: qualifiers, classification
//! of the scalar types, identity handles for struct, union and enum tags, and
//! the graph of types built from them, with its equality rules and its text.

pub mod ast;
pub mod classes;
pub mod equality;
pub mod qualifiers;
pub mod render;
pub mod tags;
pub mod text;
pub mod types;
