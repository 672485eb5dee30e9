//! A compiler from templates, given as tokens, to trees of virtual nodes,
//! with the stack-based builder that it drives.

pub mod builder;
pub mod compiler;
pub mod error;
pub mod event;
pub mod grammar;
pub mod href;
pub mod laws;
pub mod namespace;
pub mod node;
pub mod ordered_map;
pub mod text;
pub mod token;
pub mod value;
