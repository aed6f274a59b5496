//! A graph of declared infrastructure, built once and then handed to a
//! backend.
//!
//! A [`stack::Stack`] is a tree of named nodes: scopes, and below them the
//! providers and resources that they declare. What a resource holds is
//! either known while the graph is built or a [`value::ValueCell`] that
//! points to an attribute which another node will only have once the graph
//! was applied. Constructs such as [`construct::gitea::Gitea`] are built
//! from staged fields: their builders check the fields and declare, in a
//! fixed order, what the construct consists of. [`stack::Stack::emit`] lays
//! the declarations out in the order in which the backend takes them, with
//! the references among them.

pub mod body;
pub mod cli;
pub mod config;
pub mod construct;
pub mod deploy;
pub mod emit;
pub mod error;
pub mod ident;
pub mod order;
pub mod stack;
pub mod stage;
pub mod tree;
pub mod value;

pub use crate::deploy::init;
