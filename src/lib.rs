//! Decoder for binary components: turns a component binary into an indexed
//! object graph and computes the canonical call-boundary layout of every
//! function signature that a lift or lower names.

pub mod ir;
pub mod layout;
pub mod options;
mod wasm;
pub mod graph;
pub mod scan;

pub use ir::{Component, Error, ErrorKind};
pub use scan::parse;
