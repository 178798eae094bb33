//! Read-only decoding of jeff modules: hybrid quantum-classical programs
//! represented as hierarchical dataflow graphs.
//!
//! A jeff file is a binary message whose root is a [`reader::Module`].
//! [`Jeff`] loads such a message, checks its schema version, and hands out
//! read-only views over the decoded structure: module, functions, dataflow
//! regions, operations and typed hyperedges ("values").

use vstd::prelude::*;

pub mod data;
pub mod encode;
pub mod laws;
pub mod model;
pub mod reader;
pub mod types;
pub mod wire;

mod decode;
mod jeff;
mod strutil;

pub use jeff::spec_load;
pub use jeff::Jeff;

verus! {

/// Latest version of the jeff schema.
pub const SCHEMA_VERSION: u32 = 0;

/// Errors that can occur when processing a jeff file.
#[derive(Clone, Copy, Debug, PartialEq, Eq)]
pub enum JeffError {
    /// The jeff file is invalid.
    InvalidFile,
    /// Invalid schema version.
    InvalidVersion {
        /// The invalid schema version.
        v: u32,
    },
    /// Error while reading the internal structure.
    ReadError(reader::ReadError),
}

/// Direction of a port.
#[derive(Clone, Copy, Debug, PartialEq, Eq, Hash, Default)]
pub enum Direction {
    /// Input to a node.
    #[default]
    Incoming,
    /// Output from a node.
    Outgoing,
}

impl Direction {
    /// Incoming and outgoing directions.
    pub const BOTH: [Direction; 2] = [Direction::Incoming, Direction::Outgoing];

    /// Returns the opposite direction.
    pub fn reverse(self) -> (r: Direction)
        ensures
            r == (match self {
                Direction::Incoming => Direction::Outgoing,
                Direction::Outgoing => Direction::Incoming,
            }),
    {
        match self {
            Direction::Incoming => Direction::Outgoing,
            Direction::Outgoing => Direction::Incoming,
        }
    }
}

} // verus!
