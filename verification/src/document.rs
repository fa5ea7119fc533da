//! Structured documents: the tree that YAML text stands for, reading and
//! writing it, and the documents that objects and field descriptions are
//! kept in.

pub mod codec;
pub mod description;
pub mod fields;
pub mod objects;
pub mod read;
pub mod round_trip;
pub mod write;
pub mod tree;
pub mod writable;
pub mod yaml;
