//! Attribute extraction and metadata resolution for a binary-format schema
//! compiler: a shape-checked accessor over a generic document tree, and a
//! resolver that computes the effective metadata record of a type definition,
//! inheriting from the enclosing definition where the type gives none of its
//! own.

pub mod attr;
pub mod error;
pub mod meta;
pub mod node;
pub mod util;

pub use attr::{get_optional, get_required};
pub use error::Error;
pub use meta::{meta, Endianness, MetaSpec, TypeData};
pub use node::{Node, Shape};
pub use util::sc_to_ucc;
