//! The closed set of failures the accessor and the resolver report. Every
//! error carries enough context for the surrounding compiler to render a
//! precise diagnostic: the attribute's name and, on a shape mismatch, both
//! the expected structural kind and the offending value itself.

use vstd::prelude::*;

use crate::node::{Node, Shape};

verus! {

/// Why an attribute could not be extracted or the metadata not resolved.
#[derive(Debug, PartialEq, Eq)]
pub enum Error {
    /// The attribute exists, but its value's structural kind is not the one
    /// the caller required.
    InvalidAttrType { attr: String, expected: Shape, actual: Node },
    /// The attribute is absent though it is required and no fallback applies.
    RequiredAttrNotFound { attr: String },
    /// The byte-order string is present and well-shaped but is neither of
    /// the two recognised values.
    InvalidEndianness,
}

impl Shape {
    /// The name of this structural kind, for diagnostics.
    pub fn describe(&self) -> (r: &'static str)
        ensures
            r@ == describe_shape(*self),
    {
        match self {
            Shape::Null => "null",
            Shape::Bool => "boolean",
            Shape::Int => "integer",
            Shape::Real => "real",
            Shape::Str => "string",
            Shape::Sequence => "sequence",
            Shape::Mapping => "mapping",
            Shape::Alias => "alias",
        }
    }
}

/// The name of a structural kind, for diagnostics.
pub open spec fn describe_shape(s: Shape) -> Seq<char> {
    match s {
        Shape::Null => "null"@,
        Shape::Bool => "boolean"@,
        Shape::Int => "integer"@,
        Shape::Real => "real"@,
        Shape::Str => "string"@,
        Shape::Sequence => "sequence"@,
        Shape::Mapping => "mapping"@,
        Shape::Alias => "alias"@,
    }
}

} // verus!
