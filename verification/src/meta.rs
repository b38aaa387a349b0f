//! The meta resolver: compute the effective metadata record of a type
//! definition from its own mapping node and the metadata, if any, already
//! resolved for its nearest enclosing definition. A type with no `meta`
//! block of its own adopts the inherited record verbatim; a type with one
//! overrides the inherited record entirely, field-by-field merging is
//! deliberately unsupported.

use vstd::prelude::*;

use crate::attr::{get_optional, get_required};
use crate::error::Error;
use crate::node::{entries_view, lookup, Node, NodeV, Shape};

verus! {

/// Byte order of a type's fields: little-endian or big-endian, with the
/// canonical two-letter textual forms `"le"` and `"be"`.
#[derive(Copy, Clone, PartialEq, Eq, Structural, Hash, Debug)]
pub enum Endianness {
    Le,
    Be,
}

/// The effective metadata record of one type definition.
#[derive(Copy, Clone, PartialEq, Eq, Structural, Hash, Debug)]
pub struct MetaSpec {
    pub endianness: Endianness,
}

/// One type definition's input to resolution: its own mapping node's
/// entries, and the record resolved for the nearest enclosing definition,
/// if there is one.
pub struct TypeData {
    pub map: Vec<(String, Node)>,
    pub inherited_meta: Option<MetaSpec>,
}

/// Which byte order a string names: exactly `"le"` or `"be"`, case
/// sensitively; anything else names none.
pub open spec fn endianness_of(s: Seq<char>) -> Option<Endianness> {
    if s == "le"@ {
        Some(Endianness::Le)
    } else if s == "be"@ {
        Some(Endianness::Be)
    } else {
        None
    }
}

/// The canonical two-letter form of a byte order.
pub open spec fn render_of(e: Endianness) -> Seq<char> {
    match e {
        Endianness::Le => "le"@,
        Endianness::Be => "be"@,
    }
}

/// Parsing a byte-order name and rendering one are mutually inverse over
/// the two canonical forms: rendering recovers exactly the parsed string,
/// and precisely the strings `"le"` and `"be"` parse at all.
pub proof fn lemma_endianness_round_trip(s: Seq<char>)
    ensures
        endianness_of(s) matches Some(e) ==> render_of(e) == s,
        endianness_of(s) is Some <==> (s == "le"@ || s == "be"@),
        forall|e: Endianness| #[trigger] endianness_of(render_of(e)) == Some(e),
{
    reveal_strlit("le");
    reveal_strlit("be");
    assert("le"@ != "be"@) by {
        assert("le"@[0] == 'l' && "be"@[0] == 'b');
    }
    assert forall|e: Endianness| #[trigger] endianness_of(render_of(e)) == Some(e) by {
        match e {
            Endianness::Le => assert(endianness_of(render_of(e)) == Some(Endianness::Le)),
            Endianness::Be => assert(endianness_of(render_of(e)) == Some(Endianness::Be)),
        }
    }
}

impl Endianness {
    /// Parse the canonical two-letter form of a byte order, case
    /// sensitively; any other string is an `InvalidEndianness`.
    pub fn try_from(value: &str) -> (r: Result<Endianness, Error>)
        ensures
            match endianness_of(value@) {
                Some(e) => r == Ok::<Endianness, Error>(e),
                None => r == Err::<Endianness, Error>(Error::InvalidEndianness),
            },
    {
        proof {
            reveal_strlit("le");
            reveal_strlit("be");
        }
        let len: usize = value.unicode_len();
        if len == 2 {
            let c0 = value.get_char(0);
            let c1 = value.get_char(1);
            if c0 == 'l' && c1 == 'e' {
                proof {
                    assert(value@ =~= "le"@);
                }
                return Ok(Endianness::Le);
            }
            if c0 == 'b' && c1 == 'e' {
                proof {
                    assert(value@ =~= "be"@);
                }
                return Ok(Endianness::Be);
            }
        }
        proof {
            if value@ == "le"@ || value@ == "be"@ {
                assert(value@.len() == 2);
            }
        }
        Err(Error::InvalidEndianness)
    }

    /// The canonical two-letter form of this byte order, `"le"` or `"be"`.
    pub fn render(&self) -> (r: &'static str)
        ensures
            r@ == render_of(*self),
    {
        match self {
            Endianness::Le => "le",
            Endianness::Be => "be",
        }
    }
}

/// What resolution must return for a type whose own mapping has the given
/// entries and whose enclosing definition contributed `inherited`:
///   - no own `meta` entry: the inherited record verbatim, or, with nothing
///     to inherit, a `RequiredAttrNotFound` naming `meta`;
///   - an own `meta` entry that is not a mapping: an `InvalidAttrType`;
///   - an own `meta` mapping: the inherited record is ignored entirely, and
///     its required `endian` string names the byte order, with absence, a
///     non-string shape, and an unrecognised name each its own error.
pub open spec fn meta_post(
    entries: Seq<(Seq<char>, NodeV)>,
    inherited: Option<MetaSpec>,
    r: Result<MetaSpec, Error>,
) -> bool {
    match lookup(entries, "meta"@) {
        None => match inherited {
            Some(m) => r == Ok::<MetaSpec, Error>(m),
            None => {
                &&& r matches Err(e)
                &&& e matches Error::RequiredAttrNotFound { attr }
                &&& attr@ == "meta"@
            },
        },
        Some(meta_node) => match meta_node {
            NodeV::Mapping(meta_entries) => match lookup(meta_entries, "endian"@) {
                None => {
                    &&& r matches Err(e)
                    &&& e matches Error::RequiredAttrNotFound { attr }
                    &&& attr@ == "endian"@
                },
                Some(endian_node) => match endian_node {
                    NodeV::Str(s) => match endianness_of(s) {
                        Some(e) => r == Ok::<MetaSpec, Error>(MetaSpec { endianness: e }),
                        None => r == Err::<MetaSpec, Error>(Error::InvalidEndianness),
                    },
                    _ => {
                        &&& r matches Err(e)
                        &&& e matches Error::InvalidAttrType { attr, expected, actual }
                        &&& attr@ == "endian"@
                        &&& expected == Shape::Str
                        &&& actual@ == endian_node
                    },
                },
            },
            _ => {
                &&& r matches Err(e)
                &&& e matches Error::InvalidAttrType { attr, expected, actual }
                &&& attr@ == "meta"@
                &&& expected == Shape::Mapping
                &&& actual@ == meta_node
            },
        },
    }
}

/// A type whose own mapping has no `meta` entry, handed an inherited
/// record, resolves to exactly that record: inheritance is identity.
pub proof fn lemma_identity_inheritance(
    entries: Seq<(Seq<char>, NodeV)>,
    m: MetaSpec,
    r: Result<MetaSpec, Error>,
)
    requires
        lookup(entries, "meta"@) is None,
        meta_post(entries, Some(m), r),
    ensures
        r == Ok::<MetaSpec, Error>(m),
{
}

/// A type whose own mapping has a `meta` entry resolves the same way
/// whatever record it inherits, even to the same errors: own metadata
/// overrides inherited metadata entirely, it never merges with it.
pub proof fn lemma_own_meta_overrides(
    entries: Seq<(Seq<char>, NodeV)>,
    inherited_a: Option<MetaSpec>,
    inherited_b: Option<MetaSpec>,
    r: Result<MetaSpec, Error>,
)
    requires
        lookup(entries, "meta"@) is Some,
    ensures
        meta_post(entries, inherited_a, r) == meta_post(entries, inherited_b, r),
{
}

/// Resolve the effective metadata record of one type definition, as
/// `meta_post` describes it: an own `meta` mapping fully overrides the
/// inherited record, an absent one falls back to it verbatim, and every
/// failure names the attribute it concerns.
pub fn meta(info: &TypeData) -> (r: Result<MetaSpec, Error>)
    ensures
        meta_post(entries_view(info.map@), info.inherited_meta, r),
{
    let own_meta = match get_optional(&info.map, "meta", Shape::Mapping) {
        Ok(found) => found,
        Err(e) => {
            return Err(e);
        },
    };
    let meta_node = match own_meta {
        Some(node) => node,
        None => {
            // The type brings no metadata of its own: inherit the enclosing
            // record verbatim, or fail if there is none to inherit.
            match info.inherited_meta {
                Some(m) => {
                    return Ok(m);
                },
                None => {
                    return Err(Error::RequiredAttrNotFound { attr: "meta".to_owned() });
                },
            }
        },
    };
    let meta_entries = meta_node.mapping_entries();
    let endian_node = match get_required(meta_entries, "endian", Shape::Str) {
        Ok(node) => node,
        Err(e) => {
            return Err(e);
        },
    };
    let endianness = match Endianness::try_from(endian_node.str_value().as_str()) {
        Ok(e) => e,
        Err(e) => {
            return Err(e);
        },
    };
    Ok(MetaSpec { endianness })
}

} // verus!
