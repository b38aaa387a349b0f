//! The attribute accessor: look a named entry up inside a mapping node and
//! check it against an expected structural shape, reporting precisely why
//! the extraction failed. Every schema attribute of the surrounding compiler
//! goes through these two operations, so absence and shape mismatch are
//! reported uniformly.

use vstd::prelude::*;

use crate::error::Error;
use crate::node::{entries_view, lemma_entries_view, lookup, shape_of, Node, NodeV, Shape};

verus! {

/// What `get_optional` must return: the entry is either absent (`Ok(None)`),
/// present with the expected shape (`Ok(Some(_))` with the value looked up),
/// or present with another shape (an `InvalidAttrType` naming the attribute,
/// the expectation, and the offending value).
pub open spec fn get_optional_post(
    entries: Seq<(Seq<char>, NodeV)>,
    key: Seq<char>,
    shape: Shape,
    r: Result<Option<NodeV>, Error>,
) -> bool {
    match lookup(entries, key) {
        None => r matches Ok(o) && o is None,
        Some(v) => if shape_of(v) == shape {
            r matches Ok(o) && o matches Some(n) && n == v
        } else {
            &&& r matches Err(e)
            &&& e matches Error::InvalidAttrType { attr, expected, actual }
            &&& attr@ == key
            &&& expected == shape
            &&& actual@ == v
        },
    }
}

/// What `get_required` must return: as `get_optional`, except that absence
/// is a `RequiredAttrNotFound` naming the attribute.
pub open spec fn get_required_post(
    entries: Seq<(Seq<char>, NodeV)>,
    key: Seq<char>,
    shape: Shape,
    r: Result<NodeV, Error>,
) -> bool {
    match lookup(entries, key) {
        None => {
            &&& r matches Err(e)
            &&& e matches Error::RequiredAttrNotFound { attr }
            &&& attr@ == key
        },
        Some(v) => if shape_of(v) == shape {
            r matches Ok(n) && n == v
        } else {
            &&& r matches Err(e)
            &&& e matches Error::InvalidAttrType { attr, expected, actual }
            &&& attr@ == key
            &&& expected == shape
            &&& actual@ == v
        },
    }
}

/// Whether two string slices hold the same characters.
fn str_eq(a: &str, b: &str) -> (r: bool)
    ensures
        r == (a@ == b@),
{
    let owned_a = a.to_owned();
    let owned_b = b.to_owned();
    owned_a == owned_b
}

/// Find the value beside the first entry whose key matches, as `lookup`
/// describes it.
fn find_entry<'a>(entries: &'a Vec<(String, Node)>, key: &str) -> (r: Option<&'a Node>)
    ensures
        match lookup(entries_view(entries@), key@) {
            None => r is None,
            Some(v) => r matches Some(n) && n@ == v,
        },
{
    proof {
        lemma_entries_view(entries@);
    }
    let ghost all: Seq<(Seq<char>, NodeV)> = entries_view(entries@);
    proof {
        assert(all.skip(0) =~= all);
    }
    let mut i: usize = 0;
    while i < entries.len()
        invariant
            i <= entries.len(),
            all == entries_view(entries@),
            all.len() == entries@.len(),
            forall|j: int| 0 <= j < entries@.len() ==> #[trigger] all[j] == (
                entries@[j].0@,
                entries@[j].1@,
            ),
            lookup(all, key@) == lookup(all.skip(i as int), key@),
        decreases entries.len() - i,
    {
        if str_eq(entries[i].0.as_str(), key) {
            proof {
                assert(all.skip(i as int)[0] == all[i as int]);
            }
            return Some(&entries[i].1);
        }
        proof {
            assert(all.skip(i as int)[0] == all[i as int]);
            assert(all.skip(i as int).drop_first() =~= all.skip(i as int + 1));
        }
        i += 1;
    }
    proof {
        assert(all.skip(i as int) =~= Seq::<(Seq<char>, NodeV)>::empty());
    }
    None
}

/// Retrieve the entry named `key` from a mapping's entries, if it is there,
/// and check that it has the expected shape. Absence is not a failure on
/// this path; a present entry of the wrong shape is.
pub fn get_optional<'a>(entries: &'a Vec<(String, Node)>, key: &str, shape: Shape) -> (r: Result<
    Option<&'a Node>,
    Error,
>)
    ensures
        get_optional_post(
            entries_view(entries@),
            key@,
            shape,
            match r {
                Ok(o) => Ok(
                    match o {
                        Some(n) => Some(n@),
                        None => None,
                    },
                ),
                Err(e) => Err(e),
            },
        ),
{
    match find_entry(entries, key) {
        None => Ok(None),
        Some(node) => {
            if node.shape() == shape {
                Ok(Some(node))
            } else {
                Err(
                    Error::InvalidAttrType {
                        attr: key.to_owned(),
                        expected: shape,
                        actual: node.clone(),
                    },
                )
            }
        },
    }
}

/// Retrieve the entry named `key` from a mapping's entries, which must be
/// there with the expected shape: absence is a `RequiredAttrNotFound`.
pub fn get_required<'a>(entries: &'a Vec<(String, Node)>, key: &str, shape: Shape) -> (r: Result<
    &'a Node,
    Error,
>)
    ensures
        get_required_post(
            entries_view(entries@),
            key@,
            shape,
            match r {
                Ok(n) => Ok(n@),
                Err(e) => Err(e),
            },
        ),
{
    match get_optional(entries, key, shape) {
        Ok(Some(node)) => Ok(node),
        Ok(None) => Err(Error::RequiredAttrNotFound { attr: key.to_owned() }),
        Err(e) => Err(e),
    }
}

} // verus!
