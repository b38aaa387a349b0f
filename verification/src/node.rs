//! The generic document model: a recursively nested value as the external
//! parser produces it, together with its mathematical view and key lookup
//! over mapping nodes.

use vstd::prelude::*;

verus! {

/// A parsed document value. Scalars carry their payload directly; a real
/// number keeps the textual form the parser read, a mapping holds its
/// entries in document order with unique string keys.
#[derive(Debug, PartialEq, Eq)]
pub enum Node {
    Null,
    Bool(bool),
    Int(i64),
    Real(String),
    Str(String),
    Sequence(Vec<Node>),
    Mapping(Vec<(String, Node)>),
    Alias(usize),
}

/// The mathematical shadow of a `Node`: strings become character sequences,
/// vectors become sequences, so contracts can speak of document values
/// without reference to allocation.
pub enum NodeV {
    Null,
    Bool(bool),
    Int(int),
    Real(Seq<char>),
    Str(Seq<char>),
    Sequence(Seq<NodeV>),
    Mapping(Seq<(Seq<char>, NodeV)>),
    Alias(nat),
}

impl View for Node {
    type V = NodeV;

    open spec fn view(&self) -> NodeV
        decreases self,
    {
        match self {
            Node::Null => NodeV::Null,
            Node::Bool(b) => NodeV::Bool(*b),
            Node::Int(i) => NodeV::Int(*i as int),
            Node::Real(s) => NodeV::Real(s@),
            Node::Str(s) => NodeV::Str(s@),
            Node::Sequence(v) => NodeV::Sequence(nodes_view(v@)),
            Node::Mapping(m) => NodeV::Mapping(entries_view(m@)),
            Node::Alias(a) => NodeV::Alias(*a as nat),
        }
    }
}

/// The view of a sequence node's elements, element by element.
pub open spec fn nodes_view(s: Seq<Node>) -> Seq<NodeV>
    decreases s,
{
    if s.len() == 0 {
        Seq::empty()
    } else {
        nodes_view(s.drop_last()).push(s.last()@)
    }
}

/// The view of a mapping node's entry vector, entry by entry.
pub open spec fn entries_view(s: Seq<(String, Node)>) -> Seq<(Seq<char>, NodeV)>
    decreases s,
{
    if s.len() == 0 {
        Seq::empty()
    } else {
        entries_view(s.drop_last()).push((s.last().0@, s.last().1@))
    }
}

/// `nodes_view` maps the elements one for one.
pub proof fn lemma_nodes_view(s: Seq<Node>)
    ensures
        nodes_view(s).len() == s.len(),
        forall|i: int| 0 <= i < s.len() ==> #[trigger] nodes_view(s)[i] == s[i]@,
    decreases s.len(),
{
    if s.len() > 0 {
        lemma_nodes_view(s.drop_last());
        assert(nodes_view(s) == nodes_view(s.drop_last()).push(s.last()@));
        assert forall|i: int| 0 <= i < s.len() implies #[trigger] nodes_view(s)[i] == s[i]@ by {
            if i < s.len() - 1 {
                assert(nodes_view(s.drop_last())[i] == s.drop_last()[i]@);
                assert(s.drop_last()[i] == s[i]);
            } else {
                assert(s.last() == s[i]);
            }
        }
    }
}

/// `entries_view` maps the entries one for one.
pub proof fn lemma_entries_view(s: Seq<(String, Node)>)
    ensures
        entries_view(s).len() == s.len(),
        forall|i: int|
            0 <= i < s.len() ==> #[trigger] entries_view(s)[i] == (s[i].0@, s[i].1@),
    decreases s.len(),
{
    if s.len() > 0 {
        lemma_entries_view(s.drop_last());
        assert(entries_view(s) == entries_view(s.drop_last()).push((s.last().0@, s.last().1@)));
        assert forall|i: int|
            0 <= i < s.len() implies #[trigger] entries_view(s)[i] == (s[i].0@, s[i].1@) by {
            if i < s.len() - 1 {
                assert(entries_view(s.drop_last())[i] == (s.drop_last()[i].0@, s.drop_last()[i].1@));
                assert(s.drop_last()[i] == s[i]);
            } else {
                assert(s.last() == s[i]);
            }
        }
    }
}

/// The structural kind a document value can take: the pattern an attribute
/// accessor checks a node against before extracting its payload.
#[derive(Copy, Clone, PartialEq, Eq, Structural, Hash, Debug)]
pub enum Shape {
    Null,
    Bool,
    Int,
    Real,
    Str,
    Sequence,
    Mapping,
    Alias,
}

/// The structural kind of a document value.
pub open spec fn shape_of(n: NodeV) -> Shape {
    match n {
        NodeV::Null => Shape::Null,
        NodeV::Bool(_) => Shape::Bool,
        NodeV::Int(_) => Shape::Int,
        NodeV::Real(_) => Shape::Real,
        NodeV::Str(_) => Shape::Str,
        NodeV::Sequence(_) => Shape::Sequence,
        NodeV::Mapping(_) => Shape::Mapping,
        NodeV::Alias(_) => Shape::Alias,
    }
}

impl Node {
    /// The structural kind of this node.
    pub fn shape(&self) -> (s: Shape)
        ensures
            s == shape_of(self@),
    {
        match self {
            Node::Null => Shape::Null,
            Node::Bool(_) => Shape::Bool,
            Node::Int(_) => Shape::Int,
            Node::Real(_) => Shape::Real,
            Node::Str(_) => Shape::Str,
            Node::Sequence(_) => Shape::Sequence,
            Node::Mapping(_) => Shape::Mapping,
            Node::Alias(_) => Shape::Alias,
        }
    }

    /// The entries of a node already known to be a mapping.
    pub fn mapping_entries(&self) -> (r: &Vec<(String, Node)>)
        requires
            self@ is Mapping,
        ensures
            NodeV::Mapping(entries_view(r@)) == self@,
    {
        match self {
            Node::Mapping(entries) => entries,
            _ => unreached(),
        }
    }

    /// The payload of a node already known to be a string scalar.
    pub fn str_value(&self) -> (r: &String)
        requires
            self@ is Str,
        ensures
            NodeV::Str(r@) == self@,
    {
        match self {
            Node::Str(s) => s,
            _ => unreached(),
        }
    }
}

/// What a key lookup over mapping entries yields: the value beside the first
/// entry whose key matches, or nothing. Upstream guarantees unique keys, so
/// taking the first match is authoritative.
pub open spec fn lookup(entries: Seq<(Seq<char>, NodeV)>, key: Seq<char>) -> Option<NodeV>
    decreases entries.len(),
{
    if entries.len() == 0 {
        None
    } else if entries[0].0 == key {
        Some(entries[0].1)
    } else {
        lookup(entries.drop_first(), key)
    }
}

impl Clone for Node {
    /// A deep copy; the copy and the original have the same view.
    #[verifier::loop_isolation(false)]
    fn clone(&self) -> (res: Self)
        ensures
            res@ == self@,
        decreases *self,
    {
        match self {
            Node::Null => Node::Null,
            Node::Bool(b) => Node::Bool(*b),
            Node::Int(i) => Node::Int(*i),
            Node::Real(s) => Node::Real(s.clone()),
            Node::Str(s) => Node::Str(s.clone()),
            Node::Sequence(v) => {
                let mut out: Vec<Node> = Vec::new();
                let mut i: usize = 0;
                while i < v.len()
                    invariant
                        i <= v.len(),
                        out@.len() == i,
                        forall|j: int| 0 <= j < i ==> #[trigger] out@[j]@ == v@[j]@,
                    decreases v.len() - i,
                {
                    proof {
                        assert(decreases_to!(*v => v@));
                        assert(decreases_to!(v@ => v@[i as int]));
                    }
                    out.push(v[i].clone());
                    i += 1;
                }
                proof {
                    lemma_nodes_view(out@);
                    lemma_nodes_view(v@);
                    assert(nodes_view(out@) =~= nodes_view(v@));
                }
                Node::Sequence(out)
            },
            Node::Mapping(m) => {
                let mut out: Vec<(String, Node)> = Vec::new();
                let mut i: usize = 0;
                while i < m.len()
                    invariant
                        i <= m.len(),
                        out@.len() == i,
                        forall|j: int|
                            0 <= j < i ==> #[trigger] out@[j].0@ == m@[j].0@ && out@[j].1@
                                == m@[j].1@,
                    decreases m.len() - i,
                {
                    proof {
                        assert(decreases_to!(*m => m@));
                        assert(decreases_to!(m@ => m@[i as int]));
                        assert(decreases_to!(m@[i as int] => m@[i as int].1));
                    }
                    out.push((m[i].0.clone(), m[i].1.clone()));
                    i += 1;
                }
                proof {
                    lemma_entries_view(out@);
                    lemma_entries_view(m@);
                    assert(entries_view(out@) =~= entries_view(m@));
                }
                Node::Mapping(out)
            },
            Node::Alias(a) => Node::Alias(*a),
        }
    }
}

} // verus!
