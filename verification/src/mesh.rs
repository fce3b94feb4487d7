//! The canonical mesh: an optional format header, a node map and an element
//! map, each keyed by the ids literally present in the text. Every dialect
//! normalises into this one model.

use std::collections::HashMap;
use vstd::prelude::*;

use crate::element::Topology;
use crate::format::{Format, FormatV};
use crate::node::{Node, NodeV};

verus! {

broadcast use vstd::std_specs::hash::group_hash_axioms;

/// The node map of a decoded mesh.
pub type Nodes = HashMap<i32, Node>;

/// The element map of a decoded mesh: id to (physical tag, elementary tag,
/// topology).
pub type Elements = HashMap<i32, (i32, i32, Topology)>;

/// Model of a canonical mesh.
#[verifier::ext_equal]
pub ghost struct MeshV {
    pub format: Option<FormatV>,
    pub nodes: Map<i32, NodeV>,
    pub elements: Map<i32, (i32, i32, Topology)>,
}

/// A decoded mesh. Construction is the decoder's job; afterwards the mesh
/// only hands out read access.
#[derive(Clone, Debug, PartialEq)]
pub struct Mesh {
    pub format: Option<Format>,
    pub nodes: Nodes,
    pub elements: Elements,
}

impl View for Mesh {
    type V = MeshV;

    open spec fn view(&self) -> MeshV {
        MeshV {
            format: match self.format {
                Option::Some(f) => Option::Some(f@),
                Option::None => Option::None,
            },
            nodes: self.nodes@.map_values(|n: Node| n@),
            elements: self.elements@,
        }
    }
}

impl Mesh {
    pub fn new(format: Option<Format>, nodes: Nodes, elements: Elements) -> (r: Mesh)
        ensures
            r.format == format && r.nodes == nodes && r.elements == elements,
    {
        Mesh { format, nodes, elements }
    }

    /// Read access to the node map.
    pub fn nodes(&self) -> (r: &Nodes)
        ensures
            r == &self.nodes,
    {
        &self.nodes
    }

    /// Read access to the element map.
    pub fn elements(&self) -> (r: &Elements)
        ensures
            r == &self.elements,
    {
        &self.elements
    }
}

/// The map written by inserting the pairs of `s` in order; a later pair
/// with the same key overrides an earlier one.
pub open spec fn map_of<V>(s: Seq<(i32, V)>) -> Map<i32, V>
    decreases s.len(),
{
    if s.len() == 0 {
        Map::empty()
    } else {
        map_of(s.drop_last()).insert(s.last().0, s.last().1)
    }
}

/// The executable result `r` realises the record-list outcome `st` as a
/// map: on a hit it returns the map written by inserting the records in
/// order, with `vw` translating each stored value into its model.
pub open spec fn agrees_map<E, T>(
    len: int,
    i: int,
    r: Result<(usize, HashMap<i32, E>), crate::step::Fail>,
    st: crate::step::Step<Seq<(i32, T)>>,
    vw: spec_fn(E) -> T,
) -> bool {
    match (r, st) {
        (Result::Ok((j, m)), crate::step::Step::Hit { next, val }) => {
            &&& j == next
            &&& i <= j <= len
            &&& m@.map_values(vw) == map_of(val)
        },
        (Result::Err(f), crate::step::Step::Miss { at }) => !f.fatal && f.at == at && f.at
            <= len,
        (Result::Err(f), crate::step::Step::Fatal { at }) => f.fatal && f.at == at && f.at
            <= len,
        _ => false,
    }
}

/// The keys of a pair sequence.
pub open spec fn firsts<V>(s: Seq<(i32, V)>) -> Seq<i32> {
    s.map_values(|p: (i32, V)| p.0)
}

/// The map holds exactly the keys of the sequence; and with no repeated
/// key it holds exactly one entry per pair.
pub proof fn lemma_map_of_props<V>(s: Seq<(i32, V)>)
    ensures
        map_of(s).dom() == firsts(s).to_set(),
        map_of(s).dom().finite(),
        firsts(s).no_duplicates() ==> map_of(s).len() == s.len(),
    decreases s.len(),
{
    if s.len() == 0 {
        assert(map_of::<V>(s).dom() =~= firsts(s).to_set());
    } else {
        let d = s.drop_last();
        lemma_map_of_props(d);
        assert(firsts(d) =~= firsts(s).drop_last());
        assert forall|x: i32| firsts(s).to_set().contains(x) <==> map_of(s).dom().contains(
            x,
        ) by {
            if firsts(s).to_set().contains(x) {
                let k = choose|k: int| 0 <= k < firsts(s).len() && firsts(s)[k] == x;
                if k < s.len() - 1 {
                    assert(firsts(d)[k] == x);
                    assert(firsts(d).to_set().contains(x));
                }
            }
            if map_of(s).dom().contains(x) {
                if x == s.last().0 {
                    assert(firsts(s)[s.len() - 1] == x);
                } else {
                    assert(firsts(d).to_set().contains(x));
                    let k = choose|k: int| 0 <= k < firsts(d).len() && firsts(d)[k] == x;
                    assert(firsts(s)[k] == x);
                }
            }
        }
        assert(map_of(s).dom() =~= firsts(s).to_set());
        if firsts(s).no_duplicates() {
            assert(firsts(d).no_duplicates());
            assert(!firsts(d).to_set().contains(s.last().0)) by {
                if firsts(d).to_set().contains(s.last().0) {
                    let k = choose|k: int|
                        0 <= k < firsts(d).len() && firsts(d)[k] == s.last().0;
                    assert(firsts(s)[k] == firsts(s)[s.len() - 1]);
                }
            }
            assert(!map_of(d).dom().contains(s.last().0));
        }
    }
}

} // verus!
