//! The legacy grammar: flat `$NOD`/`$ELM` sections whose ids and counts are
//! decimal floating-point literals truncated to integers. It produces the
//! canonical mesh directly, with no format header.

use std::collections::HashMap;
use vstd::prelude::*;

use crate::element::{build_v1_topo, v1_arity, v1_supported, v1_topo, Topology};
use crate::marker::{lit_elm, lit_endelm, lit_endnod, lit_nod, mk_elm, mk_endelm, mk_endnod, mk_nod};
use crate::mesh::{agrees_map, map_of, Elements, Mesh, MeshV, Nodes};
use crate::node::{Node, NodeV};
use crate::step::{agrees, carry, sp_list, Fail, Step};
use crate::token::{
    copy_range, p_count, p_float, p_id, p_lit, p_newline, skip_space, sp_count, sp_float, sp_id,
    sp_lit, sp_newline, sp_skip_space,
};

verus! {

broadcast use vstd::std_specs::hash::group_hash_axioms;



/// One node record: id, then three coordinate literals, blank-separated,
/// ending in a newline. The coordinates are kept as their literal text.
pub open spec fn sp_node(s: Seq<u8>, i: int) -> Step<(i32, NodeV)> {
    match sp_id(s, i) {
        Step::Hit { next: j1, val: id } => {
            let j2 = sp_skip_space(s, j1);
            match sp_float(s, j2) {
                Step::Hit { next: j3, .. } => {
                    let j4 = sp_skip_space(s, j3);
                    match sp_float(s, j4) {
                        Step::Hit { next: j5, .. } => {
                            let j6 = sp_skip_space(s, j5);
                            match sp_float(s, j6) {
                                Step::Hit { next: j7, .. } => match sp_newline(s, j7) {
                                    Step::Hit { next: j8, .. } => Step::Hit {
                                        next: j8,
                                        val: (
                                            id,
                                            NodeV {
                                                x: s.subrange(j2, j3),
                                                y: s.subrange(j4, j5),
                                                z: s.subrange(j6, j7),
                                            },
                                        ),
                                    },
                                    st => carry(st),
                                },
                                st => carry(st),
                            }
                        },
                        st => carry(st),
                    }
                },
                st => carry(st),
            }
        },
        st => carry(st),
    }
}

/// The node-record list: exactly `n` node records.
pub open spec fn sp_node_records(s: Seq<u8>, i: int, n: nat) -> Step<Seq<(i32, NodeV)>> {
    sp_list((|j: int| sp_node(s, j)), i, n, Seq::empty())
}

/// The `$NOD` section: marker, newline, float-coerced count, newline, that
/// many node records, end marker.
pub open spec fn sp_nodes(s: Seq<u8>, i: int) -> Step<Seq<(i32, NodeV)>> {
    match sp_lit(s, i, mk_nod()) {
        Step::Hit { next: j1, .. } => match sp_newline(s, j1) {
            Step::Hit { next: j2, .. } => match sp_count(s, j2) {
                Step::Hit { next: j3, val: n } => match sp_newline(s, j3) {
                    Step::Hit { next: j4, .. } => match sp_node_records(s, j4, n as nat) {
                        Step::Hit { next: j5, val: ns } => match sp_lit(s, j5, mk_endnod()) {
                            Step::Hit { next: j6, .. } => Step::Hit { next: j6, val: ns },
                            st => carry(st),
                        },
                        st => carry(st),
                    },
                    st => carry(st),
                },
                st => carry(st),
            },
            st => carry(st),
        },
        st => carry(st),
    }
}

/// A blank-separated run of `n` ids, as a topology's node-id list.
pub open spec fn sp_ids(s: Seq<u8>, i: int, n: nat, acc: Seq<i32>) -> Step<Seq<i32>>
    decreases n,
{
    if n == 0 {
        Step::Hit { next: i, val: acc }
    } else {
        match sp_id(s, i) {
            Step::Hit { next, val } => {
                if n == 1 {
                    Step::Hit { next, val: acc.push(val) }
                } else {
                    sp_ids(s, sp_skip_space(s, next), (n - 1) as nat, acc.push(val))
                }
            },
            st => carry(st),
        }
    }
}

/// One element record: id, type code, physical tag, elementary tag, a
/// node-count field that is read and discarded, then the type-specific
/// node-id list and a newline. A type code outside the legacy table is a
/// fatal fault at the position where the id list would begin.
pub open spec fn sp_element(s: Seq<u8>, i: int) -> Step<(i32, (i32, i32, Topology))> {
    match sp_id(s, i) {
        Step::Hit { next: j1, val: id } => {
            let j2 = sp_skip_space(s, j1);
            match sp_id(s, j2) {
                Step::Hit { next: j3, val: t } => {
                    let j4 = sp_skip_space(s, j3);
                    match sp_id(s, j4) {
                        Step::Hit { next: j5, val: p } => {
                            let j6 = sp_skip_space(s, j5);
                            match sp_id(s, j6) {
                                Step::Hit { next: j7, val: e } => {
                                    let j8 = sp_skip_space(s, j7);
                                    match sp_float(s, j8) {
                                        Step::Hit { next: j9, .. } => {
                                            let j10 = sp_skip_space(s, j9);
                                            if !v1_supported(t) {
                                                Step::Fatal { at: j10 }
                                            } else {
                                                match sp_ids(s, j10, v1_arity(t), Seq::empty()) {
                                                    Step::Hit { next: j11, val: ids } => match sp_newline(
                                                        s,
                                                        j11,
                                                    ) {
                                                        Step::Hit { next: j12, .. } => Step::Hit {
                                                            next: j12,
                                                            val: (id, (p, e, v1_topo(t, ids))),
                                                        },
                                                        st => carry(st),
                                                    },
                                                    st => carry(st),
                                                }
                                            }
                                        },
                                        st => carry(st),
                                    }
                                },
                                st => carry(st),
                            }
                        },
                        st => carry(st),
                    }
                },
                st => carry(st),
            }
        },
        st => carry(st),
    }
}

/// The element-record list: exactly `n` element records.
pub open spec fn sp_element_records(s: Seq<u8>, i: int, n: nat) -> Step<
    Seq<(i32, (i32, i32, Topology))>,
> {
    sp_list((|j: int| sp_element(s, j)), i, n, Seq::empty())
}

/// The `$ELM` section: marker, newline, float-coerced count, newline, that
/// many element records, end marker.
pub open spec fn sp_elements(s: Seq<u8>, i: int) -> Step<Seq<(i32, (i32, i32, Topology))>> {
    match sp_lit(s, i, mk_elm()) {
        Step::Hit { next: j1, .. } => match sp_newline(s, j1) {
            Step::Hit { next: j2, .. } => match sp_count(s, j2) {
                Step::Hit { next: j3, val: n } => match sp_newline(s, j3) {
                    Step::Hit { next: j4, .. } => match sp_element_records(s, j4, n as nat) {
                        Step::Hit { next: j5, val: es } => match sp_lit(s, j5, mk_endelm()) {
                            Step::Hit { next: j6, .. } => Step::Hit { next: j6, val: es },
                            st => carry(st),
                        },
                        st => carry(st),
                    },
                    st => carry(st),
                },
                st => carry(st),
            },
            st => carry(st),
        },
        st => carry(st),
    }
}

/// The whole legacy document: node section, newline, element section.
/// Trailing input after the element section is left unread.
pub open spec fn sp_mesh(s: Seq<u8>, i: int) -> Step<MeshV> {
    match sp_nodes(s, i) {
        Step::Hit { next: j1, val: ns } => match sp_newline(s, j1) {
            Step::Hit { next: j2, .. } => match sp_elements(s, j2) {
                Step::Hit { next: j3, val: es } => Step::Hit {
                    next: j3,
                    val: MeshV { format: Option::None, nodes: map_of(ns), elements: map_of(es) },
                },
                st => carry(st),
            },
            st => carry(st),
        },
        st => carry(st),
    }
}



/// Decodes one node record.
pub(crate) fn p_node(s: &[u8], i: usize) -> (r: Result<(usize, (i32, Node)), Fail>)
    requires
        i <= s@.len(),
    ensures
        agrees(
            s@.len() as int,
            i as int,
            r,
            sp_node(s@, i as int),
            (|v: (i32, Node)| (v.0, v.1@)),
        ),
{
    let (j1, id) = p_id(s, i)?;
    let j2 = skip_space(s, j1);
    let (j3, _) = p_float(s, j2)?;
    let x = copy_range(s, j2, j3);
    let j4 = skip_space(s, j3);
    let (j5, _) = p_float(s, j4)?;
    let y = copy_range(s, j4, j5);
    let j6 = skip_space(s, j5);
    let (j7, _) = p_float(s, j6)?;
    let z = copy_range(s, j6, j7);
    let (j8, _) = p_newline(s, j7)?;
    Ok((j8, (id, Node::new(x, y, z))))
}

/// Decodes `n` node records into the node map, later records overriding
/// earlier ones with the same id.
pub(crate) fn p_node_records(s: &[u8], i: usize, n: u64) -> (r: Result<(usize, Nodes), Fail>)
    requires
        i <= s@.len(),
    ensures
        agrees_map(
            s@.len() as int,
            i as int,
            r,
            sp_node_records(s@, i as int, n as nat),
            (|nd: Node| nd@),
        ),
{
    let ghost f = (|j: int| sp_node(s@, j));
    let mut m: Nodes = HashMap::new();
    let ghost mut acc: Seq<(i32, NodeV)> = Seq::empty();
    let mut cur: usize = i;
    let mut k: u64 = 0;
    proof {
        assert(m@.map_values(|nd: Node| nd@) =~= map_of(acc));
    }
    while k < n
        invariant
            i <= cur <= s@.len(),
            k <= n,
            f == (|j: int| sp_node(s@, j)),
            sp_list(f, i as int, n as nat, Seq::empty()) == sp_list(
                f,
                cur as int,
                (n - k) as nat,
                acc,
            ),
            m@.map_values(|nd: Node| nd@) == map_of(acc),
        decreases n - k,
    {
        match p_node(s, cur) {
            Ok((j, (id, nd))) => {
                proof {
                    assert(f(cur as int) == sp_node(s@, cur as int));
                    assert(acc.push((id, nd@)).drop_last() =~= acc);
                }
                m.insert(id, nd);
                proof {
                    assert(m@.map_values(|x: Node| x@) =~= map_of(acc.push((id, nd@))));
                    acc = acc.push((id, nd@));
                }
                cur = j;
                k = k + 1;
            },
            Err(e) => {
                proof {
                    assert(f(cur as int) == sp_node(s@, cur as int));
                }
                return Err(e);
            },
        }
    }
    Ok((cur, m))
}

/// Decodes the `$NOD` section.
fn p_nodes(s: &[u8], i: usize) -> (r: Result<(usize, Nodes), Fail>)
    requires
        i <= s@.len(),
    ensures
        agrees_map(s@.len() as int, i as int, r, sp_nodes(s@, i as int), (|nd: Node| nd@)),
{
    let nod = lit_nod();
    let (j1, _) = p_lit(s, i, nod.as_slice())?;
    let (j2, _) = p_newline(s, j1)?;
    let (j3, n) = p_count(s, j2)?;
    let (j4, _) = p_newline(s, j3)?;
    let (j5, m) = p_node_records(s, j4, n)?;
    let endnod = lit_endnod();
    let (j6, _) = p_lit(s, j5, endnod.as_slice())?;
    Ok((j6, m))
}

/// Decodes a blank-separated run of `n` ids.
pub(crate) fn p_ids(s: &[u8], i: usize, n: u64) -> (r: Result<(usize, Vec<i32>), Fail>)
    requires
        i <= s@.len(),
    ensures
        agrees(
            s@.len() as int,
            i as int,
            r,
            sp_ids(s@, i as int, n as nat, Seq::empty()),
            (|v: Vec<i32>| v@),
        ),
        (match r {
            Result::Ok((_, v)) => v@.len() == n,
            Result::Err(_) => true,
        }),
{
    let mut ids: Vec<i32> = Vec::new();
    let mut cur: usize = i;
    let mut k: u64 = 0;
    while k < n
        invariant
            i <= cur <= s@.len(),
            k <= n,
            ids@.len() == k,
            sp_ids(s@, i as int, n as nat, Seq::empty()) == sp_ids(
                s@,
                cur as int,
                (n - k) as nat,
                ids@,
            ),
        decreases n - k,
    {
        match p_id(s, cur) {
            Ok((j, v)) => {
                ids.push(v);
                if k + 1 < n {
                    cur = skip_space(s, j);
                } else {
                    cur = j;
                }
                k = k + 1;
            },
            Err(e) => {
                return Err(e);
            },
        }
    }
    Ok((cur, ids))
}

/// Decodes one element record.
fn p_element(s: &[u8], i: usize) -> (r: Result<(usize, (i32, (i32, i32, Topology))), Fail>)
    requires
        i <= s@.len(),
    ensures
        agrees(
            s@.len() as int,
            i as int,
            r,
            sp_element(s@, i as int),
            (|v: (i32, (i32, i32, Topology))| v),
        ),
{
    let (j1, id) = p_id(s, i)?;
    let j2 = skip_space(s, j1);
    let (j3, t) = p_id(s, j2)?;
    let j4 = skip_space(s, j3);
    let (j5, p) = p_id(s, j4)?;
    let j6 = skip_space(s, j5);
    let (j7, e) = p_id(s, j6)?;
    let j8 = skip_space(s, j7);
    let (j9, _) = p_float(s, j8)?;
    let j10 = skip_space(s, j9);
    let supported = t == 1 || t == 2 || t == 3 || t == 4 || t == 5 || t == 15;
    if !supported {
        return Err(Fail::fatal(j10));
    }
    let arity: u64 = if t == 1 {
        2
    } else if t == 2 {
        3
    } else if t == 3 {
        4
    } else if t == 4 {
        4
    } else if t == 5 {
        8
    } else {
        1
    };
    proof {
        assert(arity == v1_arity(t));
    }
    let (j11, ids) = p_ids(s, j10, arity)?;
    let topo = build_v1_topo(t, &ids);
    let (j12, _) = p_newline(s, j11)?;
    Ok((j12, (id, (p, e, topo))))
}

/// Decodes `n` element records into the element map.
fn p_element_records(s: &[u8], i: usize, n: u64) -> (r: Result<(usize, Elements), Fail>)
    requires
        i <= s@.len(),
    ensures
        agrees_map(
            s@.len() as int,
            i as int,
            r,
            sp_element_records(s@, i as int, n as nat),
            (|v: (i32, i32, Topology)| v),
        ),
{
    let ghost f = (|j: int| sp_element(s@, j));
    let mut m: Elements = HashMap::new();
    let ghost mut acc: Seq<(i32, (i32, i32, Topology))> = Seq::empty();
    let mut cur: usize = i;
    let mut k: u64 = 0;
    proof {
        assert(m@.map_values(|v: (i32, i32, Topology)| v) =~= map_of(acc));
    }
    while k < n
        invariant
            i <= cur <= s@.len(),
            k <= n,
            f == (|j: int| sp_element(s@, j)),
            sp_list(f, i as int, n as nat, Seq::empty()) == sp_list(
                f,
                cur as int,
                (n - k) as nat,
                acc,
            ),
            m@.map_values(|v: (i32, i32, Topology)| v) == map_of(acc),
        decreases n - k,
    {
        match p_element(s, cur) {
            Ok((j, (id, rec))) => {
                proof {
                    assert(f(cur as int) == sp_element(s@, cur as int));
                    assert(acc.push((id, rec)).drop_last() =~= acc);
                }
                m.insert(id, rec);
                proof {
                    assert(m@.map_values(|v: (i32, i32, Topology)| v) =~= map_of(
                        acc.push((id, rec)),
                    ));
                    acc = acc.push((id, rec));
                }
                cur = j;
                k = k + 1;
            },
            Err(e) => {
                proof {
                    assert(f(cur as int) == sp_element(s@, cur as int));
                }
                return Err(e);
            },
        }
    }
    Ok((cur, m))
}

/// Decodes the `$ELM` section.
fn p_elements(s: &[u8], i: usize) -> (r: Result<(usize, Elements), Fail>)
    requires
        i <= s@.len(),
    ensures
        agrees_map(
            s@.len() as int,
            i as int,
            r,
            sp_elements(s@, i as int),
            (|v: (i32, i32, Topology)| v),
        ),
{
    let elm = lit_elm();
    let (j1, _) = p_lit(s, i, elm.as_slice())?;
    let (j2, _) = p_newline(s, j1)?;
    let (j3, n) = p_count(s, j2)?;
    let (j4, _) = p_newline(s, j3)?;
    let (j5, m) = p_element_records(s, j4, n)?;
    let endelm = lit_endelm();
    let (j6, _) = p_lit(s, j5, endelm.as_slice())?;
    Ok((j6, m))
}

/// Decodes a whole legacy document into the canonical mesh.
pub fn mesh(s: &[u8], i: usize) -> (r: Result<(usize, Mesh), Fail>)
    requires
        i <= s@.len(),
    ensures
        agrees(s@.len() as int, i as int, r, sp_mesh(s@, i as int), (|m: Mesh| m@)),
{
    let (j1, ns) = p_nodes(s, i)?;
    let (j2, _) = p_newline(s, j1)?;
    let (j3, es) = p_elements(s, j2)?;
    proof {
        assert(es@.map_values(|v: (i32, i32, Topology)| v) =~= es@);
    }
    Ok((j3, Mesh::new(None, ns, es)))
}

} // verus!
