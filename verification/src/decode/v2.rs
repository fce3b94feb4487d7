//! The 2.2 grammar: a format header, then flat `$Nodes`/`$Elements`
//! sections in the legacy record shape, ids and counts float-coerced as in
//! the legacy dialect. Element records carry a tag-count field that is read
//! and discarded, and the table maps type code 5 to a tetrahedron.

use std::collections::HashMap;
use vstd::prelude::*;

use crate::decode::v1::{p_ids, p_node_records, sp_ids, sp_node_records};
use crate::element::{build_v2_topo, v2_arity, v2_supported, v2_topo, Topology};
use crate::format::{Format, FormatV};
use crate::marker::{
    lit_elements, lit_end_elements, lit_end_mesh_format, lit_end_nodes, lit_mesh_format,
    lit_nodes, mk_elements, mk_end_elements, mk_end_mesh_format, mk_end_nodes, mk_mesh_format,
    mk_nodes,
};
use crate::mesh::{agrees_map, map_of, Elements, Mesh, MeshV, Nodes};
use crate::node::{Node, NodeV};
use crate::step::{agrees, carry, sp_list, Fail, Step};
use crate::token::{
    copy_range, p_count, p_float, p_id, p_lit, p_newline, skip_space, sp_count, sp_float, sp_id,
    sp_lit, sp_newline, sp_skip_space,
};

verus! {

broadcast use vstd::std_specs::hash::group_hash_axioms;

/// The format header: marker, newline, version literal (kept as text),
/// file-type and data-size fields float-coerced to `i32`, newline, end
/// marker. The version value is stored, not validated.
pub open spec fn sp_format(s: Seq<u8>, i: int) -> Step<FormatV> {
    match sp_lit(s, i, mk_mesh_format()) {
        Step::Hit { next: j1, .. } => match sp_newline(s, j1) {
            Step::Hit { next: j2, .. } => match sp_float(s, j2) {
                Step::Hit { next: j3, .. } => {
                    let j4 = sp_skip_space(s, j3);
                    match sp_id(s, j4) {
                        Step::Hit { next: j5, val: file } => {
                            let j6 = sp_skip_space(s, j5);
                            match sp_id(s, j6) {
                                Step::Hit { next: j7, val: size } => match sp_newline(s, j7) {
                                    Step::Hit { next: j8, .. } => match sp_lit(
                                        s,
                                        j8,
                                        mk_end_mesh_format(),
                                    ) {
                                        Step::Hit { next: j9, .. } => Step::Hit {
                                            next: j9,
                                            val: FormatV {
                                                version: s.subrange(j2, j3),
                                                file,
                                                size,
                                            },
                                        },
                                        st => carry(st),
                                    },
                                    st => carry(st),
                                },
                                st => carry(st),
                            }
                        },
                        st => carry(st),
                    }
                },
                st => carry(st),
            },
            st => carry(st),
        },
        st => carry(st),
    }
}

/// The `$Nodes` section: same record shape as the legacy node section,
/// under the 2.2 markers.
pub open spec fn sp_nodes(s: Seq<u8>, i: int) -> Step<Seq<(i32, NodeV)>> {
    match sp_lit(s, i, mk_nodes()) {
        Step::Hit { next: j1, .. } => match sp_newline(s, j1) {
            Step::Hit { next: j2, .. } => match sp_count(s, j2) {
                Step::Hit { next: j3, val: n } => match sp_newline(s, j3) {
                    Step::Hit { next: j4, .. } => match sp_node_records(s, j4, n as nat) {
                        Step::Hit { next: j5, val: ns } => match sp_lit(s, j5, mk_end_nodes()) {
                            Step::Hit { next: j6, .. } => Step::Hit { next: j6, val: ns },
                            st => carry(st),
                        },
                        st => carry(st),
                    },
                    st => carry(st),
                },
                st => carry(st),
            },
            st => carry(st),
        },
        st => carry(st),
    }
}

/// One 2.2 element record: id, type code, a tag-count field that is read
/// and discarded, physical tag, elementary tag, then the node-id list and a
/// newline. A type code outside the table is a fatal fault at the position
/// where the id list would begin.
pub open spec fn sp_element(s: Seq<u8>, i: int) -> Step<(i32, (i32, i32, Topology))> {
    match sp_id(s, i) {
        Step::Hit { next: j1, val: id } => {
            let j2 = sp_skip_space(s, j1);
            match sp_id(s, j2) {
                Step::Hit { next: j3, val: t } => {
                    let j4 = sp_skip_space(s, j3);
                    match sp_float(s, j4) {
                        Step::Hit { next: j5, .. } => {
                            let j6 = sp_skip_space(s, j5);
                            match sp_id(s, j6) {
                                Step::Hit { next: j7, val: p } => {
                                    let j8 = sp_skip_space(s, j7);
                                    match sp_id(s, j8) {
                                        Step::Hit { next: j9, val: e } => {
                                            let j10 = sp_skip_space(s, j9);
                                            if !v2_supported(t) {
                                                Step::Fatal { at: j10 }
                                            } else {
                                                match sp_ids(s, j10, v2_arity(t), Seq::empty()) {
                                                    Step::Hit { next: j11, val: ids } => match sp_newline(
                                                        s,
                                                        j11,
                                                    ) {
                                                        Step::Hit { next: j12, .. } => Step::Hit {
                                                            next: j12,
                                                            val: (id, (p, e, v2_topo(t, ids))),
                                                        },
                                                        st => carry(st),
                                                    },
                                                    st => carry(st),
                                                }
                                            }
                                        },
                                        st => carry(st),
                                    }
                                },
                                st => carry(st),
                            }
                        },
                        st => carry(st),
                    }
                },
                st => carry(st),
            }
        },
        st => carry(st),
    }
}

/// The element-record list: exactly `n` 2.2 element records.
pub open spec fn sp_element_records(s: Seq<u8>, i: int, n: nat) -> Step<
    Seq<(i32, (i32, i32, Topology))>,
> {
    sp_list((|j: int| sp_element(s, j)), i, n, Seq::empty())
}

/// The `$Elements` section.
pub open spec fn sp_elements(s: Seq<u8>, i: int) -> Step<Seq<(i32, (i32, i32, Topology))>> {
    match sp_lit(s, i, mk_elements()) {
        Step::Hit { next: j1, .. } => match sp_newline(s, j1) {
            Step::Hit { next: j2, .. } => match sp_count(s, j2) {
                Step::Hit { next: j3, val: n } => match sp_newline(s, j3) {
                    Step::Hit { next: j4, .. } => match sp_element_records(s, j4, n as nat) {
                        Step::Hit { next: j5, val: es } => match sp_lit(
                            s,
                            j5,
                            mk_end_elements(),
                        ) {
                            Step::Hit { next: j6, .. } => Step::Hit { next: j6, val: es },
                            st => carry(st),
                        },
                        st => carry(st),
                    },
                    st => carry(st),
                },
                st => carry(st),
            },
            st => carry(st),
        },
        st => carry(st),
    }
}

/// The whole 2.2 document: format header, newline, node section, newline,
/// element section. Trailing input is left unread.
pub open spec fn sp_mesh(s: Seq<u8>, i: int) -> Step<MeshV> {
    match sp_format(s, i) {
        Step::Hit { next: j0, val: f } => match sp_newline(s, j0) {
            Step::Hit { next: j1, .. } => match sp_nodes(s, j1) {
                Step::Hit { next: j2, val: ns } => match sp_newline(s, j2) {
                    Step::Hit { next: j3, .. } => match sp_elements(s, j3) {
                        Step::Hit { next: j4, val: es } => Step::Hit {
                            next: j4,
                            val: MeshV {
                                format: Option::Some(f),
                                nodes: map_of(ns),
                                elements: map_of(es),
                            },
                        },
                        st => carry(st),
                    },
                    st => carry(st),
                },
                st => carry(st),
            },
            st => carry(st),
        },
        st => carry(st),
    }
}

/// Decodes the format header.
fn p_format(s: &[u8], i: usize) -> (r: Result<(usize, Format), Fail>)
    requires
        i <= s@.len(),
    ensures
        agrees(s@.len() as int, i as int, r, sp_format(s@, i as int), (|f: Format| f@)),
{
    let mf = lit_mesh_format();
    let (j1, _) = p_lit(s, i, mf.as_slice())?;
    let (j2, _) = p_newline(s, j1)?;
    let (j3, _) = p_float(s, j2)?;
    let version = copy_range(s, j2, j3);
    let j4 = skip_space(s, j3);
    let (j5, file) = p_id(s, j4)?;
    let j6 = skip_space(s, j5);
    let (j7, size) = p_id(s, j6)?;
    let (j8, _) = p_newline(s, j7)?;
    let emf = lit_end_mesh_format();
    let (j9, _) = p_lit(s, j8, emf.as_slice())?;
    Ok((j9, Format::new(version, file, size)))
}

/// Decodes the `$Nodes` section.
fn p_nodes(s: &[u8], i: usize) -> (r: Result<(usize, Nodes), Fail>)
    requires
        i <= s@.len(),
    ensures
        agrees_map(s@.len() as int, i as int, r, sp_nodes(s@, i as int), (|nd: Node| nd@)),
{
    let nod = lit_nodes();
    let (j1, _) = p_lit(s, i, nod.as_slice())?;
    let (j2, _) = p_newline(s, j1)?;
    let (j3, n) = p_count(s, j2)?;
    let (j4, _) = p_newline(s, j3)?;
    let (j5, m) = p_node_records(s, j4, n)?;
    let endnod = lit_end_nodes();
    let (j6, _) = p_lit(s, j5, endnod.as_slice())?;
    Ok((j6, m))
}

/// Decodes one 2.2 element record.
fn p_element(s: &[u8], i: usize) -> (r: Result<(usize, (i32, (i32, i32, Topology))), Fail>)
    requires
        i <= s@.len(),
    ensures
        agrees(
            s@.len() as int,
            i as int,
            r,
            sp_element(s@, i as int),
            (|v: (i32, (i32, i32, Topology))| v),
        ),
{
    let (j1, id) = p_id(s, i)?;
    let j2 = skip_space(s, j1);
    let (j3, t) = p_id(s, j2)?;
    let j4 = skip_space(s, j3);
    let (j5, _) = p_float(s, j4)?;
    let j6 = skip_space(s, j5);
    let (j7, p) = p_id(s, j6)?;
    let j8 = skip_space(s, j7);
    let (j9, e) = p_id(s, j8)?;
    let j10 = skip_space(s, j9);
    let supported = t == 1 || t == 2 || t == 3 || t == 4 || t == 5 || t == 15;
    if !supported {
        return Err(Fail::fatal(j10));
    }
    let arity: u64 = if t == 1 {
        2
    } else if t == 2 {
        3
    } else if t == 3 {
        4
    } else if t == 5 {
        4
    } else if t == 4 {
        4
    } else {
        1
    };
    proof {
        assert(arity == v2_arity(t));
    }
    let (j11, ids) = p_ids(s, j10, arity)?;
    let topo = build_v2_topo(t, &ids);
    let (j12, _) = p_newline(s, j11)?;
    Ok((j12, (id, (p, e, topo))))
}

/// Decodes `n` 2.2 element records into the element map.
fn p_element_records(s: &[u8], i: usize, n: u64) -> (r: Result<(usize, Elements), Fail>)
    requires
        i <= s@.len(),
    ensures
        agrees_map(
            s@.len() as int,
            i as int,
            r,
            sp_element_records(s@, i as int, n as nat),
            (|v: (i32, i32, Topology)| v),
        ),
{
    let ghost f = (|j: int| sp_element(s@, j));
    let mut m: Elements = HashMap::new();
    let ghost mut acc: Seq<(i32, (i32, i32, Topology))> = Seq::empty();
    let mut cur: usize = i;
    let mut k: u64 = 0;
    proof {
        assert(m@.map_values(|v: (i32, i32, Topology)| v) =~= map_of(acc));
    }
    while k < n
        invariant
            i <= cur <= s@.len(),
            k <= n,
            f == (|j: int| sp_element(s@, j)),
            sp_list(f, i as int, n as nat, Seq::empty()) == sp_list(
                f,
                cur as int,
                (n - k) as nat,
                acc,
            ),
            m@.map_values(|v: (i32, i32, Topology)| v) == map_of(acc),
        decreases n - k,
    {
        match p_element(s, cur) {
            Ok((j, (id, rec))) => {
                proof {
                    assert(f(cur as int) == sp_element(s@, cur as int));
                    assert(acc.push((id, rec)).drop_last() =~= acc);
                }
                m.insert(id, rec);
                proof {
                    assert(m@.map_values(|v: (i32, i32, Topology)| v) =~= map_of(
                        acc.push((id, rec)),
                    ));
                    acc = acc.push((id, rec));
                }
                cur = j;
                k = k + 1;
            },
            Err(e) => {
                proof {
                    assert(f(cur as int) == sp_element(s@, cur as int));
                }
                return Err(e);
            },
        }
    }
    Ok((cur, m))
}

/// Decodes the `$Elements` section.
fn p_elements(s: &[u8], i: usize) -> (r: Result<(usize, Elements), Fail>)
    requires
        i <= s@.len(),
    ensures
        agrees_map(
            s@.len() as int,
            i as int,
            r,
            sp_elements(s@, i as int),
            (|v: (i32, i32, Topology)| v),
        ),
{
    let elm = lit_elements();
    let (j1, _) = p_lit(s, i, elm.as_slice())?;
    let (j2, _) = p_newline(s, j1)?;
    let (j3, n) = p_count(s, j2)?;
    let (j4, _) = p_newline(s, j3)?;
    let (j5, m) = p_element_records(s, j4, n)?;
    let endelm = lit_end_elements();
    let (j6, _) = p_lit(s, j5, endelm.as_slice())?;
    Ok((j6, m))
}

/// Decodes a whole 2.2 document into the canonical mesh.
pub fn mesh(s: &[u8], i: usize) -> (r: Result<(usize, Mesh), Fail>)
    requires
        i <= s@.len(),
    ensures
        agrees(s@.len() as int, i as int, r, sp_mesh(s@, i as int), (|m: Mesh| m@)),
{
    let (j0, f) = p_format(s, i)?;
    let (j1, _) = p_newline(s, j0)?;
    let (j2, ns) = p_nodes(s, j1)?;
    let (j3, _) = p_newline(s, j2)?;
    let (j4, es) = p_elements(s, j3)?;
    proof {
        assert(es@.map_values(|v: (i32, i32, Topology)| v) =~= es@);
    }
    Ok((j4, Mesh::new(Some(f), ns, es)))
}

} // verus!
