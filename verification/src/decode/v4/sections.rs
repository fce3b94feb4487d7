//! Section-level decoders of the 4.1 grammar: node entity blocks, element
//! groups, and the optional physical-name, entity, partitioned-entity,
//! parametrisation and periodic sections.

use vstd::prelude::*;

use crate::decode::v4::records::{
    p_affine_items, p_curve_rows, p_ghost_rows, p_pcnode_rows, p_pcurve_rows, p_physical_rows,
    p_plink_node_rows, p_point_rows, p_positions, p_ppoint_rows, p_psnode_rows, p_psurface_rows,
    p_ptri_rows, p_pvolume_rows, p_surface_rows, p_tag_lines, p_volume_rows, sp_curve_row,
    sp_ghost_row, sp_i32_nl, sp_pcnode_row, sp_pcurve_row, sp_physical_row, sp_plink_node_row,
    sp_point_row, sp_position, sp_ppoint_row, sp_psnode_row, sp_psurface_row, sp_ptri_row,
    sp_pvolume_row, sp_sp1_coord, sp_surface_row, sp_volume_row,
};
use crate::decode::v4::{
    ElementEntity, ElementEntityV, Elements, ElementsV, Entities, EntitiesV, NodeEntity,
    NodeEntityV, Nodes, NodesV, Parametrisations, ParametrisationsCurve, ParametrisationsCurveV,
    ParametrisationsSurface, ParametrisationsSurfaceV, ParametrisationsV, PartitionedEntities,
    PartitionedEntitiesV, Periodic, PeriodicLink, PeriodicLinkV, PeriodicV, PhysicalName,
    PhysicalNameV, TaggedTopology,
};
use crate::element::{build_v4_topo, v4_arity, v4_supported, v4_topo};
use crate::marker::{
    lit_end_entities, lit_end_nodes, lit_end_partitioned_entities, lit_end_physical_names,
    lit_entities, lit_nodes, lit_partitioned_entities, lit_physical_names, mk_end_entities,
    mk_end_nodes, mk_end_partitioned_entities, mk_end_physical_names, mk_entities, mk_nodes,
    mk_partitioned_entities, mk_physical_names,
};
use crate::step::{agrees, carry, sp_list, Fail, Step};
use crate::token::{
    p_i32, p_lit, p_newline, p_space1, p_u64, skip_space, sp_i32, sp_lit, sp_newline,
    sp_skip_space, sp_space1, sp_u64,
};

verus! {

/// A blank-separated run of `n` native node ids, as a topology's id list.
pub open spec fn sp_ids4(s: Seq<u8>, i: int, n: nat, acc: Seq<i32>) -> Step<Seq<i32>>
    decreases n,
{
    if n == 0 {
        Step::Hit { next: i, val: acc }
    } else {
        match sp_i32(s, i) {
            Step::Hit { next, val } => {
                if n == 1 {
                    Step::Hit { next, val: acc.push(val) }
                } else {
                    match sp_space1(s, next) {
                        Step::Hit { next: k, .. } => sp_ids4(s, k, (n - 1) as nat, acc.push(val)),
                        st => carry(st),
                    }
                }
            },
            st => carry(st),
        }
    }
}

/// Decodes a blank-separated run of `n` native node ids.
fn p_ids4(s: &[u8], i: usize, n: u64) -> (r: Result<(usize, Vec<i32>), Fail>)
    requires
        i <= s@.len(),
    ensures
        agrees(
            s@.len() as int,
            i as int,
            r,
            sp_ids4(s@, i as int, n as nat, Seq::empty()),
            (|v: Vec<i32>| v@),
        ),
        (match r {
            Result::Ok((_, v)) => v@.len() == n,
            Result::Err(_) => true,
        }),
{
    let mut ids: Vec<i32> = Vec::new();
    let mut cur: usize = i;
    let mut k: u64 = 0;
    while k < n
        invariant
            i <= cur <= s@.len(),
            k <= n,
            ids@.len() == k,
            sp_ids4(s@, i as int, n as nat, Seq::empty()) == sp_ids4(
                s@,
                cur as int,
                (n - k) as nat,
                ids@,
            ),
        decreases n - k,
    {
        match p_i32(s, cur) {
            Ok((j, v)) => {
                ids.push(v);
                if k + 1 < n {
                    match p_space1(s, j) {
                        Ok((j2, _)) => {
                            cur = j2;
                        },
                        Err(e) => {
                            return Err(e);
                        },
                    }
                } else {
                    cur = j;
                }
                k = k + 1;
            },
            Err(e) => {
                return Err(e);
            },
        }
    }
    Ok((cur, ids))
}

/// One element line of an element group: a native element tag, blanks, the
/// type-specific node-id list, optional blanks and a newline. A type code
/// outside the 4.1 table is a fatal fault at the position where the id list
/// would begin; a group declaring zero elements never reaches it.
pub open spec fn sp_element_row(s: Seq<u8>, i: int, typ: i32) -> Step<TaggedTopology> {
    match sp_i32(s, i) {
        Step::Hit { next: j1, val: tag } => match sp_space1(s, j1) {
            Step::Hit { next: j2, .. } => {
                if !v4_supported(typ) {
                    Step::Fatal { at: j2 }
                } else {
                    match sp_ids4(s, j2, v4_arity(typ), Seq::empty()) {
                        Step::Hit { next: j3, val: ids } => {
                            let j4 = sp_skip_space(s, j3);
                            match sp_newline(s, j4) {
                                Step::Hit { next: j5, .. } => Step::Hit {
                                    next: j5,
                                    val: TaggedTopology { tag, topology: v4_topo(typ, ids) },
                                },
                                st => carry(st),
                            }
                        },
                        st => carry(st),
                    }
                }
            },
            st => carry(st),
        },
        st => carry(st),
    }
}

/// Decodes one element line.
fn p_element_row(s: &[u8], i: usize, typ: i32) -> (r: Result<(usize, TaggedTopology), Fail>)
    requires
        i <= s@.len(),
    ensures
        agrees(
            s@.len() as int,
            i as int,
            r,
            sp_element_row(s@, i as int, typ),
            (|v: TaggedTopology| v),
        ),
{
    let (j1, tag) = p_i32(s, i)?;
    let (j2, _) = p_space1(s, j1)?;
    let supported = typ == 1 || typ == 2 || typ == 3 || typ == 4 || typ == 5 || typ == 6 || typ
        == 15;
    if !supported {
        return Err(Fail::fatal(j2));
    }
    let arity: u64 = if typ == 1 {
        2
    } else if typ == 2 {
        3
    } else if typ == 3 {
        4
    } else if typ == 4 {
        4
    } else if typ == 5 {
        8
    } else if typ == 6 {
        6
    } else {
        1
    };
    proof {
        assert(arity == v4_arity(typ));
    }
    let (j3, ids) = p_ids4(s, j2, arity)?;
    let topology = build_v4_topo(typ, &ids);
    let j4 = skip_space(s, j3);
    let (j5, _) = p_newline(s, j4)?;
    Ok((j5, TaggedTopology { tag, topology }))
}

/// Decodes the element lines of one element group.
fn p_element_rows(s: &[u8], i: usize, n: u64, typ: i32) -> (r: Result<(usize, Vec<TaggedTopology>), Fail>)
    requires
        i <= s@.len(),
    ensures
        agrees(
            s@.len() as int,
            i as int,
            r,
            sp_list((|j: int| sp_element_row(s@, j, typ)), i as int, n as nat, Seq::empty()),
            (|v: Vec<TaggedTopology>| v@),
        ),
        (match r {
            Result::Ok((_, v)) => v@.len() == n,
            Result::Err(_) => true,
        }),
{
    let ghost f = (|j: int| sp_element_row(s@, j, typ));
    let mut out: Vec<TaggedTopology> = Vec::new();
    let mut cur: usize = i;
    let mut k: u64 = 0;
    while k < n
        invariant
            i <= cur <= s@.len(),
            k <= n,
            out@.len() == k,
            f == (|j: int| sp_element_row(s@, j, typ)),
            sp_list(f, i as int, n as nat, Seq::empty()) == sp_list(
                f,
                cur as int,
                (n - k) as nat,
                out@,
            ),
        decreases n - k,
    {
        match p_element_row(s, cur, typ) {
            Ok((j, e)) => {
                proof {
                    assert(f(cur as int) == sp_element_row(s@, cur as int, typ));
                }
                out.push(e);
                cur = j;
                k = k + 1;
            },
            Err(er) => {
                proof {
                    assert(f(cur as int) == sp_element_row(s@, cur as int, typ));
                }
                return Err(er);
            },
        }
    }
    Ok((cur, out))
}

/// One element group: dimension, entity tag, type code and declared count
/// on a header line, then that many element lines.
pub open spec fn sp_element_group(s: Seq<u8>, i: int) -> Step<ElementEntityV> {
    match sp_i32(s, i) {
        Step::Hit { next: j1, val: dim } => match sp_space1(s, j1) {
            Step::Hit { next: j2, .. } => match sp_i32(s, j2) {
                Step::Hit { next: j3, val: tag } => match sp_space1(s, j3) {
                    Step::Hit { next: j4, .. } => match sp_i32(s, j4) {
                        Step::Hit { next: j5, val: typ } => match sp_space1(s, j5) {
                            Step::Hit { next: j6, .. } => match sp_u64(s, j6) {
                                Step::Hit { next: j7, val: n } => match sp_newline(s, j7) {
                                    Step::Hit { next: j8, .. } => match sp_list(
                                        (|q: int| sp_element_row(s, q, typ)),
                                        j8,
                                        n as nat,
                                        Seq::empty(),
                                    ) {
                                        Step::Hit { next: j9, val: elements } => Step::Hit {
                                            next: j9,
                                            val: ElementEntityV { dim, tag, elements },
                                        },
                                        st => carry(st),
                                    },
                                    st => carry(st),
                                },
                                st => carry(st),
                            },
                            st => carry(st),
                        },
                        st => carry(st),
                    },
                    st => carry(st),
                },
                st => carry(st),
            },
            st => carry(st),
        },
        st => carry(st),
    }
}

/// Decodes one element group.
fn p_element_group(s: &[u8], i: usize) -> (r: Result<(usize, ElementEntity), Fail>)
    requires
        i <= s@.len(),
    ensures
        agrees(
            s@.len() as int,
            i as int,
            r,
            sp_element_group(s@, i as int),
            (|v: ElementEntity| v@),
        ),
{
    let (j1, dim) = p_i32(s, i)?;
    let (j2, _) = p_space1(s, j1)?;
    let (j3, tag) = p_i32(s, j2)?;
    let (j4, _) = p_space1(s, j3)?;
    let (j5, typ) = p_i32(s, j4)?;
    let (j6, _) = p_space1(s, j5)?;
    let (j7, n) = p_u64(s, j6)?;
    let (j8, _) = p_newline(s, j7)?;
    let (j9, elements) = p_element_rows(s, j8, n, typ)?;
    Ok((j9, ElementEntity { dim, tag, elements }))
}

/// Decodes the element groups of the `$Elements` section.
fn p_element_groups(s: &[u8], i: usize, n: u64) -> (r: Result<(usize, Vec<ElementEntity>), Fail>)
    requires
        i <= s@.len(),
    ensures
        agrees(
            s@.len() as int,
            i as int,
            r,
            sp_list((|j: int| sp_element_group(s@, j)), i as int, n as nat, Seq::empty()),
            (|v: Vec<ElementEntity>| v@.map_values((|e: ElementEntity| e@))),
        ),
        (match r {
            Result::Ok((_, v)) => v@.len() == n,
            Result::Err(_) => true,
        }),
{
    let ghost f = (|j: int| sp_element_group(s@, j));
    let mut out: Vec<ElementEntity> = Vec::new();
    let mut cur: usize = i;
    let mut k: u64 = 0;
    proof {
        assert(out@.map_values(|e: ElementEntity| e@) =~= Seq::empty());
    }
    while k < n
        invariant
            i <= cur <= s@.len(),
            k <= n,
            out@.len() == k,
            f == (|j: int| sp_element_group(s@, j)),
            sp_list(f, i as int, n as nat, Seq::empty()) == sp_list(
                f,
                cur as int,
                (n - k) as nat,
                out@.map_values(|e: ElementEntity| e@),
            ),
        decreases n - k,
    {
        match p_element_group(s, cur) {
            Ok((j, e)) => {
                proof {
                    assert(f(cur as int) == sp_element_group(s@, cur as int));
                    assert((out@.push(e)).map_values(|e: ElementEntity| e@) =~= out@.map_values(
                        |e: ElementEntity| e@,
                    ).push(e@));
                }
                out.push(e);
                cur = j;
                k = k + 1;
            },
            Err(er) => {
                proof {
                    assert(f(cur as int) == sp_element_group(s@, cur as int));
                }
                return Err(er);
            },
        }
    }
    Ok((cur, out))
}

/// The body of the `$Elements` section: an entity-block count, a declared
/// total and tag range, then that many element groups. The declared numbers
/// are carried, never cross-validated against the records.
pub open spec fn sp_elements_body(s: Seq<u8>, i: int) -> Step<ElementsV> {
    match sp_u64(s, i) {
        Step::Hit { next: j1, val: nblocks } => match sp_space1(s, j1) {
            Step::Hit { next: j2, .. } => match sp_u64(s, j2) {
                Step::Hit { next: j3, val: num_elements } => match sp_space1(s, j3) {
                    Step::Hit { next: j4, .. } => match sp_i32(s, j4) {
                        Step::Hit { next: j5, val: min_tag } => match sp_space1(s, j5) {
                            Step::Hit { next: j6, .. } => match sp_i32(s, j6) {
                                Step::Hit { next: j7, val: max_tag } => match sp_newline(s, j7) {
                                    Step::Hit { next: j8, .. } => match sp_list(
                                        (|q: int| sp_element_group(s, q)),
                                        j8,
                                        nblocks as nat,
                                        Seq::empty(),
                                    ) {
                                        Step::Hit { next: j9, val: entities } => Step::Hit {
                                            next: j9,
                                            val: ElementsV {
                                                num_elements,
                                                min_tag,
                                                max_tag,
                                                entities,
                                            },
                                        },
                                        st => carry(st),
                                    },
                                    st => carry(st),
                                },
                                st => carry(st),
                            },
                            st => carry(st),
                        },
                        st => carry(st),
                    },
                    st => carry(st),
                },
                st => carry(st),
            },
            st => carry(st),
        },
        st => carry(st),
    }
}

/// Decodes the body of the `$Elements` section.
pub(crate) fn p_elements_body(s: &[u8], i: usize) -> (r: Result<(usize, Elements), Fail>)
    requires
        i <= s@.len(),
    ensures
        agrees(
            s@.len() as int,
            i as int,
            r,
            sp_elements_body(s@, i as int),
            (|v: Elements| v@),
        ),
{
    let (j1, nblocks) = p_u64(s, i)?;
    let (j2, _) = p_space1(s, j1)?;
    let (j3, num_elements) = p_u64(s, j2)?;
    let (j4, _) = p_space1(s, j3)?;
    let (j5, min_tag) = p_i32(s, j4)?;
    let (j6, _) = p_space1(s, j5)?;
    let (j7, max_tag) = p_i32(s, j6)?;
    let (j8, _) = p_newline(s, j7)?;
    let (j9, entities) = p_element_groups(s, j8, nblocks)?;
    Ok((j9, Elements { num_elements, min_tag, max_tag, entities }))
}

/// One node entity block: dimension, entity tag, parametric flag and
/// declared node count on a header line, then that many node-tag lines,
/// then that many position records. A block declaring zero nodes consumes
/// its header line alone.
pub open spec fn sp_entityblock(s: Seq<u8>, i: int) -> Step<NodeEntityV> {
    match sp_i32(s, i) {
        Step::Hit { next: j1, val: dim } => match sp_space1(s, j1) {
            Step::Hit { next: j2, .. } => match sp_i32(s, j2) {
                Step::Hit { next: j3, val: tag } => match sp_space1(s, j3) {
                    Step::Hit { next: j4, .. } => match sp_i32(s, j4) {
                        Step::Hit { next: j5, val: parametric } => match sp_space1(s, j5) {
                            Step::Hit { next: j6, .. } => match sp_u64(s, j6) {
                                Step::Hit { next: j7, val: n } => match sp_newline(s, j7) {
                                    Step::Hit { next: j8, .. } => match sp_list(
                                        (|q: int| sp_i32_nl(s, q)),
                                        j8,
                                        n as nat,
                                        Seq::empty(),
                                    ) {
                                        Step::Hit { next: j9, val: node_tags } => match sp_list(
                                            (|q: int| sp_position(s, q, parametric == 1, dim)),
                                            j9,
                                            n as nat,
                                            Seq::empty(),
                                        ) {
                                            Step::Hit { next: j10, val: node_positions } => Step::Hit {
                                                next: j10,
                                                val: NodeEntityV {
                                                    dim,
                                                    tag,
                                                    node_tags,
                                                    node_positions,
                                                },
                                            },
                                            st => carry(st),
                                        },
                                        st => carry(st),
                                    },
                                    st => carry(st),
                                },
                                st => carry(st),
                            },
                            st => carry(st),
                        },
                        st => carry(st),
                    },
                    st => carry(st),
                },
                st => carry(st),
            },
            st => carry(st),
        },
        st => carry(st),
    }
}

/// Decodes one node entity block.
fn p_entityblock(s: &[u8], i: usize) -> (r: Result<(usize, NodeEntity), Fail>)
    requires
        i <= s@.len(),
    ensures
        agrees(
            s@.len() as int,
            i as int,
            r,
            sp_entityblock(s@, i as int),
            (|v: NodeEntity| v@),
        ),
{
    let (j1, dim) = p_i32(s, i)?;
    let (j2, _) = p_space1(s, j1)?;
    let (j3, tag) = p_i32(s, j2)?;
    let (j4, _) = p_space1(s, j3)?;
    let (j5, parametric) = p_i32(s, j4)?;
    let (j6, _) = p_space1(s, j5)?;
    let (j7, n) = p_u64(s, j6)?;
    let (j8, _) = p_newline(s, j7)?;
    let (j9, node_tags) = p_tag_lines(s, j8, n)?;
    let (j10, node_positions) = p_positions(s, j9, n, parametric == 1, dim)?;
    Ok((j10, NodeEntity { dim, tag, node_tags, node_positions }))
}

/// Decodes the entity blocks of the `$Nodes` section.
fn p_entityblocks(s: &[u8], i: usize, n: u64) -> (r: Result<(usize, Vec<NodeEntity>), Fail>)
    requires
        i <= s@.len(),
    ensures
        agrees(
            s@.len() as int,
            i as int,
            r,
            sp_list((|j: int| sp_entityblock(s@, j)), i as int, n as nat, Seq::empty()),
            (|v: Vec<NodeEntity>| v@.map_values((|e: NodeEntity| e@))),
        ),
        (match r {
            Result::Ok((_, v)) => v@.len() == n,
            Result::Err(_) => true,
        }),
{
    let ghost f = (|j: int| sp_entityblock(s@, j));
    let mut out: Vec<NodeEntity> = Vec::new();
    let mut cur: usize = i;
    let mut k: u64 = 0;
    proof {
        assert(out@.map_values(|e: NodeEntity| e@) =~= Seq::empty());
    }
    while k < n
        invariant
            i <= cur <= s@.len(),
            k <= n,
            out@.len() == k,
            f == (|j: int| sp_entityblock(s@, j)),
            sp_list(f, i as int, n as nat, Seq::empty()) == sp_list(
                f,
                cur as int,
                (n - k) as nat,
                out@.map_values(|e: NodeEntity| e@),
            ),
        decreases n - k,
    {
        match p_entityblock(s, cur) {
            Ok((j, e)) => {
                proof {
                    assert(f(cur as int) == sp_entityblock(s@, cur as int));
                    assert((out@.push(e)).map_values(|e: NodeEntity| e@) =~= out@.map_values(
                        |e: NodeEntity| e@,
                    ).push(e@));
                }
                out.push(e);
                cur = j;
                k = k + 1;
            },
            Err(er) => {
                proof {
                    assert(f(cur as int) == sp_entityblock(s@, cur as int));
                }
                return Err(er);
            },
        }
    }
    Ok((cur, out))
}

/// The `$Nodes` section: marker, declared totals and node-tag range, then
/// the entity blocks, then the end marker.
pub open spec fn sp_nodes_section(s: Seq<u8>, i: int) -> Step<NodesV> {
    match sp_lit(s, i, mk_nodes()) {
        Step::Hit { next: j1, .. } => match sp_newline(s, j1) {
            Step::Hit { next: j2, .. } => match sp_u64(s, j2) {
                Step::Hit { next: j3, val: nblocks } => match sp_space1(s, j3) {
                    Step::Hit { next: j4, .. } => match sp_u64(s, j4) {
                        Step::Hit { next: j5, val: num_nodes } => match sp_space1(s, j5) {
                            Step::Hit { next: j6, .. } => match sp_i32(s, j6) {
                                Step::Hit { next: j7, val: min_node } => match sp_space1(s, j7) {
                                    Step::Hit { next: j8, .. } => match sp_i32(s, j8) {
                                        Step::Hit { next: j9, val: max_node } => match sp_newline(
                                            s,
                                            j9,
                                        ) {
                                            Step::Hit { next: j10, .. } => match sp_list(
                                                (|q: int| sp_entityblock(s, q)),
                                                j10,
                                                nblocks as nat,
                                                Seq::empty(),
                                            ) {
                                                Step::Hit { next: j11, val: entities } => match sp_lit(
                                                    s,
                                                    j11,
                                                    mk_end_nodes(),
                                                ) {
                                                    Step::Hit { next: j12, .. } => Step::Hit {
                                                        next: j12,
                                                        val: NodesV {
                                                            min_node,
                                                            max_node,
                                                            num_nodes,
                                                            entities,
                                                        },
                                                    },
                                                    st => carry(st),
                                                },
                                                st => carry(st),
                                            },
                                            st => carry(st),
                                        },
                                        st => carry(st),
                                    },
                                    st => carry(st),
                                },
                                st => carry(st),
                            },
                            st => carry(st),
                        },
                        st => carry(st),
                    },
                    st => carry(st),
                },
                st => carry(st),
            },
            st => carry(st),
        },
        st => carry(st),
    }
}

/// Decodes the `$Nodes` section.
pub(crate) fn p_nodes_section(s: &[u8], i: usize) -> (r: Result<(usize, Nodes), Fail>)
    requires
        i <= s@.len(),
    ensures
        agrees(
            s@.len() as int,
            i as int,
            r,
            sp_nodes_section(s@, i as int),
            (|v: Nodes| v@),
        ),
{
    let lit = lit_nodes();
    let (j1, _) = p_lit(s, i, lit.as_slice())?;
    let (j2, _) = p_newline(s, j1)?;
    let (j3, nblocks) = p_u64(s, j2)?;
    let (j4, _) = p_space1(s, j3)?;
    let (j5, num_nodes) = p_u64(s, j4)?;
    let (j6, _) = p_space1(s, j5)?;
    let (j7, min_node) = p_i32(s, j6)?;
    let (j8, _) = p_space1(s, j7)?;
    let (j9, max_node) = p_i32(s, j8)?;
    let (j10, _) = p_newline(s, j9)?;
    let (j11, entities) = p_entityblocks(s, j10, nblocks)?;
    let endlit = lit_end_nodes();
    let (j12, _) = p_lit(s, j11, endlit.as_slice())?;
    Ok((j12, Nodes { min_node, max_node, num_nodes, entities }))
}

/// The `$PhysicalNames` section: marker, a count line, that many name
/// lines, the end marker.
pub open spec fn sp_physical_names(s: Seq<u8>, i: int) -> Step<Seq<PhysicalNameV>> {
    match sp_lit(s, i, mk_physical_names()) {
        Step::Hit { next: j1, .. } => match sp_newline(s, j1) {
            Step::Hit { next: j2, .. } => match sp_u64(s, j2) {
                Step::Hit { next: j3, val: n } => match sp_newline(s, j3) {
                    Step::Hit { next: j4, .. } => match sp_list(
                        (|q: int| sp_physical_row(s, q)),
                        j4,
                        n as nat,
                        Seq::empty(),
                    ) {
                        Step::Hit { next: j5, val: names } => match sp_lit(
                            s,
                            j5,
                            mk_end_physical_names(),
                        ) {
                            Step::Hit { next: j6, .. } => Step::Hit { next: j6, val: names },
                            st => carry(st),
                        },
                        st => carry(st),
                    },
                    st => carry(st),
                },
                st => carry(st),
            },
            st => carry(st),
        },
        st => carry(st),
    }
}

/// Decodes the `$PhysicalNames` section.
pub(crate) fn p_physical_names(s: &[u8], i: usize) -> (r: Result<(usize, Vec<PhysicalName>), Fail>)
    requires
        i <= s@.len(),
    ensures
        agrees(
            s@.len() as int,
            i as int,
            r,
            sp_physical_names(s@, i as int),
            (|v: Vec<PhysicalName>| v@.map_values((|e: PhysicalName| e@))),
        ),
{
    let lit = lit_physical_names();
    let (j1, _) = p_lit(s, i, lit.as_slice())?;
    let (j2, _) = p_newline(s, j1)?;
    let (j3, n) = p_u64(s, j2)?;
    let (j4, _) = p_newline(s, j3)?;
    let (j5, names) = p_physical_rows(s, j4, n)?;
    let endlit = lit_end_physical_names();
    let (j6, _) = p_lit(s, j5, endlit.as_slice())?;
    Ok((j6, names))
}

/// The `$Entities` section: marker, the four kind counts, then the point,
/// curve, surface and volume records, then the end marker.
pub open spec fn sp_entities(s: Seq<u8>, i: int) -> Step<EntitiesV> {
    match sp_lit(s, i, mk_entities()) {
        Step::Hit { next: j1, .. } => match sp_newline(s, j1) {
            Step::Hit { next: j2, .. } => match sp_u64(s, j2) {
                Step::Hit { next: j3, val: np } => match sp_space1(s, j3) {
                    Step::Hit { next: j4, .. } => match sp_u64(s, j4) {
                        Step::Hit { next: j5, val: nc } => match sp_space1(s, j5) {
                            Step::Hit { next: j6, .. } => match sp_u64(s, j6) {
                                Step::Hit { next: j7, val: ns } => match sp_space1(s, j7) {
                                    Step::Hit { next: j8, .. } => match sp_u64(s, j8) {
                                        Step::Hit { next: j9, val: nv } => match sp_newline(
                                            s,
                                            j9,
                                        ) {
                                            Step::Hit { next: j10, .. } => match sp_list(
                                                (|q: int| sp_point_row(s, q)),
                                                j10,
                                                np as nat,
                                                Seq::empty(),
                                            ) {
                                                Step::Hit { next: j11, val: points } => match sp_list(
                                                    (|q: int| sp_curve_row(s, q)),
                                                    j11,
                                                    nc as nat,
                                                    Seq::empty(),
                                                ) {
                                                    Step::Hit { next: j12, val: curves } => match sp_list(
                                                        (|q: int| sp_surface_row(s, q)),
                                                        j12,
                                                        ns as nat,
                                                        Seq::empty(),
                                                    ) {
                                                        Step::Hit { next: j13, val: surfaces } => match sp_list(
                                                            (|q: int| sp_volume_row(s, q)),
                                                            j13,
                                                            nv as nat,
                                                            Seq::empty(),
                                                        ) {
                                                            Step::Hit {
                                                                next: j14,
                                                                val: volumes,
                                                            } => match sp_lit(
                                                                s,
                                                                j14,
                                                                mk_end_entities(),
                                                            ) {
                                                                Step::Hit { next: j15, .. } => Step::Hit {
                                                                    next: j15,
                                                                    val: EntitiesV {
                                                                        points,
                                                                        curves,
                                                                        surfaces,
                                                                        volumes,
                                                                    },
                                                                },
                                                                st => carry(st),
                                                            },
                                                            st => carry(st),
                                                        },
                                                        st => carry(st),
                                                    },
                                                    st => carry(st),
                                                },
                                                st => carry(st),
                                            },
                                            st => carry(st),
                                        },
                                        st => carry(st),
                                    },
                                    st => carry(st),
                                },
                                st => carry(st),
                            },
                            st => carry(st),
                        },
                        st => carry(st),
                    },
                    st => carry(st),
                },
                st => carry(st),
            },
            st => carry(st),
        },
        st => carry(st),
    }
}

/// Decodes the `$Entities` section.
pub(crate) fn p_entities(s: &[u8], i: usize) -> (r: Result<(usize, Entities), Fail>)
    requires
        i <= s@.len(),
    ensures
        agrees(s@.len() as int, i as int, r, sp_entities(s@, i as int), (|v: Entities| v@)),
{
    let lit = lit_entities();
    let (j1, _) = p_lit(s, i, lit.as_slice())?;
    let (j2, _) = p_newline(s, j1)?;
    let (j3, np) = p_u64(s, j2)?;
    let (j4, _) = p_space1(s, j3)?;
    let (j5, nc) = p_u64(s, j4)?;
    let (j6, _) = p_space1(s, j5)?;
    let (j7, ns) = p_u64(s, j6)?;
    let (j8, _) = p_space1(s, j7)?;
    let (j9, nv) = p_u64(s, j8)?;
    let (j10, _) = p_newline(s, j9)?;
    let (j11, points) = p_point_rows(s, j10, np)?;
    let (j12, curves) = p_curve_rows(s, j11, nc)?;
    let (j13, surfaces) = p_surface_rows(s, j12, ns)?;
    let (j14, volumes) = p_volume_rows(s, j13, nv)?;
    let endlit = lit_end_entities();
    let (j15, _) = p_lit(s, j14, endlit.as_slice())?;
    Ok((j15, Entities { points, curves, surfaces, volumes }))
}
/// The `$PartitionedEntities` section: marker, partition count, ghost
/// entities, the four kind counts, then the partitioned records, then the
/// end marker.
pub open spec fn sp_partitioned_entities(s: Seq<u8>, i: int) -> Step<PartitionedEntitiesV> {
    match sp_lit(s, i, mk_partitioned_entities()) {
        Step::Hit { next: j1, .. } => match sp_newline(s, j1) {
            Step::Hit { next: j2, .. } => match sp_u64(s, j2) {
                Step::Hit { next: j3, val: num_partitions } => match sp_newline(s, j3) {
                    Step::Hit { next: j4, .. } => match sp_u64(s, j4) {
                        Step::Hit { next: j5, val: ng } => match sp_newline(s, j5) {
                            Step::Hit { next: j6, .. } => match sp_list(
                                (|q: int| sp_ghost_row(s, q)),
                                j6,
                                ng as nat,
                                Seq::empty(),
                            ) {
                                Step::Hit { next: j7, val: ghosts } => match sp_u64(s, j7) {
                                    Step::Hit { next: j8, val: np } => match sp_space1(s, j8) {
                                        Step::Hit { next: j9, .. } => match sp_u64(s, j9) {
                                            Step::Hit { next: j10, val: nc } => match sp_space1(
                                                s,
                                                j10,
                                            ) {
                                                Step::Hit { next: j11, .. } => match sp_u64(
                                                    s,
                                                    j11,
                                                ) {
                                                    Step::Hit { next: j12, val: ns } => match sp_space1(
                                                        s,
                                                        j12,
                                                    ) {
                                                        Step::Hit { next: j13, .. } => match sp_u64(
                                                            s,
                                                            j13,
                                                        ) {
                                                            Step::Hit { next: j14, val: nv } => match sp_newline(
                                                                s,
                                                                j14,
                                                            ) {
                                                                Step::Hit { next: j15, .. } => match sp_list(
                                                                    (|q: int| sp_ppoint_row(s, q)),
                                                                    j15,
                                                                    np as nat,
                                                                    Seq::empty(),
                                                                ) {
                                                                    Step::Hit {
                                                                        next: j16,
                                                                        val: points,
                                                                    } => match sp_list(
                                                                        (|q: int| sp_pcurve_row(
                                                                            s,
                                                                            q,
                                                                        )),
                                                                        j16,
                                                                        nc as nat,
                                                                        Seq::empty(),
                                                                    ) {
                                                                        Step::Hit {
                                                                            next: j17,
                                                                            val: curves,
                                                                        } => match sp_list(
                                                                            (|q: int| sp_psurface_row(
                                                                                s,
                                                                                q,
                                                                            )),
                                                                            j17,
                                                                            ns as nat,
                                                                            Seq::empty(),
                                                                        ) {
                                                                            Step::Hit {
                                                                                next: j18,
                                                                                val: surfaces,
                                                                            } => match sp_list(
                                                                                (|q: int| sp_pvolume_row(
                                                                                    s,
                                                                                    q,
                                                                                )),
                                                                                j18,
                                                                                nv as nat,
                                                                                Seq::empty(),
                                                                            ) {
                                                                                Step::Hit {
                                                                                    next: j19,
                                                                                    val: volumes,
                                                                                } => match sp_lit(
                                                                                    s,
                                                                                    j19,
                                                                                    mk_end_partitioned_entities(),
                                                                                ) {
                                                                                    Step::Hit {
                                                                                        next: j20,
                                                                                        ..
                                                                                    } => Step::Hit {
                                                                                        next: j20,
                                                                                        val: PartitionedEntitiesV {
                                                                                            num_partitions,
                                                                                            ghosts,
                                                                                            points,
                                                                                            curves,
                                                                                            surfaces,
                                                                                            volumes,
                                                                                        },
                                                                                    },
                                                                                    st => carry(
                                                                                        st,
                                                                                    ),
                                                                                },
                                                                                st => carry(st),
                                                                            },
                                                                            st => carry(st),
                                                                        },
                                                                        st => carry(st),
                                                                    },
                                                                    st => carry(st),
                                                                },
                                                                st => carry(st),
                                                            },
                                                            st => carry(st),
                                                        },
                                                        st => carry(st),
                                                    },
                                                    st => carry(st),
                                                },
                                                st => carry(st),
                                            },
                                            st => carry(st),
                                        },
                                        st => carry(st),
                                    },
                                    st => carry(st),
                                },
                                st => carry(st),
                            },
                            st => carry(st),
                        },
                        st => carry(st),
                    },
                    st => carry(st),
                },
                st => carry(st),
            },
            st => carry(st),
        },
        st => carry(st),
    }
}

/// Decodes the `$PartitionedEntities` section.
pub(crate) fn p_partitioned_entities(s: &[u8], i: usize) -> (r: Result<
    (usize, PartitionedEntities),
    Fail,
>)
    requires
        i <= s@.len(),
    ensures
        agrees(
            s@.len() as int,
            i as int,
            r,
            sp_partitioned_entities(s@, i as int),
            (|v: PartitionedEntities| v@),
        ),
{
    let lit = lit_partitioned_entities();
    let (j1, _) = p_lit(s, i, lit.as_slice())?;
    let (j2, _) = p_newline(s, j1)?;
    let (j3, num_partitions) = p_u64(s, j2)?;
    let (j4, _) = p_newline(s, j3)?;
    let (j5, ng) = p_u64(s, j4)?;
    let (j6, _) = p_newline(s, j5)?;
    let (j7, ghosts) = p_ghost_rows(s, j6, ng)?;
    let (j8, np) = p_u64(s, j7)?;
    let (j9, _) = p_space1(s, j8)?;
    let (j10, nc) = p_u64(s, j9)?;
    let (j11, _) = p_space1(s, j10)?;
    let (j12, ns) = p_u64(s, j11)?;
    let (j13, _) = p_space1(s, j12)?;
    let (j14, nv) = p_u64(s, j13)?;
    let (j15, _) = p_newline(s, j14)?;
    let (j16, points) = p_ppoint_rows(s, j15, np)?;
    let (j17, curves) = p_pcurve_rows(s, j16, nc)?;
    let (j18, surfaces) = p_psurface_rows(s, j17, ns)?;
    let (j19, volumes) = p_pvolume_rows(s, j18, nv)?;
    let endlit = lit_end_partitioned_entities();
    let (j20, _) = p_lit(s, j19, endlit.as_slice())?;
    Ok((
        j20,
        PartitionedEntities { num_partitions, ghosts, points, curves, surfaces, volumes },
    ))
}

/// One curve parametrisation: tag line, sample-count line, then the
/// samples.
pub open spec fn sp_param_curve(s: Seq<u8>, i: int) -> Step<ParametrisationsCurveV> {
    match sp_i32(s, i) {
        Step::Hit { next: j1, val: tag } => match sp_newline(s, j1) {
            Step::Hit { next: j2, .. } => match sp_u64(s, j2) {
                Step::Hit { next: j3, val: n } => match sp_newline(s, j3) {
                    Step::Hit { next: j4, .. } => match sp_list(
                        (|q: int| sp_pcnode_row(s, q)),
                        j4,
                        n as nat,
                        Seq::empty(),
                    ) {
                        Step::Hit { next: j5, val: curves } => Step::Hit {
                            next: j5,
                            val: ParametrisationsCurveV { tag, curves },
                        },
                        st => carry(st),
                    },
                    st => carry(st),
                },
                st => carry(st),
            },
            st => carry(st),
        },
        st => carry(st),
    }
}

/// Decodes one curve parametrisation.
fn p_param_curve(s: &[u8], i: usize) -> (r: Result<(usize, ParametrisationsCurve), Fail>)
    requires
        i <= s@.len(),
    ensures
        agrees(
            s@.len() as int,
            i as int,
            r,
            sp_param_curve(s@, i as int),
            (|v: ParametrisationsCurve| v@),
        ),
{
    let (j1, tag) = p_i32(s, i)?;
    let (j2, _) = p_newline(s, j1)?;
    let (j3, n) = p_u64(s, j2)?;
    let (j4, _) = p_newline(s, j3)?;
    let (j5, curves) = p_pcnode_rows(s, j4, n)?;
    Ok((j5, ParametrisationsCurve { tag, curves }))
}

/// One surface parametrisation: tag line, a node- and triangle-count line,
/// then the samples and the triangles.
pub open spec fn sp_param_surface(s: Seq<u8>, i: int) -> Step<ParametrisationsSurfaceV> {
    match sp_i32(s, i) {
        Step::Hit { next: j1, val: tag } => match sp_newline(s, j1) {
            Step::Hit { next: j2, .. } => match sp_u64(s, j2) {
                Step::Hit { next: j3, val: nn } => match sp_space1(s, j3) {
                    Step::Hit { next: j4, .. } => match sp_u64(s, j4) {
                        Step::Hit { next: j5, val: nt } => match sp_newline(s, j5) {
                            Step::Hit { next: j6, .. } => match sp_list(
                                (|q: int| sp_psnode_row(s, q)),
                                j6,
                                nn as nat,
                                Seq::empty(),
                            ) {
                                Step::Hit { next: j7, val: nodes } => match sp_list(
                                    (|q: int| sp_ptri_row(s, q)),
                                    j7,
                                    nt as nat,
                                    Seq::empty(),
                                ) {
                                    Step::Hit { next: j8, val: triangles } => Step::Hit {
                                        next: j8,
                                        val: ParametrisationsSurfaceV { tag, nodes, triangles },
                                    },
                                    st => carry(st),
                                },
                                st => carry(st),
                            },
                            st => carry(st),
                        },
                        st => carry(st),
                    },
                    st => carry(st),
                },
                st => carry(st),
            },
            st => carry(st),
        },
        st => carry(st),
    }
}

/// Decodes one surface parametrisation.
fn p_param_surface(s: &[u8], i: usize) -> (r: Result<(usize, ParametrisationsSurface), Fail>)
    requires
        i <= s@.len(),
    ensures
        agrees(
            s@.len() as int,
            i as int,
            r,
            sp_param_surface(s@, i as int),
            (|v: ParametrisationsSurface| v@),
        ),
{
    let (j1, tag) = p_i32(s, i)?;
    let (j2, _) = p_newline(s, j1)?;
    let (j3, nn) = p_u64(s, j2)?;
    let (j4, _) = p_space1(s, j3)?;
    let (j5, nt) = p_u64(s, j4)?;
    let (j6, _) = p_newline(s, j5)?;
    let (j7, nodes) = p_psnode_rows(s, j6, nn)?;
    let (j8, triangles) = p_ptri_rows(s, j7, nt)?;
    Ok((j8, ParametrisationsSurface { tag, nodes, triangles }))
}

/// Decodes the curve parametrisations.
fn p_param_curves(s: &[u8], i: usize, n: u64) -> (r: Result<(usize, Vec<ParametrisationsCurve>), Fail>)
    requires
        i <= s@.len(),
    ensures
        agrees(
            s@.len() as int,
            i as int,
            r,
            sp_list((|j: int| sp_param_curve(s@, j)), i as int, n as nat, Seq::empty()),
            (|v: Vec<ParametrisationsCurve>| v@.map_values((|e: ParametrisationsCurve| e@))),
        ),
        (match r {
            Result::Ok((_, v)) => v@.len() == n,
            Result::Err(_) => true,
        }),
{
    let ghost f = (|j: int| sp_param_curve(s@, j));
    let mut out: Vec<ParametrisationsCurve> = Vec::new();
    let mut cur: usize = i;
    let mut k: u64 = 0;
    proof {
        assert(out@.map_values(|e: ParametrisationsCurve| e@) =~= Seq::empty());
    }
    while k < n
        invariant
            i <= cur <= s@.len(),
            k <= n,
            out@.len() == k,
            f == (|j: int| sp_param_curve(s@, j)),
            sp_list(f, i as int, n as nat, Seq::empty()) == sp_list(
                f,
                cur as int,
                (n - k) as nat,
                out@.map_values(|e: ParametrisationsCurve| e@),
            ),
        decreases n - k,
    {
        match p_param_curve(s, cur) {
            Ok((j, e)) => {
                proof {
                    assert(f(cur as int) == sp_param_curve(s@, cur as int));
                    assert((out@.push(e)).map_values(|e: ParametrisationsCurve| e@) =~= out@.map_values(
                        |e: ParametrisationsCurve| e@,
                    ).push(e@));
                }
                out.push(e);
                cur = j;
                k = k + 1;
            },
            Err(er) => {
                proof {
                    assert(f(cur as int) == sp_param_curve(s@, cur as int));
                }
                return Err(er);
            },
        }
    }
    Ok((cur, out))
}

/// Decodes the surface parametrisations.
fn p_param_surfaces(s: &[u8], i: usize, n: u64) -> (r: Result<(usize, Vec<ParametrisationsSurface>), Fail>)
    requires
        i <= s@.len(),
    ensures
        agrees(
            s@.len() as int,
            i as int,
            r,
            sp_list((|j: int| sp_param_surface(s@, j)), i as int, n as nat, Seq::empty()),
            (|v: Vec<ParametrisationsSurface>| v@.map_values((|e: ParametrisationsSurface| e@))),
        ),
        (match r {
            Result::Ok((_, v)) => v@.len() == n,
            Result::Err(_) => true,
        }),
{
    let ghost f = (|j: int| sp_param_surface(s@, j));
    let mut out: Vec<ParametrisationsSurface> = Vec::new();
    let mut cur: usize = i;
    let mut k: u64 = 0;
    proof {
        assert(out@.map_values(|e: ParametrisationsSurface| e@) =~= Seq::empty());
    }
    while k < n
        invariant
            i <= cur <= s@.len(),
            k <= n,
            out@.len() == k,
            f == (|j: int| sp_param_surface(s@, j)),
            sp_list(f, i as int, n as nat, Seq::empty()) == sp_list(
                f,
                cur as int,
                (n - k) as nat,
                out@.map_values(|e: ParametrisationsSurface| e@),
            ),
        decreases n - k,
    {
        match p_param_surface(s, cur) {
            Ok((j, e)) => {
                proof {
                    assert(f(cur as int) == sp_param_surface(s@, cur as int));
                    assert((out@.push(e)).map_values(|e: ParametrisationsSurface| e@) =~= out@.map_values(
                        |e: ParametrisationsSurface| e@,
                    ).push(e@));
                }
                out.push(e);
                cur = j;
                k = k + 1;
            },
            Err(er) => {
                proof {
                    assert(f(cur as int) == sp_param_surface(s@, cur as int));
                }
                return Err(er);
            },
        }
    }
    Ok((cur, out))
}

/// The body of the `$Parametrizations` section: the two counts, then the
/// curve and surface parametrisations.
pub open spec fn sp_parametrisations_body(s: Seq<u8>, i: int) -> Step<ParametrisationsV> {
    match sp_u64(s, i) {
        Step::Hit { next: j1, val: nc } => match sp_space1(s, j1) {
            Step::Hit { next: j2, .. } => match sp_u64(s, j2) {
                Step::Hit { next: j3, val: ns } => match sp_newline(s, j3) {
                    Step::Hit { next: j4, .. } => match sp_list(
                        (|q: int| sp_param_curve(s, q)),
                        j4,
                        nc as nat,
                        Seq::empty(),
                    ) {
                        Step::Hit { next: j5, val: curves } => match sp_list(
                            (|q: int| sp_param_surface(s, q)),
                            j5,
                            ns as nat,
                            Seq::empty(),
                        ) {
                            Step::Hit { next: j6, val: surfaces } => Step::Hit {
                                next: j6,
                                val: ParametrisationsV { curves, surfaces },
                            },
                            st => carry(st),
                        },
                        st => carry(st),
                    },
                    st => carry(st),
                },
                st => carry(st),
            },
            st => carry(st),
        },
        st => carry(st),
    }
}

/// Decodes the body of the `$Parametrizations` section.
pub(crate) fn p_parametrisations_body(s: &[u8], i: usize) -> (r: Result<
    (usize, Parametrisations),
    Fail,
>)
    requires
        i <= s@.len(),
    ensures
        agrees(
            s@.len() as int,
            i as int,
            r,
            sp_parametrisations_body(s@, i as int),
            (|v: Parametrisations| v@),
        ),
{
    let (j1, nc) = p_u64(s, i)?;
    let (j2, _) = p_space1(s, j1)?;
    let (j3, ns) = p_u64(s, j2)?;
    let (j4, _) = p_newline(s, j3)?;
    let (j5, curves) = p_param_curves(s, j4, nc)?;
    let (j6, surfaces) = p_param_surfaces(s, j5, ns)?;
    Ok((j6, Parametrisations { curves, surfaces }))
}

/// One periodic link: the linked entity line, the affine coefficient line,
/// the pair-count line and the pairs.
pub open spec fn sp_periodic_link(s: Seq<u8>, i: int) -> Step<PeriodicLinkV> {
    match sp_i32(s, i) {
        Step::Hit { next: j1, val: dim } => match sp_space1(s, j1) {
            Step::Hit { next: j2, .. } => match sp_i32(s, j2) {
                Step::Hit { next: j3, val: tag } => match sp_space1(s, j3) {
                    Step::Hit { next: j4, .. } => match sp_i32(s, j4) {
                        Step::Hit { next: j5, val: master } => match sp_newline(s, j5) {
                            Step::Hit { next: j6, .. } => match sp_u64(s, j6) {
                                Step::Hit { next: j7, val: na } => match sp_list(
                                    (|q: int| sp_sp1_coord(s, q)),
                                    j7,
                                    na as nat,
                                    Seq::empty(),
                                ) {
                                    Step::Hit { next: j8, val: affine } => match sp_newline(
                                        s,
                                        j8,
                                    ) {
                                        Step::Hit { next: j9, .. } => match sp_u64(s, j9) {
                                            Step::Hit { next: j10, val: npairs } => match sp_newline(
                                                s,
                                                j10,
                                            ) {
                                                Step::Hit { next: j11, .. } => match sp_list(
                                                    (|q: int| sp_plink_node_row(s, q)),
                                                    j11,
                                                    npairs as nat,
                                                    Seq::empty(),
                                                ) {
                                                    Step::Hit {
                                                        next: j12,
                                                        val: corresponding,
                                                    } => Step::Hit {
                                                        next: j12,
                                                        val: PeriodicLinkV {
                                                            dim,
                                                            tag,
                                                            master,
                                                            affine,
                                                            corresponding,
                                                        },
                                                    },
                                                    st => carry(st),
                                                },
                                                st => carry(st),
                                            },
                                            st => carry(st),
                                        },
                                        st => carry(st),
                                    },
                                    st => carry(st),
                                },
                                st => carry(st),
                            },
                            st => carry(st),
                        },
                        st => carry(st),
                    },
                    st => carry(st),
                },
                st => carry(st),
            },
            st => carry(st),
        },
        st => carry(st),
    }
}

/// Decodes one periodic link.
fn p_periodic_link(s: &[u8], i: usize) -> (r: Result<(usize, PeriodicLink), Fail>)
    requires
        i <= s@.len(),
    ensures
        agrees(
            s@.len() as int,
            i as int,
            r,
            sp_periodic_link(s@, i as int),
            (|v: PeriodicLink| v@),
        ),
{
    let (j1, dim) = p_i32(s, i)?;
    let (j2, _) = p_space1(s, j1)?;
    let (j3, tag) = p_i32(s, j2)?;
    let (j4, _) = p_space1(s, j3)?;
    let (j5, master) = p_i32(s, j4)?;
    let (j6, _) = p_newline(s, j5)?;
    let (j7, na) = p_u64(s, j6)?;
    let (j8, affine) = p_affine_items(s, j7, na)?;
    let (j9, _) = p_newline(s, j8)?;
    let (j10, npairs) = p_u64(s, j9)?;
    let (j11, _) = p_newline(s, j10)?;
    let (j12, corresponding) = p_plink_node_rows(s, j11, npairs)?;
    Ok((j12, PeriodicLink { dim, tag, master, affine, corresponding }))
}

/// Decodes the periodic links.
fn p_periodic_links(s: &[u8], i: usize, n: u64) -> (r: Result<(usize, Vec<PeriodicLink>), Fail>)
    requires
        i <= s@.len(),
    ensures
        agrees(
            s@.len() as int,
            i as int,
            r,
            sp_list((|j: int| sp_periodic_link(s@, j)), i as int, n as nat, Seq::empty()),
            (|v: Vec<PeriodicLink>| v@.map_values((|e: PeriodicLink| e@))),
        ),
        (match r {
            Result::Ok((_, v)) => v@.len() == n,
            Result::Err(_) => true,
        }),
{
    let ghost f = (|j: int| sp_periodic_link(s@, j));
    let mut out: Vec<PeriodicLink> = Vec::new();
    let mut cur: usize = i;
    let mut k: u64 = 0;
    proof {
        assert(out@.map_values(|e: PeriodicLink| e@) =~= Seq::empty());
    }
    while k < n
        invariant
            i <= cur <= s@.len(),
            k <= n,
            out@.len() == k,
            f == (|j: int| sp_periodic_link(s@, j)),
            sp_list(f, i as int, n as nat, Seq::empty()) == sp_list(
                f,
                cur as int,
                (n - k) as nat,
                out@.map_values(|e: PeriodicLink| e@),
            ),
        decreases n - k,
    {
        match p_periodic_link(s, cur) {
            Ok((j, e)) => {
                proof {
                    assert(f(cur as int) == sp_periodic_link(s@, cur as int));
                    assert((out@.push(e)).map_values(|e: PeriodicLink| e@) =~= out@.map_values(
                        |e: PeriodicLink| e@,
                    ).push(e@));
                }
                out.push(e);
                cur = j;
                k = k + 1;
            },
            Err(er) => {
                proof {
                    assert(f(cur as int) == sp_periodic_link(s@, cur as int));
                }
                return Err(er);
            },
        }
    }
    Ok((cur, out))
}

/// The body of the `$Periodic` section: a link-count line and that many
/// links.
pub open spec fn sp_periodic_body(s: Seq<u8>, i: int) -> Step<PeriodicV> {
    match sp_u64(s, i) {
        Step::Hit { next: j1, val: n } => match sp_newline(s, j1) {
            Step::Hit { next: j2, .. } => match sp_list(
                (|q: int| sp_periodic_link(s, q)),
                j2,
                n as nat,
                Seq::empty(),
            ) {
                Step::Hit { next: j3, val: links } => Step::Hit {
                    next: j3,
                    val: PeriodicV { links },
                },
                st => carry(st),
            },
            st => carry(st),
        },
        st => carry(st),
    }
}

/// Decodes the body of the `$Periodic` section.
pub(crate) fn p_periodic_body(s: &[u8], i: usize) -> (r: Result<(usize, Periodic), Fail>)
    requires
        i <= s@.len(),
    ensures
        agrees(
            s@.len() as int,
            i as int,
            r,
            sp_periodic_body(s@, i as int),
            (|v: Periodic| v@),
        ),
{
    let (j1, n) = p_u64(s, i)?;
    let (j2, _) = p_newline(s, j1)?;
    let (j3, links) = p_periodic_links(s, j2, n)?;
    Ok((j3, Periodic { links }))
}

} // verus!
