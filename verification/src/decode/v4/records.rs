//! Record-level decoders of the 4.1 grammar: native-integer tag lists,
//! coordinate literals, node positions with their conditional parametric
//! fields, and the per-record shapes of the optional sections.

use vstd::prelude::*;

use crate::decode::v4::{
    EntityCurve, EntityCurveV, EntityGhost, EntityPoint, EntityPointV, EntitySurface,
    EntitySurfaceV, EntityVolume, EntityVolumeV, ParametrisationsCurveNode,
    ParametrisationsCurveNodeV, ParametrisationsSurfaceNode, ParametrisationsSurfaceNodeV,
    ParametrisationsSurfaceTriangle, PartitionedEntityCurve, PartitionedEntityCurveV,
    PartitionedEntityPoint, PartitionedEntityPointV, PartitionedEntitySurface,
    PartitionedEntitySurfaceV, PartitionedEntityVolume, PartitionedEntityVolumeV, PeriodicLinkNode,
    PhysicalName, PhysicalNameV, Position, PositionV,
};
use crate::marker::{lit_quote, mk_quote};
use crate::step::{agrees, carry, sp_list, Fail, Step};
use crate::token::{
    copy_range, find_lit, p_float, p_i32, p_lit, p_newline, p_space1, p_u64, skip_space, sp_find,
    sp_float, sp_i32, sp_lit, sp_newline, sp_skip_space, sp_space1, sp_u64,
};

verus! {

/// A blank run followed by a native signed integer.
pub open spec fn sp_sp1_i32(s: Seq<u8>, i: int) -> Step<i32> {
    match sp_space1(s, i) {
        Step::Hit { next: j, .. } => sp_i32(s, j),
        st => carry(st),
    }
}

/// Decodes a blank run followed by a native signed integer.
pub(crate) fn p_sp1_i32(s: &[u8], i: usize) -> (r: Result<(usize, i32), Fail>)
    requires
        i <= s@.len(),
    ensures
        agrees(s@.len() as int, i as int, r, sp_sp1_i32(s@, i as int), (|v: i32| v)),
{
    let (j, _) = p_space1(s, i)?;
    p_i32(s, j)
}

/// A tag list: a native count, then that many blank-prefixed tags.
pub open spec fn sp_tag_list(s: Seq<u8>, i: int) -> Step<Seq<i32>> {
    match sp_u64(s, i) {
        Step::Hit { next: j, val: n } => sp_list(
            (|q: int| sp_sp1_i32(s, q)),
            j,
            n as nat,
            Seq::empty(),
        ),
        st => carry(st),
    }
}

/// A coordinate field: a decimal literal kept as its text.
pub open spec fn sp_coord(s: Seq<u8>, i: int) -> Step<Seq<u8>> {
    match sp_float(s, i) {
        Step::Hit { next, .. } => Step::Hit { next, val: s.subrange(i, next) },
        st => carry(st),
    }
}

/// Decodes a coordinate field.
pub(crate) fn p_coord(s: &[u8], i: usize) -> (r: Result<(usize, Vec<u8>), Fail>)
    requires
        i <= s@.len(),
    ensures
        agrees(s@.len() as int, i as int, r, sp_coord(s@, i as int), (|v: Vec<u8>| v@)),
{
    let (j, _) = p_float(s, i)?;
    let v = copy_range(s, i, j);
    Ok((j, v))
}

/// A blank run followed by a coordinate field.
pub open spec fn sp_sp1_coord(s: Seq<u8>, i: int) -> Step<Seq<u8>> {
    match sp_space1(s, i) {
        Step::Hit { next: j, .. } => sp_coord(s, j),
        st => carry(st),
    }
}

/// Decodes a blank run followed by a coordinate field.
pub(crate) fn p_sp1_coord(s: &[u8], i: usize) -> (r: Result<(usize, Vec<u8>), Fail>)
    requires
        i <= s@.len(),
    ensures
        agrees(s@.len() as int, i as int, r, sp_sp1_coord(s@, i as int), (|v: Vec<u8>| v@)),
{
    let (j, _) = p_space1(s, i)?;
    p_coord(s, j)
}

/// A parametric coordinate that is present exactly when `cond` holds; when
/// absent, nothing at all is read.
pub open spec fn sp_opt_coord(s: Seq<u8>, i: int, cond: bool) -> Step<Option<Seq<u8>>> {
    if !cond {
        Step::Hit { next: i, val: Option::None }
    } else {
        match sp_sp1_coord(s, i) {
            Step::Hit { next, val } => Step::Hit { next, val: Option::Some(val) },
            st => carry(st),
        }
    }
}

/// Decodes a conditional parametric coordinate.
pub(crate) fn p_opt_coord(s: &[u8], i: usize, cond: bool) -> (r: Result<(usize, Option<Vec<u8>>), Fail>)
    requires
        i <= s@.len(),
    ensures
        agrees(
            s@.len() as int,
            i as int,
            r,
            sp_opt_coord(s@, i as int, cond),
            (|v: Option<Vec<u8>>| match v {
                Option::Some(b) => Option::Some(b@),
                Option::None => Option::<Seq<u8>>::None,
            }),
        ),
{
    if !cond {
        Ok((i, None))
    } else {
        let (j, b) = p_sp1_coord(s, i)?;
        Ok((j, Some(b)))
    }
}

/// A node-tag line: a native tag and a newline.
pub open spec fn sp_i32_nl(s: Seq<u8>, i: int) -> Step<i32> {
    match sp_i32(s, i) {
        Step::Hit { next: j, val } => match sp_newline(s, j) {
            Step::Hit { next: k, .. } => Step::Hit { next: k, val },
            st => carry(st),
        },
        st => carry(st),
    }
}

/// Decodes a node-tag line.
pub(crate) fn p_i32_nl(s: &[u8], i: usize) -> (r: Result<(usize, i32), Fail>)
    requires
        i <= s@.len(),
    ensures
        agrees(s@.len() as int, i as int, r, sp_i32_nl(s@, i as int), (|v: i32| v)),
{
    let (j, v) = p_i32(s, i)?;
    let (k, _) = p_newline(s, j)?;
    Ok((k, v))
}

/// One position record: three coordinates, then a parametric coordinate for
/// each of the thresholds the block's parametric flag and dimension meet
/// (u when the dimension is at least one, v at least two, w exactly three),
/// then a newline. With the parametric flag unset nothing beyond the three
/// coordinates is read, whatever the dimension.
pub open spec fn sp_position(s: Seq<u8>, i: int, par: bool, dim: i32) -> Step<PositionV> {
    match sp_coord(s, i) {
        Step::Hit { next: j1, val: x } => match sp_space1(s, j1) {
            Step::Hit { next: j2, .. } => match sp_coord(s, j2) {
                Step::Hit { next: j3, val: y } => match sp_space1(s, j3) {
                    Step::Hit { next: j4, .. } => match sp_coord(s, j4) {
                        Step::Hit { next: j5, val: z } => match sp_opt_coord(
                            s,
                            j5,
                            par && dim >= 1,
                        ) {
                            Step::Hit { next: j6, val: u } => match sp_opt_coord(
                                s,
                                j6,
                                par && dim >= 2,
                            ) {
                                Step::Hit { next: j7, val: v } => match sp_opt_coord(
                                    s,
                                    j7,
                                    par && dim == 3,
                                ) {
                                    Step::Hit { next: j8, val: w } => match sp_newline(s, j8) {
                                        Step::Hit { next: j9, .. } => Step::Hit {
                                            next: j9,
                                            val: PositionV { x, y, z, u, v, w },
                                        },
                                        st => carry(st),
                                    },
                                    st => carry(st),
                                },
                                st => carry(st),
                            },
                            st => carry(st),
                        },
                        st => carry(st),
                    },
                    st => carry(st),
                },
                st => carry(st),
            },
            st => carry(st),
        },
        st => carry(st),
    }
}

/// Decodes one position record.
pub(crate) fn p_position(s: &[u8], i: usize, par: bool, dim: i32) -> (r: Result<(usize, Position), Fail>)
    requires
        i <= s@.len(),
    ensures
        agrees(
            s@.len() as int,
            i as int,
            r,
            sp_position(s@, i as int, par, dim),
            (|p: Position| p@),
        ),
{
    let (j1, x) = p_coord(s, i)?;
    let (j2, _) = p_space1(s, j1)?;
    let (j3, y) = p_coord(s, j2)?;
    let (j4, _) = p_space1(s, j3)?;
    let (j5, z) = p_coord(s, j4)?;
    let (j6, u) = p_opt_coord(s, j5, par && dim >= 1)?;
    let (j7, v) = p_opt_coord(s, j6, par && dim >= 2)?;
    let (j8, w) = p_opt_coord(s, j7, par && dim == 3)?;
    let (j9, _) = p_newline(s, j8)?;
    Ok((j9, Position { x, y, z, u, v, w }))
}

/// A ghost-entity line: tag, blanks, owning partition, newline.
pub open spec fn sp_ghost_row(s: Seq<u8>, i: int) -> Step<EntityGhost> {
    match sp_i32(s, i) {
        Step::Hit { next: j1, val: tag } => match sp_space1(s, j1) {
            Step::Hit { next: j2, .. } => match sp_i32(s, j2) {
                Step::Hit { next: j3, val: partition } => match sp_newline(s, j3) {
                    Step::Hit { next: j4, .. } => Step::Hit {
                        next: j4,
                        val: EntityGhost { tag, partition },
                    },
                    st => carry(st),
                },
                st => carry(st),
            },
            st => carry(st),
        },
        st => carry(st),
    }
}

/// Decodes a ghost-entity line.
pub(crate) fn p_ghost_row(s: &[u8], i: usize) -> (r: Result<(usize, EntityGhost), Fail>)
    requires
        i <= s@.len(),
    ensures
        agrees(s@.len() as int, i as int, r, sp_ghost_row(s@, i as int), (|v: EntityGhost| v)),
{
    let (j1, tag) = p_i32(s, i)?;
    let (j2, _) = p_space1(s, j1)?;
    let (j3, partition) = p_i32(s, j2)?;
    let (j4, _) = p_newline(s, j3)?;
    Ok((j4, EntityGhost { tag, partition }))
}

/// A physical-name line: dimension, tag, then a double-quoted name (any
/// bytes up to the next quote), and a newline.
pub open spec fn sp_physical_row(s: Seq<u8>, i: int) -> Step<PhysicalNameV> {
    match sp_i32(s, i) {
        Step::Hit { next: j1, val: dimension } => match sp_space1(s, j1) {
            Step::Hit { next: j2, .. } => match sp_i32(s, j2) {
                Step::Hit { next: j3, val: tag } => match sp_space1(s, j3) {
                    Step::Hit { next: j4, .. } => match sp_lit(s, j4, mk_quote()) {
                        Step::Hit { next: j5, .. } => match sp_find(s, j5, mk_quote()) {
                            Option::Some(q) => match sp_newline(s, q + 1) {
                                Step::Hit { next: j6, .. } => Step::Hit {
                                    next: j6,
                                    val: PhysicalNameV {
                                        dimension,
                                        tag,
                                        name: s.subrange(j5, q),
                                    },
                                },
                                st => carry(st),
                            },
                            Option::None => Step::Miss { at: j5 },
                        },
                        st => carry(st),
                    },
                    st => carry(st),
                },
                st => carry(st),
            },
            st => carry(st),
        },
        st => carry(st),
    }
}

/// Decodes a physical-name line.
pub(crate) fn p_physical_row(s: &[u8], i: usize) -> (r: Result<(usize, PhysicalName), Fail>)
    requires
        i <= s@.len(),
    ensures
        agrees(
            s@.len() as int,
            i as int,
            r,
            sp_physical_row(s@, i as int),
            (|v: PhysicalName| v@),
        ),
{
    let (j1, dimension) = p_i32(s, i)?;
    let (j2, _) = p_space1(s, j1)?;
    let (j3, tag) = p_i32(s, j2)?;
    let (j4, _) = p_space1(s, j3)?;
    let quote = lit_quote();
    let (j5, _) = p_lit(s, j4, quote.as_slice())?;
    proof {
        assert(mk_quote().len() == 1);
    }
    match find_lit(s, j5, quote.as_slice()) {
        Some(q) => {
            let total = s.len();
            proof {
                assert(q + 1 <= total);
            }
            let name = copy_range(s, j5, q);
            let (j6, _) = p_newline(s, q + 1)?;
            Ok((j6, PhysicalName { dimension, tag, name }))
        },
        None => Err(Fail::miss(j5)),
    }
}

/// Decodes the blank-prefixed tags of a tag list.
pub(crate) fn p_tag_items(s: &[u8], i: usize, n: u64) -> (r: Result<(usize, Vec<i32>), Fail>)
    requires
        i <= s@.len(),
    ensures
        agrees(
            s@.len() as int,
            i as int,
            r,
            sp_list((|j: int| sp_sp1_i32(s@, j)), i as int, n as nat, Seq::empty()),
            (|v: Vec<i32>| v@),
        ),
        (match r {
            Result::Ok((_, v)) => v@.len() == n,
            Result::Err(_) => true,
        }),
{
    let ghost f = (|j: int| sp_sp1_i32(s@, j));
    let mut out: Vec<i32> = Vec::new();
    let mut cur: usize = i;
    let mut k: u64 = 0;
    while k < n
        invariant
            i <= cur <= s@.len(),
            k <= n,
            out@.len() == k,
            f == (|j: int| sp_sp1_i32(s@, j)),
            sp_list(f, i as int, n as nat, Seq::empty()) == sp_list(
                f,
                cur as int,
                (n - k) as nat,
                out@,
            ),
        decreases n - k,
    {
        match p_sp1_i32(s, cur) {
            Ok((j, e)) => {
                proof {
                    assert(f(cur as int) == sp_sp1_i32(s@, cur as int));
                }
                out.push(e);
                cur = j;
                k = k + 1;
            },
            Err(er) => {
                proof {
                    assert(f(cur as int) == sp_sp1_i32(s@, cur as int));
                }
                return Err(er);
            },
        }
    }
    Ok((cur, out))
}

/// Decodes a tag list.
pub(crate) fn p_tag_list(s: &[u8], i: usize) -> (r: Result<(usize, Vec<i32>), Fail>)
    requires
        i <= s@.len(),
    ensures
        agrees(s@.len() as int, i as int, r, sp_tag_list(s@, i as int), (|v: Vec<i32>| v@)),
{
    let (j, n) = p_u64(s, i)?;
    p_tag_items(s, j, n)
}

/// A point record of `$Entities`, ending in optional blanks and a newline.
pub open spec fn sp_point_row(s: Seq<u8>, i: int) -> Step<EntityPointV> {
    match sp_i32(s, i) {
        Step::Hit { next: j1, val: tag } => match sp_sp1_coord(s, j1) {
            Step::Hit { next: j2, val: x } => match sp_sp1_coord(s, j2) {
                Step::Hit { next: j3, val: y } => match sp_sp1_coord(s, j3) {
                    Step::Hit { next: j4, val: z } => match sp_space1(s, j4) {
                        Step::Hit { next: j5, .. } => match sp_tag_list(s, j5) {
                            Step::Hit { next: j6, val: physical_tags } => {
                                let j7 = sp_skip_space(s, j6);
                                match sp_newline(s, j7) {
                                    Step::Hit { next: j8, .. } => Step::Hit {
                                        next: j8,
                                        val: EntityPointV { tag, x, y, z, physical_tags },
                                    },
                                    st => carry(st),
                                }
                            },
                            st => carry(st),
                        },
                        st => carry(st),
                    },
                    st => carry(st),
                },
                st => carry(st),
            },
            st => carry(st),
        },
        st => carry(st),
    }
}

/// Decodes a point record.
pub(crate) fn p_point_row(s: &[u8], i: usize) -> (r: Result<(usize, EntityPoint), Fail>)
    requires
        i <= s@.len(),
    ensures
        agrees(s@.len() as int, i as int, r, sp_point_row(s@, i as int), (|v: EntityPoint| v@)),
{
    let (j1, tag) = p_i32(s, i)?;
    let (j2, x) = p_sp1_coord(s, j1)?;
    let (j3, y) = p_sp1_coord(s, j2)?;
    let (j4, z) = p_sp1_coord(s, j3)?;
    let (j5, _) = p_space1(s, j4)?;
    let (j6, physical_tags) = p_tag_list(s, j5)?;
    let j7 = skip_space(s, j6);
    let (j8, _) = p_newline(s, j7)?;
    Ok((j8, EntityPoint { tag, x, y, z, physical_tags }))
}

/// A curve record of `$Entities`: bounding box, physical tags, bounding points.
pub open spec fn sp_curve_row(s: Seq<u8>, i: int) -> Step<EntityCurveV> {
    match sp_i32(s, i) {
        Step::Hit { next: j1, val: tag } => match sp_sp1_coord(s, j1) {
            Step::Hit { next: j2, val: min_x } => match sp_sp1_coord(s, j2) {
                Step::Hit { next: j3, val: min_y } => match sp_sp1_coord(s, j3) {
                    Step::Hit { next: j4, val: min_z } => match sp_sp1_coord(s, j4) {
                        Step::Hit { next: j5, val: max_x } => match sp_sp1_coord(s, j5) {
                            Step::Hit { next: j6, val: max_y } => match sp_sp1_coord(s, j6) {
                                Step::Hit { next: j7, val: max_z } => match sp_space1(s, j7) {
                                    Step::Hit { next: j8, .. } => match sp_tag_list(s, j8) {
                                        Step::Hit { next: j9, val: physical_tags } => match sp_space1(
                                            s,
                                            j9,
                                        ) {
                                            Step::Hit { next: j10, .. } => match sp_tag_list(
                                                s,
                                                j10,
                                            ) {
                                                Step::Hit { next: j11, val: bounds } => {
                                                    let j12 = sp_skip_space(s, j11);
                                                    match sp_newline(s, j12) {
                                                        Step::Hit { next: j13, .. } => Step::Hit {
                                                            next: j13,
                                                            val: EntityCurveV {
                                                                tag,
                                                                min_x,
                                                                min_y,
                                                                min_z,
                                                                max_x,
                                                                max_y,
                                                                max_z,
                                                                physical_tags,
                                                                bounding_points: bounds,
                                                            },
                                                        },
                                                        st => carry(st),
                                                    }
                                                },
                                                st => carry(st),
                                            },
                                            st => carry(st),
                                        },
                                        st => carry(st),
                                    },
                                    st => carry(st),
                                },
                                st => carry(st),
                            },
                            st => carry(st),
                        },
                        st => carry(st),
                    },
                    st => carry(st),
                },
                st => carry(st),
            },
            st => carry(st),
        },
        st => carry(st),
    }
}

/// Decodes a curve record.
pub(crate) fn p_curve_row(s: &[u8], i: usize) -> (r: Result<(usize, EntityCurve), Fail>)
    requires
        i <= s@.len(),
    ensures
        agrees(s@.len() as int, i as int, r, sp_curve_row(s@, i as int), (|v: EntityCurve| v@)),
{
    let (j1, tag) = p_i32(s, i)?;
    let (j2, min_x) = p_sp1_coord(s, j1)?;
    let (j3, min_y) = p_sp1_coord(s, j2)?;
    let (j4, min_z) = p_sp1_coord(s, j3)?;
    let (j5, max_x) = p_sp1_coord(s, j4)?;
    let (j6, max_y) = p_sp1_coord(s, j5)?;
    let (j7, max_z) = p_sp1_coord(s, j6)?;
    let (j8, _) = p_space1(s, j7)?;
    let (j9, physical_tags) = p_tag_list(s, j8)?;
    let (j10, _) = p_space1(s, j9)?;
    let (j11, bounds) = p_tag_list(s, j10)?;
    let j12 = skip_space(s, j11);
    let (j13, _) = p_newline(s, j12)?;
    Ok((
        j13,
        EntityCurve {
            tag,
            min_x,
            min_y,
            min_z,
            max_x,
            max_y,
            max_z,
            physical_tags,
            bounding_points: bounds,
        },
    ))
}

/// A surface record of `$Entities`: bounding box, physical tags, bounding curves.
pub open spec fn sp_surface_row(s: Seq<u8>, i: int) -> Step<EntitySurfaceV> {
    match sp_i32(s, i) {
        Step::Hit { next: j1, val: tag } => match sp_sp1_coord(s, j1) {
            Step::Hit { next: j2, val: min_x } => match sp_sp1_coord(s, j2) {
                Step::Hit { next: j3, val: min_y } => match sp_sp1_coord(s, j3) {
                    Step::Hit { next: j4, val: min_z } => match sp_sp1_coord(s, j4) {
                        Step::Hit { next: j5, val: max_x } => match sp_sp1_coord(s, j5) {
                            Step::Hit { next: j6, val: max_y } => match sp_sp1_coord(s, j6) {
                                Step::Hit { next: j7, val: max_z } => match sp_space1(s, j7) {
                                    Step::Hit { next: j8, .. } => match sp_tag_list(s, j8) {
                                        Step::Hit { next: j9, val: physical_tags } => match sp_space1(
                                            s,
                                            j9,
                                        ) {
                                            Step::Hit { next: j10, .. } => match sp_tag_list(
                                                s,
                                                j10,
                                            ) {
                                                Step::Hit { next: j11, val: bounds } => {
                                                    let j12 = sp_skip_space(s, j11);
                                                    match sp_newline(s, j12) {
                                                        Step::Hit { next: j13, .. } => Step::Hit {
                                                            next: j13,
                                                            val: EntitySurfaceV {
                                                                tag,
                                                                min_x,
                                                                min_y,
                                                                min_z,
                                                                max_x,
                                                                max_y,
                                                                max_z,
                                                                physical_tags,
                                                                bounding_curves: bounds,
                                                            },
                                                        },
                                                        st => carry(st),
                                                    }
                                                },
                                                st => carry(st),
                                            },
                                            st => carry(st),
                                        },
                                        st => carry(st),
                                    },
                                    st => carry(st),
                                },
                                st => carry(st),
                            },
                            st => carry(st),
                        },
                        st => carry(st),
                    },
                    st => carry(st),
                },
                st => carry(st),
            },
            st => carry(st),
        },
        st => carry(st),
    }
}

/// Decodes a surface record.
pub(crate) fn p_surface_row(s: &[u8], i: usize) -> (r: Result<(usize, EntitySurface), Fail>)
    requires
        i <= s@.len(),
    ensures
        agrees(s@.len() as int, i as int, r, sp_surface_row(s@, i as int), (|v: EntitySurface| v@)),
{
    let (j1, tag) = p_i32(s, i)?;
    let (j2, min_x) = p_sp1_coord(s, j1)?;
    let (j3, min_y) = p_sp1_coord(s, j2)?;
    let (j4, min_z) = p_sp1_coord(s, j3)?;
    let (j5, max_x) = p_sp1_coord(s, j4)?;
    let (j6, max_y) = p_sp1_coord(s, j5)?;
    let (j7, max_z) = p_sp1_coord(s, j6)?;
    let (j8, _) = p_space1(s, j7)?;
    let (j9, physical_tags) = p_tag_list(s, j8)?;
    let (j10, _) = p_space1(s, j9)?;
    let (j11, bounds) = p_tag_list(s, j10)?;
    let j12 = skip_space(s, j11);
    let (j13, _) = p_newline(s, j12)?;
    Ok((
        j13,
        EntitySurface {
            tag,
            min_x,
            min_y,
            min_z,
            max_x,
            max_y,
            max_z,
            physical_tags,
            bounding_curves: bounds,
        },
    ))
}

/// A volume record of `$Entities`: bounding box, physical tags, bounding surfaces.
pub open spec fn sp_volume_row(s: Seq<u8>, i: int) -> Step<EntityVolumeV> {
    match sp_i32(s, i) {
        Step::Hit { next: j1, val: tag } => match sp_sp1_coord(s, j1) {
            Step::Hit { next: j2, val: min_x } => match sp_sp1_coord(s, j2) {
                Step::Hit { next: j3, val: min_y } => match sp_sp1_coord(s, j3) {
                    Step::Hit { next: j4, val: min_z } => match sp_sp1_coord(s, j4) {
                        Step::Hit { next: j5, val: max_x } => match sp_sp1_coord(s, j5) {
                            Step::Hit { next: j6, val: max_y } => match sp_sp1_coord(s, j6) {
                                Step::Hit { next: j7, val: max_z } => match sp_space1(s, j7) {
                                    Step::Hit { next: j8, .. } => match sp_tag_list(s, j8) {
                                        Step::Hit { next: j9, val: physical_tags } => match sp_space1(
                                            s,
                                            j9,
                                        ) {
                                            Step::Hit { next: j10, .. } => match sp_tag_list(
                                                s,
                                                j10,
                                            ) {
                                                Step::Hit { next: j11, val: bounds } => {
                                                    let j12 = sp_skip_space(s, j11);
                                                    match sp_newline(s, j12) {
                                                        Step::Hit { next: j13, .. } => Step::Hit {
                                                            next: j13,
                                                            val: EntityVolumeV {
                                                                tag,
                                                                min_x,
                                                                min_y,
                                                                min_z,
                                                                max_x,
                                                                max_y,
                                                                max_z,
                                                                physical_tags,
                                                                bounding_surfaces: bounds,
                                                            },
                                                        },
                                                        st => carry(st),
                                                    }
                                                },
                                                st => carry(st),
                                            },
                                            st => carry(st),
                                        },
                                        st => carry(st),
                                    },
                                    st => carry(st),
                                },
                                st => carry(st),
                            },
                            st => carry(st),
                        },
                        st => carry(st),
                    },
                    st => carry(st),
                },
                st => carry(st),
            },
            st => carry(st),
        },
        st => carry(st),
    }
}

/// Decodes a volume record.
pub(crate) fn p_volume_row(s: &[u8], i: usize) -> (r: Result<(usize, EntityVolume), Fail>)
    requires
        i <= s@.len(),
    ensures
        agrees(s@.len() as int, i as int, r, sp_volume_row(s@, i as int), (|v: EntityVolume| v@)),
{
    let (j1, tag) = p_i32(s, i)?;
    let (j2, min_x) = p_sp1_coord(s, j1)?;
    let (j3, min_y) = p_sp1_coord(s, j2)?;
    let (j4, min_z) = p_sp1_coord(s, j3)?;
    let (j5, max_x) = p_sp1_coord(s, j4)?;
    let (j6, max_y) = p_sp1_coord(s, j5)?;
    let (j7, max_z) = p_sp1_coord(s, j6)?;
    let (j8, _) = p_space1(s, j7)?;
    let (j9, physical_tags) = p_tag_list(s, j8)?;
    let (j10, _) = p_space1(s, j9)?;
    let (j11, bounds) = p_tag_list(s, j10)?;
    let j12 = skip_space(s, j11);
    let (j13, _) = p_newline(s, j12)?;
    Ok((
        j13,
        EntityVolume {
            tag,
            min_x,
            min_y,
            min_z,
            max_x,
            max_y,
            max_z,
            physical_tags,
            bounding_surfaces: bounds,
        },
    ))
}

/// Decodes the point records of `$Entities`.
pub(crate) fn p_point_rows(s: &[u8], i: usize, n: u64) -> (r: Result<(usize, Vec<EntityPoint>), Fail>)
    requires
        i <= s@.len(),
    ensures
        agrees(
            s@.len() as int,
            i as int,
            r,
            sp_list((|j: int| sp_point_row(s@, j)), i as int, n as nat, Seq::empty()),
            (|v: Vec<EntityPoint>| v@.map_values((|e: EntityPoint| e@))),
        ),
        (match r {
            Result::Ok((_, v)) => v@.len() == n,
            Result::Err(_) => true,
        }),
{
    let ghost f = (|j: int| sp_point_row(s@, j));
    let mut out: Vec<EntityPoint> = Vec::new();
    let mut cur: usize = i;
    let mut k: u64 = 0;
    proof {
        assert(out@.map_values(|e: EntityPoint| e@) =~= Seq::empty());
    }
    while k < n
        invariant
            i <= cur <= s@.len(),
            k <= n,
            out@.len() == k,
            f == (|j: int| sp_point_row(s@, j)),
            sp_list(f, i as int, n as nat, Seq::empty()) == sp_list(
                f,
                cur as int,
                (n - k) as nat,
                out@.map_values(|e: EntityPoint| e@),
            ),
        decreases n - k,
    {
        match p_point_row(s, cur) {
            Ok((j, e)) => {
                proof {
                    assert(f(cur as int) == sp_point_row(s@, cur as int));
                    assert((out@.push(e)).map_values(|e: EntityPoint| e@) =~= out@.map_values(
                        |e: EntityPoint| e@,
                    ).push(e@));
                }
                out.push(e);
                cur = j;
                k = k + 1;
            },
            Err(er) => {
                proof {
                    assert(f(cur as int) == sp_point_row(s@, cur as int));
                }
                return Err(er);
            },
        }
    }
    Ok((cur, out))
}

/// Decodes the curve records of `$Entities`.
pub(crate) fn p_curve_rows(s: &[u8], i: usize, n: u64) -> (r: Result<(usize, Vec<EntityCurve>), Fail>)
    requires
        i <= s@.len(),
    ensures
        agrees(
            s@.len() as int,
            i as int,
            r,
            sp_list((|j: int| sp_curve_row(s@, j)), i as int, n as nat, Seq::empty()),
            (|v: Vec<EntityCurve>| v@.map_values((|e: EntityCurve| e@))),
        ),
        (match r {
            Result::Ok((_, v)) => v@.len() == n,
            Result::Err(_) => true,
        }),
{
    let ghost f = (|j: int| sp_curve_row(s@, j));
    let mut out: Vec<EntityCurve> = Vec::new();
    let mut cur: usize = i;
    let mut k: u64 = 0;
    proof {
        assert(out@.map_values(|e: EntityCurve| e@) =~= Seq::empty());
    }
    while k < n
        invariant
            i <= cur <= s@.len(),
            k <= n,
            out@.len() == k,
            f == (|j: int| sp_curve_row(s@, j)),
            sp_list(f, i as int, n as nat, Seq::empty()) == sp_list(
                f,
                cur as int,
                (n - k) as nat,
                out@.map_values(|e: EntityCurve| e@),
            ),
        decreases n - k,
    {
        match p_curve_row(s, cur) {
            Ok((j, e)) => {
                proof {
                    assert(f(cur as int) == sp_curve_row(s@, cur as int));
                    assert((out@.push(e)).map_values(|e: EntityCurve| e@) =~= out@.map_values(
                        |e: EntityCurve| e@,
                    ).push(e@));
                }
                out.push(e);
                cur = j;
                k = k + 1;
            },
            Err(er) => {
                proof {
                    assert(f(cur as int) == sp_curve_row(s@, cur as int));
                }
                return Err(er);
            },
        }
    }
    Ok((cur, out))
}

/// Decodes the surface records of `$Entities`.
pub(crate) fn p_surface_rows(s: &[u8], i: usize, n: u64) -> (r: Result<(usize, Vec<EntitySurface>), Fail>)
    requires
        i <= s@.len(),
    ensures
        agrees(
            s@.len() as int,
            i as int,
            r,
            sp_list((|j: int| sp_surface_row(s@, j)), i as int, n as nat, Seq::empty()),
            (|v: Vec<EntitySurface>| v@.map_values((|e: EntitySurface| e@))),
        ),
        (match r {
            Result::Ok((_, v)) => v@.len() == n,
            Result::Err(_) => true,
        }),
{
    let ghost f = (|j: int| sp_surface_row(s@, j));
    let mut out: Vec<EntitySurface> = Vec::new();
    let mut cur: usize = i;
    let mut k: u64 = 0;
    proof {
        assert(out@.map_values(|e: EntitySurface| e@) =~= Seq::empty());
    }
    while k < n
        invariant
            i <= cur <= s@.len(),
            k <= n,
            out@.len() == k,
            f == (|j: int| sp_surface_row(s@, j)),
            sp_list(f, i as int, n as nat, Seq::empty()) == sp_list(
                f,
                cur as int,
                (n - k) as nat,
                out@.map_values(|e: EntitySurface| e@),
            ),
        decreases n - k,
    {
        match p_surface_row(s, cur) {
            Ok((j, e)) => {
                proof {
                    assert(f(cur as int) == sp_surface_row(s@, cur as int));
                    assert((out@.push(e)).map_values(|e: EntitySurface| e@) =~= out@.map_values(
                        |e: EntitySurface| e@,
                    ).push(e@));
                }
                out.push(e);
                cur = j;
                k = k + 1;
            },
            Err(er) => {
                proof {
                    assert(f(cur as int) == sp_surface_row(s@, cur as int));
                }
                return Err(er);
            },
        }
    }
    Ok((cur, out))
}

/// Decodes the volume records of `$Entities`.
pub(crate) fn p_volume_rows(s: &[u8], i: usize, n: u64) -> (r: Result<(usize, Vec<EntityVolume>), Fail>)
    requires
        i <= s@.len(),
    ensures
        agrees(
            s@.len() as int,
            i as int,
            r,
            sp_list((|j: int| sp_volume_row(s@, j)), i as int, n as nat, Seq::empty()),
            (|v: Vec<EntityVolume>| v@.map_values((|e: EntityVolume| e@))),
        ),
        (match r {
            Result::Ok((_, v)) => v@.len() == n,
            Result::Err(_) => true,
        }),
{
    let ghost f = (|j: int| sp_volume_row(s@, j));
    let mut out: Vec<EntityVolume> = Vec::new();
    let mut cur: usize = i;
    let mut k: u64 = 0;
    proof {
        assert(out@.map_values(|e: EntityVolume| e@) =~= Seq::empty());
    }
    while k < n
        invariant
            i <= cur <= s@.len(),
            k <= n,
            out@.len() == k,
            f == (|j: int| sp_volume_row(s@, j)),
            sp_list(f, i as int, n as nat, Seq::empty()) == sp_list(
                f,
                cur as int,
                (n - k) as nat,
                out@.map_values(|e: EntityVolume| e@),
            ),
        decreases n - k,
    {
        match p_volume_row(s, cur) {
            Ok((j, e)) => {
                proof {
                    assert(f(cur as int) == sp_volume_row(s@, cur as int));
                    assert((out@.push(e)).map_values(|e: EntityVolume| e@) =~= out@.map_values(
                        |e: EntityVolume| e@,
                    ).push(e@));
                }
                out.push(e);
                cur = j;
                k = k + 1;
            },
            Err(er) => {
                proof {
                    assert(f(cur as int) == sp_volume_row(s@, cur as int));
                }
                return Err(er);
            },
        }
    }
    Ok((cur, out))
}
/// A point record of `$PartitionedEntities`: parentage, partition tags, position, physical tags.
pub open spec fn sp_ppoint_row(s: Seq<u8>, i: int) -> Step<PartitionedEntityPointV> {
    match sp_i32(s, i) {
        Step::Hit { next: j1, val: tag } => match sp_sp1_i32(s, j1) {
            Step::Hit { next: j2, val: parent_dim } => match sp_sp1_i32(s, j2) {
                Step::Hit { next: j3, val: parent_tag } => match sp_space1(s, j3) {
                    Step::Hit { next: j4, .. } => match sp_tag_list(s, j4) {
                        Step::Hit { next: j5, val: partition_tags } => match sp_sp1_coord(s, j5) {
                            Step::Hit { next: j6, val: x } => match sp_sp1_coord(s, j6) {
                                Step::Hit { next: j7, val: y } => match sp_sp1_coord(s, j7) {
                                    Step::Hit { next: j8, val: z } => match sp_space1(s, j8) {
                                        Step::Hit { next: j9, .. } => match sp_tag_list(s, j9) {
                                            Step::Hit { next: j10, val: physical_tags } => {
                                                let j11 = sp_skip_space(s, j10);
                                                match sp_newline(s, j11) {
                                                    Step::Hit { next: j12, .. } => Step::Hit {
                                                        next: j12,
                                                        val: PartitionedEntityPointV {
                                                            tag,
                                                            parent_dim,
                                                            parent_tag,
                                                            partition_tags,
                                                            x,
                                                            y,
                                                            z,
                                                            physical_tags,
                                                        },
                                                    },
                                                    st => carry(st),
                                                }
                                            },
                                            st => carry(st),
                                        },
                                        st => carry(st),
                                    },
                                    st => carry(st),
                                },
                                st => carry(st),
                            },
                            st => carry(st),
                        },
                        st => carry(st),
                    },
                    st => carry(st),
                },
                st => carry(st),
            },
            st => carry(st),
        },
        st => carry(st),
    }
}

/// Decodes a partitioned point record.
pub(crate) fn p_ppoint_row(s: &[u8], i: usize) -> (r: Result<(usize, PartitionedEntityPoint), Fail>)
    requires
        i <= s@.len(),
    ensures
        agrees(
            s@.len() as int,
            i as int,
            r,
            sp_ppoint_row(s@, i as int),
            (|v: PartitionedEntityPoint| v@),
        ),
{
    let (j1, tag) = p_i32(s, i)?;
    let (j2, parent_dim) = p_sp1_i32(s, j1)?;
    let (j3, parent_tag) = p_sp1_i32(s, j2)?;
    let (j4, _) = p_space1(s, j3)?;
    let (j5, partition_tags) = p_tag_list(s, j4)?;
    let (j6, x) = p_sp1_coord(s, j5)?;
    let (j7, y) = p_sp1_coord(s, j6)?;
    let (j8, z) = p_sp1_coord(s, j7)?;
    let (j9, _) = p_space1(s, j8)?;
    let (j10, physical_tags) = p_tag_list(s, j9)?;
    let j11 = skip_space(s, j10);
    let (j12, _) = p_newline(s, j11)?;
    Ok((
        j12,
        PartitionedEntityPoint {
            tag,
            parent_dim,
            parent_tag,
            partition_tags,
            x,
            y,
            z,
            physical_tags,
        },
    ))
}

/// A curve record of `$PartitionedEntities`.
pub open spec fn sp_pcurve_row(s: Seq<u8>, i: int) -> Step<PartitionedEntityCurveV> {
    match sp_i32(s, i) {
        Step::Hit { next: j1, val: tag } => match sp_sp1_i32(s, j1) {
            Step::Hit { next: j2, val: parent_dim } => match sp_sp1_i32(s, j2) {
                Step::Hit { next: j3, val: parent_tag } => match sp_space1(s, j3) {
                    Step::Hit { next: j4, .. } => match sp_tag_list(s, j4) {
                        Step::Hit { next: j5, val: partition_tags } => match sp_sp1_coord(s, j5) {
                            Step::Hit { next: j6, val: min_x } => match sp_sp1_coord(s, j6) {
                                Step::Hit { next: j7, val: min_y } => match sp_sp1_coord(s, j7) {
                                    Step::Hit { next: j8, val: min_z } => match sp_sp1_coord(
                                        s,
                                        j8,
                                    ) {
                                        Step::Hit { next: j9, val: max_x } => match sp_sp1_coord(
                                            s,
                                            j9,
                                        ) {
                                            Step::Hit { next: j10, val: max_y } => match sp_sp1_coord(
                                                s,
                                                j10,
                                            ) {
                                                Step::Hit { next: j11, val: max_z } => match sp_space1(
                                                    s,
                                                    j11,
                                                ) {
                                                    Step::Hit { next: j12, .. } => match sp_tag_list(
                                                        s,
                                                        j12,
                                                    ) {
                                                        Step::Hit {
                                                            next: j13,
                                                            val: physical_tags,
                                                        } => match sp_space1(s, j13) {
                                                            Step::Hit { next: j14, .. } => match sp_tag_list(
                                                                s,
                                                                j14,
                                                            ) {
                                                                Step::Hit {
                                                                    next: j15,
                                                                    val: bounds,
                                                                } => {
                                                                    let j16 = sp_skip_space(
                                                                        s,
                                                                        j15,
                                                                    );
                                                                    match sp_newline(s, j16) {
                                                                        Step::Hit {
                                                                            next: j17,
                                                                            ..
                                                                        } => Step::Hit {
                                                                            next: j17,
                                                                            val: PartitionedEntityCurveV {
                                                                                tag,
                                                                                parent_dim,
                                                                                parent_tag,
                                                                                partition_tags,
                                                                                min_x,
                                                                                min_y,
                                                                                min_z,
                                                                                max_x,
                                                                                max_y,
                                                                                max_z,
                                                                                physical_tags,
                                                                                bounding_points: bounds,
                                                                            },
                                                                        },
                                                                        st => carry(st),
                                                                    }
                                                                },
                                                                st => carry(st),
                                                            },
                                                            st => carry(st),
                                                        },
                                                        st => carry(st),
                                                    },
                                                    st => carry(st),
                                                },
                                                st => carry(st),
                                            },
                                            st => carry(st),
                                        },
                                        st => carry(st),
                                    },
                                    st => carry(st),
                                },
                                st => carry(st),
                            },
                            st => carry(st),
                        },
                        st => carry(st),
                    },
                    st => carry(st),
                },
                st => carry(st),
            },
            st => carry(st),
        },
        st => carry(st),
    }
}

/// Decodes a partitioned curve record.
pub(crate) fn p_pcurve_row(s: &[u8], i: usize) -> (r: Result<(usize, PartitionedEntityCurve), Fail>)
    requires
        i <= s@.len(),
    ensures
        agrees(s@.len() as int, i as int, r, sp_pcurve_row(s@, i as int), (|v: PartitionedEntityCurve| v@)),
{
    let (j1, tag) = p_i32(s, i)?;
    let (j2, parent_dim) = p_sp1_i32(s, j1)?;
    let (j3, parent_tag) = p_sp1_i32(s, j2)?;
    let (j4, _) = p_space1(s, j3)?;
    let (j5, partition_tags) = p_tag_list(s, j4)?;
    let (j6, min_x) = p_sp1_coord(s, j5)?;
    let (j7, min_y) = p_sp1_coord(s, j6)?;
    let (j8, min_z) = p_sp1_coord(s, j7)?;
    let (j9, max_x) = p_sp1_coord(s, j8)?;
    let (j10, max_y) = p_sp1_coord(s, j9)?;
    let (j11, max_z) = p_sp1_coord(s, j10)?;
    let (j12, _) = p_space1(s, j11)?;
    let (j13, physical_tags) = p_tag_list(s, j12)?;
    let (j14, _) = p_space1(s, j13)?;
    let (j15, bounds) = p_tag_list(s, j14)?;
    let j16 = skip_space(s, j15);
    let (j17, _) = p_newline(s, j16)?;
    Ok((
        j17,
        PartitionedEntityCurve {
            tag,
            parent_dim,
            parent_tag,
            partition_tags,
            min_x,
            min_y,
            min_z,
            max_x,
            max_y,
            max_z,
            physical_tags,
            bounding_points: bounds,
        },
    ))
}

/// A surface record of `$PartitionedEntities`.
pub open spec fn sp_psurface_row(s: Seq<u8>, i: int) -> Step<PartitionedEntitySurfaceV> {
    match sp_i32(s, i) {
        Step::Hit { next: j1, val: tag } => match sp_sp1_i32(s, j1) {
            Step::Hit { next: j2, val: parent_dim } => match sp_sp1_i32(s, j2) {
                Step::Hit { next: j3, val: parent_tag } => match sp_space1(s, j3) {
                    Step::Hit { next: j4, .. } => match sp_tag_list(s, j4) {
                        Step::Hit { next: j5, val: partition_tags } => match sp_sp1_coord(s, j5) {
                            Step::Hit { next: j6, val: min_x } => match sp_sp1_coord(s, j6) {
                                Step::Hit { next: j7, val: min_y } => match sp_sp1_coord(s, j7) {
                                    Step::Hit { next: j8, val: min_z } => match sp_sp1_coord(
                                        s,
                                        j8,
                                    ) {
                                        Step::Hit { next: j9, val: max_x } => match sp_sp1_coord(
                                            s,
                                            j9,
                                        ) {
                                            Step::Hit { next: j10, val: max_y } => match sp_sp1_coord(
                                                s,
                                                j10,
                                            ) {
                                                Step::Hit { next: j11, val: max_z } => match sp_space1(
                                                    s,
                                                    j11,
                                                ) {
                                                    Step::Hit { next: j12, .. } => match sp_tag_list(
                                                        s,
                                                        j12,
                                                    ) {
                                                        Step::Hit {
                                                            next: j13,
                                                            val: physical_tags,
                                                        } => match sp_space1(s, j13) {
                                                            Step::Hit { next: j14, .. } => match sp_tag_list(
                                                                s,
                                                                j14,
                                                            ) {
                                                                Step::Hit {
                                                                    next: j15,
                                                                    val: bounds,
                                                                } => {
                                                                    let j16 = sp_skip_space(
                                                                        s,
                                                                        j15,
                                                                    );
                                                                    match sp_newline(s, j16) {
                                                                        Step::Hit {
                                                                            next: j17,
                                                                            ..
                                                                        } => Step::Hit {
                                                                            next: j17,
                                                                            val: PartitionedEntitySurfaceV {
                                                                                tag,
                                                                                parent_dim,
                                                                                parent_tag,
                                                                                partition_tags,
                                                                                min_x,
                                                                                min_y,
                                                                                min_z,
                                                                                max_x,
                                                                                max_y,
                                                                                max_z,
                                                                                physical_tags,
                                                                                bounding_curves: bounds,
                                                                            },
                                                                        },
                                                                        st => carry(st),
                                                                    }
                                                                },
                                                                st => carry(st),
                                                            },
                                                            st => carry(st),
                                                        },
                                                        st => carry(st),
                                                    },
                                                    st => carry(st),
                                                },
                                                st => carry(st),
                                            },
                                            st => carry(st),
                                        },
                                        st => carry(st),
                                    },
                                    st => carry(st),
                                },
                                st => carry(st),
                            },
                            st => carry(st),
                        },
                        st => carry(st),
                    },
                    st => carry(st),
                },
                st => carry(st),
            },
            st => carry(st),
        },
        st => carry(st),
    }
}

/// Decodes a partitioned surface record.
pub(crate) fn p_psurface_row(s: &[u8], i: usize) -> (r: Result<(usize, PartitionedEntitySurface), Fail>)
    requires
        i <= s@.len(),
    ensures
        agrees(s@.len() as int, i as int, r, sp_psurface_row(s@, i as int), (|v: PartitionedEntitySurface| v@)),
{
    let (j1, tag) = p_i32(s, i)?;
    let (j2, parent_dim) = p_sp1_i32(s, j1)?;
    let (j3, parent_tag) = p_sp1_i32(s, j2)?;
    let (j4, _) = p_space1(s, j3)?;
    let (j5, partition_tags) = p_tag_list(s, j4)?;
    let (j6, min_x) = p_sp1_coord(s, j5)?;
    let (j7, min_y) = p_sp1_coord(s, j6)?;
    let (j8, min_z) = p_sp1_coord(s, j7)?;
    let (j9, max_x) = p_sp1_coord(s, j8)?;
    let (j10, max_y) = p_sp1_coord(s, j9)?;
    let (j11, max_z) = p_sp1_coord(s, j10)?;
    let (j12, _) = p_space1(s, j11)?;
    let (j13, physical_tags) = p_tag_list(s, j12)?;
    let (j14, _) = p_space1(s, j13)?;
    let (j15, bounds) = p_tag_list(s, j14)?;
    let j16 = skip_space(s, j15);
    let (j17, _) = p_newline(s, j16)?;
    Ok((
        j17,
        PartitionedEntitySurface {
            tag,
            parent_dim,
            parent_tag,
            partition_tags,
            min_x,
            min_y,
            min_z,
            max_x,
            max_y,
            max_z,
            physical_tags,
            bounding_curves: bounds,
        },
    ))
}

/// A volume record of `$PartitionedEntities`.
pub open spec fn sp_pvolume_row(s: Seq<u8>, i: int) -> Step<PartitionedEntityVolumeV> {
    match sp_i32(s, i) {
        Step::Hit { next: j1, val: tag } => match sp_sp1_i32(s, j1) {
            Step::Hit { next: j2, val: parent_dim } => match sp_sp1_i32(s, j2) {
                Step::Hit { next: j3, val: parent_tag } => match sp_space1(s, j3) {
                    Step::Hit { next: j4, .. } => match sp_tag_list(s, j4) {
                        Step::Hit { next: j5, val: partition_tags } => match sp_sp1_coord(s, j5) {
                            Step::Hit { next: j6, val: min_x } => match sp_sp1_coord(s, j6) {
                                Step::Hit { next: j7, val: min_y } => match sp_sp1_coord(s, j7) {
                                    Step::Hit { next: j8, val: min_z } => match sp_sp1_coord(
                                        s,
                                        j8,
                                    ) {
                                        Step::Hit { next: j9, val: max_x } => match sp_sp1_coord(
                                            s,
                                            j9,
                                        ) {
                                            Step::Hit { next: j10, val: max_y } => match sp_sp1_coord(
                                                s,
                                                j10,
                                            ) {
                                                Step::Hit { next: j11, val: max_z } => match sp_space1(
                                                    s,
                                                    j11,
                                                ) {
                                                    Step::Hit { next: j12, .. } => match sp_tag_list(
                                                        s,
                                                        j12,
                                                    ) {
                                                        Step::Hit {
                                                            next: j13,
                                                            val: physical_tags,
                                                        } => match sp_space1(s, j13) {
                                                            Step::Hit { next: j14, .. } => match sp_tag_list(
                                                                s,
                                                                j14,
                                                            ) {
                                                                Step::Hit {
                                                                    next: j15,
                                                                    val: bounds,
                                                                } => {
                                                                    let j16 = sp_skip_space(
                                                                        s,
                                                                        j15,
                                                                    );
                                                                    match sp_newline(s, j16) {
                                                                        Step::Hit {
                                                                            next: j17,
                                                                            ..
                                                                        } => Step::Hit {
                                                                            next: j17,
                                                                            val: PartitionedEntityVolumeV {
                                                                                tag,
                                                                                parent_dim,
                                                                                parent_tag,
                                                                                partition_tags,
                                                                                min_x,
                                                                                min_y,
                                                                                min_z,
                                                                                max_x,
                                                                                max_y,
                                                                                max_z,
                                                                                physical_tags,
                                                                                bounding_surfaces: bounds,
                                                                            },
                                                                        },
                                                                        st => carry(st),
                                                                    }
                                                                },
                                                                st => carry(st),
                                                            },
                                                            st => carry(st),
                                                        },
                                                        st => carry(st),
                                                    },
                                                    st => carry(st),
                                                },
                                                st => carry(st),
                                            },
                                            st => carry(st),
                                        },
                                        st => carry(st),
                                    },
                                    st => carry(st),
                                },
                                st => carry(st),
                            },
                            st => carry(st),
                        },
                        st => carry(st),
                    },
                    st => carry(st),
                },
                st => carry(st),
            },
            st => carry(st),
        },
        st => carry(st),
    }
}

/// Decodes a partitioned volume record.
pub(crate) fn p_pvolume_row(s: &[u8], i: usize) -> (r: Result<(usize, PartitionedEntityVolume), Fail>)
    requires
        i <= s@.len(),
    ensures
        agrees(s@.len() as int, i as int, r, sp_pvolume_row(s@, i as int), (|v: PartitionedEntityVolume| v@)),
{
    let (j1, tag) = p_i32(s, i)?;
    let (j2, parent_dim) = p_sp1_i32(s, j1)?;
    let (j3, parent_tag) = p_sp1_i32(s, j2)?;
    let (j4, _) = p_space1(s, j3)?;
    let (j5, partition_tags) = p_tag_list(s, j4)?;
    let (j6, min_x) = p_sp1_coord(s, j5)?;
    let (j7, min_y) = p_sp1_coord(s, j6)?;
    let (j8, min_z) = p_sp1_coord(s, j7)?;
    let (j9, max_x) = p_sp1_coord(s, j8)?;
    let (j10, max_y) = p_sp1_coord(s, j9)?;
    let (j11, max_z) = p_sp1_coord(s, j10)?;
    let (j12, _) = p_space1(s, j11)?;
    let (j13, physical_tags) = p_tag_list(s, j12)?;
    let (j14, _) = p_space1(s, j13)?;
    let (j15, bounds) = p_tag_list(s, j14)?;
    let j16 = skip_space(s, j15);
    let (j17, _) = p_newline(s, j16)?;
    Ok((
        j17,
        PartitionedEntityVolume {
            tag,
            parent_dim,
            parent_tag,
            partition_tags,
            min_x,
            min_y,
            min_z,
            max_x,
            max_y,
            max_z,
            physical_tags,
            bounding_surfaces: bounds,
        },
    ))
}

/// Decodes the point records of `$PartitionedEntities`.
pub(crate) fn p_ppoint_rows(s: &[u8], i: usize, n: u64) -> (r: Result<(usize, Vec<PartitionedEntityPoint>), Fail>)
    requires
        i <= s@.len(),
    ensures
        agrees(
            s@.len() as int,
            i as int,
            r,
            sp_list((|j: int| sp_ppoint_row(s@, j)), i as int, n as nat, Seq::empty()),
            (|v: Vec<PartitionedEntityPoint>| v@.map_values((|e: PartitionedEntityPoint| e@))),
        ),
        (match r {
            Result::Ok((_, v)) => v@.len() == n,
            Result::Err(_) => true,
        }),
{
    let ghost f = (|j: int| sp_ppoint_row(s@, j));
    let mut out: Vec<PartitionedEntityPoint> = Vec::new();
    let mut cur: usize = i;
    let mut k: u64 = 0;
    proof {
        assert(out@.map_values(|e: PartitionedEntityPoint| e@) =~= Seq::empty());
    }
    while k < n
        invariant
            i <= cur <= s@.len(),
            k <= n,
            out@.len() == k,
            f == (|j: int| sp_ppoint_row(s@, j)),
            sp_list(f, i as int, n as nat, Seq::empty()) == sp_list(
                f,
                cur as int,
                (n - k) as nat,
                out@.map_values(|e: PartitionedEntityPoint| e@),
            ),
        decreases n - k,
    {
        match p_ppoint_row(s, cur) {
            Ok((j, e)) => {
                proof {
                    assert(f(cur as int) == sp_ppoint_row(s@, cur as int));
                    assert((out@.push(e)).map_values(|e: PartitionedEntityPoint| e@) =~= out@.map_values(
                        |e: PartitionedEntityPoint| e@,
                    ).push(e@));
                }
                out.push(e);
                cur = j;
                k = k + 1;
            },
            Err(er) => {
                proof {
                    assert(f(cur as int) == sp_ppoint_row(s@, cur as int));
                }
                return Err(er);
            },
        }
    }
    Ok((cur, out))
}

/// Decodes the curve records of `$PartitionedEntities`.
pub(crate) fn p_pcurve_rows(s: &[u8], i: usize, n: u64) -> (r: Result<(usize, Vec<PartitionedEntityCurve>), Fail>)
    requires
        i <= s@.len(),
    ensures
        agrees(
            s@.len() as int,
            i as int,
            r,
            sp_list((|j: int| sp_pcurve_row(s@, j)), i as int, n as nat, Seq::empty()),
            (|v: Vec<PartitionedEntityCurve>| v@.map_values((|e: PartitionedEntityCurve| e@))),
        ),
        (match r {
            Result::Ok((_, v)) => v@.len() == n,
            Result::Err(_) => true,
        }),
{
    let ghost f = (|j: int| sp_pcurve_row(s@, j));
    let mut out: Vec<PartitionedEntityCurve> = Vec::new();
    let mut cur: usize = i;
    let mut k: u64 = 0;
    proof {
        assert(out@.map_values(|e: PartitionedEntityCurve| e@) =~= Seq::empty());
    }
    while k < n
        invariant
            i <= cur <= s@.len(),
            k <= n,
            out@.len() == k,
            f == (|j: int| sp_pcurve_row(s@, j)),
            sp_list(f, i as int, n as nat, Seq::empty()) == sp_list(
                f,
                cur as int,
                (n - k) as nat,
                out@.map_values(|e: PartitionedEntityCurve| e@),
            ),
        decreases n - k,
    {
        match p_pcurve_row(s, cur) {
            Ok((j, e)) => {
                proof {
                    assert(f(cur as int) == sp_pcurve_row(s@, cur as int));
                    assert((out@.push(e)).map_values(|e: PartitionedEntityCurve| e@) =~= out@.map_values(
                        |e: PartitionedEntityCurve| e@,
                    ).push(e@));
                }
                out.push(e);
                cur = j;
                k = k + 1;
            },
            Err(er) => {
                proof {
                    assert(f(cur as int) == sp_pcurve_row(s@, cur as int));
                }
                return Err(er);
            },
        }
    }
    Ok((cur, out))
}

/// Decodes the surface records of `$PartitionedEntities`.
pub(crate) fn p_psurface_rows(s: &[u8], i: usize, n: u64) -> (r: Result<(usize, Vec<PartitionedEntitySurface>), Fail>)
    requires
        i <= s@.len(),
    ensures
        agrees(
            s@.len() as int,
            i as int,
            r,
            sp_list((|j: int| sp_psurface_row(s@, j)), i as int, n as nat, Seq::empty()),
            (|v: Vec<PartitionedEntitySurface>| v@.map_values((|e: PartitionedEntitySurface| e@))),
        ),
        (match r {
            Result::Ok((_, v)) => v@.len() == n,
            Result::Err(_) => true,
        }),
{
    let ghost f = (|j: int| sp_psurface_row(s@, j));
    let mut out: Vec<PartitionedEntitySurface> = Vec::new();
    let mut cur: usize = i;
    let mut k: u64 = 0;
    proof {
        assert(out@.map_values(|e: PartitionedEntitySurface| e@) =~= Seq::empty());
    }
    while k < n
        invariant
            i <= cur <= s@.len(),
            k <= n,
            out@.len() == k,
            f == (|j: int| sp_psurface_row(s@, j)),
            sp_list(f, i as int, n as nat, Seq::empty()) == sp_list(
                f,
                cur as int,
                (n - k) as nat,
                out@.map_values(|e: PartitionedEntitySurface| e@),
            ),
        decreases n - k,
    {
        match p_psurface_row(s, cur) {
            Ok((j, e)) => {
                proof {
                    assert(f(cur as int) == sp_psurface_row(s@, cur as int));
                    assert((out@.push(e)).map_values(|e: PartitionedEntitySurface| e@) =~= out@.map_values(
                        |e: PartitionedEntitySurface| e@,
                    ).push(e@));
                }
                out.push(e);
                cur = j;
                k = k + 1;
            },
            Err(er) => {
                proof {
                    assert(f(cur as int) == sp_psurface_row(s@, cur as int));
                }
                return Err(er);
            },
        }
    }
    Ok((cur, out))
}

/// Decodes the volume records of `$PartitionedEntities`.
pub(crate) fn p_pvolume_rows(s: &[u8], i: usize, n: u64) -> (r: Result<(usize, Vec<PartitionedEntityVolume>), Fail>)
    requires
        i <= s@.len(),
    ensures
        agrees(
            s@.len() as int,
            i as int,
            r,
            sp_list((|j: int| sp_pvolume_row(s@, j)), i as int, n as nat, Seq::empty()),
            (|v: Vec<PartitionedEntityVolume>| v@.map_values((|e: PartitionedEntityVolume| e@))),
        ),
        (match r {
            Result::Ok((_, v)) => v@.len() == n,
            Result::Err(_) => true,
        }),
{
    let ghost f = (|j: int| sp_pvolume_row(s@, j));
    let mut out: Vec<PartitionedEntityVolume> = Vec::new();
    let mut cur: usize = i;
    let mut k: u64 = 0;
    proof {
        assert(out@.map_values(|e: PartitionedEntityVolume| e@) =~= Seq::empty());
    }
    while k < n
        invariant
            i <= cur <= s@.len(),
            k <= n,
            out@.len() == k,
            f == (|j: int| sp_pvolume_row(s@, j)),
            sp_list(f, i as int, n as nat, Seq::empty()) == sp_list(
                f,
                cur as int,
                (n - k) as nat,
                out@.map_values(|e: PartitionedEntityVolume| e@),
            ),
        decreases n - k,
    {
        match p_pvolume_row(s, cur) {
            Ok((j, e)) => {
                proof {
                    assert(f(cur as int) == sp_pvolume_row(s@, cur as int));
                    assert((out@.push(e)).map_values(|e: PartitionedEntityVolume| e@) =~= out@.map_values(
                        |e: PartitionedEntityVolume| e@,
                    ).push(e@));
                }
                out.push(e);
                cur = j;
                k = k + 1;
            },
            Err(er) => {
                proof {
                    assert(f(cur as int) == sp_pvolume_row(s@, cur as int));
                }
                return Err(er);
            },
        }
    }
    Ok((cur, out))
}

/// One curve-parametrisation sample: a position and one parametric
/// coordinate, then a newline.
pub open spec fn sp_pcnode_row(s: Seq<u8>, i: int) -> Step<ParametrisationsCurveNodeV> {
    match sp_coord(s, i) {
        Step::Hit { next: j1, val: x } => match sp_sp1_coord(s, j1) {
            Step::Hit { next: j2, val: y } => match sp_sp1_coord(s, j2) {
                Step::Hit { next: j3, val: z } => match sp_sp1_coord(s, j3) {
                    Step::Hit { next: j4, val: u } => match sp_newline(s, j4) {
                        Step::Hit { next: j5, .. } => Step::Hit {
                            next: j5,
                            val: ParametrisationsCurveNodeV { x, y, z, u },
                        },
                        st => carry(st),
                    },
                    st => carry(st),
                },
                st => carry(st),
            },
            st => carry(st),
        },
        st => carry(st),
    }
}

/// Decodes one curve-parametrisation sample.
pub(crate) fn p_pcnode_row(s: &[u8], i: usize) -> (r: Result<(usize, ParametrisationsCurveNode), Fail>)
    requires
        i <= s@.len(),
    ensures
        agrees(
            s@.len() as int,
            i as int,
            r,
            sp_pcnode_row(s@, i as int),
            (|v: ParametrisationsCurveNode| v@),
        ),
{
    let (j1, x) = p_coord(s, i)?;
    let (j2, y) = p_sp1_coord(s, j1)?;
    let (j3, z) = p_sp1_coord(s, j2)?;
    let (j4, u) = p_sp1_coord(s, j3)?;
    let (j5, _) = p_newline(s, j4)?;
    Ok((j5, ParametrisationsCurveNode { x, y, z, u }))
}

/// One surface-parametrisation sample: a position, two parametric
/// coordinates and a redundant bounding box, then a newline.
pub open spec fn sp_psnode_row(s: Seq<u8>, i: int) -> Step<ParametrisationsSurfaceNodeV> {
    match sp_coord(s, i) {
        Step::Hit { next: j1, val: x } => match sp_sp1_coord(s, j1) {
            Step::Hit { next: j2, val: y } => match sp_sp1_coord(s, j2) {
                Step::Hit { next: j3, val: z } => match sp_sp1_coord(s, j3) {
                    Step::Hit { next: j4, val: u } => match sp_sp1_coord(s, j4) {
                        Step::Hit { next: j5, val: v } => match sp_sp1_coord(s, j5) {
                            Step::Hit { next: j6, val: max_x } => match sp_sp1_coord(s, j6) {
                                Step::Hit { next: j7, val: max_y } => match sp_sp1_coord(s, j7) {
                                    Step::Hit { next: j8, val: max_z } => match sp_sp1_coord(
                                        s,
                                        j8,
                                    ) {
                                        Step::Hit { next: j9, val: min_x } => match sp_sp1_coord(
                                            s,
                                            j9,
                                        ) {
                                            Step::Hit { next: j10, val: min_y } => match sp_sp1_coord(
                                                s,
                                                j10,
                                            ) {
                                                Step::Hit { next: j11, val: min_z } => match sp_newline(
                                                    s,
                                                    j11,
                                                ) {
                                                    Step::Hit { next: j12, .. } => Step::Hit {
                                                        next: j12,
                                                        val: ParametrisationsSurfaceNodeV {
                                                            x,
                                                            y,
                                                            z,
                                                            u,
                                                            v,
                                                            max_x,
                                                            max_y,
                                                            max_z,
                                                            min_x,
                                                            min_y,
                                                            min_z,
                                                        },
                                                    },
                                                    st => carry(st),
                                                },
                                                st => carry(st),
                                            },
                                            st => carry(st),
                                        },
                                        st => carry(st),
                                    },
                                    st => carry(st),
                                },
                                st => carry(st),
                            },
                            st => carry(st),
                        },
                        st => carry(st),
                    },
                    st => carry(st),
                },
                st => carry(st),
            },
            st => carry(st),
        },
        st => carry(st),
    }
}

/// Decodes one surface-parametrisation sample.
pub(crate) fn p_psnode_row(s: &[u8], i: usize) -> (r: Result<(usize, ParametrisationsSurfaceNode), Fail>)
    requires
        i <= s@.len(),
    ensures
        agrees(
            s@.len() as int,
            i as int,
            r,
            sp_psnode_row(s@, i as int),
            (|v: ParametrisationsSurfaceNode| v@),
        ),
{
    let (j1, x) = p_coord(s, i)?;
    let (j2, y) = p_sp1_coord(s, j1)?;
    let (j3, z) = p_sp1_coord(s, j2)?;
    let (j4, u) = p_sp1_coord(s, j3)?;
    let (j5, v) = p_sp1_coord(s, j4)?;
    let (j6, max_x) = p_sp1_coord(s, j5)?;
    let (j7, max_y) = p_sp1_coord(s, j6)?;
    let (j8, max_z) = p_sp1_coord(s, j7)?;
    let (j9, min_x) = p_sp1_coord(s, j8)?;
    let (j10, min_y) = p_sp1_coord(s, j9)?;
    let (j11, min_z) = p_sp1_coord(s, j10)?;
    let (j12, _) = p_newline(s, j11)?;
    Ok((
        j12,
        ParametrisationsSurfaceNode {
            x,
            y,
            z,
            u,
            v,
            max_x,
            max_y,
            max_z,
            min_x,
            min_y,
            min_z,
        },
    ))
}

/// One triangle of a surface parametrisation: three sample indices and a
/// newline.
pub open spec fn sp_ptri_row(s: Seq<u8>, i: int) -> Step<ParametrisationsSurfaceTriangle> {
    match sp_i32(s, i) {
        Step::Hit { next: j1, val: a } => match sp_sp1_i32(s, j1) {
            Step::Hit { next: j2, val: b } => match sp_sp1_i32(s, j2) {
                Step::Hit { next: j3, val: c } => match sp_newline(s, j3) {
                    Step::Hit { next: j4, .. } => Step::Hit {
                        next: j4,
                        val: ParametrisationsSurfaceTriangle(a, b, c),
                    },
                    st => carry(st),
                },
                st => carry(st),
            },
            st => carry(st),
        },
        st => carry(st),
    }
}

/// Decodes one triangle of a surface parametrisation.
pub(crate) fn p_ptri_row(s: &[u8], i: usize) -> (r: Result<(usize, ParametrisationsSurfaceTriangle), Fail>)
    requires
        i <= s@.len(),
    ensures
        agrees(
            s@.len() as int,
            i as int,
            r,
            sp_ptri_row(s@, i as int),
            (|v: ParametrisationsSurfaceTriangle| v),
        ),
{
    let (j1, a) = p_i32(s, i)?;
    let (j2, b) = p_sp1_i32(s, j1)?;
    let (j3, c) = p_sp1_i32(s, j2)?;
    let (j4, _) = p_newline(s, j3)?;
    Ok((j4, ParametrisationsSurfaceTriangle(a, b, c)))
}

/// One (dependent, master) pair line of a periodic link.
pub open spec fn sp_plink_node_row(s: Seq<u8>, i: int) -> Step<PeriodicLinkNode> {
    match sp_i32(s, i) {
        Step::Hit { next: j1, val: tag } => match sp_space1(s, j1) {
            Step::Hit { next: j2, .. } => match sp_i32(s, j2) {
                Step::Hit { next: j3, val: master } => match sp_newline(s, j3) {
                    Step::Hit { next: j4, .. } => Step::Hit {
                        next: j4,
                        val: PeriodicLinkNode { tag, master },
                    },
                    st => carry(st),
                },
                st => carry(st),
            },
            st => carry(st),
        },
        st => carry(st),
    }
}

/// Decodes one (dependent, master) pair line.
pub(crate) fn p_plink_node_row(s: &[u8], i: usize) -> (r: Result<(usize, PeriodicLinkNode), Fail>)
    requires
        i <= s@.len(),
    ensures
        agrees(
            s@.len() as int,
            i as int,
            r,
            sp_plink_node_row(s@, i as int),
            (|v: PeriodicLinkNode| v),
        ),
{
    let (j1, tag) = p_i32(s, i)?;
    let (j2, _) = p_space1(s, j1)?;
    let (j3, master) = p_i32(s, j2)?;
    let (j4, _) = p_newline(s, j3)?;
    Ok((j4, PeriodicLinkNode { tag, master }))
}

/// Decodes the ghost-entity lines.
pub(crate) fn p_ghost_rows(s: &[u8], i: usize, n: u64) -> (r: Result<(usize, Vec<EntityGhost>), Fail>)
    requires
        i <= s@.len(),
    ensures
        agrees(
            s@.len() as int,
            i as int,
            r,
            sp_list((|j: int| sp_ghost_row(s@, j)), i as int, n as nat, Seq::empty()),
            (|v: Vec<EntityGhost>| v@),
        ),
        (match r {
            Result::Ok((_, v)) => v@.len() == n,
            Result::Err(_) => true,
        }),
{
    let ghost f = (|j: int| sp_ghost_row(s@, j));
    let mut out: Vec<EntityGhost> = Vec::new();
    let mut cur: usize = i;
    let mut k: u64 = 0;
    while k < n
        invariant
            i <= cur <= s@.len(),
            k <= n,
            out@.len() == k,
            f == (|j: int| sp_ghost_row(s@, j)),
            sp_list(f, i as int, n as nat, Seq::empty()) == sp_list(
                f,
                cur as int,
                (n - k) as nat,
                out@,
            ),
        decreases n - k,
    {
        match p_ghost_row(s, cur) {
            Ok((j, e)) => {
                proof {
                    assert(f(cur as int) == sp_ghost_row(s@, cur as int));
                }
                out.push(e);
                cur = j;
                k = k + 1;
            },
            Err(er) => {
                proof {
                    assert(f(cur as int) == sp_ghost_row(s@, cur as int));
                }
                return Err(er);
            },
        }
    }
    Ok((cur, out))
}

/// Decodes the physical-name lines.
pub(crate) fn p_physical_rows(s: &[u8], i: usize, n: u64) -> (r: Result<(usize, Vec<PhysicalName>), Fail>)
    requires
        i <= s@.len(),
    ensures
        agrees(
            s@.len() as int,
            i as int,
            r,
            sp_list((|j: int| sp_physical_row(s@, j)), i as int, n as nat, Seq::empty()),
            (|v: Vec<PhysicalName>| v@.map_values((|e: PhysicalName| e@))),
        ),
        (match r {
            Result::Ok((_, v)) => v@.len() == n,
            Result::Err(_) => true,
        }),
{
    let ghost f = (|j: int| sp_physical_row(s@, j));
    let mut out: Vec<PhysicalName> = Vec::new();
    let mut cur: usize = i;
    let mut k: u64 = 0;
    proof {
        assert(out@.map_values(|e: PhysicalName| e@) =~= Seq::empty());
    }
    while k < n
        invariant
            i <= cur <= s@.len(),
            k <= n,
            out@.len() == k,
            f == (|j: int| sp_physical_row(s@, j)),
            sp_list(f, i as int, n as nat, Seq::empty()) == sp_list(
                f,
                cur as int,
                (n - k) as nat,
                out@.map_values(|e: PhysicalName| e@),
            ),
        decreases n - k,
    {
        match p_physical_row(s, cur) {
            Ok((j, e)) => {
                proof {
                    assert(f(cur as int) == sp_physical_row(s@, cur as int));
                    assert((out@.push(e)).map_values(|e: PhysicalName| e@) =~= out@.map_values(
                        |e: PhysicalName| e@,
                    ).push(e@));
                }
                out.push(e);
                cur = j;
                k = k + 1;
            },
            Err(er) => {
                proof {
                    assert(f(cur as int) == sp_physical_row(s@, cur as int));
                }
                return Err(er);
            },
        }
    }
    Ok((cur, out))
}

/// Decodes the node-tag lines of an entity block.
pub(crate) fn p_tag_lines(s: &[u8], i: usize, n: u64) -> (r: Result<(usize, Vec<i32>), Fail>)
    requires
        i <= s@.len(),
    ensures
        agrees(
            s@.len() as int,
            i as int,
            r,
            sp_list((|j: int| sp_i32_nl(s@, j)), i as int, n as nat, Seq::empty()),
            (|v: Vec<i32>| v@),
        ),
        (match r {
            Result::Ok((_, v)) => v@.len() == n,
            Result::Err(_) => true,
        }),
{
    let ghost f = (|j: int| sp_i32_nl(s@, j));
    let mut out: Vec<i32> = Vec::new();
    let mut cur: usize = i;
    let mut k: u64 = 0;
    while k < n
        invariant
            i <= cur <= s@.len(),
            k <= n,
            out@.len() == k,
            f == (|j: int| sp_i32_nl(s@, j)),
            sp_list(f, i as int, n as nat, Seq::empty()) == sp_list(
                f,
                cur as int,
                (n - k) as nat,
                out@,
            ),
        decreases n - k,
    {
        match p_i32_nl(s, cur) {
            Ok((j, e)) => {
                proof {
                    assert(f(cur as int) == sp_i32_nl(s@, cur as int));
                }
                out.push(e);
                cur = j;
                k = k + 1;
            },
            Err(er) => {
                proof {
                    assert(f(cur as int) == sp_i32_nl(s@, cur as int));
                }
                return Err(er);
            },
        }
    }
    Ok((cur, out))
}

/// Decodes the position records of an entity block.
pub(crate) fn p_positions(s: &[u8], i: usize, n: u64, par: bool, dim: i32) -> (r: Result<(usize, Vec<Position>), Fail>)
    requires
        i <= s@.len(),
    ensures
        agrees(
            s@.len() as int,
            i as int,
            r,
            sp_list((|j: int| sp_position(s@, j, par, dim)), i as int, n as nat, Seq::empty()),
            (|v: Vec<Position>| v@.map_values((|e: Position| e@))),
        ),
        (match r {
            Result::Ok((_, v)) => v@.len() == n,
            Result::Err(_) => true,
        }),
{
    let ghost f = (|j: int| sp_position(s@, j, par, dim));
    let mut out: Vec<Position> = Vec::new();
    let mut cur: usize = i;
    let mut k: u64 = 0;
    proof {
        assert(out@.map_values(|e: Position| e@) =~= Seq::empty());
    }
    while k < n
        invariant
            i <= cur <= s@.len(),
            k <= n,
            out@.len() == k,
            f == (|j: int| sp_position(s@, j, par, dim)),
            sp_list(f, i as int, n as nat, Seq::empty()) == sp_list(
                f,
                cur as int,
                (n - k) as nat,
                out@.map_values(|e: Position| e@),
            ),
        decreases n - k,
    {
        match p_position(s, cur, par, dim) {
            Ok((j, e)) => {
                proof {
                    assert(f(cur as int) == sp_position(s@, cur as int, par, dim));
                    assert((out@.push(e)).map_values(|e: Position| e@) =~= out@.map_values(
                        |e: Position| e@,
                    ).push(e@));
                }
                out.push(e);
                cur = j;
                k = k + 1;
            },
            Err(er) => {
                proof {
                    assert(f(cur as int) == sp_position(s@, cur as int, par, dim));
                }
                return Err(er);
            },
        }
    }
    Ok((cur, out))
}

/// Decodes the samples of a curve parametrisation.
pub(crate) fn p_pcnode_rows(s: &[u8], i: usize, n: u64) -> (r: Result<(usize, Vec<ParametrisationsCurveNode>), Fail>)
    requires
        i <= s@.len(),
    ensures
        agrees(
            s@.len() as int,
            i as int,
            r,
            sp_list((|j: int| sp_pcnode_row(s@, j)), i as int, n as nat, Seq::empty()),
            (|v: Vec<ParametrisationsCurveNode>| v@.map_values((|e: ParametrisationsCurveNode| e@))),
        ),
        (match r {
            Result::Ok((_, v)) => v@.len() == n,
            Result::Err(_) => true,
        }),
{
    let ghost f = (|j: int| sp_pcnode_row(s@, j));
    let mut out: Vec<ParametrisationsCurveNode> = Vec::new();
    let mut cur: usize = i;
    let mut k: u64 = 0;
    proof {
        assert(out@.map_values(|e: ParametrisationsCurveNode| e@) =~= Seq::empty());
    }
    while k < n
        invariant
            i <= cur <= s@.len(),
            k <= n,
            out@.len() == k,
            f == (|j: int| sp_pcnode_row(s@, j)),
            sp_list(f, i as int, n as nat, Seq::empty()) == sp_list(
                f,
                cur as int,
                (n - k) as nat,
                out@.map_values(|e: ParametrisationsCurveNode| e@),
            ),
        decreases n - k,
    {
        match p_pcnode_row(s, cur) {
            Ok((j, e)) => {
                proof {
                    assert(f(cur as int) == sp_pcnode_row(s@, cur as int));
                    assert((out@.push(e)).map_values(|e: ParametrisationsCurveNode| e@) =~= out@.map_values(
                        |e: ParametrisationsCurveNode| e@,
                    ).push(e@));
                }
                out.push(e);
                cur = j;
                k = k + 1;
            },
            Err(er) => {
                proof {
                    assert(f(cur as int) == sp_pcnode_row(s@, cur as int));
                }
                return Err(er);
            },
        }
    }
    Ok((cur, out))
}

/// Decodes the samples of a surface parametrisation.
pub(crate) fn p_psnode_rows(s: &[u8], i: usize, n: u64) -> (r: Result<(usize, Vec<ParametrisationsSurfaceNode>), Fail>)
    requires
        i <= s@.len(),
    ensures
        agrees(
            s@.len() as int,
            i as int,
            r,
            sp_list((|j: int| sp_psnode_row(s@, j)), i as int, n as nat, Seq::empty()),
            (|v: Vec<ParametrisationsSurfaceNode>| v@.map_values((|e: ParametrisationsSurfaceNode| e@))),
        ),
        (match r {
            Result::Ok((_, v)) => v@.len() == n,
            Result::Err(_) => true,
        }),
{
    let ghost f = (|j: int| sp_psnode_row(s@, j));
    let mut out: Vec<ParametrisationsSurfaceNode> = Vec::new();
    let mut cur: usize = i;
    let mut k: u64 = 0;
    proof {
        assert(out@.map_values(|e: ParametrisationsSurfaceNode| e@) =~= Seq::empty());
    }
    while k < n
        invariant
            i <= cur <= s@.len(),
            k <= n,
            out@.len() == k,
            f == (|j: int| sp_psnode_row(s@, j)),
            sp_list(f, i as int, n as nat, Seq::empty()) == sp_list(
                f,
                cur as int,
                (n - k) as nat,
                out@.map_values(|e: ParametrisationsSurfaceNode| e@),
            ),
        decreases n - k,
    {
        match p_psnode_row(s, cur) {
            Ok((j, e)) => {
                proof {
                    assert(f(cur as int) == sp_psnode_row(s@, cur as int));
                    assert((out@.push(e)).map_values(|e: ParametrisationsSurfaceNode| e@) =~= out@.map_values(
                        |e: ParametrisationsSurfaceNode| e@,
                    ).push(e@));
                }
                out.push(e);
                cur = j;
                k = k + 1;
            },
            Err(er) => {
                proof {
                    assert(f(cur as int) == sp_psnode_row(s@, cur as int));
                }
                return Err(er);
            },
        }
    }
    Ok((cur, out))
}

/// Decodes the triangles of a surface parametrisation.
pub(crate) fn p_ptri_rows(s: &[u8], i: usize, n: u64) -> (r: Result<(usize, Vec<ParametrisationsSurfaceTriangle>), Fail>)
    requires
        i <= s@.len(),
    ensures
        agrees(
            s@.len() as int,
            i as int,
            r,
            sp_list((|j: int| sp_ptri_row(s@, j)), i as int, n as nat, Seq::empty()),
            (|v: Vec<ParametrisationsSurfaceTriangle>| v@),
        ),
        (match r {
            Result::Ok((_, v)) => v@.len() == n,
            Result::Err(_) => true,
        }),
{
    let ghost f = (|j: int| sp_ptri_row(s@, j));
    let mut out: Vec<ParametrisationsSurfaceTriangle> = Vec::new();
    let mut cur: usize = i;
    let mut k: u64 = 0;
    while k < n
        invariant
            i <= cur <= s@.len(),
            k <= n,
            out@.len() == k,
            f == (|j: int| sp_ptri_row(s@, j)),
            sp_list(f, i as int, n as nat, Seq::empty()) == sp_list(
                f,
                cur as int,
                (n - k) as nat,
                out@,
            ),
        decreases n - k,
    {
        match p_ptri_row(s, cur) {
            Ok((j, e)) => {
                proof {
                    assert(f(cur as int) == sp_ptri_row(s@, cur as int));
                }
                out.push(e);
                cur = j;
                k = k + 1;
            },
            Err(er) => {
                proof {
                    assert(f(cur as int) == sp_ptri_row(s@, cur as int));
                }
                return Err(er);
            },
        }
    }
    Ok((cur, out))
}

/// Decodes the pair lines of a periodic link.
pub(crate) fn p_plink_node_rows(s: &[u8], i: usize, n: u64) -> (r: Result<(usize, Vec<PeriodicLinkNode>), Fail>)
    requires
        i <= s@.len(),
    ensures
        agrees(
            s@.len() as int,
            i as int,
            r,
            sp_list((|j: int| sp_plink_node_row(s@, j)), i as int, n as nat, Seq::empty()),
            (|v: Vec<PeriodicLinkNode>| v@),
        ),
        (match r {
            Result::Ok((_, v)) => v@.len() == n,
            Result::Err(_) => true,
        }),
{
    let ghost f = (|j: int| sp_plink_node_row(s@, j));
    let mut out: Vec<PeriodicLinkNode> = Vec::new();
    let mut cur: usize = i;
    let mut k: u64 = 0;
    while k < n
        invariant
            i <= cur <= s@.len(),
            k <= n,
            out@.len() == k,
            f == (|j: int| sp_plink_node_row(s@, j)),
            sp_list(f, i as int, n as nat, Seq::empty()) == sp_list(
                f,
                cur as int,
                (n - k) as nat,
                out@,
            ),
        decreases n - k,
    {
        match p_plink_node_row(s, cur) {
            Ok((j, e)) => {
                proof {
                    assert(f(cur as int) == sp_plink_node_row(s@, cur as int));
                }
                out.push(e);
                cur = j;
                k = k + 1;
            },
            Err(er) => {
                proof {
                    assert(f(cur as int) == sp_plink_node_row(s@, cur as int));
                }
                return Err(er);
            },
        }
    }
    Ok((cur, out))
}

/// Decodes the blank-prefixed affine coefficients of a periodic link.
pub(crate) fn p_affine_items(s: &[u8], i: usize, n: u64) -> (r: Result<(usize, Vec<Vec<u8>>), Fail>)
    requires
        i <= s@.len(),
    ensures
        agrees(
            s@.len() as int,
            i as int,
            r,
            sp_list((|j: int| sp_sp1_coord(s@, j)), i as int, n as nat, Seq::empty()),
            (|v: Vec<Vec<u8>>| v@.map_values((|e: Vec<u8>| e@))),
        ),
        (match r {
            Result::Ok((_, v)) => v@.len() == n,
            Result::Err(_) => true,
        }),
{
    let ghost f = (|j: int| sp_sp1_coord(s@, j));
    let mut out: Vec<Vec<u8>> = Vec::new();
    let mut cur: usize = i;
    let mut k: u64 = 0;
    proof {
        assert(out@.map_values(|e: Vec<u8>| e@) =~= Seq::empty());
    }
    while k < n
        invariant
            i <= cur <= s@.len(),
            k <= n,
            out@.len() == k,
            f == (|j: int| sp_sp1_coord(s@, j)),
            sp_list(f, i as int, n as nat, Seq::empty()) == sp_list(
                f,
                cur as int,
                (n - k) as nat,
                out@.map_values(|e: Vec<u8>| e@),
            ),
        decreases n - k,
    {
        match p_sp1_coord(s, cur) {
            Ok((j, e)) => {
                proof {
                    assert(f(cur as int) == sp_sp1_coord(s@, cur as int));
                    assert((out@.push(e)).map_values(|e: Vec<u8>| e@) =~= out@.map_values(
                        |e: Vec<u8>| e@,
                    ).push(e@));
                }
                out.push(e);
                cur = j;
                k = k + 1;
            },
            Err(er) => {
                proof {
                    assert(f(cur as int) == sp_sp1_coord(s@, cur as int));
                }
                return Err(er);
            },
        }
    }
    Ok((cur, out))
}

} // verus!
