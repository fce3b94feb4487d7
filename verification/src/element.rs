//! Element topologies: the closed set of fixed-arity node-id tuples an
//! element record may carry, and the per-dialect tables mapping a type code
//! to its topology. A code outside a dialect's table is fatal.

use vstd::prelude::*;

verus! {

/// A mesh element's shape: an ordered tuple of node ids whose arity is
/// fixed by the variant.
#[derive(Clone, Copy, Debug, PartialEq, Eq, Structural, PartialOrd)]
pub enum Topology {
    Line2(i32, i32),
    Triangle3(i32, i32, i32),
    Quadrangle4(i32, i32, i32, i32),
    Tetrahedron4(i32, i32, i32, i32),
    Hexahedron8(i32, i32, i32, i32, i32, i32, i32, i32),
    Prism6(i32, i32, i32, i32, i32, i32),
    Pyramid5(i32, i32, i32, i32, i32),
    Point1(i32),
}

/// Type codes the legacy dialect accepts.
pub open spec fn v1_supported(c: i32) -> bool {
    c == 1 || c == 2 || c == 3 || c == 4 || c == 5 || c == 15
}

/// Type codes the 2.2 dialect accepts (the same set as the legacy one; the
/// meaning of code 5 differs, see [`v2_topo`]).
pub open spec fn v2_supported(c: i32) -> bool {
    v1_supported(c)
}

/// Type codes the 4.1 dialect accepts.
pub open spec fn v4_supported(c: i32) -> bool {
    v1_supported(c) || c == 6
}

/// Node count demanded by a type code under the legacy table.
pub open spec fn v1_arity(c: i32) -> nat {
    if c == 1 {
        2
    } else if c == 2 {
        3
    } else if c == 3 {
        4
    } else if c == 4 {
        4
    } else if c == 5 {
        8
    } else {
        1
    }
}

/// Node count demanded by a type code under the 2.2 table: code 5 reads
/// four ids there, not eight.
pub open spec fn v2_arity(c: i32) -> nat {
    if c == 5 {
        4
    } else {
        v1_arity(c)
    }
}

/// Node count demanded by a type code under the 4.1 table.
pub open spec fn v4_arity(c: i32) -> nat {
    if c == 6 {
        6
    } else {
        v1_arity(c)
    }
}

/// The legacy table: 1 line, 2 triangle, 3 quadrangle, 4 tetrahedron,
/// 5 hexahedron, 15 point.
pub open spec fn v1_topo(c: i32, ids: Seq<i32>) -> Topology {
    if c == 1 {
        Topology::Line2(ids[0], ids[1])
    } else if c == 2 {
        Topology::Triangle3(ids[0], ids[1], ids[2])
    } else if c == 3 {
        Topology::Quadrangle4(ids[0], ids[1], ids[2], ids[3])
    } else if c == 4 {
        Topology::Tetrahedron4(ids[0], ids[1], ids[2], ids[3])
    } else if c == 5 {
        Topology::Hexahedron8(ids[0], ids[1], ids[2], ids[3], ids[4], ids[5], ids[6], ids[7])
    } else {
        Topology::Point1(ids[0])
    }
}

/// The 2.2 table. It maps code 5 to a tetrahedron, diverging from the
/// legacy table's hexahedron; the divergence is part of the accepted-input
/// contract and is reproduced, not repaired.
pub open spec fn v2_topo(c: i32, ids: Seq<i32>) -> Topology {
    if c == 5 {
        Topology::Tetrahedron4(ids[0], ids[1], ids[2], ids[3])
    } else {
        v1_topo(c, ids)
    }
}

/// The 4.1 table: the legacy table extended with 6 prism.
pub open spec fn v4_topo(c: i32, ids: Seq<i32>) -> Topology {
    if c == 6 {
        Topology::Prism6(ids[0], ids[1], ids[2], ids[3], ids[4], ids[5])
    } else {
        v1_topo(c, ids)
    }
}

/// Builds the legacy-table topology from decoded node ids.
pub fn build_v1_topo(c: i32, ids: &Vec<i32>) -> (t: Topology)
    requires
        v1_supported(c),
        ids@.len() == v1_arity(c),
    ensures
        t == v1_topo(c, ids@),
{
    if c == 1 {
        Topology::Line2(ids[0], ids[1])
    } else if c == 2 {
        Topology::Triangle3(ids[0], ids[1], ids[2])
    } else if c == 3 {
        Topology::Quadrangle4(ids[0], ids[1], ids[2], ids[3])
    } else if c == 4 {
        Topology::Tetrahedron4(ids[0], ids[1], ids[2], ids[3])
    } else if c == 5 {
        Topology::Hexahedron8(ids[0], ids[1], ids[2], ids[3], ids[4], ids[5], ids[6], ids[7])
    } else {
        Topology::Point1(ids[0])
    }
}

/// Builds the 2.2-table topology from decoded node ids.
pub fn build_v2_topo(c: i32, ids: &Vec<i32>) -> (t: Topology)
    requires
        v2_supported(c),
        ids@.len() == v2_arity(c),
    ensures
        t == v2_topo(c, ids@),
{
    if c == 5 {
        Topology::Tetrahedron4(ids[0], ids[1], ids[2], ids[3])
    } else {
        build_v1_topo(c, ids)
    }
}

/// Builds the 4.1-table topology from decoded node ids.
pub fn build_v4_topo(c: i32, ids: &Vec<i32>) -> (t: Topology)
    requires
        v4_supported(c),
        ids@.len() == v4_arity(c),
    ensures
        t == v4_topo(c, ids@),
{
    if c == 6 {
        Topology::Prism6(ids[0], ids[1], ids[2], ids[3], ids[4], ids[5])
    } else {
        build_v1_topo(c, ids)
    }
}

} // verus!
