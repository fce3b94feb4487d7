//! The 4.1 grammar's intermediate model: entity-block nodes and elements,
//! plus the optional physical-name, entity, partitioned-entity,
//! parametrisation and periodic sections. The legacy normaliser projects
//! this model down to the canonical mesh, dropping everything but node
//! positions and tagged topologies.

use std::collections::HashMap;
use vstd::prelude::*;
use vstd::slice::slice_subrange;

use crate::element::Topology;
use crate::format::{Format, FormatV};
use crate::marker::{
    lit_elements_nl, lit_end_elements, lit_end_parametrizations, lit_end_periodic,
    lit_mesh_format_nl, lit_nl_end_mesh_format, lit_parametrizations_nl, lit_periodic_nl, lit_v41,
    mk_elements_nl, mk_end_elements, mk_end_parametrizations, mk_end_periodic, mk_mesh_format_nl,
    mk_nl_end_mesh_format, mk_parametrizations_nl, mk_periodic_nl, mk_v41,
};
use crate::mesh::{map_of, MeshV};
use crate::node::{Node, NodeV};
use crate::step::{agrees, carry, Fail, Step};
use crate::token::{
    copy_bytes, find_lit, p_i32, p_lit, p_newline, p_space1, sp_find, sp_i32, sp_lit, sp_newline,
    sp_space1,
};

pub mod records;
pub mod sections;

verus! {

broadcast use vstd::std_specs::hash::group_hash_axioms;

/// An element tag together with its decoded topology.
#[derive(Clone, Copy, Debug, PartialEq, Eq, Structural)]
pub struct TaggedTopology {
    pub tag: i32,
    pub topology: Topology,
}

/// A ghost entity: its tag and the partition owning it.
#[derive(Clone, Copy, Debug, PartialEq, Eq, Structural)]
pub struct EntityGhost {
    pub tag: i32,
    pub partition: i32,
}

/// One (dependent, master) node-tag pair of a periodic link.
#[derive(Clone, Copy, Debug, PartialEq, Eq, Structural)]
pub struct PeriodicLinkNode {
    pub tag: i32,
    pub master: i32,
}

/// A triangle of a surface parametrisation, by sample indices.
#[derive(Clone, Copy, Debug, PartialEq, Eq, Structural)]
pub struct ParametrisationsSurfaceTriangle(pub i32, pub i32, pub i32);

/// Model of [`Position`].
#[verifier::ext_equal]
pub ghost struct PositionV {
    pub x: Seq<u8>,
    pub y: Seq<u8>,
    pub z: Seq<u8>,
    pub u: Option<Seq<u8>>,
    pub v: Option<Seq<u8>>,
    pub w: Option<Seq<u8>>,
}

/// One node position: three coordinate literals and the parametric
/// coordinates that the owning block's parametric flag and dimension call
/// for.
#[derive(Clone, Debug, PartialEq, Eq)]
pub struct Position {
    pub x: Vec<u8>,
    pub y: Vec<u8>,
    pub z: Vec<u8>,
    pub u: Option<Vec<u8>>,
    pub v: Option<Vec<u8>>,
    pub w: Option<Vec<u8>>,
}

impl View for Position {
    type V = PositionV;

    open spec fn view(&self) -> PositionV {
        PositionV {
            x: self.x@,
            y: self.y@,
            z: self.z@,
            u: match self.u {
                Option::Some(ref b) => Option::Some(b@),
                Option::None => Option::None,
            },
            v: match self.v {
                Option::Some(ref b) => Option::Some(b@),
                Option::None => Option::None,
            },
            w: match self.w {
                Option::Some(ref b) => Option::Some(b@),
                Option::None => Option::None,
            },
        }
    }
}

/// Model of [`NodeEntity`].
#[verifier::ext_equal]
pub ghost struct NodeEntityV {
    pub dim: i32,
    pub tag: i32,
    pub node_tags: Seq<i32>,
    pub node_positions: Seq<PositionV>,
}

/// A node entity block: its node tags and node positions, positionally
/// aligned.
#[derive(Clone, Debug, PartialEq, Eq)]
pub struct NodeEntity {
    pub dim: i32,
    pub tag: i32,
    pub node_tags: Vec<i32>,
    pub node_positions: Vec<Position>,
}

impl View for NodeEntity {
    type V = NodeEntityV;

    open spec fn view(&self) -> NodeEntityV {
        NodeEntityV {
            dim: self.dim,
            tag: self.tag,
            node_tags: self.node_tags@,
            node_positions: self.node_positions@.map_values(|e: Position| e@),
        }
    }
}

/// Model of [`Nodes`].
#[verifier::ext_equal]
pub ghost struct NodesV {
    pub min_node: i32,
    pub max_node: i32,
    pub num_nodes: u64,
    pub entities: Seq<NodeEntityV>,
}

/// The `$Nodes` section: declared totals and the entity blocks. The
/// declared counts are carried, never cross-validated against the records.
#[derive(Clone, Debug, PartialEq, Eq)]
pub struct Nodes {
    pub min_node: i32,
    pub max_node: i32,
    pub num_nodes: u64,
    pub entities: Vec<NodeEntity>,
}

impl View for Nodes {
    type V = NodesV;

    open spec fn view(&self) -> NodesV {
        NodesV {
            min_node: self.min_node,
            max_node: self.max_node,
            num_nodes: self.num_nodes,
            entities: self.entities@.map_values(|e: NodeEntity| e@),
        }
    }
}

/// Model of [`ElementEntity`].
#[verifier::ext_equal]
pub ghost struct ElementEntityV {
    pub dim: i32,
    pub tag: i32,
    pub elements: Seq<TaggedTopology>,
}

/// An element entity block: the tagged topologies it holds.
#[derive(Clone, Debug, PartialEq, Eq)]
pub struct ElementEntity {
    pub dim: i32,
    pub tag: i32,
    pub elements: Vec<TaggedTopology>,
}

impl View for ElementEntity {
    type V = ElementEntityV;

    open spec fn view(&self) -> ElementEntityV {
        ElementEntityV {
            dim: self.dim,
            tag: self.tag,
            elements: self.elements@,
        }
    }
}

/// Model of [`Elements`].
#[verifier::ext_equal]
pub ghost struct ElementsV {
    pub num_elements: u64,
    pub min_tag: i32,
    pub max_tag: i32,
    pub entities: Seq<ElementEntityV>,
}

/// The `$Elements` section: declared totals and the entity blocks.
#[derive(Clone, Debug, PartialEq, Eq)]
pub struct Elements {
    pub num_elements: u64,
    pub min_tag: i32,
    pub max_tag: i32,
    pub entities: Vec<ElementEntity>,
}

impl View for Elements {
    type V = ElementsV;

    open spec fn view(&self) -> ElementsV {
        ElementsV {
            num_elements: self.num_elements,
            min_tag: self.min_tag,
            max_tag: self.max_tag,
            entities: self.entities@.map_values(|e: ElementEntity| e@),
        }
    }
}

/// Model of [`PhysicalName`].
#[verifier::ext_equal]
pub ghost struct PhysicalNameV {
    pub dimension: i32,
    pub tag: i32,
    pub name: Seq<u8>,
}

/// A physical-group name record.
#[derive(Clone, Debug, PartialEq, Eq)]
pub struct PhysicalName {
    pub dimension: i32,
    pub tag: i32,
    pub name: Vec<u8>,
}

impl View for PhysicalName {
    type V = PhysicalNameV;

    open spec fn view(&self) -> PhysicalNameV {
        PhysicalNameV {
            dimension: self.dimension,
            tag: self.tag,
            name: self.name@,
        }
    }
}

/// Model of [`EntityPoint`].
#[verifier::ext_equal]
pub ghost struct EntityPointV {
    pub tag: i32,
    pub x: Seq<u8>,
    pub y: Seq<u8>,
    pub z: Seq<u8>,
    pub physical_tags: Seq<i32>,
}

/// A point record of the `$Entities` section.
#[derive(Clone, Debug, PartialEq, Eq)]
pub struct EntityPoint {
    pub tag: i32,
    pub x: Vec<u8>,
    pub y: Vec<u8>,
    pub z: Vec<u8>,
    pub physical_tags: Vec<i32>,
}

impl View for EntityPoint {
    type V = EntityPointV;

    open spec fn view(&self) -> EntityPointV {
        EntityPointV {
            tag: self.tag,
            x: self.x@,
            y: self.y@,
            z: self.z@,
            physical_tags: self.physical_tags@,
        }
    }
}

/// Model of [`EntityCurve`].
#[verifier::ext_equal]
pub ghost struct EntityCurveV {
    pub tag: i32,
    pub min_x: Seq<u8>,
    pub min_y: Seq<u8>,
    pub min_z: Seq<u8>,
    pub max_x: Seq<u8>,
    pub max_y: Seq<u8>,
    pub max_z: Seq<u8>,
    pub physical_tags: Seq<i32>,
    pub bounding_points: Seq<i32>,
}

/// A curve record of the `$Entities` section: bounding box, physical tags
/// and the tags of the points bounding the curve.
#[derive(Clone, Debug, PartialEq, Eq)]
pub struct EntityCurve {
    pub tag: i32,
    pub min_x: Vec<u8>,
    pub min_y: Vec<u8>,
    pub min_z: Vec<u8>,
    pub max_x: Vec<u8>,
    pub max_y: Vec<u8>,
    pub max_z: Vec<u8>,
    pub physical_tags: Vec<i32>,
    pub bounding_points: Vec<i32>,
}

impl View for EntityCurve {
    type V = EntityCurveV;

    open spec fn view(&self) -> EntityCurveV {
        EntityCurveV {
            tag: self.tag,
            min_x: self.min_x@,
            min_y: self.min_y@,
            min_z: self.min_z@,
            max_x: self.max_x@,
            max_y: self.max_y@,
            max_z: self.max_z@,
            physical_tags: self.physical_tags@,
            bounding_points: self.bounding_points@,
        }
    }
}

/// Model of [`EntitySurface`].
#[verifier::ext_equal]
pub ghost struct EntitySurfaceV {
    pub tag: i32,
    pub min_x: Seq<u8>,
    pub min_y: Seq<u8>,
    pub min_z: Seq<u8>,
    pub max_x: Seq<u8>,
    pub max_y: Seq<u8>,
    pub max_z: Seq<u8>,
    pub physical_tags: Seq<i32>,
    pub bounding_curves: Seq<i32>,
}

/// A surface record of the `$Entities` section.
#[derive(Clone, Debug, PartialEq, Eq)]
pub struct EntitySurface {
    pub tag: i32,
    pub min_x: Vec<u8>,
    pub min_y: Vec<u8>,
    pub min_z: Vec<u8>,
    pub max_x: Vec<u8>,
    pub max_y: Vec<u8>,
    pub max_z: Vec<u8>,
    pub physical_tags: Vec<i32>,
    pub bounding_curves: Vec<i32>,
}

impl View for EntitySurface {
    type V = EntitySurfaceV;

    open spec fn view(&self) -> EntitySurfaceV {
        EntitySurfaceV {
            tag: self.tag,
            min_x: self.min_x@,
            min_y: self.min_y@,
            min_z: self.min_z@,
            max_x: self.max_x@,
            max_y: self.max_y@,
            max_z: self.max_z@,
            physical_tags: self.physical_tags@,
            bounding_curves: self.bounding_curves@,
        }
    }
}

/// Model of [`EntityVolume`].
#[verifier::ext_equal]
pub ghost struct EntityVolumeV {
    pub tag: i32,
    pub min_x: Seq<u8>,
    pub min_y: Seq<u8>,
    pub min_z: Seq<u8>,
    pub max_x: Seq<u8>,
    pub max_y: Seq<u8>,
    pub max_z: Seq<u8>,
    pub physical_tags: Seq<i32>,
    pub bounding_surfaces: Seq<i32>,
}

/// A volume record of the `$Entities` section.
#[derive(Clone, Debug, PartialEq, Eq)]
pub struct EntityVolume {
    pub tag: i32,
    pub min_x: Vec<u8>,
    pub min_y: Vec<u8>,
    pub min_z: Vec<u8>,
    pub max_x: Vec<u8>,
    pub max_y: Vec<u8>,
    pub max_z: Vec<u8>,
    pub physical_tags: Vec<i32>,
    pub bounding_surfaces: Vec<i32>,
}

impl View for EntityVolume {
    type V = EntityVolumeV;

    open spec fn view(&self) -> EntityVolumeV {
        EntityVolumeV {
            tag: self.tag,
            min_x: self.min_x@,
            min_y: self.min_y@,
            min_z: self.min_z@,
            max_x: self.max_x@,
            max_y: self.max_y@,
            max_z: self.max_z@,
            physical_tags: self.physical_tags@,
            bounding_surfaces: self.bounding_surfaces@,
        }
    }
}

/// Model of [`Entities`].
#[verifier::ext_equal]
pub ghost struct EntitiesV {
    pub points: Seq<EntityPointV>,
    pub curves: Seq<EntityCurveV>,
    pub surfaces: Seq<EntitySurfaceV>,
    pub volumes: Seq<EntityVolumeV>,
}

/// The `$Entities` section.
#[derive(Clone, Debug, PartialEq, Eq)]
pub struct Entities {
    pub points: Vec<EntityPoint>,
    pub curves: Vec<EntityCurve>,
    pub surfaces: Vec<EntitySurface>,
    pub volumes: Vec<EntityVolume>,
}

impl View for Entities {
    type V = EntitiesV;

    open spec fn view(&self) -> EntitiesV {
        EntitiesV {
            points: self.points@.map_values(|e: EntityPoint| e@),
            curves: self.curves@.map_values(|e: EntityCurve| e@),
            surfaces: self.surfaces@.map_values(|e: EntitySurface| e@),
            volumes: self.volumes@.map_values(|e: EntityVolume| e@),
        }
    }
}

/// Model of [`PartitionedEntityPoint`].
#[verifier::ext_equal]
pub ghost struct PartitionedEntityPointV {
    pub tag: i32,
    pub parent_dim: i32,
    pub parent_tag: i32,
    pub partition_tags: Seq<i32>,
    pub x: Seq<u8>,
    pub y: Seq<u8>,
    pub z: Seq<u8>,
    pub physical_tags: Seq<i32>,
}

/// A point record of the `$PartitionedEntities` section.
#[derive(Clone, Debug, PartialEq, Eq)]
pub struct PartitionedEntityPoint {
    pub tag: i32,
    pub parent_dim: i32,
    pub parent_tag: i32,
    pub partition_tags: Vec<i32>,
    pub x: Vec<u8>,
    pub y: Vec<u8>,
    pub z: Vec<u8>,
    pub physical_tags: Vec<i32>,
}

impl View for PartitionedEntityPoint {
    type V = PartitionedEntityPointV;

    open spec fn view(&self) -> PartitionedEntityPointV {
        PartitionedEntityPointV {
            tag: self.tag,
            parent_dim: self.parent_dim,
            parent_tag: self.parent_tag,
            partition_tags: self.partition_tags@,
            x: self.x@,
            y: self.y@,
            z: self.z@,
            physical_tags: self.physical_tags@,
        }
    }
}

/// Model of [`PartitionedEntityCurve`].
#[verifier::ext_equal]
pub ghost struct PartitionedEntityCurveV {
    pub tag: i32,
    pub parent_dim: i32,
    pub parent_tag: i32,
    pub partition_tags: Seq<i32>,
    pub min_x: Seq<u8>,
    pub min_y: Seq<u8>,
    pub min_z: Seq<u8>,
    pub max_x: Seq<u8>,
    pub max_y: Seq<u8>,
    pub max_z: Seq<u8>,
    pub physical_tags: Seq<i32>,
    pub bounding_points: Seq<i32>,
}

/// A curve record of the `$PartitionedEntities` section.
#[derive(Clone, Debug, PartialEq, Eq)]
pub struct PartitionedEntityCurve {
    pub tag: i32,
    pub parent_dim: i32,
    pub parent_tag: i32,
    pub partition_tags: Vec<i32>,
    pub min_x: Vec<u8>,
    pub min_y: Vec<u8>,
    pub min_z: Vec<u8>,
    pub max_x: Vec<u8>,
    pub max_y: Vec<u8>,
    pub max_z: Vec<u8>,
    pub physical_tags: Vec<i32>,
    pub bounding_points: Vec<i32>,
}

impl View for PartitionedEntityCurve {
    type V = PartitionedEntityCurveV;

    open spec fn view(&self) -> PartitionedEntityCurveV {
        PartitionedEntityCurveV {
            tag: self.tag,
            parent_dim: self.parent_dim,
            parent_tag: self.parent_tag,
            partition_tags: self.partition_tags@,
            min_x: self.min_x@,
            min_y: self.min_y@,
            min_z: self.min_z@,
            max_x: self.max_x@,
            max_y: self.max_y@,
            max_z: self.max_z@,
            physical_tags: self.physical_tags@,
            bounding_points: self.bounding_points@,
        }
    }
}

/// Model of [`PartitionedEntitySurface`].
#[verifier::ext_equal]
pub ghost struct PartitionedEntitySurfaceV {
    pub tag: i32,
    pub parent_dim: i32,
    pub parent_tag: i32,
    pub partition_tags: Seq<i32>,
    pub min_x: Seq<u8>,
    pub min_y: Seq<u8>,
    pub min_z: Seq<u8>,
    pub max_x: Seq<u8>,
    pub max_y: Seq<u8>,
    pub max_z: Seq<u8>,
    pub physical_tags: Seq<i32>,
    pub bounding_curves: Seq<i32>,
}

/// A surface record of the `$PartitionedEntities` section.
#[derive(Clone, Debug, PartialEq, Eq)]
pub struct PartitionedEntitySurface {
    pub tag: i32,
    pub parent_dim: i32,
    pub parent_tag: i32,
    pub partition_tags: Vec<i32>,
    pub min_x: Vec<u8>,
    pub min_y: Vec<u8>,
    pub min_z: Vec<u8>,
    pub max_x: Vec<u8>,
    pub max_y: Vec<u8>,
    pub max_z: Vec<u8>,
    pub physical_tags: Vec<i32>,
    pub bounding_curves: Vec<i32>,
}

impl View for PartitionedEntitySurface {
    type V = PartitionedEntitySurfaceV;

    open spec fn view(&self) -> PartitionedEntitySurfaceV {
        PartitionedEntitySurfaceV {
            tag: self.tag,
            parent_dim: self.parent_dim,
            parent_tag: self.parent_tag,
            partition_tags: self.partition_tags@,
            min_x: self.min_x@,
            min_y: self.min_y@,
            min_z: self.min_z@,
            max_x: self.max_x@,
            max_y: self.max_y@,
            max_z: self.max_z@,
            physical_tags: self.physical_tags@,
            bounding_curves: self.bounding_curves@,
        }
    }
}

/// Model of [`PartitionedEntityVolume`].
#[verifier::ext_equal]
pub ghost struct PartitionedEntityVolumeV {
    pub tag: i32,
    pub parent_dim: i32,
    pub parent_tag: i32,
    pub partition_tags: Seq<i32>,
    pub min_x: Seq<u8>,
    pub min_y: Seq<u8>,
    pub min_z: Seq<u8>,
    pub max_x: Seq<u8>,
    pub max_y: Seq<u8>,
    pub max_z: Seq<u8>,
    pub physical_tags: Seq<i32>,
    pub bounding_surfaces: Seq<i32>,
}

/// A volume record of the `$PartitionedEntities` section.
#[derive(Clone, Debug, PartialEq, Eq)]
pub struct PartitionedEntityVolume {
    pub tag: i32,
    pub parent_dim: i32,
    pub parent_tag: i32,
    pub partition_tags: Vec<i32>,
    pub min_x: Vec<u8>,
    pub min_y: Vec<u8>,
    pub min_z: Vec<u8>,
    pub max_x: Vec<u8>,
    pub max_y: Vec<u8>,
    pub max_z: Vec<u8>,
    pub physical_tags: Vec<i32>,
    pub bounding_surfaces: Vec<i32>,
}

impl View for PartitionedEntityVolume {
    type V = PartitionedEntityVolumeV;

    open spec fn view(&self) -> PartitionedEntityVolumeV {
        PartitionedEntityVolumeV {
            tag: self.tag,
            parent_dim: self.parent_dim,
            parent_tag: self.parent_tag,
            partition_tags: self.partition_tags@,
            min_x: self.min_x@,
            min_y: self.min_y@,
            min_z: self.min_z@,
            max_x: self.max_x@,
            max_y: self.max_y@,
            max_z: self.max_z@,
            physical_tags: self.physical_tags@,
            bounding_surfaces: self.bounding_surfaces@,
        }
    }
}

/// Model of [`PartitionedEntities`].
#[verifier::ext_equal]
pub ghost struct PartitionedEntitiesV {
    pub num_partitions: u64,
    pub ghosts: Seq<EntityGhost>,
    pub points: Seq<PartitionedEntityPointV>,
    pub curves: Seq<PartitionedEntityCurveV>,
    pub surfaces: Seq<PartitionedEntitySurfaceV>,
    pub volumes: Seq<PartitionedEntityVolumeV>,
}

/// The `$PartitionedEntities` section.
#[derive(Clone, Debug, PartialEq, Eq)]
pub struct PartitionedEntities {
    pub num_partitions: u64,
    pub ghosts: Vec<EntityGhost>,
    pub points: Vec<PartitionedEntityPoint>,
    pub curves: Vec<PartitionedEntityCurve>,
    pub surfaces: Vec<PartitionedEntitySurface>,
    pub volumes: Vec<PartitionedEntityVolume>,
}

impl View for PartitionedEntities {
    type V = PartitionedEntitiesV;

    open spec fn view(&self) -> PartitionedEntitiesV {
        PartitionedEntitiesV {
            num_partitions: self.num_partitions,
            ghosts: self.ghosts@,
            points: self.points@.map_values(|e: PartitionedEntityPoint| e@),
            curves: self.curves@.map_values(|e: PartitionedEntityCurve| e@),
            surfaces: self.surfaces@.map_values(|e: PartitionedEntitySurface| e@),
            volumes: self.volumes@.map_values(|e: PartitionedEntityVolume| e@),
        }
    }
}

/// Model of [`ParametrisationsCurveNode`].
#[verifier::ext_equal]
pub ghost struct ParametrisationsCurveNodeV {
    pub x: Seq<u8>,
    pub y: Seq<u8>,
    pub z: Seq<u8>,
    pub u: Seq<u8>,
}

/// One sample of a curve parametrisation: a position and one parametric
/// coordinate.
#[derive(Clone, Debug, PartialEq, Eq)]
pub struct ParametrisationsCurveNode {
    pub x: Vec<u8>,
    pub y: Vec<u8>,
    pub z: Vec<u8>,
    pub u: Vec<u8>,
}

impl View for ParametrisationsCurveNode {
    type V = ParametrisationsCurveNodeV;

    open spec fn view(&self) -> ParametrisationsCurveNodeV {
        ParametrisationsCurveNodeV {
            x: self.x@,
            y: self.y@,
            z: self.z@,
            u: self.u@,
        }
    }
}

/// Model of [`ParametrisationsCurve`].
#[verifier::ext_equal]
pub ghost struct ParametrisationsCurveV {
    pub tag: i32,
    pub curves: Seq<ParametrisationsCurveNodeV>,
}

/// A curve parametrisation: its polyline samples.
#[derive(Clone, Debug, PartialEq, Eq)]
pub struct ParametrisationsCurve {
    pub tag: i32,
    pub curves: Vec<ParametrisationsCurveNode>,
}

impl View for ParametrisationsCurve {
    type V = ParametrisationsCurveV;

    open spec fn view(&self) -> ParametrisationsCurveV {
        ParametrisationsCurveV {
            tag: self.tag,
            curves: self.curves@.map_values(|e: ParametrisationsCurveNode| e@),
        }
    }
}

/// Model of [`ParametrisationsSurfaceNode`].
#[verifier::ext_equal]
pub ghost struct ParametrisationsSurfaceNodeV {
    pub x: Seq<u8>,
    pub y: Seq<u8>,
    pub z: Seq<u8>,
    pub u: Seq<u8>,
    pub v: Seq<u8>,
    pub max_x: Seq<u8>,
    pub max_y: Seq<u8>,
    pub max_z: Seq<u8>,
    pub min_x: Seq<u8>,
    pub min_y: Seq<u8>,
    pub min_z: Seq<u8>,
}

/// One sample of a surface parametrisation: a position, two parametric
/// coordinates and a redundant bounding box.
#[derive(Clone, Debug, PartialEq, Eq)]
pub struct ParametrisationsSurfaceNode {
    pub x: Vec<u8>,
    pub y: Vec<u8>,
    pub z: Vec<u8>,
    pub u: Vec<u8>,
    pub v: Vec<u8>,
    pub max_x: Vec<u8>,
    pub max_y: Vec<u8>,
    pub max_z: Vec<u8>,
    pub min_x: Vec<u8>,
    pub min_y: Vec<u8>,
    pub min_z: Vec<u8>,
}

impl View for ParametrisationsSurfaceNode {
    type V = ParametrisationsSurfaceNodeV;

    open spec fn view(&self) -> ParametrisationsSurfaceNodeV {
        ParametrisationsSurfaceNodeV {
            x: self.x@,
            y: self.y@,
            z: self.z@,
            u: self.u@,
            v: self.v@,
            max_x: self.max_x@,
            max_y: self.max_y@,
            max_z: self.max_z@,
            min_x: self.min_x@,
            min_y: self.min_y@,
            min_z: self.min_z@,
        }
    }
}

/// Model of [`ParametrisationsSurface`].
#[verifier::ext_equal]
pub ghost struct ParametrisationsSurfaceV {
    pub tag: i32,
    pub nodes: Seq<ParametrisationsSurfaceNodeV>,
    pub triangles: Seq<ParametrisationsSurfaceTriangle>,
}

/// A surface parametrisation: triangulated samples.
#[derive(Clone, Debug, PartialEq, Eq)]
pub struct ParametrisationsSurface {
    pub tag: i32,
    pub nodes: Vec<ParametrisationsSurfaceNode>,
    pub triangles: Vec<ParametrisationsSurfaceTriangle>,
}

impl View for ParametrisationsSurface {
    type V = ParametrisationsSurfaceV;

    open spec fn view(&self) -> ParametrisationsSurfaceV {
        ParametrisationsSurfaceV {
            tag: self.tag,
            nodes: self.nodes@.map_values(|e: ParametrisationsSurfaceNode| e@),
            triangles: self.triangles@,
        }
    }
}

/// Model of [`Parametrisations`].
#[verifier::ext_equal]
pub ghost struct ParametrisationsV {
    pub curves: Seq<ParametrisationsCurveV>,
    pub surfaces: Seq<ParametrisationsSurfaceV>,
}

/// The `$Parametrizations` section.
#[derive(Clone, Debug, PartialEq, Eq)]
pub struct Parametrisations {
    pub curves: Vec<ParametrisationsCurve>,
    pub surfaces: Vec<ParametrisationsSurface>,
}

impl View for Parametrisations {
    type V = ParametrisationsV;

    open spec fn view(&self) -> ParametrisationsV {
        ParametrisationsV {
            curves: self.curves@.map_values(|e: ParametrisationsCurve| e@),
            surfaces: self.surfaces@.map_values(|e: ParametrisationsSurface| e@),
        }
    }
}

/// Model of [`PeriodicLink`].
#[verifier::ext_equal]
pub ghost struct PeriodicLinkV {
    pub dim: i32,
    pub tag: i32,
    pub master: i32,
    pub affine: Seq<Seq<u8>>,
    pub corresponding: Seq<PeriodicLinkNode>,
}

/// A periodic link: the linked entity, its master, the affine coefficient
/// literals and the (dependent, master) node-tag pairs.
#[derive(Clone, Debug, PartialEq, Eq)]
pub struct PeriodicLink {
    pub dim: i32,
    pub tag: i32,
    pub master: i32,
    pub affine: Vec<Vec<u8>>,
    pub corresponding: Vec<PeriodicLinkNode>,
}

impl View for PeriodicLink {
    type V = PeriodicLinkV;

    open spec fn view(&self) -> PeriodicLinkV {
        PeriodicLinkV {
            dim: self.dim,
            tag: self.tag,
            master: self.master,
            affine: self.affine@.map_values(|b: Vec<u8>| b@),
            corresponding: self.corresponding@,
        }
    }
}

/// Model of [`Periodic`].
#[verifier::ext_equal]
pub ghost struct PeriodicV {
    pub links: Seq<PeriodicLinkV>,
}

/// The `$Periodic` section.
#[derive(Clone, Debug, PartialEq, Eq)]
pub struct Periodic {
    pub links: Vec<PeriodicLink>,
}

impl View for Periodic {
    type V = PeriodicV;

    open spec fn view(&self) -> PeriodicV {
        PeriodicV {
            links: self.links@.map_values(|e: PeriodicLink| e@),
        }
    }
}
/// Model of a whole 4.1 document.
#[verifier::ext_equal]
pub ghost struct Mesh4V {
    pub format: FormatV,
    pub entities: Option<EntitiesV>,
    pub partitioned_entities: Option<PartitionedEntitiesV>,
    pub physical_names: Option<Seq<PhysicalNameV>>,
    pub nodes: NodesV,
    pub elements: ElementsV,
    pub periodic: Option<PeriodicV>,
    pub parametrisations: Option<ParametrisationsV>,
}

/// A decoded 4.1 document, before legacy normalisation.
#[derive(Clone, Debug, PartialEq, Eq)]
pub struct Mesh {
    pub format: Format,
    pub entities: Option<Entities>,
    pub partitioned_entities: Option<PartitionedEntities>,
    pub physical_names: Option<Vec<PhysicalName>>,
    pub nodes: Nodes,
    pub elements: Elements,
    pub periodic: Option<Periodic>,
    pub parametrisations: Option<Parametrisations>,
}

impl View for Mesh {
    type V = Mesh4V;

    open spec fn view(&self) -> Mesh4V {
        Mesh4V {
            format: self.format@,
            entities: match self.entities {
                Option::Some(ref e) => Option::Some(e@),
                Option::None => Option::None,
            },
            partitioned_entities: match self.partitioned_entities {
                Option::Some(ref e) => Option::Some(e@),
                Option::None => Option::None,
            },
            physical_names: match self.physical_names {
                Option::Some(ref e) => Option::Some(e@.map_values(|p: PhysicalName| p@)),
                Option::None => Option::None,
            },
            nodes: self.nodes@,
            elements: self.elements@,
            periodic: match self.periodic {
                Option::Some(ref e) => Option::Some(e@),
                Option::None => Option::None,
            },
            parametrisations: match self.parametrisations {
                Option::Some(ref e) => Option::Some(e@),
                Option::None => Option::None,
            },
        }
    }
}


/// The body of the format header block: the version literal, which must be
/// exactly `4.1`, then the file-type and data-size fields, consuming the
/// whole block.
pub open spec fn sp_format_body(s: Seq<u8>, i: int) -> Step<FormatV> {
    match sp_lit(s, i, mk_v41()) {
        Step::Hit { next: j1, .. } => match sp_space1(s, j1) {
            Step::Hit { next: j2, .. } => match sp_i32(s, j2) {
                Step::Hit { next: j3, val: file } => match sp_space1(s, j3) {
                    Step::Hit { next: j4, .. } => match sp_i32(s, j4) {
                        Step::Hit { next: j5, val: size } => Step::Hit {
                            next: j5,
                            val: FormatV { version: mk_v41(), file, size },
                        },
                        st => carry(st),
                    },
                    st => carry(st),
                },
                st => carry(st),
            },
            st => carry(st),
        },
        st => carry(st),
    }
}

/// Decodes the body of the format header block.
fn p_format_body(s: &[u8], i: usize) -> (r: Result<(usize, Format), Fail>)
    requires
        i <= s@.len(),
    ensures
        agrees(s@.len() as int, i as int, r, sp_format_body(s@, i as int), (|f: Format| f@)),
{
    let v41 = lit_v41();
    let (j1, _) = p_lit(s, i, v41.as_slice())?;
    let (j2, _) = p_space1(s, j1)?;
    let (j3, file) = p_i32(s, j2)?;
    let (j4, _) = p_space1(s, j3)?;
    let (j5, size) = p_i32(s, j4)?;
    Ok((j5, Format::new(v41, file, size)))
}

/// Relocates a result decoded inside an extracted block: it must consume
/// the block exactly; its positions are mapped back into the whole buffer,
/// and the block's closing marker is consumed.
pub open spec fn map_block<T>(st: Step<T>, base: int, innerlen: int, after: int) -> Step<T> {
    match st {
        Step::Hit { next, val } => {
            if next == innerlen {
                Step::Hit { next: after, val }
            } else {
                Step::Miss { at: base + next }
            }
        },
        Step::Miss { at } => Step::Miss { at: base + at },
        Step::Fatal { at } => Step::Fatal { at: base + at },
    }
}

/// The format header block: its opening marker, everything up to the first
/// closing marker decoded as the header body, then the closing marker.
pub open spec fn sp_format_block(s: Seq<u8>, i: int) -> Step<FormatV> {
    match sp_lit(s, i, mk_mesh_format_nl()) {
        Step::Hit { next: j1, .. } => match sp_find(s, j1, mk_nl_end_mesh_format()) {
            Option::Some(m) => map_block(
                sp_format_body(s.subrange(j1, m), 0),
                j1,
                m - j1,
                m + mk_nl_end_mesh_format().len(),
            ),
            Option::None => Step::Miss { at: j1 },
        },
        st => carry(st),
    }
}

/// Decodes the format header block.
pub fn p_format_block(s: &[u8], i: usize) -> (r: Result<(usize, Format), Fail>)
    requires
        i <= s@.len(),
    ensures
        agrees(s@.len() as int, i as int, r, sp_format_block(s@, i as int), (|f: Format| f@)),
{
    let lit = lit_mesh_format_nl();
    let (j1, _) = p_lit(s, i, lit.as_slice())?;
    let endlit = lit_nl_end_mesh_format();
    match find_lit(s, j1, endlit.as_slice()) {
        Some(m) => {
            let total = s.len();
            proof {
                assert(m + endlit@.len() <= total);
            }
            let inner = slice_subrange(s, j1, m);
            match p_format_body(inner, 0) {
                Ok((next, f)) => {
                    if next == inner.len() {
                        Ok((m + endlit.len(), f))
                    } else {
                        Err(Fail::miss(j1 + next))
                    }
                },
                Err(e) => Err(Fail { at: j1 + e.at, fatal: e.fatal }),
            }
        },
        None => Err(Fail::miss(j1)),
    }
}

/// The `$Elements` block: everything up to the first closing marker decoded
/// as the section body.
pub open spec fn sp_elements_block(s: Seq<u8>, i: int) -> Step<ElementsV> {
    match sp_lit(s, i, mk_elements_nl()) {
        Step::Hit { next: j1, .. } => match sp_find(s, j1, mk_end_elements()) {
            Option::Some(m) => map_block(
                sections::sp_elements_body(s.subrange(j1, m), 0),
                j1,
                m - j1,
                m + mk_end_elements().len(),
            ),
            Option::None => Step::Miss { at: j1 },
        },
        st => carry(st),
    }
}

/// Decodes the `$Elements` block.
fn p_elements_block(s: &[u8], i: usize) -> (r: Result<(usize, Elements), Fail>)
    requires
        i <= s@.len(),
    ensures
        agrees(
            s@.len() as int,
            i as int,
            r,
            sp_elements_block(s@, i as int),
            (|v: Elements| v@),
        ),
{
    let lit = lit_elements_nl();
    let (j1, _) = p_lit(s, i, lit.as_slice())?;
    let endlit = lit_end_elements();
    match find_lit(s, j1, endlit.as_slice()) {
        Some(m) => {
            let total = s.len();
            proof {
                assert(m + endlit@.len() <= total);
            }
            let inner = slice_subrange(s, j1, m);
            match sections::p_elements_body(inner, 0) {
                Ok((next, v)) => {
                    if next == inner.len() {
                        Ok((m + endlit.len(), v))
                    } else {
                        Err(Fail::miss(j1 + next))
                    }
                },
                Err(e) => Err(Fail { at: j1 + e.at, fatal: e.fatal }),
            }
        },
        None => Err(Fail::miss(j1)),
    }
}

/// The `$Parametrizations` block.
pub open spec fn sp_parametrisations_block(s: Seq<u8>, i: int) -> Step<ParametrisationsV> {
    match sp_lit(s, i, mk_parametrizations_nl()) {
        Step::Hit { next: j1, .. } => match sp_find(s, j1, mk_end_parametrizations()) {
            Option::Some(m) => map_block(
                sections::sp_parametrisations_body(s.subrange(j1, m), 0),
                j1,
                m - j1,
                m + mk_end_parametrizations().len(),
            ),
            Option::None => Step::Miss { at: j1 },
        },
        st => carry(st),
    }
}

/// Decodes the `$Parametrizations` block.
#[verifier::rlimit(60)]
fn p_parametrisations_block(s: &[u8], i: usize) -> (r: Result<(usize, Parametrisations), Fail>)
    requires
        i <= s@.len(),
    ensures
        agrees(
            s@.len() as int,
            i as int,
            r,
            sp_parametrisations_block(s@, i as int),
            (|v: Parametrisations| v@),
        ),
{
    let lit = lit_parametrizations_nl();
    let (j1, _) = p_lit(s, i, lit.as_slice())?;
    let endlit = lit_end_parametrizations();
    match find_lit(s, j1, endlit.as_slice()) {
        Some(m) => {
            let total = s.len();
            proof {
                assert(m + endlit@.len() <= total);
            }
            let inner = slice_subrange(s, j1, m);
            match sections::p_parametrisations_body(inner, 0) {
                Ok((next, v)) => {
                    if next == inner.len() {
                        Ok((m + endlit.len(), v))
                    } else {
                        Err(Fail::miss(j1 + next))
                    }
                },
                Err(e) => Err(Fail { at: j1 + e.at, fatal: e.fatal }),
            }
        },
        None => Err(Fail::miss(j1)),
    }
}

/// The `$Periodic` block.
pub open spec fn sp_periodic_block(s: Seq<u8>, i: int) -> Step<PeriodicV> {
    match sp_lit(s, i, mk_periodic_nl()) {
        Step::Hit { next: j1, .. } => match sp_find(s, j1, mk_end_periodic()) {
            Option::Some(m) => map_block(
                sections::sp_periodic_body(s.subrange(j1, m), 0),
                j1,
                m - j1,
                m + mk_end_periodic().len(),
            ),
            Option::None => Step::Miss { at: j1 },
        },
        st => carry(st),
    }
}

/// Decodes the `$Periodic` block.
fn p_periodic_block(s: &[u8], i: usize) -> (r: Result<(usize, Periodic), Fail>)
    requires
        i <= s@.len(),
    ensures
        agrees(
            s@.len() as int,
            i as int,
            r,
            sp_periodic_block(s@, i as int),
            (|v: Periodic| v@),
        ),
{
    let lit = lit_periodic_nl();
    let (j1, _) = p_lit(s, i, lit.as_slice())?;
    let endlit = lit_end_periodic();
    match find_lit(s, j1, endlit.as_slice()) {
        Some(m) => {
            let total = s.len();
            proof {
                assert(m + endlit@.len() <= total);
            }
            let inner = slice_subrange(s, j1, m);
            match sections::p_periodic_body(inner, 0) {
                Ok((next, v)) => {
                    if next == inner.len() {
                        Ok((m + endlit.len(), v))
                    } else {
                        Err(Fail::miss(j1 + next))
                    }
                },
                Err(e) => Err(Fail { at: j1 + e.at, fatal: e.fatal }),
            }
        },
        None => Err(Fail::miss(j1)),
    }
}

/// An optional section followed by a newline: a miss anywhere in it, the
/// newline included, leaves the input untouched and yields nothing; a fatal
/// fault still aborts.
pub open spec fn sp_opt_nl<T>(s: Seq<u8>, orig: int, st: Step<T>) -> Step<Option<T>> {
    match st {
        Step::Hit { next, val } => match sp_newline(s, next) {
            Step::Hit { next: n2, .. } => Step::Hit { next: n2, val: Option::Some(val) },
            _ => Step::Hit { next: orig, val: Option::None },
        },
        Step::Miss { .. } => Step::Hit { next: orig, val: Option::None },
        Step::Fatal { at } => Step::Fatal { at },
    }
}

/// The whole 4.1 document, trailing input allowed: the format header block,
/// the optional physical-name, entity and partitioned-entity sections, the
/// node section, the element block, and the optional parametrisation and
/// periodic blocks, each section ending in a newline.
pub open spec fn sp_mesh_inner(s: Seq<u8>, i: int) -> Step<Mesh4V> {
    match sp_format_block(s, i) {
        Step::Hit { next: f1, val: format } => match sp_newline(s, f1) {
            Step::Hit { next: j0, .. } => match sp_opt_nl(
                s,
                j0,
                sections::sp_physical_names(s, j0),
            ) {
                Step::Hit { next: j1, val: physical_names } => match sp_opt_nl(
                    s,
                    j1,
                    sections::sp_entities(s, j1),
                ) {
                    Step::Hit { next: j2, val: entities } => match sp_opt_nl(
                        s,
                        j2,
                        sections::sp_partitioned_entities(s, j2),
                    ) {
                        Step::Hit { next: j3, val: partitioned_entities } => match sections::sp_nodes_section(
                            s,
                            j3,
                        ) {
                            Step::Hit { next: j4, val: nodes } => match sp_newline(s, j4) {
                                Step::Hit { next: j5, .. } => match sp_elements_block(s, j5) {
                                    Step::Hit { next: j6, val: elements } => match sp_newline(
                                        s,
                                        j6,
                                    ) {
                                        Step::Hit { next: j7, .. } => match sp_opt_nl(
                                            s,
                                            j7,
                                            sp_parametrisations_block(s, j7),
                                        ) {
                                            Step::Hit { next: j8, val: parametrisations } => match sp_opt_nl(
                                                s,
                                                j8,
                                                sp_periodic_block(s, j8),
                                            ) {
                                                Step::Hit { next: j9, val: periodic } => Step::Hit {
                                                    next: j9,
                                                    val: Mesh4V {
                                                        format,
                                                        entities,
                                                        partitioned_entities,
                                                        physical_names,
                                                        nodes,
                                                        elements,
                                                        periodic,
                                                        parametrisations,
                                                    },
                                                },
                                                st => carry(st),
                                            },
                                            st => carry(st),
                                        },
                                        st => carry(st),
                                    },
                                    st => carry(st),
                                },
                                st => carry(st),
                            },
                            st => carry(st),
                        },
                        st => carry(st),
                    },
                    st => carry(st),
                },
                st => carry(st),
            },
            st => carry(st),
        },
        st => carry(st),
    }
}

/// The whole 4.1 document with nothing after it: the dialect accepts a
/// buffer only when it is consumed entirely.
pub open spec fn sp_mesh(s: Seq<u8>, i: int) -> Step<Mesh4V> {
    match sp_mesh_inner(s, i) {
        Step::Hit { next, val } => {
            if next == s.len() {
                Step::Hit { next, val }
            } else {
                Step::Miss { at: next }
            }
        },
        st => carry(st),
    }
}

/// Decodes a whole 4.1 document into the intermediate model.
#[verifier::rlimit(80)]
pub fn mesh(s: &[u8], i: usize) -> (r: Result<(usize, Mesh), Fail>)
    requires
        i <= s@.len(),
    ensures
        agrees(s@.len() as int, i as int, r, sp_mesh(s@, i as int), (|m: Mesh| m@)),
{
    let (f1, format) = p_format_block(s, i)?;
    let (j0, _) = p_newline(s, f1)?;
    let (j1, physical_names) = match sections::p_physical_names(s, j0) {
        Ok((n, v)) => match p_newline(s, n) {
            Ok((n2, _)) => (n2, Some(v)),
            Err(_) => (j0, None),
        },
        Err(e) => {
            if e.fatal {
                return Err(e);
            } else {
                (j0, None)
            }
        },
    };
    let (j2, entities) = match sections::p_entities(s, j1) {
        Ok((n, v)) => match p_newline(s, n) {
            Ok((n2, _)) => (n2, Some(v)),
            Err(_) => (j1, None),
        },
        Err(e) => {
            if e.fatal {
                return Err(e);
            } else {
                (j1, None)
            }
        },
    };
    let (j3, partitioned_entities) = match sections::p_partitioned_entities(s, j2) {
        Ok((n, v)) => match p_newline(s, n) {
            Ok((n2, _)) => (n2, Some(v)),
            Err(_) => (j2, None),
        },
        Err(e) => {
            if e.fatal {
                return Err(e);
            } else {
                (j2, None)
            }
        },
    };
    let (j4, nodes) = sections::p_nodes_section(s, j3)?;
    let (j5, _) = p_newline(s, j4)?;
    let (j6, elements) = p_elements_block(s, j5)?;
    let (j7, _) = p_newline(s, j6)?;
    let (j8, parametrisations) = match p_parametrisations_block(s, j7) {
        Ok((n, v)) => match p_newline(s, n) {
            Ok((n2, _)) => (n2, Some(v)),
            Err(_) => (j7, None),
        },
        Err(e) => {
            if e.fatal {
                return Err(e);
            } else {
                (j7, None)
            }
        },
    };
    let (j9, periodic) = match p_periodic_block(s, j8) {
        Ok((n, v)) => match p_newline(s, n) {
            Ok((n2, _)) => (n2, Some(v)),
            Err(_) => (j8, None),
        },
        Err(e) => {
            if e.fatal {
                return Err(e);
            } else {
                (j8, None)
            }
        },
    };
    if j9 != s.len() {
        return Err(Fail::miss(j9));
    }
    Ok((
        j9,
        Mesh {
            format,
            entities,
            partitioned_entities,
            physical_names,
            nodes,
            elements,
            periodic,
            parametrisations,
        },
    ))
}

/// The node pairs one entity block contributes to the canonical node map:
/// its tag list zipped positionally with its position list, parametric
/// coordinates dropped.
pub open spec fn zip_entity_nodes(e: NodeEntityV) -> Seq<(i32, NodeV)> {
    let n = if e.node_tags.len() <= e.node_positions.len() {
        e.node_tags.len()
    } else {
        e.node_positions.len()
    };
    Seq::new(
        n,
        |k: int|
            (
                e.node_tags[k],
                NodeV {
                    x: e.node_positions[k].x,
                    y: e.node_positions[k].y,
                    z: e.node_positions[k].z,
                },
            ),
    )
}

/// The node pairs of all entity blocks, in block order.
pub open spec fn legacy_node_pairs(es: Seq<NodeEntityV>) -> Seq<(i32, NodeV)>
    decreases es.len(),
{
    if es.len() == 0 {
        Seq::empty()
    } else {
        legacy_node_pairs(es.drop_last()) + zip_entity_nodes(es.last())
    }
}

/// The element pairs one element block contributes to the canonical element
/// map: each contained element keyed by its own tag, with the block's
/// entity tag in the physical slot and zero in the elementary slot — the
/// deliberate lossy projection of the legacy normaliser.
pub open spec fn entity_elem_pairs(e: ElementEntityV) -> Seq<(i32, (i32, i32, Topology))> {
    e.elements.map_values(|tt: TaggedTopology| (tt.tag, (e.tag, 0i32, tt.topology)))
}

/// The element pairs of all element blocks, in block order.
pub open spec fn legacy_elem_pairs(es: Seq<ElementEntityV>) -> Seq<(i32, (i32, i32, Topology))>
    decreases es.len(),
{
    if es.len() == 0 {
        Seq::empty()
    } else {
        legacy_elem_pairs(es.drop_last()) + entity_elem_pairs(es.last())
    }
}

/// The legacy projection of a 4.1 document: the format header kept, every
/// entity block's nodes flattened into the node map, every element block's
/// elements flattened into the element map, all other sections dropped.
pub open spec fn legacy_of(m: Mesh4V) -> MeshV {
    MeshV {
        format: Option::Some(m.format),
        nodes: map_of(legacy_node_pairs(m.nodes.entities)),
        elements: map_of(legacy_elem_pairs(m.elements.entities)),
    }
}

impl Mesh {
    /// Projects the intermediate model down to the canonical mesh: a lossy,
    /// one-way normalisation that keeps node positions and tagged
    /// topologies and drops every other section.
    pub fn to_legacy(self) -> (r: crate::mesh::Mesh)
        ensures
            r@ == legacy_of(self@),
    {
        let Mesh { format, nodes: onodes, elements: oelements, .. } = self;
        let ghost nevs = onodes.entities@.map_values(|e: NodeEntity| e@);
        let mut nodes: crate::mesh::Nodes = HashMap::new();
        let mut k: usize = 0;
        proof {
            assert(nodes@.map_values(|n: Node| n@) =~= map_of(
                legacy_node_pairs(nevs.take(0)),
            ));
            assert(nevs.take(0) =~= Seq::<NodeEntityV>::empty());
        }
        while k < onodes.entities.len()
            invariant
                k <= onodes.entities.len(),
                nevs == onodes.entities@.map_values(|e: NodeEntity| e@),
                nodes@.map_values(|n: Node| n@) == map_of(legacy_node_pairs(nevs.take(k as int))),
            decreases onodes.entities@.len() - k,
        {
            let ent = &onodes.entities[k];
            let ghost ev = nevs[k as int];
            proof {
                assert(ev == ent@);
            }
            let n: usize = if ent.node_tags.len() <= ent.node_positions.len() {
                ent.node_tags.len()
            } else {
                ent.node_positions.len()
            };
            let ghost zipped = zip_entity_nodes(ev);
            let ghost base = legacy_node_pairs(nevs.take(k as int));
            let mut j: usize = 0;
            proof {
                assert(base + zipped.take(0) =~= base);
            }
            while j < n
                invariant
                    j <= n,
                    n <= ent.node_tags@.len() && n <= ent.node_positions@.len(),
                    ev == ent@,
                    zipped == zip_entity_nodes(ev),
                    zipped.len() == n,
                    nodes@.map_values(|nd: Node| nd@) == map_of(base + zipped.take(j as int)),
                decreases n - j,
            {
                let id = ent.node_tags[j];
                let p = &ent.node_positions[j];
                let nd = Node::new(copy_bytes(&p.x), copy_bytes(&p.y), copy_bytes(&p.z));
                proof {
                    assert(zipped[j as int] == (id, nd@));
                    assert((base + zipped.take(j + 1)).drop_last() =~= base + zipped.take(
                        j as int,
                    ));
                    assert((base + zipped.take(j + 1)).last() == zipped[j as int]);
                }
                let ghost prev = nodes@;
                nodes.insert(id, nd);
                proof {
                    assert(nodes@.map_values(|x: Node| x@) =~= map_of(
                        base + zipped.take(j as int),
                    ).insert(id, nd@));
                }
                j = j + 1;
            }
            proof {
                assert(zipped.take(n as int) =~= zipped);
                assert(nevs.take(k + 1).drop_last() =~= nevs.take(k as int));
                assert(nevs.take(k + 1).last() == ev);
            }
            k = k + 1;
        }
        proof {
            assert(nevs.take(onodes.entities@.len() as int) =~= nevs);
        }
        let ghost eevs = oelements.entities@.map_values(|e: ElementEntity| e@);
        let mut elements: crate::mesh::Elements = HashMap::new();
        let mut k2: usize = 0;
        proof {
            assert(elements@.map_values(|v: (i32, i32, Topology)| v) =~= map_of(
                legacy_elem_pairs(eevs.take(0)),
            ));
            assert(eevs.take(0) =~= Seq::<ElementEntityV>::empty());
        }
        while k2 < oelements.entities.len()
            invariant
                k2 <= oelements.entities.len(),
                eevs == oelements.entities@.map_values(|e: ElementEntity| e@),
                elements@.map_values(|v: (i32, i32, Topology)| v) == map_of(
                    legacy_elem_pairs(eevs.take(k2 as int)),
                ),
            decreases oelements.entities@.len() - k2,
        {
            let ent = &oelements.entities[k2];
            let ghost ev = eevs[k2 as int];
            proof {
                assert(ev == ent@);
            }
            let etag = ent.tag;
            let ghost pairs = entity_elem_pairs(ev);
            let ghost base = legacy_elem_pairs(eevs.take(k2 as int));
            let mut j: usize = 0;
            proof {
                assert(base + pairs.take(0) =~= base);
            }
            while j < ent.elements.len()
                invariant
                    j <= ent.elements@.len(),
                    ev == ent@,
                    etag == ent.tag,
                    pairs == entity_elem_pairs(ev),
                    pairs.len() == ent.elements@.len(),
                    elements@.map_values(|v: (i32, i32, Topology)| v) == map_of(
                        base + pairs.take(j as int),
                    ),
                decreases ent.elements@.len() - j,
            {
                let tt = ent.elements[j];
                proof {
                    assert(pairs[j as int] == (tt.tag, (etag, 0i32, tt.topology)));
                    assert((base + pairs.take(j + 1)).drop_last() =~= base + pairs.take(
                        j as int,
                    ));
                    assert((base + pairs.take(j + 1)).last() == pairs[j as int]);
                }
                elements.insert(tt.tag, (etag, 0, tt.topology));
                proof {
                    assert(elements@.map_values(|v: (i32, i32, Topology)| v) =~= map_of(
                        base + pairs.take(j as int),
                    ).insert(tt.tag, (etag, 0i32, tt.topology)));
                }
                j = j + 1;
            }
            proof {
                assert(pairs.take(ent.elements@.len() as int) =~= pairs);
                assert(eevs.take(k2 + 1).drop_last() =~= eevs.take(k2 as int));
                assert(eevs.take(k2 + 1).last() == ev);
            }
            k2 = k2 + 1;
        }
        proof {
            assert(eevs.take(oelements.entities@.len() as int) =~= eevs);
            assert(elements@.map_values(|v: (i32, i32, Topology)| v) =~= elements@);
        }
        crate::mesh::Mesh::new(Some(format), nodes, elements)
    }
}

} // verus!
