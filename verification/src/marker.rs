//! The byte-exact section markers of the three dialects.

use vstd::prelude::*;

verus! {

/// The marker `$NOD`.
pub open spec fn mk_nod() -> Seq<u8> {
    seq![36u8, 78u8, 79u8, 68u8]
}

/// Builds the marker `$NOD` as bytes.
pub fn lit_nod() -> (v: Vec<u8>)
    ensures
        v@ == mk_nod(),
        v@.len() >= 1,
{
    let v: Vec<u8> = vec![36u8, 78u8, 79u8, 68u8];
    proof {
        assert(v@ =~= mk_nod());
    }
    v
}

/// The marker `$ENDNOD`.
pub open spec fn mk_endnod() -> Seq<u8> {
    seq![36u8, 69u8, 78u8, 68u8, 78u8, 79u8, 68u8]
}

/// Builds the marker `$ENDNOD` as bytes.
pub fn lit_endnod() -> (v: Vec<u8>)
    ensures
        v@ == mk_endnod(),
        v@.len() >= 1,
{
    let v: Vec<u8> = vec![36u8, 69u8, 78u8, 68u8, 78u8, 79u8, 68u8];
    proof {
        assert(v@ =~= mk_endnod());
    }
    v
}

/// The marker `$ELM`.
pub open spec fn mk_elm() -> Seq<u8> {
    seq![36u8, 69u8, 76u8, 77u8]
}

/// Builds the marker `$ELM` as bytes.
pub fn lit_elm() -> (v: Vec<u8>)
    ensures
        v@ == mk_elm(),
        v@.len() >= 1,
{
    let v: Vec<u8> = vec![36u8, 69u8, 76u8, 77u8];
    proof {
        assert(v@ =~= mk_elm());
    }
    v
}

/// The marker `$ENDELM`.
pub open spec fn mk_endelm() -> Seq<u8> {
    seq![36u8, 69u8, 78u8, 68u8, 69u8, 76u8, 77u8]
}

/// Builds the marker `$ENDELM` as bytes.
pub fn lit_endelm() -> (v: Vec<u8>)
    ensures
        v@ == mk_endelm(),
        v@.len() >= 1,
{
    let v: Vec<u8> = vec![36u8, 69u8, 78u8, 68u8, 69u8, 76u8, 77u8];
    proof {
        assert(v@ =~= mk_endelm());
    }
    v
}

/// The marker `$MeshFormat`.
pub open spec fn mk_mesh_format() -> Seq<u8> {
    seq![36u8, 77u8, 101u8, 115u8, 104u8, 70u8, 111u8, 114u8, 109u8, 97u8, 116u8]
}

/// Builds the marker `$MeshFormat` as bytes.
pub fn lit_mesh_format() -> (v: Vec<u8>)
    ensures
        v@ == mk_mesh_format(),
        v@.len() >= 1,
{
    let v: Vec<u8> = vec![36u8, 77u8, 101u8, 115u8, 104u8, 70u8, 111u8, 114u8, 109u8, 97u8, 116u8];
    proof {
        assert(v@ =~= mk_mesh_format());
    }
    v
}

/// The marker `$EndMeshFormat`.
pub open spec fn mk_end_mesh_format() -> Seq<u8> {
    seq![36u8, 69u8, 110u8, 100u8, 77u8, 101u8, 115u8, 104u8, 70u8, 111u8, 114u8, 109u8, 97u8, 116u8]
}

/// Builds the marker `$EndMeshFormat` as bytes.
pub fn lit_end_mesh_format() -> (v: Vec<u8>)
    ensures
        v@ == mk_end_mesh_format(),
        v@.len() >= 1,
{
    let v: Vec<u8> = vec![36u8, 69u8, 110u8, 100u8, 77u8, 101u8, 115u8, 104u8, 70u8, 111u8, 114u8, 109u8, 97u8, 116u8];
    proof {
        assert(v@ =~= mk_end_mesh_format());
    }
    v
}

/// The marker `$Nodes`.
pub open spec fn mk_nodes() -> Seq<u8> {
    seq![36u8, 78u8, 111u8, 100u8, 101u8, 115u8]
}

/// Builds the marker `$Nodes` as bytes.
pub fn lit_nodes() -> (v: Vec<u8>)
    ensures
        v@ == mk_nodes(),
        v@.len() >= 1,
{
    let v: Vec<u8> = vec![36u8, 78u8, 111u8, 100u8, 101u8, 115u8];
    proof {
        assert(v@ =~= mk_nodes());
    }
    v
}

/// The marker `$EndNodes`.
pub open spec fn mk_end_nodes() -> Seq<u8> {
    seq![36u8, 69u8, 110u8, 100u8, 78u8, 111u8, 100u8, 101u8, 115u8]
}

/// Builds the marker `$EndNodes` as bytes.
pub fn lit_end_nodes() -> (v: Vec<u8>)
    ensures
        v@ == mk_end_nodes(),
        v@.len() >= 1,
{
    let v: Vec<u8> = vec![36u8, 69u8, 110u8, 100u8, 78u8, 111u8, 100u8, 101u8, 115u8];
    proof {
        assert(v@ =~= mk_end_nodes());
    }
    v
}

/// The marker `$Elements`.
pub open spec fn mk_elements() -> Seq<u8> {
    seq![36u8, 69u8, 108u8, 101u8, 109u8, 101u8, 110u8, 116u8, 115u8]
}

/// Builds the marker `$Elements` as bytes.
pub fn lit_elements() -> (v: Vec<u8>)
    ensures
        v@ == mk_elements(),
        v@.len() >= 1,
{
    let v: Vec<u8> = vec![36u8, 69u8, 108u8, 101u8, 109u8, 101u8, 110u8, 116u8, 115u8];
    proof {
        assert(v@ =~= mk_elements());
    }
    v
}

/// The marker `$EndElements`.
pub open spec fn mk_end_elements() -> Seq<u8> {
    seq![36u8, 69u8, 110u8, 100u8, 69u8, 108u8, 101u8, 109u8, 101u8, 110u8, 116u8, 115u8]
}

/// Builds the marker `$EndElements` as bytes.
pub fn lit_end_elements() -> (v: Vec<u8>)
    ensures
        v@ == mk_end_elements(),
        v@.len() >= 1,
{
    let v: Vec<u8> = vec![36u8, 69u8, 110u8, 100u8, 69u8, 108u8, 101u8, 109u8, 101u8, 110u8, 116u8, 115u8];
    proof {
        assert(v@ =~= mk_end_elements());
    }
    v
}

/// The marker `$PhysicalNames`.
pub open spec fn mk_physical_names() -> Seq<u8> {
    seq![36u8, 80u8, 104u8, 121u8, 115u8, 105u8, 99u8, 97u8, 108u8, 78u8, 97u8, 109u8, 101u8, 115u8]
}

/// Builds the marker `$PhysicalNames` as bytes.
pub fn lit_physical_names() -> (v: Vec<u8>)
    ensures
        v@ == mk_physical_names(),
        v@.len() >= 1,
{
    let v: Vec<u8> = vec![36u8, 80u8, 104u8, 121u8, 115u8, 105u8, 99u8, 97u8, 108u8, 78u8, 97u8, 109u8, 101u8, 115u8];
    proof {
        assert(v@ =~= mk_physical_names());
    }
    v
}

/// The marker `$EndPhysicalNames`.
pub open spec fn mk_end_physical_names() -> Seq<u8> {
    seq![36u8, 69u8, 110u8, 100u8, 80u8, 104u8, 121u8, 115u8, 105u8, 99u8, 97u8, 108u8, 78u8, 97u8, 109u8, 101u8, 115u8]
}

/// Builds the marker `$EndPhysicalNames` as bytes.
pub fn lit_end_physical_names() -> (v: Vec<u8>)
    ensures
        v@ == mk_end_physical_names(),
        v@.len() >= 1,
{
    let v: Vec<u8> = vec![36u8, 69u8, 110u8, 100u8, 80u8, 104u8, 121u8, 115u8, 105u8, 99u8, 97u8, 108u8, 78u8, 97u8, 109u8, 101u8, 115u8];
    proof {
        assert(v@ =~= mk_end_physical_names());
    }
    v
}

/// The marker `$Entities`.
pub open spec fn mk_entities() -> Seq<u8> {
    seq![36u8, 69u8, 110u8, 116u8, 105u8, 116u8, 105u8, 101u8, 115u8]
}

/// Builds the marker `$Entities` as bytes.
pub fn lit_entities() -> (v: Vec<u8>)
    ensures
        v@ == mk_entities(),
        v@.len() >= 1,
{
    let v: Vec<u8> = vec![36u8, 69u8, 110u8, 116u8, 105u8, 116u8, 105u8, 101u8, 115u8];
    proof {
        assert(v@ =~= mk_entities());
    }
    v
}

/// The marker `$EndEntities`.
pub open spec fn mk_end_entities() -> Seq<u8> {
    seq![36u8, 69u8, 110u8, 100u8, 69u8, 110u8, 116u8, 105u8, 116u8, 105u8, 101u8, 115u8]
}

/// Builds the marker `$EndEntities` as bytes.
pub fn lit_end_entities() -> (v: Vec<u8>)
    ensures
        v@ == mk_end_entities(),
        v@.len() >= 1,
{
    let v: Vec<u8> = vec![36u8, 69u8, 110u8, 100u8, 69u8, 110u8, 116u8, 105u8, 116u8, 105u8, 101u8, 115u8];
    proof {
        assert(v@ =~= mk_end_entities());
    }
    v
}

/// The marker `$PartitionedEntities`.
pub open spec fn mk_partitioned_entities() -> Seq<u8> {
    seq![36u8, 80u8, 97u8, 114u8, 116u8, 105u8, 116u8, 105u8, 111u8, 110u8, 101u8, 100u8, 69u8, 110u8, 116u8, 105u8, 116u8, 105u8, 101u8, 115u8]
}

/// Builds the marker `$PartitionedEntities` as bytes.
pub fn lit_partitioned_entities() -> (v: Vec<u8>)
    ensures
        v@ == mk_partitioned_entities(),
        v@.len() >= 1,
{
    let v: Vec<u8> = vec![36u8, 80u8, 97u8, 114u8, 116u8, 105u8, 116u8, 105u8, 111u8, 110u8, 101u8, 100u8, 69u8, 110u8, 116u8, 105u8, 116u8, 105u8, 101u8, 115u8];
    proof {
        assert(v@ =~= mk_partitioned_entities());
    }
    v
}

/// The marker `$EndPartitionedEntities`.
pub open spec fn mk_end_partitioned_entities() -> Seq<u8> {
    seq![36u8, 69u8, 110u8, 100u8, 80u8, 97u8, 114u8, 116u8, 105u8, 116u8, 105u8, 111u8, 110u8, 101u8, 100u8, 69u8, 110u8, 116u8, 105u8, 116u8, 105u8, 101u8, 115u8]
}

/// Builds the marker `$EndPartitionedEntities` as bytes.
pub fn lit_end_partitioned_entities() -> (v: Vec<u8>)
    ensures
        v@ == mk_end_partitioned_entities(),
        v@.len() >= 1,
{
    let v: Vec<u8> = vec![36u8, 69u8, 110u8, 100u8, 80u8, 97u8, 114u8, 116u8, 105u8, 116u8, 105u8, 111u8, 110u8, 101u8, 100u8, 69u8, 110u8, 116u8, 105u8, 116u8, 105u8, 101u8, 115u8];
    proof {
        assert(v@ =~= mk_end_partitioned_entities());
    }
    v
}

/// The marker `$EndParametrizations`.
pub open spec fn mk_end_parametrizations() -> Seq<u8> {
    seq![36u8, 69u8, 110u8, 100u8, 80u8, 97u8, 114u8, 97u8, 109u8, 101u8, 116u8, 114u8, 105u8, 122u8, 97u8, 116u8, 105u8, 111u8, 110u8, 115u8]
}

/// Builds the marker `$EndParametrizations` as bytes.
pub fn lit_end_parametrizations() -> (v: Vec<u8>)
    ensures
        v@ == mk_end_parametrizations(),
        v@.len() >= 1,
{
    let v: Vec<u8> = vec![36u8, 69u8, 110u8, 100u8, 80u8, 97u8, 114u8, 97u8, 109u8, 101u8, 116u8, 114u8, 105u8, 122u8, 97u8, 116u8, 105u8, 111u8, 110u8, 115u8];
    proof {
        assert(v@ =~= mk_end_parametrizations());
    }
    v
}

/// The marker `$EndPeriodic`.
pub open spec fn mk_end_periodic() -> Seq<u8> {
    seq![36u8, 69u8, 110u8, 100u8, 80u8, 101u8, 114u8, 105u8, 111u8, 100u8, 105u8, 99u8]
}

/// Builds the marker `$EndPeriodic` as bytes.
pub fn lit_end_periodic() -> (v: Vec<u8>)
    ensures
        v@ == mk_end_periodic(),
        v@.len() >= 1,
{
    let v: Vec<u8> = vec![36u8, 69u8, 110u8, 100u8, 80u8, 101u8, 114u8, 105u8, 111u8, 100u8, 105u8, 99u8];
    proof {
        assert(v@ =~= mk_end_periodic());
    }
    v
}

/// The marker `$MeshFormat\n`.
pub open spec fn mk_mesh_format_nl() -> Seq<u8> {
    seq![36u8, 77u8, 101u8, 115u8, 104u8, 70u8, 111u8, 114u8, 109u8, 97u8, 116u8, 10u8]
}

/// Builds the marker `$MeshFormat\n` as bytes.
pub fn lit_mesh_format_nl() -> (v: Vec<u8>)
    ensures
        v@ == mk_mesh_format_nl(),
        v@.len() >= 1,
{
    let v: Vec<u8> = vec![36u8, 77u8, 101u8, 115u8, 104u8, 70u8, 111u8, 114u8, 109u8, 97u8, 116u8, 10u8];
    proof {
        assert(v@ =~= mk_mesh_format_nl());
    }
    v
}

/// The marker `\n$EndMeshFormat`.
pub open spec fn mk_nl_end_mesh_format() -> Seq<u8> {
    seq![10u8, 36u8, 69u8, 110u8, 100u8, 77u8, 101u8, 115u8, 104u8, 70u8, 111u8, 114u8, 109u8, 97u8, 116u8]
}

/// Builds the marker `\n$EndMeshFormat` as bytes.
pub fn lit_nl_end_mesh_format() -> (v: Vec<u8>)
    ensures
        v@ == mk_nl_end_mesh_format(),
        v@.len() >= 1,
{
    let v: Vec<u8> = vec![10u8, 36u8, 69u8, 110u8, 100u8, 77u8, 101u8, 115u8, 104u8, 70u8, 111u8, 114u8, 109u8, 97u8, 116u8];
    proof {
        assert(v@ =~= mk_nl_end_mesh_format());
    }
    v
}

/// The marker `$Elements\n`.
pub open spec fn mk_elements_nl() -> Seq<u8> {
    seq![36u8, 69u8, 108u8, 101u8, 109u8, 101u8, 110u8, 116u8, 115u8, 10u8]
}

/// Builds the marker `$Elements\n` as bytes.
pub fn lit_elements_nl() -> (v: Vec<u8>)
    ensures
        v@ == mk_elements_nl(),
        v@.len() >= 1,
{
    let v: Vec<u8> = vec![36u8, 69u8, 108u8, 101u8, 109u8, 101u8, 110u8, 116u8, 115u8, 10u8];
    proof {
        assert(v@ =~= mk_elements_nl());
    }
    v
}

/// The marker `$Parametrizations\n`.
pub open spec fn mk_parametrizations_nl() -> Seq<u8> {
    seq![36u8, 80u8, 97u8, 114u8, 97u8, 109u8, 101u8, 116u8, 114u8, 105u8, 122u8, 97u8, 116u8, 105u8, 111u8, 110u8, 115u8, 10u8]
}

/// Builds the marker `$Parametrizations\n` as bytes.
pub fn lit_parametrizations_nl() -> (v: Vec<u8>)
    ensures
        v@ == mk_parametrizations_nl(),
        v@.len() >= 1,
{
    let v: Vec<u8> = vec![36u8, 80u8, 97u8, 114u8, 97u8, 109u8, 101u8, 116u8, 114u8, 105u8, 122u8, 97u8, 116u8, 105u8, 111u8, 110u8, 115u8, 10u8];
    proof {
        assert(v@ =~= mk_parametrizations_nl());
    }
    v
}

/// The marker `$Periodic\n`.
pub open spec fn mk_periodic_nl() -> Seq<u8> {
    seq![36u8, 80u8, 101u8, 114u8, 105u8, 111u8, 100u8, 105u8, 99u8, 10u8]
}

/// Builds the marker `$Periodic\n` as bytes.
pub fn lit_periodic_nl() -> (v: Vec<u8>)
    ensures
        v@ == mk_periodic_nl(),
        v@.len() >= 1,
{
    let v: Vec<u8> = vec![36u8, 80u8, 101u8, 114u8, 105u8, 111u8, 100u8, 105u8, 99u8, 10u8];
    proof {
        assert(v@ =~= mk_periodic_nl());
    }
    v
}

/// The marker `"`.
pub open spec fn mk_quote() -> Seq<u8> {
    seq![34u8]
}

/// Builds the marker `"` as bytes.
pub fn lit_quote() -> (v: Vec<u8>)
    ensures
        v@ == mk_quote(),
        v@.len() >= 1,
{
    let v: Vec<u8> = vec![34u8];
    proof {
        assert(v@ =~= mk_quote());
    }
    v
}

/// The literal version `4.1`.
pub open spec fn mk_v41() -> Seq<u8> {
    seq![52u8, 46u8, 49u8]
}

/// Builds the literal version `4.1` as bytes.
pub fn lit_v41() -> (v: Vec<u8>)
    ensures
        v@ == mk_v41(),
        v@.len() >= 1,
{
    let v: Vec<u8> = vec![52u8, 46u8, 49u8];
    proof {
        assert(v@ =~= mk_v41());
    }
    v
}

} // verus!

