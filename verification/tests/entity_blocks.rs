use gmsh_mesh::decode;
use gmsh_mesh::element::Topology;
use gmsh_mesh::format::Format;

fn v4_text() -> &'static str {
    "$MeshFormat\n\
4.1 0 8\n\
$EndMeshFormat\n\
$PhysicalNames\n\
1\n\
2 7 \"disk\"\n\
$EndPhysicalNames\n\
$Entities\n\
1 0 1 0\n\
1 0 0 0 0\n\
2 0 0 0 1 1 0 1 7 1 1\n\
$EndEntities\n\
$Nodes\n\
4 4 1 4\n\
0 1 0 1\n\
1\n\
0 0 0\n\
2 2 1 2\n\
2\n\
3\n\
0.5 0 0 0.1 0.2\n\
1 0 0 0.3 0.4\n\
3 3 0 1\n\
4\n\
1 2 3\n\
2 4 0 0\n\
$EndNodes\n\
$Elements\n\
2 3 1 3\n\
0 1 15 1\n\
1 1\n\
2 2 2 2\n\
2 1 2 3\n\
3 2 3 1\n\
$EndElements\n\
$Periodic\n\
1\n\
1 2 1\n\
1 1.0\n\
2\n\
1 3\n\
2 4\n\
$EndPeriodic\n"
}

/// A 4.1 document with parametric and non-parametric entity blocks, a
/// zero-node block, physical names, entities and a periodic section decodes
/// into the canonical mesh: every block's declared tags zipped with its
/// positions, each element keyed by its own tag with the owning entity tag
/// in the physical slot and zero in the elementary slot.
#[test]
fn gmsh4() {
    let (_, raw) = decode::v4::mesh(v4_text().as_bytes(), 0).unwrap();
    assert_eq!(raw.format, Format::new(b"4.1".to_vec(), 0, 8));
    assert_eq!(raw.nodes.entities.len(), 4);
    assert_eq!(raw.nodes.num_nodes, 4);
    // the dimension-2 parametric block: two declared nodes, tag list zipped
    // with the position list, u and v present, w absent
    let b = &raw.nodes.entities[1];
    assert_eq!(b.dim, 2);
    assert_eq!(b.node_tags, vec![2, 3]);
    assert_eq!(b.node_positions.len(), 2);
    assert_eq!(b.node_positions[0].x, b"0.5".to_vec());
    assert_eq!(b.node_positions[0].u, Some(b"0.1".to_vec()));
    assert_eq!(b.node_positions[0].v, Some(b"0.2".to_vec()));
    assert_eq!(b.node_positions[0].w, None);
    // the dimension-3 block with the parametric flag unset reads no
    // parametric coordinates at all
    let b3 = &raw.nodes.entities[2];
    assert_eq!(b3.dim, 3);
    assert_eq!(b3.node_positions[0].u, None);
    assert_eq!(b3.node_positions[0].v, None);
    assert_eq!(b3.node_positions[0].w, None);
    // the block declaring zero nodes holds nothing beyond its header
    let b4 = &raw.nodes.entities[3];
    assert_eq!(b4.node_tags.len(), 0);
    assert_eq!(b4.node_positions.len(), 0);
    // the optional sections were decoded
    assert_eq!(raw.physical_names.as_ref().unwrap().len(), 1);
    assert_eq!(raw.physical_names.as_ref().unwrap()[0].name, b"disk".to_vec());
    let ent = raw.entities.as_ref().unwrap();
    assert_eq!(ent.points.len(), 1);
    assert_eq!(ent.surfaces.len(), 1);
    assert_eq!(ent.surfaces[0].physical_tags, vec![7]);
    assert_eq!(ent.surfaces[0].bounding_curves, vec![1]);
    let per = raw.periodic.as_ref().unwrap();
    assert_eq!(per.links.len(), 1);
    assert_eq!(per.links[0].affine, vec![b"1.0".to_vec()]);
    assert_eq!(per.links[0].corresponding.len(), 2);

    // through the dispatcher, normalised to the canonical mesh
    let m = decode::mesh(v4_text().as_bytes()).unwrap();
    assert_eq!(m.format, Some(Format::new(b"4.1".to_vec(), 0, 8)));
    assert_eq!(m.nodes().len(), 4);
    assert_eq!(m.nodes().get(&2).unwrap().x, b"0.5".to_vec());
    assert_eq!(m.nodes().get(&3).unwrap().x, b"1".to_vec());
    assert_eq!(m.nodes().get(&4).unwrap().z, b"3".to_vec());
    assert_eq!(m.elements().len(), 3);
    assert_eq!(m.elements().get(&1).unwrap(), &(1, 0, Topology::Point1(1)));
    assert_eq!(m.elements().get(&2).unwrap(), &(2, 0, Topology::Triangle3(1, 2, 3)));
    assert_eq!(m.elements().get(&3).unwrap(), &(2, 0, Topology::Triangle3(2, 3, 1)));
}

/// The 4.1 dialect accepts exactly the version literal `4.1`; any other
/// version is a grammar mismatch, not a supported variant.
#[test]
fn version_must_be_41() {
    let text = v4_text().replace("4.1 0 8", "4.2 0 8");
    match decode::mesh(text.as_bytes()) {
        Err(decode::DecodeError::NoGrammarMatched { .. }) => {},
        _ => assert!(false),
    }
}

/// An element type code outside the 4.1 table aborts the decode when a
/// group declares at least one element of it.
#[test]
fn unsupported_topology_v4() {
    let text = v4_text().replace("0 1 15 1\n1 1\n", "0 1 9 1\n1 1\n");
    match decode::mesh(text.as_bytes()) {
        Err(decode::DecodeError::UnsupportedTopology { .. }) => {},
        _ => assert!(false),
    }
}

/// A prism element (type code 6) belongs to the 4.1 table.
#[test]
fn v4_prism() {
    let text = v4_text().replace(
        "2 2 2 2\n2 1 2 3\n3 2 3 1\n",
        "2 2 6 1\n2 1 2 3 1 2 3\n",
    );
    let m = decode::mesh(text.as_bytes()).unwrap();
    assert_eq!(
        m.elements().get(&2).unwrap(),
        &(2, 0, Topology::Prism6(1, 2, 3, 1, 2, 3))
    );
}

/// A partitioned-entities section is consumed in its place between the
/// entities and the nodes.
#[test]
fn v4_partitioned_entities() {
    let text = v4_text().replace(
        "$EndEntities\n",
        "$EndEntities\n$PartitionedEntities\n2\n1\n5 1\n1 0 0 0\n6 0 1 2 1 2 0 0 0 0\n$EndPartitionedEntities\n",
    );
    let (_, raw) = decode::v4::mesh(text.as_bytes(), 0).unwrap();
    let pe = raw.partitioned_entities.as_ref().unwrap();
    assert_eq!(pe.num_partitions, 2);
    assert_eq!(pe.ghosts.len(), 1);
    assert_eq!(pe.ghosts[0].tag, 5);
    assert_eq!(pe.ghosts[0].partition, 1);
    assert_eq!(pe.points.len(), 1);
    assert_eq!(pe.points[0].tag, 6);
    assert_eq!(pe.points[0].parent_dim, 0);
    assert_eq!(pe.points[0].parent_tag, 1);
    assert_eq!(pe.points[0].partition_tags, vec![1, 2]);
    // the canonical mesh is unchanged by the extra section
    let m = decode::mesh(text.as_bytes()).unwrap();
    assert_eq!(m.nodes().len(), 4);
}

/// The 4.1 dialect accepts a buffer only when it consumes it entirely.
#[test]
fn v4_trailing_input_rejected() {
    let mut text = String::from(v4_text());
    text.push_str("extra");
    match decode::mesh(text.as_bytes()) {
        Err(decode::DecodeError::NoGrammarMatched { .. }) => {},
        _ => assert!(false),
    }
}

/// Every optional section may be absent: a document of format, nodes and
/// elements alone decodes.
#[test]
fn v4_minimal() {
    let text = "$MeshFormat\n4.1 0 8\n$EndMeshFormat\n\
$Nodes\n1 1 1 1\n0 1 0 1\n1\n0 0 0\n$EndNodes\n\
$Elements\n1 1 1 1\n0 1 15 1\n1 1\n$EndElements\n";
    let m = decode::mesh(text.as_bytes()).unwrap();
    assert_eq!(m.nodes().len(), 1);
    assert_eq!(m.elements().get(&1).unwrap(), &(1, 0, Topology::Point1(1)));
    let (_, raw) = decode::v4::mesh(text.as_bytes(), 0).unwrap();
    assert!(raw.physical_names.is_none());
    assert!(raw.entities.is_none());
    assert!(raw.partitioned_entities.is_none());
    assert!(raw.parametrisations.is_none());
    assert!(raw.periodic.is_none());
}
