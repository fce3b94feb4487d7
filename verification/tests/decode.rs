use gmsh_mesh::decode;
use gmsh_mesh::element::Topology;
use gmsh_mesh::format::Format;
use gmsh_mesh::mesh::{Elements, Mesh, Nodes};
use gmsh_mesh::node::Node;

fn node(x: &str, y: &str, z: &str) -> Node {
    Node::new(x.as_bytes().to_vec(), y.as_bytes().to_vec(), z.as_bytes().to_vec())
}

fn disk_v1_text() -> &'static str {
    "$NOD\n\
13\n\
1 0 0 0\n\
2 0 1 0\n\
3 0.7071067811865475 0.7071067811865476 0\n\
4 1 6.123233995736766e-17 0\n\
5 0.7071067811865476 -0.7071067811865475 0\n\
6 1.224646799147353e-16 -1 0\n\
7 -0.7071067811865475 -0.7071067811865477 0\n\
8 -1 -1.83697019872103e-16 0\n\
9 -0.7071067811865477 0.7071067811865474 0\n\
10 -0.1113264466680611 -0.2687658173968382 0\n\
11 0.150474547846242 0.3632776942023567 0\n\
12 0.4510798725986296 -0.1820395192602642 0\n\
13 -0.447683015284127 0.1902402582583829 -0\n\
$ENDNOD\n\
$ELM\n\
31\n\
1 15 0 1 1 1\n\
2 15 0 2 1 2\n\
3 15 0 3 1 3\n\
4 15 0 4 1 4\n\
5 15 0 5 1 5\n\
6 15 0 6 1 6\n\
7 15 0 7 1 7\n\
8 15 0 8 1 8\n\
9 15 0 9 1 9\n\
10 1 0 1 2 2 3\n\
11 1 0 2 2 3 4\n\
12 1 0 3 2 4 5\n\
13 1 0 4 2 5 6\n\
14 1 0 5 2 6 7\n\
15 1 0 6 2 7 8\n\
16 1 0 7 2 8 9\n\
17 1 0 8 2 9 2\n\
18 2 0 6 3 9 2 13\n\
19 2 0 6 3 3 4 12\n\
20 2 0 6 3 5 6 12\n\
21 2 0 6 3 6 10 12\n\
22 2 0 6 3 7 8 13\n\
23 2 0 6 3 10 7 13\n\
24 2 0 6 3 2 11 13\n\
25 2 0 6 3 11 3 12\n\
26 2 0 6 3 6 7 10\n\
27 2 0 6 3 2 3 11\n\
28 2 0 6 3 4 5 12\n\
29 2 0 6 3 8 9 13\n\
30 2 0 6 3 11 10 13\n\
31 2 0 6 3 10 11 12\n\
$ENDELM"
}

fn disk_v1_nodes() -> Nodes {
    let mut ns = Nodes::new();
    ns.insert(1, node("0", "0", "0"));
    ns.insert(2, node("0", "1", "0"));
    ns.insert(3, node("0.7071067811865475", "0.7071067811865476", "0"));
    ns.insert(4, node("1", "6.123233995736766e-17", "0"));
    ns.insert(5, node("0.7071067811865476", "-0.7071067811865475", "0"));
    ns.insert(6, node("1.224646799147353e-16", "-1", "0"));
    ns.insert(7, node("-0.7071067811865475", "-0.7071067811865477", "0"));
    ns.insert(8, node("-1", "-1.83697019872103e-16", "0"));
    ns.insert(9, node("-0.7071067811865477", "0.7071067811865474", "0"));
    ns.insert(10, node("-0.1113264466680611", "-0.2687658173968382", "0"));
    ns.insert(11, node("0.150474547846242", "0.3632776942023567", "0"));
    ns.insert(12, node("0.4510798725986296", "-0.1820395192602642", "0"));
    ns.insert(13, node("-0.447683015284127", "0.1902402582583829", "-0"));
    ns
}

fn disk_elements() -> Elements {
    let mut es = Elements::new();
    es.insert(1, (0, 1, Topology::Point1(1)));
    es.insert(2, (0, 2, Topology::Point1(2)));
    es.insert(3, (0, 3, Topology::Point1(3)));
    es.insert(4, (0, 4, Topology::Point1(4)));
    es.insert(5, (0, 5, Topology::Point1(5)));
    es.insert(6, (0, 6, Topology::Point1(6)));
    es.insert(7, (0, 7, Topology::Point1(7)));
    es.insert(8, (0, 8, Topology::Point1(8)));
    es.insert(9, (0, 9, Topology::Point1(9)));
    es.insert(10, (0, 1, Topology::Line2(2, 3)));
    es.insert(11, (0, 2, Topology::Line2(3, 4)));
    es.insert(12, (0, 3, Topology::Line2(4, 5)));
    es.insert(13, (0, 4, Topology::Line2(5, 6)));
    es.insert(14, (0, 5, Topology::Line2(6, 7)));
    es.insert(15, (0, 6, Topology::Line2(7, 8)));
    es.insert(16, (0, 7, Topology::Line2(8, 9)));
    es.insert(17, (0, 8, Topology::Line2(9, 2)));
    es.insert(18, (0, 6, Topology::Triangle3(9, 2, 13)));
    es.insert(19, (0, 6, Topology::Triangle3(3, 4, 12)));
    es.insert(20, (0, 6, Topology::Triangle3(5, 6, 12)));
    es.insert(21, (0, 6, Topology::Triangle3(6, 10, 12)));
    es.insert(22, (0, 6, Topology::Triangle3(7, 8, 13)));
    es.insert(23, (0, 6, Topology::Triangle3(10, 7, 13)));
    es.insert(24, (0, 6, Topology::Triangle3(2, 11, 13)));
    es.insert(25, (0, 6, Topology::Triangle3(11, 3, 12)));
    es.insert(26, (0, 6, Topology::Triangle3(6, 7, 10)));
    es.insert(27, (0, 6, Topology::Triangle3(2, 3, 11)));
    es.insert(28, (0, 6, Topology::Triangle3(4, 5, 12)));
    es.insert(29, (0, 6, Topology::Triangle3(8, 9, 13)));
    es.insert(30, (0, 6, Topology::Triangle3(11, 10, 13)));
    es.insert(31, (0, 6, Topology::Triangle3(10, 11, 12)));
    es
}

#[test]
fn gmsh1() {
    let text = disk_v1_text();
    let expected = Mesh::new(None, disk_v1_nodes(), disk_elements());

    match decode::v1::mesh(text.as_bytes(), 0) {
        Err(_) => assert!(false),
        Ok((_, actual)) => assert_eq!(actual, expected),
    }

    match decode::mesh(text.as_bytes()) {
        Err(_) => assert!(false),
        Ok(actual) => assert_eq!(actual, expected),
    }
}

fn disk_v2_text() -> &'static str {
    "$MeshFormat\n\
2.2 0 8\n\
$EndMeshFormat\n\
$Nodes\n\
13\n\
1 0 0 0\n\
2 0 1 0\n\
3 0.7071067811865475 0.7071067811865476 0\n\
4 1 0.0 0\n\
5 0.7071067811865476 -0.7071067811865475 0\n\
6 0.0 -1 0\n\
7 -0.7071067811865475 -0.7071067811865477 0\n\
8 -1 0.0 0\n\
9 -0.7071067811865477 0.7071067811865474 0\n\
10 -0.1113264466680611 -0.2687658173968382 0\n\
11 0.150474547846242 0.3632776942023567 0\n\
12 0.4510798725986296 -0.1820395192602642 0\n\
13 -0.447683015284127 0.1902402582583829 -0\n\
$EndNodes\n\
$Elements\n\
31\n\
1 15 2 0 1 1\n\
2 15 2 0 2 2\n\
3 15 2 0 3 3\n\
4 15 2 0 4 4\n\
5 15 2 0 5 5\n\
6 15 2 0 6 6\n\
7 15 2 0 7 7\n\
8 15 2 0 8 8\n\
9 15 2 0 9 9\n\
10 1 2 0 1 2 3\n\
11 1 2 0 2 3 4\n\
12 1 2 0 3 4 5\n\
13 1 2 0 4 5 6\n\
14 1 2 0 5 6 7\n\
15 1 2 0 6 7 8\n\
16 1 2 0 7 8 9\n\
17 1 2 0 8 9 2\n\
18 2 2 0 6 9 2 13\n\
19 2 2 0 6 3 4 12\n\
20 2 2 0 6 5 6 12\n\
21 2 2 0 6 6 10 12\n\
22 2 2 0 6 7 8 13\n\
23 2 2 0 6 10 7 13\n\
24 2 2 0 6 2 11 13\n\
25 2 2 0 6 11 3 12\n\
26 2 2 0 6 6 7 10\n\
27 2 2 0 6 2 3 11\n\
28 2 2 0 6 4 5 12\n\
29 2 2 0 6 8 9 13\n\
30 2 2 0 6 11 10 13\n\
31 2 2 0 6 10 11 12\n\
$EndElements"
}

fn disk_v2_nodes() -> Nodes {
    let mut ns = disk_v1_nodes();
    ns.insert(4, node("1", "0.0", "0"));
    ns.insert(6, node("0.0", "-1", "0"));
    ns.insert(8, node("-1", "0.0", "0"));
    ns
}

#[test]
fn gmsh2() {
    let text = disk_v2_text();
    let f = Format::new(b"2.2".to_vec(), 0, 8);
    let expected = Mesh::new(Some(f), disk_v2_nodes(), disk_elements());

    match decode::v2::mesh(text.as_bytes(), 0) {
        Err(_) => assert!(false),
        Ok((_, actual)) => assert_eq!(actual, expected),
    }

    match decode::mesh(text.as_bytes()) {
        Err(_) => assert!(false),
        Ok(actual) => assert_eq!(actual, expected),
    }
}

/// The worked example: the disk mesh's node and element values read back as
/// the numbers the text spelled.
#[test]
fn worked_example() {
    let mesh = decode::mesh(disk_v1_text().as_bytes()).unwrap();

    let n1 = mesh.nodes().get(&1).unwrap();
    assert_eq!(String::from_utf8(n1.x.clone()).unwrap().parse::<f64>().unwrap(), 0.0);
    assert_eq!(String::from_utf8(n1.y.clone()).unwrap().parse::<f64>().unwrap(), 0.0);
    assert_eq!(String::from_utf8(n1.z.clone()).unwrap().parse::<f64>().unwrap(), 0.0);

    let n3 = mesh.nodes().get(&3).unwrap();
    assert_eq!(
        String::from_utf8(n3.x.clone()).unwrap().parse::<f64>().unwrap(),
        0.7071067811865475
    );
    assert_eq!(
        String::from_utf8(n3.y.clone()).unwrap().parse::<f64>().unwrap(),
        0.7071067811865476
    );
    assert_eq!(String::from_utf8(n3.z.clone()).unwrap().parse::<f64>().unwrap(), 0.0);

    let e18 = mesh.elements().get(&18).unwrap();
    assert_eq!(*e18, (0, 6, Topology::Triangle3(9, 2, 13)));

    assert_eq!(mesh.nodes().len(), 13);
    assert_eq!(mesh.elements().len(), 31);
}

/// The same geometry in 2.2 form decodes to the same node and element maps,
/// differing only in the populated format field.
#[test]
fn v2_same_geometry() {
    let m1 = decode::mesh(disk_v1_text().as_bytes()).unwrap();
    let m2 = decode::mesh(disk_v2_text().as_bytes()).unwrap();
    assert_eq!(m1.format, None);
    assert_eq!(m2.format, Some(Format::new(b"2.2".to_vec(), 0, 8)));
    assert_eq!(m2.elements(), m1.elements());
    // the 2.2 text spells three coordinates differently ("0.0" for "6.123233995736766e-17");
    // every node of either map reads back to a position, and all ids agree
    assert_eq!(m1.nodes().len(), m2.nodes().len());
    for (id, n1) in m1.nodes() {
        assert!(m2.nodes().contains_key(id));
        if *id != 4 && *id != 6 && *id != 8 {
            assert_eq!(m2.nodes().get(id).unwrap(), n1);
        }
    }
}

/// A buffer the legacy grammar matches decodes as legacy even when 2.2 text
/// follows it: the try order is a contract and trailing input is unread.
#[test]
fn try_order() {
    let mut text = String::from(disk_v1_text());
    text.push('\n');
    text.push_str(disk_v2_text());
    let m = decode::mesh(text.as_bytes()).unwrap();
    assert_eq!(m.format, None);
    assert_eq!(m.nodes().len(), 13);
}

/// An element type code outside the legacy table aborts the whole decode
/// with an unsupported-topology fault; it is not skipped, defaulted, or
/// retried under another dialect.
#[test]
fn unsupported_topology_v1() {
    let text = "$NOD\n1\n1 0 0 0\n$ENDNOD\n$ELM\n1\n1 7 0 1 5 1 2 3 4 5\n$ENDELM";
    match decode::mesh(text.as_bytes()) {
        Err(decode::DecodeError::UnsupportedTopology { .. }) => {},
        _ => assert!(false),
    }
}

/// A code inside the table but with the wrong dialect's meaning: code 6 is
/// a prism under 4.1 only, so a legacy document using it aborts.
#[test]
fn unsupported_topology_code6_v1() {
    let text = "$NOD\n1\n1 0 0 0\n$ENDNOD\n$ELM\n1\n1 6 0 1 6 1 2 3 4 5 6\n$ENDELM";
    match decode::mesh(text.as_bytes()) {
        Err(decode::DecodeError::UnsupportedTopology { .. }) => {},
        _ => assert!(false),
    }
}

/// When no grammar matches, the error carries the most specific position
/// reached among the three attempts.
#[test]
fn no_grammar_matched() {
    match decode::mesh(b"nothing like a mesh") {
        Err(decode::DecodeError::NoGrammarMatched { at: 0 }) => {},
        _ => assert!(false),
    }
    // the legacy attempt gets past the node section before missing,
    // so its position is the most specific one
    let text = "$NOD\n1\n1 0 0 0\n$ENDNOD\nwrong";
    match decode::mesh(text.as_bytes()) {
        Err(decode::DecodeError::NoGrammarMatched { at }) => {
            assert_eq!(at, text.len() - 5);
        },
        _ => assert!(false),
    }
}

/// Declared counts are decoded before the records: zero-count sections give
/// an empty mesh.
#[test]
fn empty_sections() {
    let text = "$NOD\n0\n$ENDNOD\n$ELM\n0\n$ENDELM";
    let m = decode::mesh(text.as_bytes()).unwrap();
    assert_eq!(m.nodes().len(), 0);
    assert_eq!(m.elements().len(), 0);
    assert_eq!(m.format, None);
}

/// The 2.2 table maps type code 5 to a tetrahedron (four node ids), not a
/// hexahedron; the legacy table maps it to a hexahedron (eight ids).
#[test]
fn code5_divergence() {
    let v2 = "$MeshFormat\n2.2 0 8\n$EndMeshFormat\n$Nodes\n0\n$EndNodes\n\
$Elements\n1\n9 5 2 0 1 1 2 3 4\n$EndElements";
    let m = decode::mesh(v2.as_bytes()).unwrap();
    assert_eq!(
        m.elements().get(&9).unwrap(),
        &(0, 1, Topology::Tetrahedron4(1, 2, 3, 4))
    );

    let v1 = "$NOD\n0\n$ENDNOD\n$ELM\n1\n9 5 0 1 8 1 2 3 4 5 6 7 8\n$ENDELM";
    let m1 = decode::mesh(v1.as_bytes()).unwrap();
    assert_eq!(
        m1.elements().get(&9).unwrap(),
        &(0, 1, Topology::Hexahedron8(1, 2, 3, 4, 5, 6, 7, 8))
    );
}
