use gmsh_mesh::decode;
use gmsh_mesh::element::Topology;
use gmsh_mesh::node_data::{IntegerTags, StringTags};
use gmsh_mesh::tag::{Integer, Text};

/// Ids and counts of the older dialects are decimal floating-point
/// literals truncated toward zero: fractions, exponents and fraction-only
/// tokens all coerce.
#[test]
fn float_coerced_ids() {
    // node id "3.9" truncates to 3; element id "1.3e1" is 13;
    // a discarded field may be ".5"
    let text = "$NOD\n1\n3.9 0 0 0\n$ENDNOD\n$ELM\n1\n1.3e1 15 -2.7 4E0 .5 3\n$ENDELM";
    let m = decode::mesh(text.as_bytes()).unwrap();
    assert!(m.nodes().contains_key(&3));
    assert_eq!(
        m.elements().get(&13).unwrap(),
        &(-2, 4, Topology::Point1(3))
    );
}

/// A count written as a float truncates toward zero: "2.9" declares two
/// records.
#[test]
fn float_coerced_count() {
    let text = "$NOD\n2.9\n1 0 0 0\n2 1 1 1\n$ENDNOD\n$ELM\n0.5\n$ENDELM";
    let m = decode::mesh(text.as_bytes()).unwrap();
    assert_eq!(m.nodes().len(), 2);
    assert_eq!(m.elements().len(), 0);
}

/// An id whose value does not fit the id width saturates, as a
/// float-to-integer cast does.
#[test]
fn saturating_ids() {
    let text = "$NOD\n2\n3000000000 0 0 0\n-3e9 1 1 1\n$ENDNOD\n$ELM\n0\n$ENDELM";
    let m = decode::mesh(text.as_bytes()).unwrap();
    assert!(m.nodes().contains_key(&i32::MAX));
    assert!(m.nodes().contains_key(&i32::MIN));
}

/// A negative count declares no records, as a float-to-unsigned cast
/// clamps below zero.
#[test]
fn negative_count() {
    let text = "$NOD\n-3\n$ENDNOD\n$ELM\n0\n$ENDELM";
    let m = decode::mesh(text.as_bytes()).unwrap();
    assert_eq!(m.nodes().len(), 0);
}

/// A large negative exponent truncates everything away; a large positive
/// one saturates.
#[test]
fn exponent_extremes() {
    let text = "$NOD\n2\n7e-800 0 0 0\n1e999 1 1 1\n$ENDNOD\n$ELM\n0\n$ENDELM";
    let m = decode::mesh(text.as_bytes()).unwrap();
    assert!(m.nodes().contains_key(&0));
    assert!(m.nodes().contains_key(&i32::MAX));
}

/// A malformed numeric token is a grammar mismatch, recoverable only by
/// trying the next whole dialect, never mid-grammar.
#[test]
fn malformed_field() {
    let text = "$NOD\n1\nx 0 0 0\n$ENDNOD\n$ELM\n0\n$ENDELM";
    match decode::mesh(text.as_bytes()) {
        Err(decode::DecodeError::NoGrammarMatched { .. }) => {},
        _ => assert!(false),
    }
    // an exponent marker without digits rejects the whole literal
    let text2 = "$NOD\n1\n1e 0 0 0\n$ENDNOD\n$ELM\n0\n$ENDELM";
    match decode::mesh(text2.as_bytes()) {
        Err(decode::DecodeError::NoGrammarMatched { .. }) => {},
        _ => assert!(false),
    }
}

/// Later records override earlier ones with the same id, so the map holds
/// the ids present in the text, once each.
#[test]
fn equal_keys() {
    let text = "$NOD\n2\n1 0 0 0\n1 5 5 5\n$ENDNOD\n$ELM\n0\n$ENDELM";
    let m = decode::mesh(text.as_bytes()).unwrap();
    assert_eq!(m.nodes().len(), 1);
    assert_eq!(m.nodes().get(&1).unwrap().x, b"5".to_vec());
}

#[test]
fn integer_tag_new() {
    let t = Integer::new(7);
    assert_eq!(t, Integer(7));
}

#[test]
fn text_tag_new() {
    let t = Text::new(String::from("A scalar view"), String::new());
    assert_eq!(t.view, "A scalar view");
    assert_eq!(t.interpolation_scheme, "");
}

#[test]
fn string_tags_new() {
    let t = StringTags::new(String::from("A scalar view"), String::new());
    assert_eq!(t.view, "A scalar view");
}

#[test]
fn integer_tags_new() {
    let t = IntegerTags::new(0, 1, 6, 0);
    assert_eq!(t.time_step_index, 0);
    assert_eq!(t.number_of_field_components, 1);
    assert_eq!(t.number_of_entities, 6);
    assert_eq!(t.partition_index, 0);
}

/// Truncation is toward zero and exact on the decimal digits.
#[test]
fn truncation_toward_zero() {
    let text = "$NOD\n3\n-0.99 0 0 0\n0.9999999999999999999 1 1 1\n12.0e-1 2 2 2\n\
$ENDNOD\n$ELM\n0\n$ENDELM";
    let m = gmsh_mesh::decode::mesh(text.as_bytes()).unwrap();
    // all three ids truncate to values near zero: -0.99 and 0.99... to 0, 1.2 to 1
    assert_eq!(m.nodes().len(), 2);
    assert!(m.nodes().contains_key(&0));
    assert!(m.nodes().contains_key(&1));
    assert_eq!(m.nodes().get(&0).unwrap().x, b"1".to_vec());
}
