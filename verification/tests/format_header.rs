use gmsh_mesh::decode::v4;
use gmsh_mesh::format::Format as MeshFormat;

#[test]
fn format() {
    let text = "$MeshFormat\n4.1 0 8\n$EndMeshFormat\n";
    let (next, f) = v4::p_format_block(text.as_bytes(), 0).unwrap();
    assert_eq!(f, MeshFormat::new(b"4.1".to_vec(), 0, 8));
    // the trailing newline is left for the caller
    assert_eq!(next, text.len() - 1);
}

#[test]
fn mesh_format() {
    let text = "$MeshFormat\n4.1 0 8\n$EndMeshFormat\n";
    let (_, f) = v4::p_format_block(text.as_bytes(), 0).unwrap();
    assert_eq!(f.version, b"4.1".to_vec());
    assert_eq!(f.file, 0);
    assert_eq!(f.size, 8);
    // any other version literal is a mismatch
    assert!(v4::p_format_block(b"$MeshFormat\n4.0 0 8\n$EndMeshFormat\n", 0).is_err());
}
