use erosion_terrain::gen::Chunk;
use erosion_terrain::tringulation::{Mesh, Tringle};

#[test]
fn tringulate_chunk_gives_empty_mesh() {
    let chunk = Chunk::empty(cgmath::Vector3::new(1, 2, 3));
    let mesh: Mesh<(f32, f32, f32)> = Mesh::tringulate_chunk(&chunk);
    assert_eq!(mesh.tringle_count(), 0);
}

#[test]
fn tringle_holds_three_vertices() {
    let t = Tringle(1u8, 2u8, 3u8);
    assert_eq!((t.0, t.1, t.2), (1, 2, 3));
}
