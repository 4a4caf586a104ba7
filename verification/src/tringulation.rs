//! Triangle meshes made from chunks.
use vstd::prelude::*;
use crate::gen::Chunk;

verus! {

/// A triangle given by its three vertices.
pub struct Tringle<V>(pub V, pub V, pub V);

/// A list of triangles.
pub struct Mesh<V> {
    tringles: Vec<Tringle<V>>,
}

impl<V> View for Mesh<V> {
    type V = Seq<Tringle<V>>;

    closed spec fn view(&self) -> Seq<Tringle<V>> {
        self.tringles@
    }
}

impl<V> Mesh<V> {
    /// The mesh of `chunk`'s visible faces. No face is emitted yet, for any
    /// chunk: the mesh is empty.
    pub fn tringulate_chunk(chunk: &Chunk) -> (mesh: Self)
        ensures
            mesh@.len() == 0,
    {
        Mesh { tringles: Vec::new() }
    }

    /// Number of triangles in the mesh.
    pub fn tringle_count(&self) -> (n: usize)
        ensures
            n == self@.len(),
    {
        self.tringles.len()
    }
}

} // verus!
