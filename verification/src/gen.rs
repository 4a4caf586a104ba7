//! Voxel chunks: a fixed-size block of voxels placed in the world.
use vstd::prelude::*;

verus! {

/// Declares `cgmath::Vector3` so that a chunk can carry its position.
#[verifier::external_type_specification]
#[verifier::external_body]
#[verifier::reject_recursive_types(S)]
pub struct ExVector3<S>(cgmath::Vector3<S>);

/// One cell of a chunk: it is either filled or empty.
#[derive(Clone, Copy)]
pub struct Voxel {
    pub exists: bool,
}

pub const CHUNK_WIDTH: usize = 32;

pub const CHUNK_DEPTH: usize = 32;

pub const CHUNK_HEIGHT: usize = 32;

/// Number of voxels in a chunk: `CHUNK_WIDTH * CHUNK_DEPTH * CHUNK_HEIGHT`.
pub const CHUNK_VOLUME: usize = 32768;

/// A `CHUNK_WIDTH` by `CHUNK_DEPTH` by `CHUNK_HEIGHT` block of voxels at a
/// position of the world.
pub struct Chunk {
    blocks: [Voxel; CHUNK_VOLUME],
    pos: cgmath::Vector3<u32>,
}

impl Chunk {
    /// The voxels of the chunk.
    pub closed spec fn blocks(&self) -> Seq<Voxel> {
        self.blocks@
    }

    /// The chunk's position.
    pub closed spec fn position(&self) -> cgmath::Vector3<u32> {
        self.pos
    }

    /// A chunk at `pos` whose voxels are all empty.
    pub fn empty(pos: cgmath::Vector3<u32>) -> (chunk: Chunk)
        ensures
            chunk.blocks().len() == CHUNK_WIDTH * CHUNK_DEPTH * CHUNK_HEIGHT,
            forall|i: int| 0 <= i < chunk.blocks().len() ==> !(#[trigger] chunk.blocks()[i]).exists,
            chunk.position() == pos,
    {
        Chunk { blocks: [Voxel { exists: false }; 32768], pos }
    }
}

} // verus!
