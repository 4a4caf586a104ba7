//! Terrain meshing for a heightmap-erosion renderer: the integer structure of
//! the heightmap mesh (vertex order and triangle indices), mesh merging,
//! voxel chunks, surface-format choice and the window-event decisions.
pub mod events;
pub mod gen;
pub mod surface;
pub mod terrain_mesh;
pub mod tringulation;
