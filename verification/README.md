# erosion_terrain

A terrain viewer: a Perlin-noise heightmap is eroded by simulated water
droplets, meshed and rendered with wgpu under a free camera.

- `src/` is the verified library:
  - `terrain_mesh`: the grid mesh of a heightmap (vertex order, triangle
    indices) and the merging of indexed meshes, with their laws;
  - `gen`, `tringulation`: voxel chunks and triangle meshes;
  - `surface`: the choice of the surface's texture format;
  - `events`: the decisions of the render loop (resize, input, render errors).
- `app/` is the program: window, GPU setup and rendering, the camera, and the
  floating-point heightmap and erosion code.
- `tests/` runs the library on concrete inputs.
