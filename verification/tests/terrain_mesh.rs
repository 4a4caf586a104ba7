use erosion_terrain::terrain_mesh::{append_mesh, chunk_mesh, create_mesh};

fn grid(width: usize, height: usize) -> Vec<Vec<i32>> {
    (0..height)
        .map(|y| (0..width).map(|x| (10 * y + x) as i32).collect())
        .collect()
}

#[test]
fn create_mesh_two_by_two_has_one_quad() {
    let map = grid(2, 2);
    let (vertices, indices) = create_mesh(&map, |x, y, c: &i32| (x, y, *c));
    assert_eq!(vertices, vec![(0, 0, 0), (1, 0, 1), (0, 1, 10), (1, 1, 11)]);
    assert_eq!(indices, vec![3, 1, 0, 2, 3, 0]);
}

#[test]
fn create_mesh_one_by_one_has_no_triangle() {
    let map = grid(1, 1);
    let (vertices, indices) = create_mesh(&map, |x, y, c: &i32| (x, y, *c));
    assert_eq!(vertices, vec![(0, 0, 0)]);
    assert!(indices.is_empty());
}

#[test]
fn create_mesh_three_by_three_indices() {
    let map = grid(3, 3);
    let (vertices, indices) = create_mesh(&map, |x, y, c: &i32| (x, y, *c));
    assert_eq!(vertices.len(), 9);
    for y in 0..3 {
        for x in 0..3 {
            assert_eq!(vertices[y * 3 + x], (x, y, (10 * y + x) as i32));
        }
    }
    assert_eq!(
        indices,
        vec![4, 1, 0, 3, 4, 0, 5, 2, 1, 4, 5, 1, 7, 4, 3, 6, 7, 3, 8, 5, 4, 7, 8, 4]
    );
}

#[test]
fn create_mesh_square_count_and_range() {
    let map = grid(5, 5);
    let (vertices, indices) = create_mesh(&map, |x, y, _c: &i32| (x, y));
    assert_eq!(vertices.len(), 25);
    assert_eq!(indices.len(), 6 * 4 * 4);
    assert!(indices.iter().all(|&i| i < 25));
    assert_eq!(indices.len() % 3, 0);
}

#[test]
fn create_mesh_wide_map_has_one_quad_per_cell() {
    // Three points wide, two high: the last point of each row and of each
    // column starts no quad, leaving the two cells of the first row.
    let map = grid(3, 2);
    let (vertices, indices) = create_mesh(&map, |x, y, _c: &i32| (x, y));
    assert_eq!(vertices.len(), 6);
    assert_eq!(indices, vec![4, 1, 0, 3, 4, 0, 5, 2, 1, 4, 5, 1]);
    assert_eq!(indices.len(), 6 * 2 * 1);
    assert!(indices.iter().all(|&i| i < 6));
}

#[test]
fn create_mesh_tall_map_has_one_quad_per_cell() {
    let map = grid(2, 3);
    let (vertices, indices) = create_mesh(&map, |x, y, _c: &i32| (x, y));
    assert_eq!(vertices, vec![(0, 0), (1, 0), (0, 1), (1, 1), (0, 2), (1, 2)]);
    assert_eq!(indices, vec![3, 1, 0, 2, 3, 0, 5, 3, 2, 4, 5, 2]);
    assert!(indices.iter().all(|&i| i < 6));
}

#[test]
fn chunk_mesh_rectangular_refers_only_to_own_vertices() {
    let map = grid(4, 2);
    let (vertices, indices) =
        chunk_mesh(&map, |x, y, _c: &i32| (x, y), vec![(9, 9)], vec![0, 0, 0]);
    assert_eq!(vertices.len(), 9);
    assert_eq!(indices.len(), 6 * 3 * 1 + 3);
    assert!(indices.iter().all(|&i| (i as usize) < vertices.len()));
    assert_eq!(&indices[18..], &[8, 8, 8]);
}

#[test]
fn create_mesh_uses_first_row_width() {
    let map = vec![vec![1, 2], vec![3, 4, 5]];
    let (vertices, indices) = create_mesh(&map, |_x, _y, c: &i32| *c);
    assert_eq!(vertices, vec![1, 2, 3, 4]);
    assert_eq!(indices, vec![3, 1, 0, 2, 3, 0]);
}

#[test]
fn append_mesh_offsets_new_indices() {
    let mut vertices = vec!['a', 'b', 'c'];
    let mut indices: Vec<u32> = vec![0, 1, 2];
    append_mesh(&mut vertices, &mut indices, vec!['d', 'e'], vec![1, 0, 1]);
    assert_eq!(vertices, vec!['a', 'b', 'c', 'd', 'e']);
    assert_eq!(indices, vec![0, 1, 2, 4, 3, 4]);
    assert_eq!(vertices[indices[3] as usize], 'e');
}

#[test]
fn append_mesh_to_empty_keeps_indices() {
    let mut vertices: Vec<u8> = Vec::new();
    let mut indices: Vec<u32> = Vec::new();
    append_mesh(&mut vertices, &mut indices, vec![7, 8], vec![1, 1, 0]);
    assert_eq!(vertices, vec![7, 8]);
    assert_eq!(indices, vec![1, 1, 0]);
}

#[test]
fn chunk_mesh_appends_after_grid() {
    let map = grid(2, 2);
    let (vertices, indices) = chunk_mesh(
        &map,
        |x, y, _c: &i32| (x as i32, y as i32),
        vec![(-1, -1), (-2, -2)],
        vec![0, 1, 1],
    );
    assert_eq!(
        vertices,
        vec![(0, 0), (1, 0), (0, 1), (1, 1), (-1, -1), (-2, -2)]
    );
    assert_eq!(indices, vec![3, 1, 0, 2, 3, 0, 4, 5, 5]);
}

#[test]
fn chunk_mesh_square_refers_only_to_own_vertices() {
    let map = grid(4, 4);
    let (vertices, indices) = chunk_mesh(
        &map,
        |x, y, _c: &i32| (x, y),
        vec![(100, 100), (101, 101), (102, 102)],
        vec![0, 1, 2, 2, 1, 0],
    );
    assert_eq!(vertices.len(), 19);
    assert_eq!(indices.len(), 6 * 3 * 3 + 6);
    assert!(indices.iter().all(|&i| (i as usize) < vertices.len()));
    assert_eq!(&indices[54..], &[16, 17, 18, 18, 17, 16]);
}
