//! The grid mesh built over a heightmap, and the merging of two indexed meshes.
use vstd::prelude::*;

verus! {

/// Position in the vertex list of the grid vertex at column `x`, row `y`
/// of a grid `width` vertices wide (row-major order).
pub open spec fn grid_index(width: int, x: int, y: int) -> int {
    y * width + x
}

/// Vertices are stored row by row: the vertex of point `(x, y)` sits at
/// `y * width + x`, so the rows of a grid `width` wide follow one another
/// without gaps or overlaps.
pub proof fn lemma_grid_index_row_major(width: int, x: int, y: int)
    requires
        width >= 1,
        0 <= x < width,
        0 <= y,
    ensures
        grid_index(width, x, y) == y * width + x,
        y * width <= grid_index(width, x, y) < (y + 1) * width,
{
    assert((y + 1) * width == y * width + width) by (nonlinear_arith);
}

/// A grid cell emits no triangles when it is the last point of its row
/// (`x == width - 1`) or of its column (`y == height - 1`): every other
/// point is the top-left corner of a quad.
pub open spec fn cell_skipped(width: int, height: int, x: int, y: int) -> bool {
    x == width - 1 || y == height - 1
}

/// The two triangles of the quad whose top-left vertex is `(x, y)`:
/// `(x+1, y+1), (x+1, y), (x, y)` and `(x, y+1), (x+1, y+1), (x, y)`,
/// each index truncated to `u32`.
pub open spec fn quad_indices(width: int, x: int, y: int) -> Seq<u32> {
    seq![
        grid_index(width, x + 1, y + 1) as u32,
        grid_index(width, x + 1, y) as u32,
        grid_index(width, x, y) as u32,
        grid_index(width, x, y + 1) as u32,
        grid_index(width, x + 1, y + 1) as u32,
        grid_index(width, x, y) as u32,
    ]
}

/// The indices that cell `(x, y)` contributes.
pub open spec fn cell_indices(width: int, height: int, x: int, y: int) -> Seq<u32> {
    if cell_skipped(width, height, x, y) {
        Seq::empty()
    } else {
        quad_indices(width, x, y)
    }
}

/// The indices contributed by the first `n` cells of row `y`.
pub open spec fn row_indices(width: int, height: int, y: int, n: nat) -> Seq<u32>
    decreases n,
{
    if n == 0 {
        Seq::empty()
    } else {
        row_indices(width, height, y, (n - 1) as nat) + cell_indices(width, height, n - 1, y)
    }
}

/// The indices contributed by the first `rows` rows of the grid.
pub open spec fn grid_indices(width: int, height: int, rows: nat) -> Seq<u32>
    decreases rows,
{
    if rows == 0 {
        Seq::empty()
    } else {
        grid_indices(width, height, (rows - 1) as nat) + row_indices(
            width,
            height,
            rows - 1,
            width as nat,
        )
    }
}

/// The full index list of a `width` by `height` grid mesh.
pub open spec fn mesh_indices(width: int, height: int) -> Seq<u32> {
    grid_indices(width, height, height as nat)
}

proof fn lemma_mul_le(a: int, b: int, c: int)
    by (nonlinear_arith)
    requires
        0 <= a <= b,
        0 <= c,
    ensures
        a * c <= b * c,
{
}

/// A cell that comes earlier in row-major order has a smaller grid index.
proof fn lemma_cell_before(width: int, x: int, y: int, cx: int, cy: int)
    requires
        0 <= x < width,
        0 <= y,
        0 <= cx,
        y < cy || (y == cy && x < cx),
    ensures
        grid_index(width, x, y) < grid_index(width, cx, cy),
{
    if y < cy {
        lemma_mul_le(y + 1, cy, width);
        assert((y + 1) * width == y * width + width) by (nonlinear_arith);
    }
}

/// Builds the grid mesh of `heightmap`: one vertex per cell, made by
/// `make_vertex(x, y, &heightmap[y][x])` and stored row by row, and two
/// triangles per cell that `cell_skipped` does not exclude. The grid is as
/// wide as the first row.
pub fn create_mesh<C, V, F: Fn(usize, usize, &C) -> V>(heightmap: &[Vec<C>], make_vertex: F) -> (res: (
    Vec<V>,
    Vec<u32>,
))
    requires
        heightmap@.len() > 0,
        forall|y: int|
            0 <= y < heightmap@.len() ==> #[trigger] heightmap@[y]@.len() >= heightmap@[0]@.len(),
        heightmap@.len() * heightmap@[0]@.len() <= usize::MAX,
        forall|x: usize, y: usize|
            x < heightmap@[0]@.len() && y < heightmap@.len() ==> call_requires(
                make_vertex,
                (x, y, &#[trigger] heightmap@[y as int]@[x as int]),
            ),
    ensures
        res.0@.len() == heightmap@.len() * heightmap@[0]@.len(),
        forall|x: usize, y: usize|
            x < heightmap@[0]@.len() && y < heightmap@.len() ==> call_ensures(
                make_vertex,
                (x, y, &heightmap@[y as int]@[x as int]),
                #[trigger] res.0@[grid_index(heightmap@[0]@.len() as int, x as int, y as int)],
            ),
        res.1@ == mesh_indices(heightmap@[0]@.len() as int, heightmap@.len() as int),
        forall|x: int, y: int|
            #![trigger quad_start(heightmap@[0]@.len() as int, x, y)]
            0 <= x < heightmap@[0]@.len() - 1 && 0 <= y < heightmap@.len() - 1 ==> {
                let w = heightmap@[0]@.len() as int;
                let p = quad_start(w, x, y);
                &&& 0 <= p
                &&& p + 6 <= res.1@.len()
                &&& res.1@[p] == ((y + 1) * w + x + 1) as u32
                &&& res.1@[p + 1] == (y * w + x + 1) as u32
                &&& res.1@[p + 2] == (y * w + x) as u32
                &&& res.1@[p + 3] == ((y + 1) * w + x) as u32
                &&& res.1@[p + 4] == ((y + 1) * w + x + 1) as u32
                &&& res.1@[p + 5] == (y * w + x) as u32
            },
{
    let width = heightmap[0].len();
    let height = heightmap.len();
    let ghost w = width as int;
    let ghost h = height as int;
    let mut vertices: Vec<V> = Vec::new();
    let mut indices: Vec<u32> = Vec::new();
    let mut y: usize = 0;
    while y < height
        invariant
            width == heightmap@[0]@.len(),
            height == heightmap@.len(),
            w == width,
            h == height,
            y <= height,
            forall|yy: int| 0 <= yy < heightmap@.len() ==> #[trigger] heightmap@[yy]@.len() >= width,
            h * w <= usize::MAX,
            forall|x: usize, y: usize|
                x < width && y < height ==> call_requires(
                    make_vertex,
                    (x, y, &#[trigger] heightmap@[y as int]@[x as int]),
                ),
            vertices@.len() == y * w,
            indices@ == grid_indices(w, h, y as nat),
            forall|xx: usize, yy: usize|
                xx < width && yy < y ==> call_ensures(
                    make_vertex,
                    (xx, yy, &heightmap@[yy as int]@[xx as int]),
                    #[trigger] vertices@[grid_index(w, xx as int, yy as int)],
                ),
        decreases height - y,
    {
        proof {
            lemma_mul_le(y + 1, h, w);
        }
        let mut x: usize = 0;
        while x < width
            invariant
                width == heightmap@[0]@.len(),
                height == heightmap@.len(),
                w == width,
                h == height,
                y < height,
                forall|yy: int|
                    0 <= yy < heightmap@.len() ==> #[trigger] heightmap@[yy]@.len() >= width,
                h * w <= usize::MAX,
                (y + 1) * w <= h * w,
                forall|x: usize, y: usize|
                    x < width && y < height ==> call_requires(
                        make_vertex,
                        (x, y, &#[trigger] heightmap@[y as int]@[x as int]),
                    ),
                x <= width,
                vertices@.len() == y * w + x,
                indices@ == grid_indices(w, h, y as nat) + row_indices(w, h, y as int, x as nat),
                forall|xx: usize, yy: usize|
                    xx < width && (yy < y || (yy == y && xx < x)) ==> call_ensures(
                        make_vertex,
                        (xx, yy, &heightmap@[yy as int]@[xx as int]),
                        #[trigger] vertices@[grid_index(w, xx as int, yy as int)],
                    ),
            decreases width - x,
        {
            let ghost old_vertices = vertices@;
            let ghost old_indices = indices@;
            let vertex = make_vertex(x, y, &heightmap[y][x]);
            vertices.push(vertex);
            proof {
                assert forall|xx: usize, yy: usize|
                    xx < width && (yy < y || (yy == y && xx < x + 1)) implies call_ensures(
                    make_vertex,
                    (xx, yy, &heightmap@[yy as int]@[xx as int]),
                    #[trigger] vertices@[grid_index(w, xx as int, yy as int)],
                ) by {
                    if yy == y && xx == x {
                    } else {
                        lemma_cell_before(w, xx as int, yy as int, x as int, y as int);
                        assert(vertices@[grid_index(w, xx as int, yy as int)] == old_vertices[grid_index(
                            w,
                            xx as int,
                            yy as int,
                        )]);
                    }
                }
            }
            if !(x == width - 1 || y == height - 1) {
                proof {
                    lemma_mul_le(y as int, y + 1, w);
                    lemma_mul_le(y + 2, h, w);
                    assert((y + 1) * w + w == (y + 2) * w) by (nonlinear_arith);
                }
                let row = y * width;
                let next_row = (y + 1) * width;
                indices.push((next_row + x + 1) as u32);
                indices.push((row + x + 1) as u32);
                indices.push((row + x) as u32);
                indices.push((next_row + x) as u32);
                indices.push((next_row + x + 1) as u32);
                indices.push((row + x) as u32);
                proof {
                    assert((y + 1) * w == y * w + w) by (nonlinear_arith);
                    assert(indices@ =~= old_indices + quad_indices(w, x as int, y as int));
                }
            }
            proof {
                assert(row_indices(w, h, y as int, (x + 1) as nat) == row_indices(
                    w,
                    h,
                    y as int,
                    x as nat,
                ) + cell_indices(w, h, x as int, y as int));
                assert(indices@ =~= grid_indices(w, h, y as nat) + row_indices(
                    w,
                    h,
                    y as int,
                    (x + 1) as nat,
                ));
            }
            x = x + 1;
        }
        proof {
            assert((y + 1) * w == y * w + w) by (nonlinear_arith);
            assert(grid_indices(w, h, (y + 1) as nat) == grid_indices(w, h, y as nat) + row_indices(
                w,
                h,
                y as int,
                w as nat,
            ));
        }
        y = y + 1;
    }
    proof {
        assert forall|x: int, y: int|
            #![trigger quad_start(w, x, y)]
            0 <= x < w - 1 && 0 <= y < h - 1 implies {
            let p = quad_start(w, x, y);
            &&& 0 <= p
            &&& p + 6 <= indices@.len()
            &&& indices@[p] == ((y + 1) * w + x + 1) as u32
            &&& indices@[p + 1] == (y * w + x + 1) as u32
            &&& indices@[p + 2] == (y * w + x) as u32
            &&& indices@[p + 3] == ((y + 1) * w + x) as u32
            &&& indices@[p + 4] == ((y + 1) * w + x + 1) as u32
            &&& indices@[p + 5] == (y * w + x) as u32
        } by {
            lemma_mesh_quad_corners(w, h, x, y);
        }
    }
    (vertices, indices)
}

/// `indices` with `base` added to each of them, as `u32`.
pub open spec fn offset_indices(indices: Seq<u32>, base: u32) -> Seq<u32> {
    indices.map_values(|n: u32| (n + base) as u32)
}

/// Appends the mesh (`extra_vertices`, `extra_indices`) to (`vertices`,
/// `indices`): the new vertices follow the old ones, and each new index is
/// offset by the old vertex count taken as a `u32`.
pub fn append_mesh<V>(
    vertices: &mut Vec<V>,
    indices: &mut Vec<u32>,
    extra_vertices: Vec<V>,
    extra_indices: Vec<u32>,
)
    requires
        forall|i: int|
            0 <= i < extra_indices@.len() ==> #[trigger] extra_indices@[i] + (old(
                vertices,
            )@.len() as u32) <= u32::MAX,
    ensures
        final(vertices)@ == old(vertices)@ + extra_vertices@,
        final(indices)@ == old(indices)@ + offset_indices(
            extra_indices@,
            old(vertices)@.len() as u32,
        ),
        final(indices)@.len() == old(indices)@.len() + extra_indices@.len(),
        forall|k: int|
            0 <= k < old(indices)@.len() ==> #[trigger] final(indices)@[k] == old(indices)@[k],
        forall|k: int|
            0 <= k < extra_indices@.len() ==> #[trigger] final(indices)@[old(indices)@.len() + k]
                as int == extra_indices@[k] + (old(vertices)@.len() as u32),
{
    let next_index = vertices.len() as u32;
    let ghost start_vertices = vertices@;
    let ghost start_indices = indices@;
    let ghost extra = extra_vertices@;
    for n in it: extra_vertices
        invariant
            vertices@ == start_vertices + it.seq().take(it.index() as int),
    {
        vertices.push(n);
        proof {
            assert(it.seq().take(it.index() + 1) =~= it.seq().take(it.index() as int).push(n));
        }
    }
    assert(vertices@ =~= start_vertices + extra);
    let ghost xs = extra_indices@;
    for n in it: extra_indices
        invariant
            indices@ == start_indices + offset_indices(xs.take(it.index() as int), next_index),
            it.seq() == xs,
            next_index == start_vertices.len() as u32,
            forall|i: int| 0 <= i < xs.len() ==> #[trigger] xs[i] + next_index <= u32::MAX,
    {
        indices.push(n + next_index);
        proof {
            assert(offset_indices(xs.take(it.index() + 1), next_index) =~= offset_indices(
                xs.take(it.index() as int),
                next_index,
            ).push((n + next_index) as u32));
        }
    }
    assert(xs.take(xs.len() as int) =~= xs);
    assert forall|k: int| 0 <= k < xs.len() implies #[trigger] indices@[start_indices.len() + k]
        as int == xs[k] + next_index by {
        assert(indices@[start_indices.len() + k] == offset_indices(xs, next_index)[k]);
    }
}

/// The mesh of a terrain chunk: the grid mesh of `heightmap` (see
/// `create_mesh`) followed by the extra mesh (`extra_vertices`,
/// `extra_indices`), whose indices are offset by the grid's vertex count.
pub fn chunk_mesh<C, V, F: Fn(usize, usize, &C) -> V>(
    heightmap: &[Vec<C>],
    make_vertex: F,
    extra_vertices: Vec<V>,
    extra_indices: Vec<u32>,
) -> (res: (Vec<V>, Vec<u32>))
    requires
        heightmap@.len() > 0,
        forall|y: int|
            0 <= y < heightmap@.len() ==> #[trigger] heightmap@[y]@.len() >= heightmap@[0]@.len(),
        heightmap@.len() * heightmap@[0]@.len() <= usize::MAX,
        forall|x: usize, y: usize|
            x < heightmap@[0]@.len() && y < heightmap@.len() ==> call_requires(
                make_vertex,
                (x, y, &#[trigger] heightmap@[y as int]@[x as int]),
            ),
        forall|i: int|
            0 <= i < extra_indices@.len() ==> #[trigger] extra_indices@[i] + ((heightmap@.len()
                * heightmap@[0]@.len()) as u32) <= u32::MAX,
    ensures
        ({
            let width = heightmap@[0]@.len() as int;
            let count = heightmap@.len() * heightmap@[0]@.len();
            &&& res.0@.len() == count + extra_vertices@.len()
            &&& forall|x: usize, y: usize|
                x < width && y < heightmap@.len() ==> call_ensures(
                    make_vertex,
                    (x, y, &heightmap@[y as int]@[x as int]),
                    #[trigger] res.0@[grid_index(width, x as int, y as int)],
                )
            &&& res.0@.subrange(count as int, res.0@.len() as int) == extra_vertices@
            &&& res.1@ == mesh_indices(width, heightmap@.len() as int) + offset_indices(
                extra_indices@,
                count as u32,
            )
        }),
{
    let (mut vertices, mut indices) = create_mesh(heightmap, make_vertex);
    let ghost grid = vertices@;
    append_mesh(&mut vertices, &mut indices, extra_vertices, extra_indices);
    proof {
        let width = heightmap@[0]@.len() as int;
        assert forall|x: usize, y: usize| x < width && y < heightmap@.len() implies #[trigger] vertices@[grid_index(
            width,
            x as int,
            y as int,
        )] == grid[grid_index(width, x as int, y as int)] by {
            lemma_cell_before(width, x as int, y as int, 0, heightmap@.len() as int);
        }
        assert(vertices@.subrange(grid.len() as int, vertices@.len() as int) =~= extra_vertices@);
    }
    (vertices, indices)
}

/// Every value of `s` is below `bound`.
pub open spec fn all_below(s: Seq<u32>, bound: int) -> bool {
    forall|i: int| 0 <= i < s.len() ==> #[trigger] s[i] < bound
}

proof fn lemma_row_len_mult_six(width: int, height: int, y: int, n: nat)
    ensures
        row_indices(width, height, y, n).len() % 6 == 0,
    decreases n,
{
    if n > 0 {
        lemma_row_len_mult_six(width, height, y, (n - 1) as nat);
    }
}

proof fn lemma_grid_len_mult_six(width: int, height: int, rows: nat)
    ensures
        grid_indices(width, height, rows).len() % 6 == 0,
    decreases rows,
{
    if rows > 0 {
        lemma_grid_len_mult_six(width, height, (rows - 1) as nat);
        lemma_row_len_mult_six(width, height, rows - 1, width as nat);
    }
}

/// The index list of every grid mesh is made of whole quads:
/// its length is a multiple of six, so it always holds whole triangles.
pub proof fn lemma_mesh_indices_whole_quads(width: int, height: int)
    ensures
        mesh_indices(width, height).len() % 6 == 0,
        mesh_indices(width, height).len() % 3 == 0,
{
    lemma_grid_len_mult_six(width, height, height as nat);
}

proof fn lemma_row_len(width: int, height: int, y: int, k: nat)
    requires
        width >= 1,
        0 <= y < height,
        k <= width,
    ensures
        row_indices(width, height, y, k).len() == (if y == height - 1 {
            0
        } else if k < width {
            6 * (k as int)
        } else {
            6 * (width - 1)
        }),
    decreases k,
{
    if k > 0 {
        lemma_row_len(width, height, y, (k - 1) as nat);
    }
}

proof fn lemma_grid_len(width: int, height: int, r: nat)
    requires
        width >= 1,
        height >= 1,
        r <= height,
    ensures
        grid_indices(width, height, r).len() == 6 * (width - 1) * (if r < height {
            r as int
        } else {
            height - 1
        }),
    decreases r,
{
    if r > 0 {
        lemma_grid_len(width, height, (r - 1) as nat);
        lemma_row_len(width, height, r - 1, width as nat);
        assert(6 * (width - 1) * (r - 1) + 6 * (width - 1) == 6 * (width - 1) * r)
            by (nonlinear_arith);
    }
}

/// On a heightmap `width` points wide and `height` points high, the mesh
/// holds two triangles for each of the `(width - 1) * (height - 1)` quads
/// between the points: `6 * (width - 1) * (height - 1)` indices.
pub proof fn lemma_mesh_index_count(width: int, height: int)
    requires
        width >= 1,
        height >= 1,
    ensures
        mesh_indices(width, height).len() == 6 * (width - 1) * (height - 1),
{
    lemma_grid_len(width, height, height as nat);
}

/// A non-negative value below `bound` stays below it when truncated to `u32`.
proof fn lemma_truncated_below(v: int, bound: int)
    requires
        0 <= v < bound,
    ensures
        (v as u32) < bound,
{
    if v > u32::MAX {
        assert((v as u32) <= u32::MAX);
    }
}

proof fn lemma_cell_below(width: int, height: int, x: int, y: int)
    requires
        0 <= x < width,
        0 <= y < height,
    ensures
        all_below(cell_indices(width, height, x, y), width * height),
{
    if !cell_skipped(width, height, x, y) {
        lemma_mul_le(y + 1, height - 1, width);
        assert((height - 1) * width == width * height - width) by (nonlinear_arith);
        assert(y * width + width == (y + 1) * width) by (nonlinear_arith);
        assert(y * width >= 0) by (nonlinear_arith)
            requires
                y >= 0,
                width >= 1,
        ;
        let q = quad_indices(width, x, y);
        assert forall|i: int| 0 <= i < q.len() implies #[trigger] q[i] < width * height by {
            lemma_truncated_below(grid_index(width, x + 1, y + 1), width * height);
            lemma_truncated_below(grid_index(width, x + 1, y), width * height);
            lemma_truncated_below(grid_index(width, x, y + 1), width * height);
            lemma_truncated_below(grid_index(width, x, y), width * height);
        }
    }
}

proof fn lemma_all_below_concat(a: Seq<u32>, b: Seq<u32>, bound: int)
    requires
        all_below(a, bound),
        all_below(b, bound),
    ensures
        all_below(a + b, bound),
{
    assert forall|i: int| 0 <= i < (a + b).len() implies #[trigger] (a + b)[i] < bound by {
        if i < a.len() {
            assert(a[i] < bound);
        } else {
            assert(b[i - a.len()] < bound);
        }
    }
}

proof fn lemma_row_below(width: int, height: int, y: int, k: nat)
    requires
        0 <= y < height,
        k <= width,
    ensures
        all_below(row_indices(width, height, y, k), width * height),
    decreases k,
{
    if k > 0 {
        lemma_row_below(width, height, y, (k - 1) as nat);
        lemma_cell_below(width, height, k - 1, y);
        lemma_all_below_concat(
            row_indices(width, height, y, (k - 1) as nat),
            cell_indices(width, height, k - 1, y),
            width * height,
        );
    }
}

proof fn lemma_grid_below(width: int, height: int, r: nat)
    requires
        width >= 0,
        r <= height,
    ensures
        all_below(grid_indices(width, height, r), width * height),
    decreases r,
{
    if r > 0 {
        lemma_grid_below(width, height, (r - 1) as nat);
        lemma_row_below(width, height, r - 1, width as nat);
        lemma_all_below_concat(
            grid_indices(width, height, (r - 1) as nat),
            row_indices(width, height, r - 1, width as nat),
            width * height,
        );
    }
}

/// On a heightmap `width` points wide and `height` points high, every index
/// of the mesh names one of its `width * height` vertices.
pub proof fn lemma_mesh_indices_in_range(width: int, height: int)
    requires
        width >= 0,
        height >= 0,
    ensures
        all_below(mesh_indices(width, height), width * height),
{
    lemma_grid_below(width, height, height as nat);
}

/// Appending a mesh to another keeps every index valid: when the indices of
/// each mesh name only its own vertices, and no offset index overflows, the
/// merged indices name only vertices of the merged list.
pub proof fn lemma_append_keeps_in_range(
    vertex_count: nat,
    indices: Seq<u32>,
    extra_vertex_count: nat,
    extra_indices: Seq<u32>,
)
    requires
        all_below(indices, vertex_count as int),
        all_below(extra_indices, extra_vertex_count as int),
        forall|i: int|
            0 <= i < extra_indices.len() ==> #[trigger] extra_indices[i] + (vertex_count as u32)
                <= u32::MAX,
    ensures
        all_below(
            indices + offset_indices(extra_indices, vertex_count as u32),
            (vertex_count + extra_vertex_count) as int,
        ),
{
    let base = vertex_count as u32;
    assert(base <= vertex_count) by {
        if vertex_count > u32::MAX {
            assert(base <= u32::MAX);
        } else {
            assert(base == vertex_count);
        }
    }
    let b = offset_indices(extra_indices, base);
    assert forall|k: int| 0 <= k < b.len() implies #[trigger] b[k] < vertex_count
        + extra_vertex_count by {
        assert(extra_indices[k] < extra_vertex_count);
        assert(b[k] == extra_indices[k] + base);
    }
    assert(all_below(indices, (vertex_count + extra_vertex_count) as int));
    lemma_all_below_concat(indices, b, (vertex_count + extra_vertex_count) as int);
}

/// The chunk mesh of a heightmap `width` by `height`, merged with an extra
/// mesh whose indices name its own `extra_count` vertices, names only its
/// own `width * height + extra_count` vertices.
pub proof fn lemma_chunk_mesh_in_range(
    width: nat,
    height: nat,
    extra_indices: Seq<u32>,
    extra_count: nat,
)
    requires
        all_below(extra_indices, extra_count as int),
        forall|i: int|
            0 <= i < extra_indices.len() ==> #[trigger] extra_indices[i] + ((width * height) as u32)
                <= u32::MAX,
    ensures
        all_below(
            mesh_indices(width as int, height as int) + offset_indices(
                extra_indices,
                (width * height) as u32,
            ),
            (width * height + extra_count) as int,
        ),
{
    lemma_mesh_indices_in_range(width as int, height as int);
    lemma_append_keeps_in_range(
        width * height,
        mesh_indices(width as int, height as int),
        extra_count,
        extra_indices,
    );
}

/// Appending one mesh to another keeps every triangle pointing at the same
/// vertices: an index of the first mesh still names the vertex it named, and
/// an offset index of the second mesh names the vertex that its original
/// index named there (while the first mesh's vertex count fits in a `u32`).
pub proof fn lemma_append_keeps_references<V>(
    vertices: Seq<V>,
    indices: Seq<u32>,
    extra_vertices: Seq<V>,
    extra_indices: Seq<u32>,
)
    requires
        vertices.len() <= u32::MAX,
        forall|i: int|
            0 <= i < extra_indices.len() ==> #[trigger] extra_indices[i] + vertices.len()
                <= u32::MAX,
    ensures
        ({
            let merged = vertices + extra_vertices;
            let merged_indices = indices + offset_indices(extra_indices, vertices.len() as u32);
            &&& merged_indices.len() == indices.len() + extra_indices.len()
            &&& forall|k: int|
                0 <= k < indices.len() && indices[k] < vertices.len() ==> merged[merged_indices[k] as int]
                    == vertices[#[trigger] indices[k] as int]
            &&& forall|k: int|
                0 <= k < extra_indices.len() && extra_indices[k] < extra_vertices.len()
                    ==> merged[merged_indices[indices.len() + k] as int]
                    == extra_vertices[#[trigger] extra_indices[k] as int]
        }),
{
    let merged = vertices + extra_vertices;
    let merged_indices = indices + offset_indices(extra_indices, vertices.len() as u32);
    assert forall|k: int|
        0 <= k < extra_indices.len() && extra_indices[k] < extra_vertices.len() implies merged[merged_indices[indices.len()
        + k] as int] == extra_vertices[#[trigger] extra_indices[k] as int] by {
        assert(merged_indices[indices.len() + k] == extra_indices[k] + vertices.len());
    }
}

proof fn lemma_row_prefix(width: int, height: int, y: int, k1: nat, k2: nat)
    requires
        k1 <= k2,
    ensures
        row_indices(width, height, y, k1).len() <= row_indices(width, height, y, k2).len(),
        forall|i: int|
            0 <= i < row_indices(width, height, y, k1).len() ==> row_indices(
                width,
                height,
                y,
                k2,
            )[i] == #[trigger] row_indices(width, height, y, k1)[i],
    decreases k2,
{
    if k1 < k2 {
        lemma_row_prefix(width, height, y, k1, (k2 - 1) as nat);
    }
}

proof fn lemma_grid_prefix(width: int, height: int, r1: nat, r2: nat)
    requires
        r1 <= r2,
    ensures
        grid_indices(width, height, r1).len() <= grid_indices(width, height, r2).len(),
        forall|i: int|
            0 <= i < grid_indices(width, height, r1).len() ==> grid_indices(
                width,
                height,
                r2,
            )[i] == #[trigger] grid_indices(width, height, r1)[i],
    decreases r2,
{
    if r1 < r2 {
        lemma_grid_prefix(width, height, r1, (r2 - 1) as nat);
    }
}

/// Position in the index list of the first index of the quad whose top-left
/// corner is `(x, y)`: quads come row by row, `width - 1` to a row, six
/// indices each.
pub open spec fn quad_start(width: int, x: int, y: int) -> int {
    6 * (y * (width - 1) + x)
}

/// Each quad's six indices name its own corners. For every point `(x, y)`
/// that is not the last of its row or column, the indices at
/// `6 * (y * (width - 1) + x)` onward are the positions `y * width + x` of
/// the corners `(x+1, y+1), (x+1, y), (x, y), (x, y+1), (x+1, y+1), (x, y)`,
/// each taken as a `u32`; when the `width * height` vertices can all be
/// addressed by a `u32`, they are these positions exactly.
pub proof fn lemma_mesh_quad_corners(width: int, height: int, x: int, y: int)
    requires
        0 <= x < width - 1,
        0 <= y < height - 1,
    ensures
        ({
            let m = mesh_indices(width, height);
            let p = quad_start(width, x, y);
            &&& 0 <= p
            &&& p + 6 <= m.len()
            &&& m[p] == ((y + 1) * width + x + 1) as u32
            &&& m[p + 1] == (y * width + x + 1) as u32
            &&& m[p + 2] == (y * width + x) as u32
            &&& m[p + 3] == ((y + 1) * width + x) as u32
            &&& m[p + 4] == ((y + 1) * width + x + 1) as u32
            &&& m[p + 5] == (y * width + x) as u32
            &&& width * height <= u32::MAX + 1 ==> {
                &&& m[p] as int == (y + 1) * width + x + 1
                &&& m[p + 1] as int == y * width + x + 1
                &&& m[p + 2] as int == y * width + x
                &&& m[p + 3] as int == (y + 1) * width + x
                &&& m[p + 4] as int == (y + 1) * width + x + 1
                &&& m[p + 5] as int == y * width + x
            }
        }),
{
    let m = mesh_indices(width, height);
    let g = grid_indices(width, height, y as nat);
    let row = row_indices(width, height, y, width as nat);
    let before = row_indices(width, height, y, x as nat);
    let upto = row_indices(width, height, y, (x + 1) as nat);
    let q = quad_indices(width, x, y);
    lemma_grid_len(width, height, y as nat);
    lemma_row_len(width, height, y, x as nat);
    assert(6 * (width - 1) * y == 6 * (y * (width - 1))) by (nonlinear_arith);
    let p = quad_start(width, x, y);
    assert(p == g.len() + before.len());
    assert(y * (width - 1) >= 0) by (nonlinear_arith)
        requires
            y >= 0,
            width >= 2,
    ;
    assert(upto == before + q);
    lemma_row_prefix(width, height, y, (x + 1) as nat, width as nat);
    assert(grid_indices(width, height, (y + 1) as nat) == g + row);
    lemma_grid_prefix(width, height, (y + 1) as nat, height as nat);
    assert forall|k: int| 0 <= k < 6 implies m[p + k] == #[trigger] q[k] by {
        assert(upto[before.len() + k] == q[k]);
        assert(row[before.len() + k] == upto[before.len() + k]);
        assert((g + row)[p + k] == row[before.len() + k]);
        assert(m[p + k] == grid_indices(width, height, (y + 1) as nat)[p + k]);
    }
    assert(m[p] == q[0]);
    assert(m[p + 1] == q[1]);
    assert(m[p + 2] == q[2]);
    assert(m[p + 3] == q[3]);
    assert(m[p + 4] == q[4]);
    assert(m[p + 5] == q[5]);
    if width * height <= u32::MAX + 1 {
        lemma_mul_le(y + 2, height, width);
        assert((y + 1) * width + width == (y + 2) * width) by (nonlinear_arith);
        assert(y * width >= 0) by (nonlinear_arith)
            requires
                y >= 0,
                width >= 2,
        ;
        assert(height * width == width * height) by (nonlinear_arith);
        assert((y + 1) * width == y * width + width) by (nonlinear_arith);
        assert((y + 1) * width + x + 1 <= u32::MAX);
        assert(y * width + x + 1 <= u32::MAX);
        assert(y * width + x <= u32::MAX);
        assert((y + 1) * width + x <= u32::MAX);
    }
}

} // verus!
