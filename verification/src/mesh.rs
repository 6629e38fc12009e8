//! Topology of the terrain mesh: a regular grid of vertices and the triangles
//! that cover it.
//!
//! The generator is pure. It hands out lattice coordinates, not world
//! positions: the vertex in column `x` and row `y` stands at the world position
//! `(x * gap, y * gap)`, and scaling by the spacing `gap` is left to the caller
//! that uploads the vertices. Heights live in a separate stream (see
//! `heightfield`), so the topology never changes once it has been generated.

use vstd::arithmetic::div_mod::lemma_fundamental_div_mod_converse;
use vstd::arithmetic::mul::lemma_mul_inequality;
use vstd::prelude::*;

verus! {

/// One vertex of the grid, by its lattice coordinates.
#[derive(Clone, Copy, Debug, PartialEq, Eq, Structural)]
pub struct MeshVertex {
    /// The column, in `[0, width)`.
    pub x: u32,
    /// The row, in `[0, height)`.
    pub y: u32,
}

/// Number of vertices of a `width` by `height` grid.
pub open spec fn vertex_count(width: int, height: int) -> int {
    width * height
}

/// Number of quads of the grid: one for every vertex that is neither in the
/// last column nor in the last row. A grid with fewer than two columns or
/// fewer than two rows has none.
pub open spec fn quad_count(width: int, height: int) -> int {
    if width < 2 || height < 2 {
        0
    } else {
        (width - 1) * (height - 1)
    }
}

/// Number of triangle indices of the grid: two triangles for each quad.
pub open spec fn index_count(width: int, height: int) -> int {
    6 * quad_count(width, height)
}

/// Linear index of the vertex in column `x` and row `y`. Vertices are laid out
/// column after column, so the row varies fastest.
pub open spec fn vertex_index(height: int, x: int, y: int) -> int {
    x * height + y
}

/// The vertex with linear index `k`.
pub open spec fn grid_vertex(height: int, k: int) -> MeshVertex {
    MeshVertex { x: (k / height) as u32, y: (k % height) as u32 }
}

/// The six indices of the quad whose first corner is the vertex `v`, by slot.
/// The quad `{(x,y), (x,y+1), (x+1,y+1), (x+1,y)}` is covered by the triangles
/// `[v, v+1, v+height+1]` and `[v, v+height+1, v+height]`.
pub open spec fn quad_corner(height: int, v: int, slot: int) -> int {
    if slot == 0 || slot == 3 {
        v
    } else if slot == 1 {
        v + 1
    } else if slot == 2 || slot == 4 {
        v + height + 1
    } else {
        v + height
    }
}

/// The triangle index at position `j` of the index stream. Quads follow each
/// other in the order of their first corners, six indices each.
pub open spec fn grid_index(height: int, j: int) -> u32 {
    let quad = j / 6;
    let x = quad / (height - 1);
    let y = quad % (height - 1);
    quad_corner(height, vertex_index(height, x, y), j % 6) as u32
}

/// The vertex stream of a `width` by `height` grid.
pub open spec fn grid_vertices(width: int, height: int) -> Seq<MeshVertex> {
    Seq::new(vertex_count(width, height) as nat, |k: int| grid_vertex(height, k))
}

/// The index stream of a `width` by `height` grid.
pub open spec fn grid_indices(width: int, height: int) -> Seq<u32> {
    Seq::new(index_count(width, height) as nat, |j: int| grid_index(height, j))
}

/// Whether a grid can be held in memory with 32-bit indices: every vertex
/// index fits in a `u32`, and both streams have a length that fits in `usize`.
pub open spec fn grid_fits(width: int, height: int) -> bool {
    &&& 0 <= width
    &&& 0 <= height
    &&& vertex_count(width, height) <= u32::MAX + 1
    &&& vertex_count(width, height) <= usize::MAX
    &&& index_count(width, height) <= usize::MAX
}

/// Dividing a linear index by the stride gives back column and row.
proof fn lemma_row_major(stride: int, x: int, y: int)
    requires
        0 <= y < stride,
    ensures
        (x * stride + y) / stride == x,
        (x * stride + y) % stride == y,
{
    lemma_fundamental_div_mod_converse(x * stride + y, stride, x, y);
}

/// In a grid with at least one row, a column number is bounded by the number
/// of vertices.
proof fn lemma_columns_bounded(width: int, height: int)
    requires
        0 <= width,
        1 <= height,
    ensures
        width <= width * height,
{
    lemma_mul_inequality(1, height, width);
    assert(1 * width <= height * width);
    assert(height * width == width * height) by (nonlinear_arith);
}

/// Every corner of the quad at `(x, y)` is a vertex of the grid.
proof fn lemma_corner_in_range(width: int, height: int, x: int, y: int, slot: int)
    requires
        0 <= x < width - 1,
        0 <= y < height - 1,
        0 <= slot < 6,
    ensures
        0 <= quad_corner(height, vertex_index(height, x, y), slot) < width * height,
{
    assert(0 <= x * height) by (nonlinear_arith)
        requires
            0 <= x,
            0 <= height,
    ;
    assert((x + 2) * height <= width * height) by (nonlinear_arith)
        requires
            x + 2 <= width,
            0 <= height,
    ;
    assert((x + 2) * height == x * height + 2 * height) by (nonlinear_arith);
}

/// The vertex at linear index `x * height + y` has the coordinates `(x, y)`.
pub proof fn lemma_vertex_at(width: int, height: int, x: int, y: int)
    requires
        grid_fits(width, height),
        0 <= x < width,
        0 <= y < height,
    ensures
        0 <= vertex_index(height, x, y) < vertex_count(width, height),
        grid_vertices(width, height)[vertex_index(height, x, y)] == (MeshVertex {
            x: x as u32,
            y: y as u32,
        }),
        x <= u32::MAX,
        y <= u32::MAX,
{
    lemma_row_major(height, x, y);
    lemma_columns_bounded(width, height);
    assert(0 <= x * height) by (nonlinear_arith)
        requires
            0 <= x,
            0 <= height,
    ;
    assert((x + 1) * height <= width * height) by (nonlinear_arith)
        requires
            x + 1 <= width,
            0 <= height,
    ;
    assert((x + 1) * height == x * height + height) by (nonlinear_arith);
    assert(height <= width * height) by (nonlinear_arith)
        requires
            1 <= width,
            0 <= height,
    ;
}

/// The quad at `(x, y)` occupies six consecutive places of the index stream
/// and holds the winding `[v, v+1, v+height+1]`, `[v, v+height+1, v+height]`,
/// where `v` is the linear index of the vertex `(x, y)`.
pub proof fn lemma_quad_winding(width: int, height: int, x: int, y: int)
    requires
        grid_fits(width, height),
        0 <= x < width - 1,
        0 <= y < height - 1,
    ensures
        ({
            let first = 6 * (x * (height - 1) + y);
            let v = vertex_index(height, x, y);
            let indices = grid_indices(width, height);
            &&& 0 <= first
            &&& first + 6 <= indices.len()
            &&& indices[first] == v
            &&& indices[first + 1] == v + 1
            &&& indices[first + 2] == v + height + 1
            &&& indices[first + 3] == v
            &&& indices[first + 4] == v + height + 1
            &&& indices[first + 5] == v + height
        }),
{
    let quad = x * (height - 1) + y;
    lemma_row_major(height - 1, x, y);
    assert(0 <= x * (height - 1)) by (nonlinear_arith)
        requires
            0 <= x,
            0 <= height - 1,
    ;
    assert((x + 1) * (height - 1) <= (width - 1) * (height - 1)) by (nonlinear_arith)
        requires
            x + 1 <= width - 1,
            0 <= height - 1,
    ;
    assert((x + 1) * (height - 1) == x * (height - 1) + (height - 1)) by (nonlinear_arith);
    assert(quad + 1 <= quad_count(width, height));
    assert forall|slot: int| 0 <= slot < 6 implies #[trigger] grid_index(height, 6 * quad + slot)
        == quad_corner(height, vertex_index(height, x, y), slot) by {
        lemma_corner_in_range(width, height, x, y, slot);
        assert((6 * quad + slot) / 6 == quad);
        assert((6 * quad + slot) % 6 == slot);
    }
    assert(grid_index(height, 6 * quad + 0) == quad_corner(height, vertex_index(height, x, y), 0));
    assert(grid_index(height, 6 * quad + 1) == quad_corner(height, vertex_index(height, x, y), 1));
    assert(grid_index(height, 6 * quad + 2) == quad_corner(height, vertex_index(height, x, y), 2));
    assert(grid_index(height, 6 * quad + 3) == quad_corner(height, vertex_index(height, x, y), 3));
    assert(grid_index(height, 6 * quad + 4) == quad_corner(height, vertex_index(height, x, y), 4));
    assert(grid_index(height, 6 * quad + 5) == quad_corner(height, vertex_index(height, x, y), 5));
}

/// Every triangle index names a vertex of the grid.
pub proof fn lemma_indices_in_range(width: int, height: int, j: int)
    requires
        grid_fits(width, height),
        0 <= j < index_count(width, height),
    ensures
        grid_indices(width, height)[j] < vertex_count(width, height),
{
    let stride = height - 1;
    let quad = j / 6;
    let x = quad / stride;
    let y = quad % stride;
    assert(0 <= quad < (width - 1) * stride);
    assert(0 <= x < width - 1) by (nonlinear_arith)
        requires
            0 <= quad < (width - 1) * stride,
            0 < stride,
            x == quad / stride,
    ;
    assert(0 <= y < stride);
    lemma_corner_in_range(width, height, x, y, j % 6);
}

/// Whether a grid of the given dimensions can be generated on this machine.
pub fn mesh_fits(width: usize, height: usize) -> (fits: bool)
    ensures
        fits == grid_fits(width as int, height as int),
{
    assert(width * height <= u128::MAX) by (nonlinear_arith)
        requires
            0 <= width <= u64::MAX,
            0 <= height <= u64::MAX,
    ;
    let vertices: u128 = (width as u128) * (height as u128);
    if vertices > (u32::MAX as u128) + 1 || vertices > (usize::MAX as u128) {
        return false;
    }
    if width < 2 || height < 2 {
        return true;
    }
    assert(0 <= (width - 1) * (height - 1) <= width * height) by (nonlinear_arith)
        requires
            2 <= width,
            2 <= height,
    ;
    let quads: u128 = ((width - 1) as u128) * ((height - 1) as u128);
    6 * quads <= (usize::MAX as u128)
}

/// Generates the vertex and index streams of a `width` by `height` grid.
///
/// Vertices come column after column, the row varying fastest. For every
/// vertex that is neither in the last column nor in the last row, two
/// triangles cover the quad that starts there. A grid with fewer than two
/// columns or rows has no triangles, and one with no columns or no rows has no
/// vertices either: neither is an error.
pub fn gen_mesh_vertices(width: usize, height: usize) -> (mesh: (Vec<MeshVertex>, Vec<u32>))
    requires
        grid_fits(width as int, height as int),
    ensures
        mesh.0@ == grid_vertices(width as int, height as int),
        mesh.1@ == grid_indices(width as int, height as int),
        mesh.0@.len() == width * height,
        width >= 2 && height >= 2 ==> mesh.1@.len() == (width - 1) * (height - 1) * 6,
        width < 2 || height < 2 ==> mesh.1@.len() == 0,
        forall|j: int| 0 <= j < mesh.1@.len() ==> (#[trigger] mesh.1@[j]) < width * height,
{
    let mut mesh_vertices: Vec<MeshVertex> = Vec::new();
    let mut mesh_indices: Vec<u32> = Vec::new();
    let ghost w = width as int;
    let ghost h = height as int;
    if width == 0 || height == 0 {
        assert(w * h == 0) by (nonlinear_arith)
            requires
                w == 0 || h == 0,
        ;
        assert(mesh_vertices@ =~= grid_vertices(w, h));
        assert(mesh_indices@ =~= grid_indices(w, h));
        return (mesh_vertices, mesh_indices);
    }
    proof {
        lemma_columns_bounded(w, h);
    }
    let mut x: usize = 0;
    while x < width
        invariant
            w == width,
            h == height,
            grid_fits(w, h),
            1 <= h,
            w <= u32::MAX + 1,
            0 <= x <= w,
            mesh_vertices@.len() == x * h,
            forall|k: int|
                0 <= k < mesh_vertices@.len() ==> #[trigger] mesh_vertices@[k] == grid_vertex(h, k),
            x < w - 1 ==> mesh_indices@.len() == 6 * (x * (h - 1)),
            x >= w - 1 ==> mesh_indices@.len() == index_count(w, h),
            forall|j: int|
                0 <= j < mesh_indices@.len() ==> #[trigger] mesh_indices@[j] == grid_index(h, j),
        decreases w - x,
    {
        let mut y: usize = 0;
        proof {
            if x < w - 1 && h < 2 {
                assert(x * (h - 1) == 0) by (nonlinear_arith)
                    requires
                        h - 1 == 0,
                ;
            }
        }
        while y < height
            invariant
                w == width,
                h == height,
                grid_fits(w, h),
                1 <= h,
                w <= u32::MAX + 1,
                0 <= x < w,
                0 <= y <= h,
                mesh_vertices@.len() == x * h + y,
                forall|k: int|
                    0 <= k < mesh_vertices@.len() ==> #[trigger] mesh_vertices@[k] == grid_vertex(
                        h,
                        k,
                    ),
                x < w - 1 && y < h - 1 ==> mesh_indices@.len() == 6 * (x * (h - 1) + y),
                x < w - 1 && y >= h - 1 ==> mesh_indices@.len() == 6 * (x * (h - 1) + (h - 1)),
                x >= w - 1 ==> mesh_indices@.len() == index_count(w, h),
                forall|j: int|
                    0 <= j < mesh_indices@.len() ==> #[trigger] mesh_indices@[j] == grid_index(
                        h,
                        j,
                    ),
            decreases h - y,
        {
            proof {
                lemma_vertex_at(w, h, x as int, y as int);
                lemma_row_major(h, x as int, y as int);
            }
            mesh_vertices.push(MeshVertex { x: x as u32, y: y as u32 });
            if x + 1 != width && y + 1 != height {
                proof {
                    lemma_quad_winding(w, h, x as int, y as int);
                    lemma_corner_in_range(w, h, x as int, y as int, 2);
                }
                let curr_index: u32 = (mesh_vertices.len() - 1) as u32;
                let u32_height: u32 = height as u32;
                let ghost before = mesh_indices@;
                mesh_indices.push(curr_index);
                mesh_indices.push(curr_index + 1);
                mesh_indices.push(curr_index + u32_height + 1);
                mesh_indices.push(curr_index);
                mesh_indices.push(curr_index + u32_height + 1);
                mesh_indices.push(curr_index + u32_height);
                proof {
                    let first = 6 * (x * (h - 1) + y);
                    assert(before.len() == first);
                    assert(grid_indices(w, h)[first] == grid_index(h, first));
                    assert(grid_indices(w, h)[first + 1] == grid_index(h, first + 1));
                    assert(grid_indices(w, h)[first + 2] == grid_index(h, first + 2));
                    assert(grid_indices(w, h)[first + 3] == grid_index(h, first + 3));
                    assert(grid_indices(w, h)[first + 4] == grid_index(h, first + 4));
                    assert(grid_indices(w, h)[first + 5] == grid_index(h, first + 5));
                    assert forall|j: int| 0 <= j < mesh_indices@.len() implies mesh_indices@[j]
                        == grid_index(h, j) by {
                        if j < first {
                            assert(mesh_indices@[j] == before[j]);
                        }
                    }
                }
            }
            y += 1;
        }
        proof {
            assert((x + 1) * h == x * h + h) by (nonlinear_arith);
            assert((x + 1) * (h - 1) == x * (h - 1) + (h - 1)) by (nonlinear_arith);
            if x + 1 == w - 1 && h >= 2 {
                assert((x + 1) * (h - 1) == (w - 1) * (h - 1)) by (nonlinear_arith)
                    requires
                        x + 1 == w - 1,
                ;
            }
            if x + 1 >= w - 1 && x < w - 1 && h < 2 {
                assert(x * (h - 1) + (h - 1) == 0) by (nonlinear_arith)
                    requires
                        h - 1 == 0,
                ;
            }
        }
        x += 1;
    }
    proof {
        assert(mesh_vertices@ =~= grid_vertices(w, h));
        assert(mesh_indices@ =~= grid_indices(w, h));
        assert forall|j: int| 0 <= j < mesh_indices@.len() implies (#[trigger] mesh_indices@[j])
            < w * h by {
            lemma_indices_in_range(w, h, j);
        }
        if w >= 2 && h >= 2 {
            assert(6 * ((w - 1) * (h - 1)) == (w - 1) * (h - 1) * 6) by (nonlinear_arith);
        }
    }
    (mesh_vertices, mesh_indices)
}

/// The terrain mesh of one session: the grid of a map of `width` by `height`
/// vertices. It is generated once and never changes.
pub struct Mesh {
    width: usize,
    height: usize,
    vertices: Vec<MeshVertex>,
    indices: Vec<u32>,
}

impl Mesh {
    #[verifier::type_invariant]
    spec fn is_grid(self) -> bool {
        &&& grid_fits(self.width as int, self.height as int)
        &&& self.vertices@ == grid_vertices(self.width as int, self.height as int)
        &&& self.indices@ == grid_indices(self.width as int, self.height as int)
    }

    /// Number of columns.
    pub closed spec fn columns(&self) -> usize {
        self.width
    }

    /// Number of rows.
    pub closed spec fn rows(&self) -> usize {
        self.height
    }

    /// Generates the mesh of a map of `width` by `height` vertices.
    pub fn new(width: usize, height: usize) -> (mesh: Mesh)
        requires
            grid_fits(width as int, height as int),
        ensures
            mesh.columns() == width,
            mesh.rows() == height,
    {
        let (vertices, indices) = gen_mesh_vertices(width, height);
        Mesh { width, height, vertices, indices }
    }

    /// Number of columns.
    pub fn width(&self) -> (width: usize)
        ensures
            width == self.columns(),
    {
        self.width
    }

    /// Number of rows.
    pub fn height(&self) -> (height: usize)
        ensures
            height == self.rows(),
    {
        self.height
    }

    /// The vertex stream: one vertex for each place of the grid.
    pub fn vertices(&self) -> (vertices: &Vec<MeshVertex>)
        ensures
            grid_fits(self.columns() as int, self.rows() as int),
            vertices@ == grid_vertices(self.columns() as int, self.rows() as int),
            vertices@.len() == self.columns() * self.rows(),
    {
        proof {
            use_type_invariant(self);
        }
        &self.vertices
    }

    /// The index stream: three indices for each triangle, each of them the
    /// number of a vertex.
    pub fn indices(&self) -> (indices: &Vec<u32>)
        ensures
            grid_fits(self.columns() as int, self.rows() as int),
            indices@ == grid_indices(self.columns() as int, self.rows() as int),
            indices@.len() == index_count(self.columns() as int, self.rows() as int),
            forall|j: int|
                0 <= j < indices@.len() ==> (#[trigger] indices@[j]) < self.columns() * self.rows(),
    {
        proof {
            use_type_invariant(self);
            assert forall|j: int| 0 <= j < self.indices@.len() implies (#[trigger] self.indices@[j])
                < self.width * self.height by {
                lemma_indices_in_range(self.width as int, self.height as int, j);
            }
        }
        &self.indices
    }
}

} // verus!
