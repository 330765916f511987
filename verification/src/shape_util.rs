use vstd::prelude::*;

verus! {

/// The corners of the 100-unit cube, three coordinates per corner.
pub open spec fn spec_cube_vertices() -> Seq<u32> {
    seq![
        0, 0, 0,
        100, 0, 0,
        0, 100, 0,
        0, 0, 100,
        100, 100, 0,
        100, 0, 100,
        0, 100, 100,
        100, 100, 100,
    ]
}

/// Two triangles each for the front, left, right and back faces of the cube.
pub open spec fn spec_cube_indices() -> Seq<u32> {
    seq![
        0, 1, 4,
        0, 4, 2,
        0, 6, 3,
        0, 2, 6,
        1, 5, 7,
        1, 7, 4,
        3, 7, 5,
        3, 6, 7,
    ]
}

/// The corners of a 100-unit square in the plane z = 0.
pub open spec fn spec_practice_vertices() -> Seq<u32> {
    seq![
        0, 0, 0,
        100, 0, 0,
        0, 100, 0,
        100, 100, 0,
    ]
}

/// The two triangles that cover the square.
pub open spec fn spec_practice_indices() -> Seq<u32> {
    seq![0, 1, 3, 0, 3, 2]
}

/// The `axis` coordinate of vertex `k`.
pub open spec fn coord(vertices: Seq<u32>, k: int, axis: int) -> int {
    vertices[3 * k + axis] as int
}

/// The `c`-th corner (0, 1 or 2) of triangle `t`, as a vertex number.
pub open spec fn corner(indices: Seq<u32>, t: int, c: int) -> int {
    indices[3 * t + c] as int
}

/// Whole vertices and whole triangles, and every index names a vertex.
pub open spec fn mesh_well_formed(vertices: Seq<u32>, indices: Seq<u32>) -> bool {
    &&& vertices.len() % 3 == 0
    &&& indices.len() % 3 == 0
    &&& forall|i: int| 0 <= i < indices.len() ==> 3 * (#[trigger] indices[i] as int) < vertices.len()
}

/// The three corners of triangle `t` share their `axis` coordinate.
pub open spec fn flat_along(vertices: Seq<u32>, indices: Seq<u32>, t: int, axis: int) -> bool {
    &&& coord(vertices, corner(indices, t, 0), axis) == coord(vertices, corner(indices, t, 1), axis)
    &&& coord(vertices, corner(indices, t, 0), axis) == coord(vertices, corner(indices, t, 2), axis)
}

/// The edge from corner 0 to corner `c` of triangle `t`, along `axis`.
pub open spec fn edge(vertices: Seq<u32>, indices: Seq<u32>, t: int, c: int, axis: int) -> int {
    coord(vertices, corner(indices, t, c), axis) - coord(vertices, corner(indices, t, 0), axis)
}

/// Triangle `t` spans an area: the cross product of its two edges from
/// corner 0 is not the zero vector.
pub open spec fn nondegenerate(vertices: Seq<u32>, indices: Seq<u32>, t: int) -> bool {
    let (ax, ay, az) = (edge(vertices, indices, t, 1, 0), edge(vertices, indices, t, 1, 1), edge(vertices, indices, t, 1, 2));
    let (bx, by, bz) = (edge(vertices, indices, t, 2, 0), edge(vertices, indices, t, 2, 1), edge(vertices, indices, t, 2, 2));
    ay * bz - az * by != 0 || az * bx - ax * bz != 0 || ax * by - ay * bx != 0
}

/// The vertex data, index data and index count of the cube.
pub fn create_cube_vertices() -> (r: (Vec<u32>, Vec<u32>, u32))
    ensures
        r.0@ == spec_cube_vertices(),
        r.1@ == spec_cube_indices(),
        r.2 == r.1@.len(),
{
    let vertex_data: Vec<u32> = vec![
        0, 0, 0,
        100, 0, 0,
        0, 100, 0,
        0, 0, 100,
        100, 100, 0,
        100, 0, 100,
        0, 100, 100,
        100, 100, 100,
    ];
    let index_data: Vec<u32> = vec![
        0, 1, 4,
        0, 4, 2,
        0, 6, 3,
        0, 2, 6,
        1, 5, 7,
        1, 7, 4,
        3, 7, 5,
        3, 6, 7,
    ];
    assert(vertex_data@ =~= spec_cube_vertices());
    assert(index_data@ =~= spec_cube_indices());
    let num_vertices: u32 = index_data.len() as u32;
    (vertex_data, index_data, num_vertices)
}

/// The vertex data, index data and index count of the square.
pub fn create_practice_vertices() -> (r: (Vec<u32>, Vec<u32>, u32))
    ensures
        r.0@ == spec_practice_vertices(),
        r.1@ == spec_practice_indices(),
        r.2 == r.1@.len(),
{
    let vertex_data: Vec<u32> = vec![
        0, 0, 0,
        100, 0, 0,
        0, 100, 0,
        100, 100, 0,
    ];
    let index_data: Vec<u32> = vec![0, 1, 3, 0, 3, 2];
    assert(vertex_data@ =~= spec_practice_vertices());
    assert(index_data@ =~= spec_practice_indices());
    let num_vertices: u32 = index_data.len() as u32;
    (vertex_data, index_data, num_vertices)
}

/// Vertex `k` sits at a corner of the 100-unit cube.
pub open spec fn on_cube_corner(vertices: Seq<u32>, k: int) -> bool {
    forall|axis: int| 0 <= axis < 3 ==> #[trigger] coord(vertices, k, axis) == 0 || coord(vertices, k, axis) == 100
}

/// Vertices `k` and `l` are different points.
pub open spec fn distinct_points(vertices: Seq<u32>, k: int, l: int) -> bool {
    coord(vertices, k, 0) != coord(vertices, l, 0)
        || coord(vertices, k, 1) != coord(vertices, l, 1)
        || coord(vertices, k, 2) != coord(vertices, l, 2)
}

/// Triangle `t` lies in a face of the cube: its corners share one
/// coordinate, which is 0 or 100.
pub open spec fn on_cube_face(vertices: Seq<u32>, indices: Seq<u32>, t: int) -> bool {
    exists|axis: int|
        0 <= axis < 3 && #[trigger] flat_along(vertices, indices, t, axis) && (coord(
            vertices,
            corner(indices, t, 0),
            axis,
        ) == 0 || coord(vertices, corner(indices, t, 0), axis) == 100)
}

/// The cube mesh is sound: every index names one of its eight vertices,
/// the vertices are the eight distinct corners of the 100-unit cube, and
/// each of the eight triangles spans an area and lies in a face of the cube.
pub proof fn lemma_cube_mesh()
    ensures
        spec_cube_vertices().len() == 24,
        spec_cube_indices().len() == 24,
        mesh_well_formed(spec_cube_vertices(), spec_cube_indices()),
        forall|k: int| 0 <= k < 8 ==> #[trigger] on_cube_corner(spec_cube_vertices(), k),
        forall|k: int, l: int|
            0 <= k < l < 8 ==> #[trigger] distinct_points(spec_cube_vertices(), k, l),
        forall|t: int|
            0 <= t < 8 ==> #[trigger] nondegenerate(spec_cube_vertices(), spec_cube_indices(), t)
                && on_cube_face(spec_cube_vertices(), spec_cube_indices(), t),
{
    let v = spec_cube_vertices();
    let ix = spec_cube_indices();
    assert forall|k: int| 0 <= k < 8 implies #[trigger] on_cube_corner(v, k) by {
        assert forall|axis: int| 0 <= axis < 3 implies #[trigger] coord(v, k, axis) == 0 || coord(v, k, axis) == 100 by {
            assert(0 <= 3 * k + axis < 24);
        }
    }
    assert forall|t: int| 0 <= t < 8 implies #[trigger] nondegenerate(v, ix, t) && on_cube_face(v, ix, t) by {
        if t == 0 {
            assert(corner(ix, t, 0) == 0);
            assert(corner(ix, t, 1) == 1);
            assert(corner(ix, t, 2) == 4);
            assert(edge(v, ix, t, 1, 0) == 100);
            assert(edge(v, ix, t, 1, 1) == 0);
            assert(edge(v, ix, t, 1, 2) == 0);
            assert(edge(v, ix, t, 2, 0) == 100);
            assert(edge(v, ix, t, 2, 1) == 100);
            assert(edge(v, ix, t, 2, 2) == 0);
            assert(flat_along(v, ix, t, 2));
            assert(coord(v, corner(ix, t, 0), 2) == 0);
            assert(nondegenerate(v, ix, t));
            assert(on_cube_face(v, ix, t));
        } else if t == 1 {
            assert(corner(ix, t, 0) == 0);
            assert(corner(ix, t, 1) == 4);
            assert(corner(ix, t, 2) == 2);
            assert(edge(v, ix, t, 1, 0) == 100);
            assert(edge(v, ix, t, 1, 1) == 100);
            assert(edge(v, ix, t, 1, 2) == 0);
            assert(edge(v, ix, t, 2, 0) == 0);
            assert(edge(v, ix, t, 2, 1) == 100);
            assert(edge(v, ix, t, 2, 2) == 0);
            assert(flat_along(v, ix, t, 2));
            assert(coord(v, corner(ix, t, 0), 2) == 0);
            assert(nondegenerate(v, ix, t));
            assert(on_cube_face(v, ix, t));
        } else if t == 2 {
            assert(corner(ix, t, 0) == 0);
            assert(corner(ix, t, 1) == 6);
            assert(corner(ix, t, 2) == 3);
            assert(edge(v, ix, t, 1, 0) == 0);
            assert(edge(v, ix, t, 1, 1) == 100);
            assert(edge(v, ix, t, 1, 2) == 100);
            assert(edge(v, ix, t, 2, 0) == 0);
            assert(edge(v, ix, t, 2, 1) == 0);
            assert(edge(v, ix, t, 2, 2) == 100);
            assert(flat_along(v, ix, t, 0));
            assert(coord(v, corner(ix, t, 0), 0) == 0);
            assert(nondegenerate(v, ix, t));
            assert(on_cube_face(v, ix, t));
        } else if t == 3 {
            assert(corner(ix, t, 0) == 0);
            assert(corner(ix, t, 1) == 2);
            assert(corner(ix, t, 2) == 6);
            assert(edge(v, ix, t, 1, 0) == 0);
            assert(edge(v, ix, t, 1, 1) == 100);
            assert(edge(v, ix, t, 1, 2) == 0);
            assert(edge(v, ix, t, 2, 0) == 0);
            assert(edge(v, ix, t, 2, 1) == 100);
            assert(edge(v, ix, t, 2, 2) == 100);
            assert(flat_along(v, ix, t, 0));
            assert(coord(v, corner(ix, t, 0), 0) == 0);
            assert(nondegenerate(v, ix, t));
            assert(on_cube_face(v, ix, t));
        } else if t == 4 {
            assert(corner(ix, t, 0) == 1);
            assert(corner(ix, t, 1) == 5);
            assert(corner(ix, t, 2) == 7);
            assert(edge(v, ix, t, 1, 0) == 0);
            assert(edge(v, ix, t, 1, 1) == 0);
            assert(edge(v, ix, t, 1, 2) == 100);
            assert(edge(v, ix, t, 2, 0) == 0);
            assert(edge(v, ix, t, 2, 1) == 100);
            assert(edge(v, ix, t, 2, 2) == 100);
            assert(flat_along(v, ix, t, 0));
            assert(coord(v, corner(ix, t, 0), 0) == 100);
            assert(nondegenerate(v, ix, t));
            assert(on_cube_face(v, ix, t));
        } else if t == 5 {
            assert(corner(ix, t, 0) == 1);
            assert(corner(ix, t, 1) == 7);
            assert(corner(ix, t, 2) == 4);
            assert(edge(v, ix, t, 1, 0) == 0);
            assert(edge(v, ix, t, 1, 1) == 100);
            assert(edge(v, ix, t, 1, 2) == 100);
            assert(edge(v, ix, t, 2, 0) == 0);
            assert(edge(v, ix, t, 2, 1) == 100);
            assert(edge(v, ix, t, 2, 2) == 0);
            assert(flat_along(v, ix, t, 0));
            assert(coord(v, corner(ix, t, 0), 0) == 100);
            assert(nondegenerate(v, ix, t));
            assert(on_cube_face(v, ix, t));
        } else if t == 6 {
            assert(corner(ix, t, 0) == 3);
            assert(corner(ix, t, 1) == 7);
            assert(corner(ix, t, 2) == 5);
            assert(edge(v, ix, t, 1, 0) == 100);
            assert(edge(v, ix, t, 1, 1) == 100);
            assert(edge(v, ix, t, 1, 2) == 0);
            assert(edge(v, ix, t, 2, 0) == 100);
            assert(edge(v, ix, t, 2, 1) == 0);
            assert(edge(v, ix, t, 2, 2) == 0);
            assert(flat_along(v, ix, t, 2));
            assert(coord(v, corner(ix, t, 0), 2) == 100);
            assert(nondegenerate(v, ix, t));
            assert(on_cube_face(v, ix, t));
        } else if t == 7 {
            assert(corner(ix, t, 0) == 3);
            assert(corner(ix, t, 1) == 6);
            assert(corner(ix, t, 2) == 7);
            assert(edge(v, ix, t, 1, 0) == 0);
            assert(edge(v, ix, t, 1, 1) == 100);
            assert(edge(v, ix, t, 1, 2) == 0);
            assert(edge(v, ix, t, 2, 0) == 100);
            assert(edge(v, ix, t, 2, 1) == 100);
            assert(edge(v, ix, t, 2, 2) == 0);
            assert(flat_along(v, ix, t, 2));
            assert(coord(v, corner(ix, t, 0), 2) == 100);
            assert(nondegenerate(v, ix, t));
            assert(on_cube_face(v, ix, t));
        }
    }
}

/// The square mesh is sound: every index names one of its four vertices,
/// the vertices are four distinct points of the plane z = 0, and both
/// triangles span an area in that plane.
pub proof fn lemma_practice_mesh()
    ensures
        spec_practice_vertices().len() == 12,
        spec_practice_indices().len() == 6,
        mesh_well_formed(spec_practice_vertices(), spec_practice_indices()),
        forall|k: int| 0 <= k < 4 ==> #[trigger] coord(spec_practice_vertices(), k, 2) == 0,
        forall|k: int, l: int|
            0 <= k < l < 4 ==> #[trigger] distinct_points(spec_practice_vertices(), k, l),
        forall|t: int|
            0 <= t < 2 ==> #[trigger] nondegenerate(spec_practice_vertices(), spec_practice_indices(), t)
                && flat_along(spec_practice_vertices(), spec_practice_indices(), t, 2),
{
    let v = spec_practice_vertices();
    let ix = spec_practice_indices();
    assert forall|t: int| 0 <= t < 2 implies #[trigger] nondegenerate(v, ix, t) && flat_along(v, ix, t, 2) by {
        if t == 0 {
            assert(corner(ix, t, 0) == 0);
            assert(corner(ix, t, 1) == 1);
            assert(corner(ix, t, 2) == 3);
            assert(edge(v, ix, t, 1, 0) == 100);
            assert(edge(v, ix, t, 1, 1) == 0);
            assert(edge(v, ix, t, 1, 2) == 0);
            assert(edge(v, ix, t, 2, 0) == 100);
            assert(edge(v, ix, t, 2, 1) == 100);
            assert(edge(v, ix, t, 2, 2) == 0);
            assert(flat_along(v, ix, t, 2));
        } else if t == 1 {
            assert(corner(ix, t, 0) == 0);
            assert(corner(ix, t, 1) == 3);
            assert(corner(ix, t, 2) == 2);
            assert(edge(v, ix, t, 1, 0) == 100);
            assert(edge(v, ix, t, 1, 1) == 100);
            assert(edge(v, ix, t, 1, 2) == 0);
            assert(edge(v, ix, t, 2, 0) == 0);
            assert(edge(v, ix, t, 2, 1) == 100);
            assert(edge(v, ix, t, 2, 2) == 0);
            assert(flat_along(v, ix, t, 2));
        }
    }
}

} // verus!
