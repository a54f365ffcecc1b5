//! The cube mesh: six faces, each a quad of four corners sharing one
//! outward unit normal, split into two triangles.
//!
//! Corners are given in units of the cube's half extent, so each
//! coordinate is `-1` or `1`; scaling to a size is left to the caller.

use vstd::prelude::*;

verus! {

/// A vector with small integer coordinates.
#[derive(Clone, Copy, Debug, PartialEq, Eq, Structural)]
pub struct Vec3i {
    pub x: i8,
    pub y: i8,
    pub z: i8,
}

/// One vertex of the cube: a corner (in units of the half extent) and the
/// normal of the face it belongs to.
#[derive(Clone, Copy, Debug, PartialEq, Eq, Structural)]
pub struct CubeVertex {
    pub corner: Vec3i,
    pub normal: Vec3i,
}

/// Number of faces of the cube.
pub const FACE_COUNT: usize = 6;

/// Number of vertices of the mesh: four per face.
pub const VERTEX_COUNT: usize = 24;

/// Number of indices of the mesh: two triangles per face.
pub const INDEX_COUNT: usize = 36;

pub open spec fn v3(x: int, y: int, z: int) -> Vec3i {
    Vec3i { x: x as i8, y: y as i8, z: z as i8 }
}

/// The outward normal of face `f`, in the order +X, -X, +Y, -Y, +Z, -Z.
pub open spec fn face_normal(f: int) -> Vec3i {
    if f == 0 {
        v3(1, 0, 0)
    } else if f == 1 {
        v3(-1, 0, 0)
    } else if f == 2 {
        v3(0, 1, 0)
    } else if f == 3 {
        v3(0, -1, 0)
    } else if f == 4 {
        v3(0, 0, 1)
    } else {
        v3(0, 0, -1)
    }
}

/// Corner `k` (0..4) of face `f`.
pub open spec fn face_corner(f: int, k: int) -> Vec3i {
    if f == 0 {
        if k == 0 { v3(1, -1, -1) } else if k == 1 { v3(1, -1, 1) } else if k == 2 { v3(1, 1, 1) } else { v3(1, 1, -1) }
    } else if f == 1 {
        if k == 0 { v3(-1, -1, 1) } else if k == 1 { v3(-1, -1, -1) } else if k == 2 { v3(-1, 1, -1) } else { v3(-1, 1, 1) }
    } else if f == 2 {
        if k == 0 { v3(-1, 1, -1) } else if k == 1 { v3(1, 1, -1) } else if k == 2 { v3(1, 1, 1) } else { v3(-1, 1, 1) }
    } else if f == 3 {
        if k == 0 { v3(-1, -1, 1) } else if k == 1 { v3(1, -1, 1) } else if k == 2 { v3(1, -1, -1) } else { v3(-1, -1, -1) }
    } else if f == 4 {
        if k == 0 { v3(-1, -1, 1) } else if k == 1 { v3(1, -1, 1) } else if k == 2 { v3(1, 1, 1) } else { v3(-1, 1, 1) }
    } else {
        if k == 0 { v3(1, -1, -1) } else if k == 1 { v3(-1, -1, -1) } else if k == 2 { v3(-1, 1, -1) } else { v3(1, 1, -1) }
    }
}

/// Vertex `i` of the mesh: corner `i % 4` of face `i / 4`.
pub open spec fn cube_vertex(i: int) -> CubeVertex {
    CubeVertex { corner: face_corner(i / 4, i % 4), normal: face_normal(i / 4) }
}

/// Which corner of its face the `q`-th index (0..6) of a face's pair of
/// triangles names: the triangles are (0, 1, 2) and (0, 2, 3).
pub open spec fn quad_corner(q: int) -> int {
    if q == 0 || q == 3 {
        0
    } else if q == 1 {
        1
    } else if q == 2 || q == 4 {
        2
    } else {
        3
    }
}

/// Index `j` of the mesh.
pub open spec fn cube_index(j: int) -> int {
    4 * (j / 6) + quad_corner(j % 6)
}

fn make_vec(x: i8, y: i8, z: i8) -> (v: Vec3i)
    ensures
        v == v3(x as int, y as int, z as int),
{
    Vec3i { x, y, z }
}

fn normal_of_face(f: usize) -> (n: Vec3i)
    requires
        f < 6,
    ensures
        n == face_normal(f as int),
{
    if f == 0 {
        make_vec(1, 0, 0)
    } else if f == 1 {
        make_vec(-1, 0, 0)
    } else if f == 2 {
        make_vec(0, 1, 0)
    } else if f == 3 {
        make_vec(0, -1, 0)
    } else if f == 4 {
        make_vec(0, 0, 1)
    } else {
        make_vec(0, 0, -1)
    }
}

fn corners_of_face(f: usize) -> (c: [Vec3i; 4])
    requires
        f < 6,
    ensures
        forall|k: int| 0 <= k < 4 ==> #[trigger] c@[k] == face_corner(f as int, k),
{
    if f == 0 {
        [make_vec(1, -1, -1), make_vec(1, -1, 1), make_vec(1, 1, 1), make_vec(1, 1, -1)]
    } else if f == 1 {
        [make_vec(-1, -1, 1), make_vec(-1, -1, -1), make_vec(-1, 1, -1), make_vec(-1, 1, 1)]
    } else if f == 2 {
        [make_vec(-1, 1, -1), make_vec(1, 1, -1), make_vec(1, 1, 1), make_vec(-1, 1, 1)]
    } else if f == 3 {
        [make_vec(-1, -1, 1), make_vec(1, -1, 1), make_vec(1, -1, -1), make_vec(-1, -1, -1)]
    } else if f == 4 {
        [make_vec(-1, -1, 1), make_vec(1, -1, 1), make_vec(1, 1, 1), make_vec(-1, 1, 1)]
    } else {
        [make_vec(1, -1, -1), make_vec(-1, -1, -1), make_vec(-1, 1, -1), make_vec(1, 1, -1)]
    }
}

/// Builds the cube mesh: 24 vertices, four per face in the order +X, -X,
/// +Y, -Y, +Z, -Z, and 36 indices, two triangles per face.
pub fn build_cube() -> (mesh: (Vec<CubeVertex>, Vec<u32>))
    ensures
        mesh.0@.len() == VERTEX_COUNT,
        forall|i: int| 0 <= i < VERTEX_COUNT ==> #[trigger] mesh.0@[i] == cube_vertex(i),
        mesh.1@.len() == INDEX_COUNT,
        forall|j: int| 0 <= j < INDEX_COUNT ==> #[trigger] mesh.1@[j] as int == cube_index(j),
        mesh.0@ == seq![
            CubeVertex { corner: Vec3i { x: 1i8, y: -1i8, z: -1i8 }, normal: Vec3i { x: 1i8, y: 0i8, z: 0i8 } },
            CubeVertex { corner: Vec3i { x: 1i8, y: -1i8, z: 1i8 }, normal: Vec3i { x: 1i8, y: 0i8, z: 0i8 } },
            CubeVertex { corner: Vec3i { x: 1i8, y: 1i8, z: 1i8 }, normal: Vec3i { x: 1i8, y: 0i8, z: 0i8 } },
            CubeVertex { corner: Vec3i { x: 1i8, y: 1i8, z: -1i8 }, normal: Vec3i { x: 1i8, y: 0i8, z: 0i8 } },
            CubeVertex { corner: Vec3i { x: -1i8, y: -1i8, z: 1i8 }, normal: Vec3i { x: -1i8, y: 0i8, z: 0i8 } },
            CubeVertex { corner: Vec3i { x: -1i8, y: -1i8, z: -1i8 }, normal: Vec3i { x: -1i8, y: 0i8, z: 0i8 } },
            CubeVertex { corner: Vec3i { x: -1i8, y: 1i8, z: -1i8 }, normal: Vec3i { x: -1i8, y: 0i8, z: 0i8 } },
            CubeVertex { corner: Vec3i { x: -1i8, y: 1i8, z: 1i8 }, normal: Vec3i { x: -1i8, y: 0i8, z: 0i8 } },
            CubeVertex { corner: Vec3i { x: -1i8, y: 1i8, z: -1i8 }, normal: Vec3i { x: 0i8, y: 1i8, z: 0i8 } },
            CubeVertex { corner: Vec3i { x: 1i8, y: 1i8, z: -1i8 }, normal: Vec3i { x: 0i8, y: 1i8, z: 0i8 } },
            CubeVertex { corner: Vec3i { x: 1i8, y: 1i8, z: 1i8 }, normal: Vec3i { x: 0i8, y: 1i8, z: 0i8 } },
            CubeVertex { corner: Vec3i { x: -1i8, y: 1i8, z: 1i8 }, normal: Vec3i { x: 0i8, y: 1i8, z: 0i8 } },
            CubeVertex { corner: Vec3i { x: -1i8, y: -1i8, z: 1i8 }, normal: Vec3i { x: 0i8, y: -1i8, z: 0i8 } },
            CubeVertex { corner: Vec3i { x: 1i8, y: -1i8, z: 1i8 }, normal: Vec3i { x: 0i8, y: -1i8, z: 0i8 } },
            CubeVertex { corner: Vec3i { x: 1i8, y: -1i8, z: -1i8 }, normal: Vec3i { x: 0i8, y: -1i8, z: 0i8 } },
            CubeVertex { corner: Vec3i { x: -1i8, y: -1i8, z: -1i8 }, normal: Vec3i { x: 0i8, y: -1i8, z: 0i8 } },
            CubeVertex { corner: Vec3i { x: -1i8, y: -1i8, z: 1i8 }, normal: Vec3i { x: 0i8, y: 0i8, z: 1i8 } },
            CubeVertex { corner: Vec3i { x: 1i8, y: -1i8, z: 1i8 }, normal: Vec3i { x: 0i8, y: 0i8, z: 1i8 } },
            CubeVertex { corner: Vec3i { x: 1i8, y: 1i8, z: 1i8 }, normal: Vec3i { x: 0i8, y: 0i8, z: 1i8 } },
            CubeVertex { corner: Vec3i { x: -1i8, y: 1i8, z: 1i8 }, normal: Vec3i { x: 0i8, y: 0i8, z: 1i8 } },
            CubeVertex { corner: Vec3i { x: 1i8, y: -1i8, z: -1i8 }, normal: Vec3i { x: 0i8, y: 0i8, z: -1i8 } },
            CubeVertex { corner: Vec3i { x: -1i8, y: -1i8, z: -1i8 }, normal: Vec3i { x: 0i8, y: 0i8, z: -1i8 } },
            CubeVertex { corner: Vec3i { x: -1i8, y: 1i8, z: -1i8 }, normal: Vec3i { x: 0i8, y: 0i8, z: -1i8 } },
            CubeVertex { corner: Vec3i { x: 1i8, y: 1i8, z: -1i8 }, normal: Vec3i { x: 0i8, y: 0i8, z: -1i8 } },
        ],
        mesh.1@ == seq![
            0u32, 1, 2, 0, 2, 3,
            4, 5, 6, 4, 6, 7,
            8, 9, 10, 8, 10, 11,
            12, 13, 14, 12, 14, 15,
            16, 17, 18, 16, 18, 19,
            20, 21, 22, 20, 22, 23,
        ],
{
    let mut vertices: Vec<CubeVertex> = Vec::new();
    let mut indices: Vec<u32> = Vec::new();
    let mut f: usize = 0;
    while f < FACE_COUNT
        invariant
            f <= FACE_COUNT,
            vertices@.len() == 4 * f,
            indices@.len() == 6 * f,
            forall|i: int| 0 <= i < 4 * f ==> #[trigger] vertices@[i] == cube_vertex(i),
            forall|j: int| 0 <= j < 6 * f ==> #[trigger] indices@[j] as int == cube_index(j),
        decreases FACE_COUNT - f,
    {
        let normal = normal_of_face(f);
        let corners = corners_of_face(f);
        let base = vertices.len() as u32;
        let mut k: usize = 0;
        while k < 4
            invariant
                f < FACE_COUNT,
                k <= 4,
                base as int == 4 * f,
                normal == face_normal(f as int),
                forall|m: int| 0 <= m < 4 ==> #[trigger] corners@[m] == face_corner(f as int, m),
                vertices@.len() == 4 * f + k,
                forall|i: int| 0 <= i < 4 * f + k ==> #[trigger] vertices@[i] == cube_vertex(i),
            decreases 4 - k,
        {
            let corner = corners[k];
            vertices.push(CubeVertex { corner, normal });
            proof {
                let i = 4 * f + k;
                assert(i / 4 == f as int);
                assert(i % 4 == k as int);
            }
            k = k + 1;
        }
        let ghost before = indices@;
        indices.push(base);
        indices.push(base + 1);
        indices.push(base + 2);
        indices.push(base);
        indices.push(base + 2);
        indices.push(base + 3);
        proof {
            assert forall|j: int| 0 <= j < 6 * (f + 1) implies #[trigger] indices@[j] as int == cube_index(j) by {
                if j >= 6 * f {
                    assert(j / 6 == f as int);
                    assert(j % 6 == j - 6 * f);
                } else {
                    assert(indices@[j] == before[j]);
                }
            }
        }
        f = f + 1;
    }
    (vertices, indices)
}


/// The dot product of two vectors.
pub open spec fn dot(a: Vec3i, b: Vec3i) -> int {
    a.x * b.x + a.y * b.y + a.z * b.z
}

/// `c` is `-1` or `1`.
pub open spec fn is_sign(c: i8) -> bool {
    c == 1 || c == -1
}

/// Every coordinate of `v` is `-1` or `1`: `v` is a corner of the cube.
pub open spec fn is_cube_corner(v: Vec3i) -> bool {
    is_sign(v.x) && is_sign(v.y) && is_sign(v.z)
}

/// `n` is one of the six unit axis vectors.
pub open spec fn is_unit_axis(n: Vec3i) -> bool {
    ||| is_sign(n.x) && n.y == 0 && n.z == 0
    ||| n.x == 0 && is_sign(n.y) && n.z == 0
    ||| n.x == 0 && n.y == 0 && is_sign(n.z)
}

/// The number of coordinates in which `a` and `b` differ.
pub open spec fn coordinates_differing(a: Vec3i, b: Vec3i) -> int {
    (if a.x != b.x { 1int } else { 0int }) + (if a.y != b.y { 1int } else { 0int }) + (if a.z
        != b.z { 1int } else { 0int })
}

proof fn lemma_face_corner_facts(f: int, k: int)
    requires
        0 <= f < 6,
        0 <= k < 4,
    ensures
        is_cube_corner(face_corner(f, k)),
        is_unit_axis(face_normal(f)),
        dot(face_corner(f, k), face_normal(f)) == 1,
        coordinates_differing(face_corner(f, k), face_corner(f, (k + 1) % 4)) == 1,
        coordinates_differing(face_corner(f, k), face_corner(f, (k + 2) % 4)) == 2,
{
}

/// Every vertex of the mesh is a corner of the cube, its normal is a unit
/// axis vector, and the normal points outward: the corner lies on the
/// face plane on the normal's side (their dot product is 1).
pub proof fn lemma_outward_normals()
    ensures
        forall|i: int|
            0 <= i < VERTEX_COUNT ==> {
                &&& is_cube_corner(#[trigger] cube_vertex(i).corner)
                &&& is_unit_axis(cube_vertex(i).normal)
                &&& dot(cube_vertex(i).corner, cube_vertex(i).normal) == 1
            },
{
    assert forall|i: int| 0 <= i < VERTEX_COUNT implies {
        &&& is_cube_corner(#[trigger] cube_vertex(i).corner)
        &&& is_unit_axis(cube_vertex(i).normal)
        &&& dot(cube_vertex(i).corner, cube_vertex(i).normal) == 1
    } by {
        lemma_face_corner_facts(i / 4, i % 4);
    }
}

/// Each face is a quad walked around its edges: consecutive corners
/// (cyclically) differ in one coordinate, opposite corners in two, so the
/// triangles (0, 1, 2) and (0, 2, 3) split it along a diagonal.
pub proof fn lemma_faces_are_quads()
    ensures
        forall|f: int, k: int|
            0 <= f < FACE_COUNT && 0 <= k < 4 ==> {
                &&& coordinates_differing(#[trigger] face_corner(f, k), face_corner(f, (k + 1) % 4))
                    == 1
                &&& coordinates_differing(face_corner(f, k), face_corner(f, (k + 2) % 4)) == 2
            },
{
    assert forall|f: int, k: int| 0 <= f < FACE_COUNT && 0 <= k < 4 implies {
        &&& coordinates_differing(#[trigger] face_corner(f, k), face_corner(f, (k + 1) % 4)) == 1
        &&& coordinates_differing(face_corner(f, k), face_corner(f, (k + 2) % 4)) == 2
    } by {
        lemma_face_corner_facts(f, k);
    }
}

/// The six faces have six different normals.
pub proof fn lemma_normals_distinct()
    ensures
        forall|f: int, g: int|
            0 <= f < FACE_COUNT && 0 <= g < FACE_COUNT && f != g ==> #[trigger] face_normal(f)
                != #[trigger] face_normal(g),
{
}

/// Every index names a vertex of the mesh, and the vertex belongs to the
/// face whose pair of triangles the index is part of: both triangles of a
/// face lie on that face.
pub proof fn lemma_indices_stay_on_their_face()
    ensures
        forall|j: int|
            0 <= j < INDEX_COUNT ==> {
                &&& 0 <= #[trigger] cube_index(j) < VERTEX_COUNT
                &&& cube_index(j) / 4 == j / 6
                &&& cube_vertex(cube_index(j)).normal == face_normal(j / 6)
            },
{
    assert forall|j: int| 0 <= j < INDEX_COUNT implies {
        &&& 0 <= #[trigger] cube_index(j) < VERTEX_COUNT
        &&& cube_index(j) / 4 == j / 6
        &&& cube_vertex(cube_index(j)).normal == face_normal(j / 6)
    } by {
        let t = j / 6;
        let q = j % 6;
        assert(0 <= q < 6);
        assert(0 <= quad_corner(q) < 4);
        assert((4 * t + quad_corner(q)) / 4 == t);
    }
}

/// Some index of the mesh names vertex `i`.
pub open spec fn is_indexed(i: int) -> bool {
    exists|j: int| 0 <= j < INDEX_COUNT && #[trigger] cube_index(j) == i
}

/// Every vertex of the mesh is named by some index.
pub proof fn lemma_every_vertex_indexed()
    ensures
        forall|i: int| 0 <= i < VERTEX_COUNT ==> #[trigger] is_indexed(i),
{
    assert forall|i: int| 0 <= i < VERTEX_COUNT implies #[trigger] is_indexed(i) by {
        let f = i / 4;
        let k = i % 4;
        let q = if k == 0 { 0int } else if k == 1 { 1int } else if k == 2 { 2int } else { 5int };
        let j = 6 * f + q;
        assert(j / 6 == f);
        assert(j % 6 == q);
        assert(cube_index(j) == i);
    }
}

/// Corner `c` of the cube is one of the four corners of face `f`.
pub open spec fn is_corner_of_face(f: int, c: Vec3i) -> bool {
    exists|k: int| 0 <= k < 4 && #[trigger] face_corner(f, k) == c
}

/// Each face covers its whole side of the cube: every corner of the cube
/// that lies on the face's plane is one of the face's four corners.
pub proof fn lemma_faces_cover_their_side()
    ensures
        forall|f: int, c: Vec3i|
            0 <= f < FACE_COUNT && is_cube_corner(c) && dot(c, face_normal(f)) == 1
                ==> #[trigger] is_corner_of_face(f, c),
{
    assert forall|f: int, c: Vec3i|
        0 <= f < FACE_COUNT && is_cube_corner(c) && dot(c, face_normal(f)) == 1
        implies #[trigger] is_corner_of_face(f, c) by {
        assert(c == v3(c.x as int, c.y as int, c.z as int));
        if face_corner(f, 0) == c {
        } else if face_corner(f, 1) == c {
        } else if face_corner(f, 2) == c {
        } else {
            assert(face_corner(f, 3) == c);
        }
    }
}

/// Corner `k` of face `f` is one of the three corners of triangle `t`
/// (0 or 1) of that face.
pub open spec fn triangle_has_corner(f: int, t: int, k: int) -> bool {
    ||| cube_index(6 * f + 3 * t) == 4 * f + k
    ||| cube_index(6 * f + 3 * t + 1) == 4 * f + k
    ||| cube_index(6 * f + 3 * t + 2) == 4 * f + k
}

/// The side from corner `a` to corner `b` of face `f` is a side of
/// triangle `t` of that face.
pub open spec fn triangle_has_side(f: int, t: int, a: int, b: int) -> bool {
    triangle_has_corner(f, t, a) && triangle_has_corner(f, t, b)
}

/// The two triangles of each face cover its quad: each triangle has three
/// different corners of the face, the two share the diagonal from corner 0
/// to corner 2, and each of the quad's four edges (from corner `k` to
/// corner `k + 1`, cyclically) is a side of exactly one of them.
pub proof fn lemma_triangles_cover_each_face()
    ensures
        forall|f: int, t: int, q: int|
            0 <= f < FACE_COUNT && 0 <= t < 2 && 0 <= q < 3 ==> 4 * f <= #[trigger] cube_index(
                6 * f + 3 * t + q,
            ) < 4 * f + 4,
        forall|f: int, t: int|
            0 <= f < FACE_COUNT && 0 <= t < 2 ==> {
                &&& #[trigger] cube_index(6 * f + 3 * t) != cube_index(6 * f + 3 * t + 1)
                &&& cube_index(6 * f + 3 * t) != cube_index(6 * f + 3 * t + 2)
                &&& cube_index(6 * f + 3 * t + 1) != cube_index(6 * f + 3 * t + 2)
            },
        forall|f: int|
            0 <= f < FACE_COUNT ==> #[trigger] triangle_has_side(f, 0, 0, 2) && triangle_has_side(
                f,
                1,
                0,
                2,
            ),
        forall|f: int, k: int|
            0 <= f < FACE_COUNT && 0 <= k < 4 ==> #[trigger] triangle_has_side(f, 0, k, (k + 1) % 4)
                != triangle_has_side(f, 1, k, (k + 1) % 4),
{
    assert forall|f: int, t: int, q: int|
        0 <= f < FACE_COUNT && 0 <= t < 2 && 0 <= q < 3 implies 4 * f <= #[trigger] cube_index(
        6 * f + 3 * t + q,
    ) < 4 * f + 4 by {
        let j = 6 * f + 3 * t + q;
        assert(j / 6 == f);
        assert(j % 6 == 3 * t + q);
    }
    assert forall|f: int, t: int| 0 <= f < FACE_COUNT && 0 <= t < 2 implies {
        &&& #[trigger] cube_index(6 * f + 3 * t) != cube_index(6 * f + 3 * t + 1)
        &&& cube_index(6 * f + 3 * t) != cube_index(6 * f + 3 * t + 2)
        &&& cube_index(6 * f + 3 * t + 1) != cube_index(6 * f + 3 * t + 2)
    } by {
        assert((6 * f + 3 * t) / 6 == f && (6 * f + 3 * t) % 6 == 3 * t);
        assert((6 * f + 3 * t + 1) / 6 == f && (6 * f + 3 * t + 1) % 6 == 3 * t + 1);
        assert((6 * f + 3 * t + 2) / 6 == f && (6 * f + 3 * t + 2) % 6 == 3 * t + 2);
    }
    assert forall|f: int, k: int| 0 <= f < FACE_COUNT && 0 <= k < 4 implies {
        &&& triangle_has_side(f, 0, 0, 2)
        &&& triangle_has_side(f, 1, 0, 2)
        &&& #[trigger] triangle_has_side(f, 0, k, (k + 1) % 4) != triangle_has_side(
            f,
            1,
            k,
            (k + 1) % 4,
        )
    } by {
        assert forall|q: int| 0 <= q < 6 implies #[trigger] cube_index(6 * f + q) == 4 * f
            + quad_corner(q) by {
            assert((6 * f + q) / 6 == f);
            assert((6 * f + q) % 6 == q);
        }
        assert(cube_index(6 * f) == 4 * f + quad_corner(0));
        assert(cube_index(6 * f + 1) == 4 * f + quad_corner(1));
        assert(cube_index(6 * f + 2) == 4 * f + quad_corner(2));
        assert(cube_index(6 * f + 3) == 4 * f + quad_corner(3));
        assert(cube_index(6 * f + 4) == 4 * f + quad_corner(4));
        assert(cube_index(6 * f + 5) == 4 * f + quad_corner(5));
    }
}

} // verus!
