use vstd::prelude::*;
use crate::mesh::Mesh;
use crate::model::quad_index_count;

verus! {

/// An integer vector with components in `{-1, 0, 1}`.
#[derive(Clone, Copy, Debug, PartialEq, Eq, Structural)]
pub struct Sign3 {
    pub x: i8,
    pub y: i8,
    pub z: i8,
}

/// A corner of the unit texture square.
#[derive(Clone, Copy, Debug, PartialEq, Eq, Structural)]
pub struct TexCorner {
    pub u: u8,
    pub v: u8,
}

/// A vertex of the cube of half-extent 1 centred on the origin: `position`
/// is a corner of the cube (each component -1 or 1), `normal` the outward
/// normal of the face the vertex belongs to, `tex_coords` one corner of the
/// unit texture square. A cube of edge `s` scales positions by `s / 2`.
#[derive(Clone, Copy, Debug, PartialEq, Eq, Structural)]
pub struct CubeVertex {
    pub position: Sign3,
    pub normal: Sign3,
    pub tex_coords: TexCorner,
}

/// Corner `p` of the cube, numbered by the bits (x, y, z) in the order
/// 0 = (-,-,-), 1 = (+,-,-), 2 = (+,+,-), 3 = (-,+,-), then the same four at +z.
pub open spec fn cube_point(p: int) -> Sign3 {
    if p == 0 {
        Sign3 { x: -1i8, y: -1i8, z: -1i8 }
    } else if p == 1 {
        Sign3 { x: 1, y: -1i8, z: -1i8 }
    } else if p == 2 {
        Sign3 { x: 1, y: 1, z: -1i8 }
    } else if p == 3 {
        Sign3 { x: -1i8, y: 1, z: -1i8 }
    } else if p == 4 {
        Sign3 { x: -1i8, y: -1i8, z: 1 }
    } else if p == 5 {
        Sign3 { x: 1, y: -1i8, z: 1 }
    } else if p == 6 {
        Sign3 { x: 1, y: 1, z: 1 }
    } else {
        Sign3 { x: -1i8, y: 1, z: 1 }
    }
}

/// The corner that is vertex `j` of face `f`; faces come in the order
/// -X, -Y, -Z, +X, +Y, +Z.
pub open spec fn cube_face_point(f: int, j: int) -> int {
    let i = 4 * f + j;
    if i < 4 {
        if i == 0 { 0 } else if i == 1 { 4 } else if i == 2 { 7 } else { 3 }
    } else if i < 8 {
        if i == 4 { 0 } else if i == 5 { 1 } else if i == 6 { 5 } else { 4 }
    } else if i < 12 {
        if i == 8 { 1 } else if i == 9 { 0 } else if i == 10 { 3 } else { 2 }
    } else if i < 16 {
        if i == 12 { 5 } else if i == 13 { 1 } else if i == 14 { 2 } else { 6 }
    } else if i < 20 {
        if i == 16 { 7 } else if i == 17 { 6 } else if i == 18 { 2 } else { 3 }
    } else {
        if i == 20 { 4 } else if i == 21 { 5 } else if i == 22 { 6 } else { 7 }
    }
}

/// Outward normal of face `f`.
pub open spec fn cube_normal(f: int) -> Sign3 {
    if f == 0 {
        Sign3 { x: -1i8, y: 0, z: 0 }
    } else if f == 1 {
        Sign3 { x: 0, y: -1i8, z: 0 }
    } else if f == 2 {
        Sign3 { x: 0, y: 0, z: -1i8 }
    } else if f == 3 {
        Sign3 { x: 1, y: 0, z: 0 }
    } else if f == 4 {
        Sign3 { x: 0, y: 1, z: 0 }
    } else {
        Sign3 { x: 0, y: 0, z: 1 }
    }
}

/// Texture corner of vertex `j` of every face.
pub open spec fn cube_tex_coords(j: int) -> TexCorner {
    if j == 0 {
        TexCorner { u: 0, v: 0 }
    } else if j == 1 {
        TexCorner { u: 1, v: 0 }
    } else if j == 2 {
        TexCorner { u: 1, v: 1 }
    } else {
        TexCorner { u: 0, v: 1 }
    }
}

/// Vertex `j` of face `f`.
pub open spec fn cube_vertex(f: int, j: int) -> CubeVertex {
    CubeVertex {
        position: cube_point(cube_face_point(f, j)),
        normal: cube_normal(f),
        tex_coords: cube_tex_coords(j),
    }
}

/// The 24 vertices of the cube: its six faces, four vertices each.
pub open spec fn cube_vertices() -> Seq<CubeVertex> {
    Seq::new(24, |i: int| cube_vertex(i / 4, i % 4))
}

pub open spec fn dot(a: Sign3, b: Sign3) -> int {
    a.x * b.x + a.y * b.y + a.z * b.z
}

/// A unit vector along one of the axes.
pub open spec fn is_axis_unit(v: Sign3) -> bool {
    dot(v, v) == 1
}

fn face_point(f: usize, j: usize) -> (r: usize)
    requires
        f < 6,
        j < 4,
    ensures
        r == cube_face_point(f as int, j as int),
        r < 8,
{
    let i = 4 * f + j;
    if i < 4 {
        if i == 0 { 0 } else if i == 1 { 4 } else if i == 2 { 7 } else { 3 }
    } else if i < 8 {
        if i == 4 { 0 } else if i == 5 { 1 } else if i == 6 { 5 } else { 4 }
    } else if i < 12 {
        if i == 8 { 1 } else if i == 9 { 0 } else if i == 10 { 3 } else { 2 }
    } else if i < 16 {
        if i == 12 { 5 } else if i == 13 { 1 } else if i == 14 { 2 } else { 6 }
    } else if i < 20 {
        if i == 16 { 7 } else if i == 17 { 6 } else if i == 18 { 2 } else { 3 }
    } else {
        if i == 20 { 4 } else if i == 21 { 5 } else if i == 22 { 6 } else { 7 }
    }
}

fn point(p: usize) -> (r: Sign3)
    requires
        p < 8,
    ensures
        r == cube_point(p as int),
{
    let x: i8 = if p == 1 || p == 2 || p == 5 || p == 6 { 1 } else { -1 };
    let y: i8 = if p == 2 || p == 3 || p == 6 || p == 7 { 1 } else { -1 };
    let z: i8 = if p >= 4 { 1 } else { -1 };
    Sign3 { x, y, z }
}

fn normal(f: usize) -> (r: Sign3)
    requires
        f < 6,
    ensures
        r == cube_normal(f as int),
{
    let sign: i8 = if f < 3 { -1 } else { 1 };
    let axis = f % 3;
    if axis == 0 {
        Sign3 { x: sign, y: 0, z: 0 }
    } else if axis == 1 {
        Sign3 { x: 0, y: sign, z: 0 }
    } else {
        Sign3 { x: 0, y: 0, z: sign }
    }
}

fn tex_coords(j: usize) -> (r: TexCorner)
    requires
        j < 4,
    ensures
        r == cube_tex_coords(j as int),
{
    let u: u8 = if j == 1 || j == 2 { 1 } else { 0 };
    let v: u8 = if j >= 2 { 1 } else { 0 };
    TexCorner { u, v }
}

impl Mesh<CubeVertex> {
    /// The cube as six quads, one per face, each vertex carrying its face's
    /// outward normal and a corner of the texture.
    pub fn from_cube() -> (r: Self)
        ensures
            r@ == cube_vertices(),
    {
        let mut vertices: Vec<CubeVertex> = Vec::with_capacity(24);
        let mut f: usize = 0;
        while f < 6
            invariant
                f <= 6,
                vertices@.len() == 4 * f,
                forall|i: int| 0 <= i < vertices@.len() ==> vertices@[i] == cube_vertex(i / 4, i % 4),
            decreases 6 - f,
        {
            let n = normal(f);
            let mut j: usize = 0;
            while j < 4
                invariant
                    f < 6,
                    j <= 4,
                    n == cube_normal(f as int),
                    vertices@.len() == 4 * f + j,
                    forall|i: int| 0 <= i < vertices@.len() ==> vertices@[i] == cube_vertex(i / 4, i % 4),
                decreases 4 - j,
            {
                let v = CubeVertex { position: point(face_point(f, j)), normal: n, tex_coords: tex_coords(j) };
                assert((4 * f + j) as int / 4 == f && (4 * f + j) as int % 4 == j);
                vertices.push(v);
                j = j + 1;
            }
            f = f + 1;
        }
        assert(vertices@ =~= cube_vertices());
        Mesh::with_vertices(vertices)
    }
}

/// The cube has 24 vertices, which the quad index buffer draws with 36
/// indices; the four vertices of each face share that face's normal; the six
/// normals are the six distinct axis-aligned unit vectors; and every vertex of
/// a face lies on that face's side of the cube.
pub proof fn lemma_cube_faces()
    ensures
        cube_vertices().len() == 24,
        quad_index_count(cube_vertices().len() as int) == 36,
        forall|i: int| 0 <= i < 24 ==> #[trigger] cube_vertices()[i].normal == cube_normal(i / 4),
        forall|f: int| 0 <= f < 6 ==> is_axis_unit(#[trigger] cube_normal(f)),
        forall|f: int, g: int| 0 <= f < 6 && 0 <= g < 6 && f != g ==> cube_normal(f) != cube_normal(g),
        forall|f: int, j: int| 0 <= f < 6 && 0 <= j < 4 ==> dot(#[trigger] cube_vertex(f, j).position, cube_normal(f)) == 1,
{
    assert forall|f: int, j: int| 0 <= f < 6 && 0 <= j < 4 implies dot(#[trigger] cube_vertex(f, j).position, cube_normal(f)) == 1 by {
        assert(f == 0 || f == 1 || f == 2 || f == 3 || f == 4 || f == 5);
        assert(j == 0 || j == 1 || j == 2 || j == 3);
    }
}

} // verus!
