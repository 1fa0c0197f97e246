use vstd::prelude::*;
use vstd::arithmetic::div_mod::lemma_fundamental_div_mod_converse;
use crate::mesh::Mesh;
use glow::{NativeBuffer, NativeVertexArray};

verus! {

/// glow's name of an OpenGL vertex array object; carried, never inspected.
#[verifier::external_type_specification]
#[verifier::external_body]
pub struct ExNativeVertexArray(NativeVertexArray);

/// glow's name of an OpenGL buffer object; carried, never inspected.
#[verifier::external_type_specification]
#[verifier::external_body]
pub struct ExNativeBuffer(NativeBuffer);

/// Index of the shared pattern `[0, 1, 2, 2, 3, 0]` that triangulates one quad.
pub open spec fn quad_pattern(j: int) -> int {
    if j == 0 || j == 5 {
        0
    } else if j == 1 {
        1
    } else if j == 2 || j == 3 {
        2
    } else {
        3
    }
}

/// Entry `i` of the quad index buffer: the pattern, shifted by 4 per quad.
pub open spec fn quad_index(i: int) -> int {
    (i / 6) * 4 + quad_pattern(i % 6)
}

/// Number of indices that draw the whole quads among `vertex_count` vertices.
pub open spec fn quad_index_count(vertex_count: int) -> int {
    (vertex_count / 4) * 6
}

/// For `n` quads (`4 * n` vertices) the index buffer holds `6 * n` entries,
/// and entry `6 * k + j` is corner `pattern[j]` of quad `k`, so quad `k` is
/// drawn by `4k, 4k+1, 4k+2, 4k+2, 4k+3, 4k`.
pub proof fn lemma_quad_index(n: int, k: int, j: int)
    requires
        0 <= k < n,
        0 <= j < 6,
    ensures
        quad_index_count(4 * n) == 6 * n,
        6 * k + j < 6 * n,
        quad_index(6 * k + j) == 4 * k + quad_pattern(j),
{
    lemma_fundamental_div_mod_converse(6 * k + j, 6, k, j);
    lemma_fundamental_div_mod_converse(4 * n, 4, n, 0);
}

/// The pattern, as an executable table.
fn pattern_at(j: usize) -> (r: u32)
    requires
        j < 6,
    ensures
        r == quad_pattern(j as int),
{
    if j == 0 || j == 5 {
        0
    } else if j == 1 {
        1
    } else if j == 2 || j == 3 {
        2
    } else {
        3
    }
}

/// Indices that triangulate every whole quad among `vert_len` vertices: the
/// pattern `[0, 1, 2, 2, 3, 0]` repeated with a stride of 4 per quad.
pub fn create_quad_indices(vert_len: usize) -> (r: Vec<u32>)
    requires
        vert_len <= u32::MAX,
        quad_index_count(vert_len as int) <= usize::MAX,
    ensures
        r@.len() == quad_index_count(vert_len as int),
        forall|i: int| 0 <= i < r@.len() ==> r@[i] == quad_index(i),
{
    let quads = vert_len / 4;
    let mut indices: Vec<u32> = Vec::with_capacity(quads * 6);
    let mut k: usize = 0;
    while k < quads
        invariant
            quads == vert_len / 4,
            vert_len <= u32::MAX,
            k <= quads,
            indices@.len() == 6 * k,
            forall|i: int| 0 <= i < indices@.len() ==> indices@[i] == quad_index(i),
        decreases quads - k,
    {
        let base: u32 = (4 * k) as u32;
        let mut j: usize = 0;
        while j < 6
            invariant
                quads == vert_len / 4,
                vert_len <= u32::MAX,
                k < quads,
                base == 4 * k,
                j <= 6,
                indices@.len() == 6 * k + j,
                forall|i: int| 0 <= i < indices@.len() ==> indices@[i] == quad_index(i),
            decreases 6 - j,
        {
            proof {
                lemma_quad_index(k as int + 1, k as int, j as int);
            }
            indices.push(base + pattern_at(j));
            j = j + 1;
        }
        k = k + 1;
    }
    indices
}

/// A mesh uploaded to the GPU: its vertex array, vertex buffer and index
/// buffer, and how many indices draw it.
pub struct Model {
    vao: NativeVertexArray,
    vbo: NativeBuffer,
    ebo: NativeBuffer,
    len: usize,
}

impl Model {
    pub closed spec fn spec_vao(&self) -> NativeVertexArray {
        self.vao
    }

    pub closed spec fn spec_vbo(&self) -> NativeBuffer {
        self.vbo
    }

    pub closed spec fn spec_ebo(&self) -> NativeBuffer {
        self.ebo
    }

    /// Number of indices that one draw call of the model uses.
    pub closed spec fn index_count(&self) -> int {
        self.len as int
    }

    /// The model of `mesh` once its objects exist on the GPU: it draws the
    /// mesh's whole quads, six indices each.
    pub fn new<V>(vao: NativeVertexArray, vbo: NativeBuffer, ebo: NativeBuffer, mesh: &Mesh<V>) -> (r: Self)
        requires
            quad_index_count(mesh@.len() as int) <= usize::MAX,
        ensures
            r.spec_vao() == vao,
            r.spec_vbo() == vbo,
            r.spec_ebo() == ebo,
            r.index_count() == quad_index_count(mesh@.len() as int),
    {
        let len = (mesh.len() / 4) * 6;
        Model { vao, vbo, ebo, len }
    }

    pub fn vao(&self) -> (r: NativeVertexArray)
        ensures
            r == self.spec_vao(),
    {
        self.vao
    }

    pub fn vbo(&self) -> (r: NativeBuffer)
        ensures
            r == self.spec_vbo(),
    {
        self.vbo
    }

    pub fn ebo(&self) -> (r: NativeBuffer)
        ensures
            r == self.spec_ebo(),
    {
        self.ebo
    }

    /// Number of indices that one draw call of the model uses.
    pub fn len(&self) -> (r: usize)
        ensures
            r == self.index_count(),
    {
        self.len
    }
}

} // verus!
