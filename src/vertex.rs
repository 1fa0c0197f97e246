use vstd::prelude::*;

verus! {

/// OpenGL's `GL_FLOAT` component type.
pub const GL_FLOAT: u32 = 0x1406;

/// The component layout of one vertex attribute.
#[derive(Clone, Copy, Debug, PartialEq, Eq, Structural)]
pub enum VertexFormat {
    Float32,
    Float32x2,
    Float32x3,
    Float32x4,
}

impl VertexFormat {
    /// Number of `f32` components of the format.
    pub open spec fn components(self) -> int {
        match self {
            VertexFormat::Float32 => 1,
            VertexFormat::Float32x2 => 2,
            VertexFormat::Float32x3 => 3,
            VertexFormat::Float32x4 => 4,
        }
    }

    /// Size of the attribute in bytes.
    pub open spec fn byte_size(self) -> int {
        4 * self.components()
    }

    /// Component count and byte size of the format.
    pub fn size(&self) -> (r: (i32, i32))
        ensures
            r.0 == self.components(),
            r.1 == self.byte_size(),
    {
        match self {
            VertexFormat::Float32 => (1, 4),
            VertexFormat::Float32x2 => (2, 8),
            VertexFormat::Float32x3 => (3, 12),
            VertexFormat::Float32x4 => (4, 16),
        }
    }

    /// OpenGL component type of the format; every format is made of floats.
    pub fn data_type(&self) -> (r: u32)
        ensures
            r == GL_FLOAT,
    {
        GL_FLOAT
    }
}

/// One attribute of a vertex layout.
#[derive(Clone, Copy, Debug, PartialEq, Eq, Structural)]
pub struct VertextAttribute {
    pub format: VertexFormat,
}

/// The attributes of a vertex type, in the order in which they are packed.
pub struct VertexLayout {
    pub attributes: Vec<VertextAttribute>,
}

/// A vertex type that declares how it is packed for the GPU.
pub trait Vertex {
    fn layout() -> VertexLayout;
}

/// Where one attribute lies inside a tightly packed vertex: the arguments of
/// one `glVertexAttribPointer` call.
#[derive(Clone, Copy, Debug, PartialEq, Eq, Structural)]
pub struct AttributePointer {
    pub index: u32,
    pub components: i32,
    pub data_type: u32,
    pub stride: i32,
    pub offset: i32,
}

/// Bytes taken by the first `n` attributes of `attrs`.
pub open spec fn packed_offset(attrs: Seq<VertextAttribute>, n: int) -> int
    decreases n,
{
    if n <= 0 {
        0
    } else {
        packed_offset(attrs, n - 1) + attrs[n - 1].format.byte_size()
    }
}

proof fn lemma_packed_offset_bounds(attrs: Seq<VertextAttribute>, n: int)
    requires
        0 <= n,
    ensures
        4 * n <= packed_offset(attrs, n) <= 16 * n,
    decreases n,
{
    if n > 0 {
        lemma_packed_offset_bounds(attrs, n - 1);
    }
}

impl VertexLayout {
    /// Every byte offset and the stride of the layout fit in an `i32`.
    pub open spec fn fits(&self) -> bool {
        16 * self.attributes@.len() <= i32::MAX
    }

    /// Size in bytes of one packed vertex.
    pub open spec fn stride_spec(&self) -> int {
        packed_offset(self.attributes@, self.attributes@.len() as int)
    }

    /// The pointer that the layout gives to attribute `i`.
    pub open spec fn pointer_spec(&self, i: int) -> AttributePointer {
        AttributePointer {
            index: i as u32,
            components: self.attributes@[i].format.components() as i32,
            data_type: GL_FLOAT,
            stride: self.stride_spec() as i32,
            offset: packed_offset(self.attributes@, i) as i32,
        }
    }

    /// Size in bytes of one packed vertex: the sum of its attributes' sizes.
    pub fn stride(&self) -> (r: i32)
        requires
            self.fits(),
        ensures
            r == self.stride_spec(),
    {
        let mut total: i32 = 0;
        let mut i: usize = 0;
        while i < self.attributes.len()
            invariant
                self.fits(),
                i <= self.attributes@.len(),
                total == packed_offset(self.attributes@, i as int),
            decreases self.attributes@.len() - i,
        {
            proof {
                lemma_packed_offset_bounds(self.attributes@, i as int + 1);
            }
            let (_, bytes) = self.attributes[i].format.size();
            total = total + bytes;
            i = i + 1;
        }
        total
    }

    /// One pointer per attribute, in order: attribute `i` gets location `i`,
    /// its component count, and the byte offset of the attributes before it.
    pub fn attribute_pointers(&self) -> (r: Vec<AttributePointer>)
        requires
            self.fits(),
        ensures
            r@.len() == self.attributes@.len(),
            forall|i: int| 0 <= i < r@.len() ==> r@[i] == self.pointer_spec(i),
    {
        let stride = self.stride();
        let mut pointers: Vec<AttributePointer> = Vec::new();
        let mut offset: i32 = 0;
        let mut i: usize = 0;
        while i < self.attributes.len()
            invariant
                self.fits(),
                stride == self.stride_spec(),
                i <= self.attributes@.len(),
                offset == packed_offset(self.attributes@, i as int),
                pointers@.len() == i,
                forall|j: int| 0 <= j < i ==> pointers@[j] == self.pointer_spec(j),
            decreases self.attributes@.len() - i,
        {
            proof {
                lemma_packed_offset_bounds(self.attributes@, i as int + 1);
            }
            let format = self.attributes[i].format;
            let (components, bytes) = format.size();
            pointers.push(
                AttributePointer {
                    index: i as u32,
                    components,
                    data_type: format.data_type(),
                    stride,
                    offset,
                },
            );
            offset = offset + bytes;
            i = i + 1;
        }
        pointers
    }
}

} // verus!
