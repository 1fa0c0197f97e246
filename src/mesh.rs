use vstd::prelude::*;

verus! {

/// Four vertices that make one quad, in the winding order of the shared
/// quad index pattern.
pub struct Quad<V> {
    a: V,
    b: V,
    c: V,
    d: V,
}

impl<V> Quad<V> {
    /// The corners of the quad, in order.
    pub closed spec fn corners(&self) -> Seq<V> {
        seq![self.a, self.b, self.c, self.d]
    }

    pub fn new(a: V, b: V, c: V, d: V) -> (r: Self)
        ensures
            r.corners() == seq![a, b, c, d],
    {
        Quad { a, b, c, d }
    }
}

/// An ordered list of vertices built on the CPU, usually four per quad.
pub struct Mesh<V> {
    vertices: Vec<V>,
}

impl<V> View for Mesh<V> {
    type V = Seq<V>;

    closed spec fn view(&self) -> Seq<V> {
        self.vertices@
    }
}

impl<V> Default for Mesh<V> {
    fn default() -> (r: Self)
        ensures
            r@ == Seq::<V>::empty(),
    {
        Mesh::new()
    }
}

impl<V> Mesh<V> {
    /// The mesh is made of whole quads.
    pub open spec fn is_quads(&self) -> bool {
        self@.len() % 4 == 0
    }

    pub fn new() -> (r: Self)
        ensures
            r@ == Seq::<V>::empty(),
    {
        Mesh { vertices: Vec::new() }
    }

    pub fn with_capacity(capacity: usize) -> (r: Self)
        ensures
            r@ == Seq::<V>::empty(),
    {
        Mesh { vertices: Vec::with_capacity(capacity) }
    }

    pub fn with_vertices(vertices: Vec<V>) -> (r: Self)
        ensures
            r@ == vertices@,
    {
        Mesh { vertices }
    }

    pub fn clear(&mut self)
        ensures
            final(self)@ == Seq::<V>::empty(),
    {
        self.vertices.clear();
    }

    pub fn push(&mut self, vertex: V)
        ensures
            final(self)@ == old(self)@.push(vertex),
    {
        self.vertices.push(vertex);
    }

    /// Appends the four corners of `quad`, in order.
    pub fn push_quad(&mut self, quad: Quad<V>)
        ensures
            final(self)@ == old(self)@ + quad.corners(),
    {
        let Quad { a, b, c, d } = quad;
        self.vertices.push(a);
        self.vertices.push(b);
        self.vertices.push(c);
        self.vertices.push(d);
        assert(self.vertices@ =~= old(self)@ + quad.corners());
    }

    pub fn vertices(&self) -> (r: &Vec<V>)
        ensures
            r@ == self@,
    {
        &self.vertices
    }

    /// The vertices, for editing in place.
    pub fn vertices_mut_vec(&mut self) -> (r: &mut Vec<V>)
        ensures
            r@ == old(self)@,
            final(self)@ == final(r)@,
    {
        &mut self.vertices
    }

    /// The vertices, for editing in place without changing their number.
    pub fn vertices_mut(&mut self) -> (r: &mut [V])
        ensures
            r@ == old(self)@,
            final(self)@ == final(r)@,
    {
        self.vertices.as_mut_slice()
    }

    pub fn len(&self) -> (r: usize)
        ensures
            r == self@.len(),
    {
        self.vertices.len()
    }
}

} // verus!
