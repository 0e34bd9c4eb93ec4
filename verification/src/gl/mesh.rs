//! Mesh data as it is collected on the CPU before it is sent to the driver.

use std::marker::PhantomData;
use vstd::prelude::*;

verus! {

/// An OpenGL primitive: the way in which a list of indices is read as shapes.
pub trait Primitive {
    /// The value that names the primitive to the driver.
    const AS_GL: u32;
}

/// A hint to the driver on how often the data of a mesh changes.
#[derive(Copy, Clone, Debug, PartialEq, Eq, Structural)]
pub enum MeshUsage {
    StaticDraw,
    DynamicDraw,
    StreamDraw,
}

impl MeshUsage {
    /// The value that names the usage to the driver.
    pub open spec fn spec_as_gl(self) -> u32 {
        match self {
            MeshUsage::StaticDraw => 0x88E4,
            MeshUsage::DynamicDraw => 0x88E8,
            MeshUsage::StreamDraw => 0x88E0,
        }
    }

    /// The value that names the usage to the driver: `GL_STATIC_DRAW`,
    /// `GL_DYNAMIC_DRAW` or `GL_STREAM_DRAW`.
    pub fn as_gl(self) -> (r: u32)
        ensures
            r == self.spec_as_gl(),
    {
        match self {
            MeshUsage::StaticDraw => 0x88E4,
            MeshUsage::DynamicDraw => 0x88E8,
            MeshUsage::StreamDraw => 0x88E0,
        }
    }
}

/// Whether a mesh is drawn flat, or in space with back faces culled and,
/// optionally, a depth test.
#[derive(Copy, Clone, Debug, PartialEq, Eq, Structural)]
pub enum DrawMode {
    Draw2D,
    Draw3D { depth: bool },
}

/// An index into the vertices of a mesh.
pub type MeshIndex = u16;

/// Every three indices form a triangle.
#[derive(Copy, Clone)]
pub struct Triangles;

impl Primitive for Triangles {
    const AS_GL: u32 = 0x0004;
}

/// Each index after the second forms a triangle with the two before it.
#[derive(Copy, Clone)]
pub struct TriangleStrip;

impl Primitive for TriangleStrip {
    const AS_GL: u32 = 0x0005;
}

/// Each index after the second forms a triangle with the one before it and
/// the first.
#[derive(Copy, Clone)]
pub struct TriangleFan;

impl Primitive for TriangleFan {
    const AS_GL: u32 = 0x0006;
}

/// Every two indices form a line.
#[derive(Copy, Clone)]
pub struct Lines;

impl Primitive for Lines {
    const AS_GL: u32 = 0x0001;
}

/// Each index after the first forms a line with the one before it.
#[derive(Copy, Clone)]
pub struct LineStrip;

impl Primitive for LineStrip {
    const AS_GL: u32 = 0x0003;
}

/// As `LineStrip`, with one more line from the last index to the first.
#[derive(Copy, Clone)]
pub struct LineLoop;

impl Primitive for LineLoop {
    const AS_GL: u32 = 0x0002;
}

/// Every index is a point.
#[derive(Copy, Clone)]
pub struct Points;

impl Primitive for Points {
    const AS_GL: u32 = 0x0000;
}

/// What a `MeshBuilder` holds.
pub ghost struct MeshData {
    /// The components of all vertices, one after the other. Each component is
    /// the bit pattern of a 32-bit float.
    pub vertex_data: Seq<u32>,
    /// The indices of the primitives added so far.
    pub indices: Seq<MeshIndex>,
    /// The number of vertices added so far, which is the index that the next
    /// vertex gets.
    pub next_index: MeshIndex,
}

/// Collects the vertices and indices of a mesh of primitives `P`.
///
/// The builder only stores the data. A vertex is a run of 32-bit float
/// components, each held as its bit pattern, so that the stored data is
/// exactly what the driver is given.
pub struct MeshBuilder<P: Primitive> {
    vertex_data: Vec<u32>,
    indices: Vec<MeshIndex>,
    next_index: MeshIndex,
    phantom: PhantomData<P>,
}

impl<P: Primitive> View for MeshBuilder<P> {
    type V = MeshData;

    closed spec fn view(&self) -> MeshData {
        MeshData {
            vertex_data: self.vertex_data@,
            indices: self.indices@,
            next_index: self.next_index,
        }
    }
}

/// The components of a list of vertices, one vertex after the other.
pub open spec fn flat_components(verts: Seq<Vec<u32>>) -> Seq<u32>
    decreases verts.len(),
{
    if verts.len() == 0 {
        Seq::empty()
    } else {
        flat_components(verts.drop_last()) + verts.last()@
    }
}

impl<P: Primitive> MeshBuilder<P> {
    /// A builder without vertices and without indices.
    pub fn new() -> (b: Self)
        ensures
            b@.vertex_data.len() == 0,
            b@.indices.len() == 0,
            b@.next_index == 0,
    {
        MeshBuilder {
            vertex_data: Vec::new(),
            indices: Vec::new(),
            next_index: 0,
            phantom: PhantomData,
        }
    }

    /// Adds a vertex with the given components and returns its index. The
    /// vertex is not drawn unless a primitive uses the index.
    ///
    /// A mesh holds fewer than `MeshIndex::MAX` vertices.
    pub fn vert(&mut self, components: &[u32]) -> (index: MeshIndex)
        requires
            old(self)@.next_index < MeshIndex::MAX,
        ensures
            index == old(self)@.next_index,
            final(self)@.next_index == old(self)@.next_index + 1,
            final(self)@.vertex_data == old(self)@.vertex_data + components@,
            final(self)@.indices == old(self)@.indices,
    {
        let index = self.next_index;
        self.next_index = self.next_index + 1;
        let mut i: usize = 0;
        while i < components.len()
            invariant
                i <= components@.len(),
                self.vertex_data@ == old(self).vertex_data@ + components@.subrange(0, i as int),
                self.indices == old(self).indices,
                self.next_index == old(self).next_index + 1,
            decreases components@.len() - i,
        {
            self.vertex_data.push(components[i]);
            assert(components@.subrange(0, i + 1) == components@.subrange(0, i as int).push(
                components@[i as int],
            ));
            i = i + 1;
        }
        assert(components@.subrange(0, i as int) == components@);
        index
    }

    /// Adds the vertices in order and returns their indices.
    pub fn verts(&mut self, verts: &Vec<Vec<u32>>) -> (res: Vec<MeshIndex>)
        requires
            old(self)@.next_index + verts@.len() <= MeshIndex::MAX,
        ensures
            res@.len() == verts@.len(),
            forall|i: int| 0 <= i < res@.len() ==> res@[i] == old(self)@.next_index + i,
            final(self)@.next_index == old(self)@.next_index + verts@.len(),
            final(self)@.vertex_data == old(self)@.vertex_data + flat_components(verts@),
            final(self)@.indices == old(self)@.indices,
    {
        let mut res: Vec<MeshIndex> = Vec::with_capacity(verts.len());
        let mut i: usize = 0;
        assert(flat_components(verts@.subrange(0, 0)) == Seq::<u32>::empty());
        while i < verts.len()
            invariant
                i <= verts@.len(),
                old(self)@.next_index + verts@.len() <= MeshIndex::MAX,
                res@.len() == i,
                forall|j: int| 0 <= j < i ==> res@[j] == old(self)@.next_index + j,
                self@.next_index == old(self)@.next_index + i,
                self@.vertex_data == old(self)@.vertex_data + flat_components(
                    verts@.subrange(0, i as int),
                ),
                self@.indices == old(self)@.indices,
            decreases verts@.len() - i,
        {
            let index = self.vert(verts[i].as_slice());
            res.push(index);
            proof {
                let next = verts@.subrange(0, i + 1);
                assert(next.drop_last() == verts@.subrange(0, i as int));
                assert(next.last() == verts@[i as int]);
            }
            i = i + 1;
        }
        assert(verts@.subrange(0, i as int) == verts@);
        res
    }

    /// Removes all vertices and indices. The memory is kept for reuse.
    pub fn clear(&mut self)
        ensures
            final(self)@.vertex_data.len() == 0,
            final(self)@.indices.len() == 0,
            final(self)@.next_index == 0,
    {
        self.vertex_data.clear();
        self.indices.clear();
        self.next_index = 0;
    }

    /// Adds all vertices and primitives of `other`. The vertices of `other`
    /// are numbered after those already here, and its indices are shifted
    /// accordingly.
    pub fn extend(&mut self, other: MeshBuilder<P>)
        requires
            old(self)@.next_index + other@.next_index <= MeshIndex::MAX,
            forall|i: int|
                0 <= i < other@.indices.len() ==> other@.indices[i] + old(self)@.next_index
                    <= MeshIndex::MAX,
        ensures
            final(self)@.next_index == old(self)@.next_index + other@.next_index,
            final(self)@.vertex_data == old(self)@.vertex_data + other@.vertex_data,
            final(self)@.indices.len() == old(self)@.indices.len() + other@.indices.len(),
            forall|i: int|
                0 <= i < old(self)@.indices.len() ==> final(self)@.indices[i] == old(
                    self,
                )@.indices[i],
            forall|i: int|
                0 <= i < other@.indices.len() ==> final(self)@.indices[old(self)@.indices.len()
                    + i] == other@.indices[i] + old(self)@.next_index,
    {
        let start_index = self.next_index;
        self.next_index = self.next_index + other.next_index;
        assert forall|j: int| 0 <= j < other.indices@.len() implies other.indices@[j]
            + start_index <= MeshIndex::MAX by {
            assert(other@.indices[j] == other.indices@[j]);
        }
        let mut i: usize = 0;
        while i < other.vertex_data.len()
            invariant
                i <= other.vertex_data@.len(),
                self.vertex_data@ == old(self).vertex_data@ + other.vertex_data@.subrange(
                    0,
                    i as int,
                ),
                self.indices == old(self).indices,
                self.next_index == old(self).next_index + other.next_index,
                start_index == old(self).next_index,
                forall|j: int|
                    0 <= j < other.indices@.len() ==> other.indices@[j] + start_index
                        <= MeshIndex::MAX,
            decreases other.vertex_data@.len() - i,
        {
            self.vertex_data.push(other.vertex_data[i]);
            assert(other.vertex_data@.subrange(0, i + 1) == other.vertex_data@.subrange(
                0,
                i as int,
            ).push(other.vertex_data@[i as int]));
            i = i + 1;
        }
        assert(other.vertex_data@.subrange(0, i as int) == other.vertex_data@);
        let mut k: usize = 0;
        while k < other.indices.len()
            invariant
                k <= other.indices@.len(),
                start_index == old(self).next_index,
                forall|j: int|
                    0 <= j < other.indices@.len() ==> other.indices@[j] + start_index
                        <= MeshIndex::MAX,
                self.vertex_data@ == old(self).vertex_data@ + other.vertex_data@,
                self.next_index == old(self).next_index + other.next_index,
                self.indices@.len() == old(self).indices@.len() + k,
                forall|j: int|
                    0 <= j < old(self).indices@.len() ==> self.indices@[j] == old(
                        self,
                    ).indices@[j],
                forall|j: int|
                    0 <= j < k ==> self.indices@[old(self).indices@.len() + j]
                        == other.indices@[j] + start_index,
            decreases other.indices@.len() - k,
        {
            self.indices.push(other.indices[k] + start_index);
            k = k + 1;
        }
    }

    /// Whether the mesh has room for `count` more vertices.
    pub fn has_room(&self, count: usize) -> (r: bool)
        ensures
            r == (self@.next_index + count <= MeshIndex::MAX),
    {
        count <= (MeshIndex::MAX - self.next_index) as usize
    }

    /// The index that the next vertex gets.
    pub fn next_index(&self) -> (r: MeshIndex)
        ensures
            r == self@.next_index,
    {
        self.next_index
    }

    /// The components of all vertices, as bit patterns of 32-bit floats.
    pub fn vertex_data(&self) -> (r: &Vec<u32>)
        ensures
            r@ == self@.vertex_data,
    {
        &self.vertex_data
    }

    /// The indices of the primitives added so far.
    pub fn indices(&self) -> (r: &Vec<MeshIndex>)
        ensures
            r@ == self@.indices,
    {
        &self.indices
    }

    /// Appends one index.
    fn push_index(&mut self, a: MeshIndex)
        ensures
            final(self)@.indices == old(self)@.indices.push(a),
            final(self)@.vertex_data == old(self)@.vertex_data,
            final(self)@.next_index == old(self)@.next_index,
    {
        self.indices.push(a);
    }
}

impl MeshBuilder<Triangles> {
    /// Adds the triangle with corners `a`, `b` and `c`.
    pub fn triangle(&mut self, a: MeshIndex, b: MeshIndex, c: MeshIndex)
        ensures
            final(self)@.indices == old(self)@.indices.push(a).push(b).push(c),
            final(self)@.vertex_data == old(self)@.vertex_data,
            final(self)@.next_index == old(self)@.next_index,
    {
        self.push_index(a);
        self.push_index(b);
        self.push_index(c);
    }
}

impl MeshBuilder<TriangleStrip> {
    /// Continues the strip with the vertex `a`.
    pub fn triangle_strip_index(&mut self, a: MeshIndex)
        ensures
            final(self)@.indices == old(self)@.indices.push(a),
            final(self)@.vertex_data == old(self)@.vertex_data,
            final(self)@.next_index == old(self)@.next_index,
    {
        self.push_index(a);
    }
}

impl MeshBuilder<TriangleFan> {
    /// Continues the fan with the vertex `a`.
    pub fn triangle_fan_index(&mut self, a: MeshIndex)
        ensures
            final(self)@.indices == old(self)@.indices.push(a),
            final(self)@.vertex_data == old(self)@.vertex_data,
            final(self)@.next_index == old(self)@.next_index,
    {
        self.push_index(a);
    }
}

impl MeshBuilder<Lines> {
    /// Adds the line from `a` to `b`.
    pub fn line(&mut self, a: MeshIndex, b: MeshIndex)
        ensures
            final(self)@.indices == old(self)@.indices.push(a).push(b),
            final(self)@.vertex_data == old(self)@.vertex_data,
            final(self)@.next_index == old(self)@.next_index,
    {
        self.push_index(a);
        self.push_index(b);
    }
}

impl MeshBuilder<LineStrip> {
    /// Continues the strip with the vertex `a`.
    pub fn line_strip_index(&mut self, a: MeshIndex)
        ensures
            final(self)@.indices == old(self)@.indices.push(a),
            final(self)@.vertex_data == old(self)@.vertex_data,
            final(self)@.next_index == old(self)@.next_index,
    {
        self.push_index(a);
    }
}

impl MeshBuilder<LineLoop> {
    /// Continues the loop with the vertex `a`.
    pub fn line_loop_index(&mut self, a: MeshIndex)
        ensures
            final(self)@.indices == old(self)@.indices.push(a),
            final(self)@.vertex_data == old(self)@.vertex_data,
            final(self)@.next_index == old(self)@.next_index,
    {
        self.push_index(a);
    }
}

impl MeshBuilder<Points> {
    /// Adds the point `a`.
    pub fn point(&mut self, a: MeshIndex)
        ensures
            final(self)@.indices == old(self)@.indices.push(a),
            final(self)@.vertex_data == old(self)@.vertex_data,
            final(self)@.next_index == old(self)@.next_index,
    {
        self.push_index(a);
    }
}

} // verus!
