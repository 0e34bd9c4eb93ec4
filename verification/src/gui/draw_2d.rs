//! Simple shapes, as triangles in the data of a mesh.

use crate::gl::mesh::{flat_components, MeshBuilder, MeshIndex, Triangles};
use vstd::prelude::*;

verus! {

/// The indices of the triangles of a fan over `n` vertices that are numbered
/// from `first`: the first vertex with each two vertices that follow one
/// another.
pub open spec fn fan_indices(first: int, n: nat) -> Seq<MeshIndex>
    decreases n,
{
    if n < 3 {
        Seq::empty()
    } else {
        fan_indices(first, (n - 1) as nat).push(first as MeshIndex).push(
            (first + n - 2) as MeshIndex,
        ).push((first + n - 1) as MeshIndex)
    }
}

/// The indices of the two triangles of a quad whose corners are numbered
/// from `first`, row by row.
pub open spec fn quad_indices(first: int) -> Seq<MeshIndex> {
    seq![
        first as MeshIndex,
        (first + 1) as MeshIndex,
        (first + 2) as MeshIndex,
        (first + 1) as MeshIndex,
        (first + 2) as MeshIndex,
        (first + 3) as MeshIndex,
    ]
}

/// Adds a filled convex polygon with the given corners to the mesh: its
/// corners as vertices, and a fan of triangles over them.
///
/// A polygon has at least three corners, and the mesh must have room for
/// them.
pub fn fill_poly(builder: &mut MeshBuilder<Triangles>, verts: &Vec<Vec<u32>>)
    requires
        verts@.len() >= 3,
        old(builder)@.next_index + verts@.len() <= MeshIndex::MAX,
    ensures
        final(builder)@.next_index == old(builder)@.next_index + verts@.len(),
        final(builder)@.vertex_data == old(builder)@.vertex_data + flat_components(verts@),
        final(builder)@.indices == old(builder)@.indices + fan_indices(
            old(builder)@.next_index as int,
            verts@.len(),
        ),
{
    let ghost first = old(builder)@.next_index as int;
    let a = builder.vert(verts[0].as_slice());
    let mut b = builder.vert(verts[1].as_slice());
    proof {
        let two = verts@.subrange(0, 2);
        let one = verts@.subrange(0, 1);
        assert(two.drop_last() == one);
        assert(one.drop_last() == Seq::<Vec<u32>>::empty());
        assert(flat_components(one.drop_last()) == Seq::<u32>::empty());
        assert(one.last() == verts@[0]);
        assert(two.last() == verts@[1]);
        assert(flat_components(one) =~= verts@[0]@);
        assert(flat_components(two) =~= verts@[0]@ + verts@[1]@);
        assert(builder@.vertex_data =~= old(builder)@.vertex_data + flat_components(two));
        assert(builder@.indices =~= old(builder)@.indices + fan_indices(first, 2));
    }
    let mut i: usize = 2;
    while i < verts.len()
        invariant
            2 <= i <= verts@.len(),
            first == old(builder)@.next_index,
            first + verts@.len() <= MeshIndex::MAX,
            a == first,
            b == first + i - 1,
            builder@.next_index == first + i,
            builder@.vertex_data == old(builder)@.vertex_data + flat_components(
                verts@.subrange(0, i as int),
            ),
            builder@.indices == old(builder)@.indices + fan_indices(first, i as nat),
        decreases verts@.len() - i,
    {
        let c = builder.vert(verts[i].as_slice());
        builder.triangle(a, b, c);
        proof {
            let next = verts@.subrange(0, i + 1);
            assert(next.drop_last() == verts@.subrange(0, i as int));
            assert(next.last() == verts@[i as int]);
            assert(builder@.indices =~= old(builder)@.indices + fan_indices(
                first,
                (i + 1) as nat,
            ));
            assert(builder@.vertex_data =~= old(builder)@.vertex_data + flat_components(next));
        }
        b = c;
        i = i + 1;
    }
    assert(verts@.subrange(0, i as int) == verts@);
}

/// Adds a quad to the mesh: its four corners as vertices, given row by row,
/// and the two triangles that cover it. The mesh must have room for four
/// vertices.
pub fn add_quad(
    builder: &mut MeshBuilder<Triangles>,
    a: &[u32],
    b: &[u32],
    c: &[u32],
    d: &[u32],
)
    requires
        old(builder)@.next_index + 4 <= MeshIndex::MAX,
    ensures
        final(builder)@.next_index == old(builder)@.next_index + 4,
        final(builder)@.vertex_data == old(builder)@.vertex_data + a@ + b@ + c@ + d@,
        final(builder)@.indices == old(builder)@.indices + quad_indices(
            old(builder)@.next_index as int,
        ),
{
    let vert_a = builder.vert(a);
    let vert_b = builder.vert(b);
    let vert_c = builder.vert(c);
    let vert_d = builder.vert(d);
    builder.triangle(vert_a, vert_b, vert_c);
    builder.triangle(vert_b, vert_c, vert_d);
    assert(builder@.indices =~= old(builder)@.indices + quad_indices(
        old(builder)@.next_index as int,
    ));
}

} // verus!
