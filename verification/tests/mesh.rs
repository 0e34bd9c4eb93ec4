use gl_gui::gl::mesh::{
    LineLoop, LineStrip, Lines, MeshBuilder, Points, TriangleFan, TriangleStrip, Triangles,
};
use gl_gui::gui::draw_2d::{add_quad, fill_poly};

#[test]
fn a_new_builder_is_empty() {
    let b: MeshBuilder<Triangles> = MeshBuilder::new();
    assert_eq!(b.next_index(), 0);
    assert!(b.vertex_data().is_empty());
    assert!(b.indices().is_empty());
}

#[test]
fn vert_numbers_vertices_and_stores_their_components() {
    let mut b: MeshBuilder<Triangles> = MeshBuilder::new();
    assert_eq!(b.vert(&[1, 2]), 0);
    assert_eq!(b.vert(&[3, 4]), 1);
    assert_eq!(b.vert(&[]), 2);
    assert_eq!(b.vert(&[5]), 3);
    assert_eq!(b.next_index(), 4);
    assert_eq!(b.vertex_data(), &vec![1, 2, 3, 4, 5]);
    assert!(b.indices().is_empty());
}

#[test]
fn verts_adds_vertices_in_order() {
    let mut b: MeshBuilder<Points> = MeshBuilder::new();
    b.vert(&[9]);
    let res = b.verts(&vec![vec![1, 2], vec![3], vec![4, 5, 6]]);
    assert_eq!(res, vec![1, 2, 3]);
    assert_eq!(b.next_index(), 4);
    assert_eq!(b.vertex_data(), &vec![9, 1, 2, 3, 4, 5, 6]);
    let none = b.verts(&vec![]);
    assert!(none.is_empty());
    assert_eq!(b.next_index(), 4);
}

#[test]
fn has_room_counts_up_to_the_largest_index() {
    let mut b: MeshBuilder<Points> = MeshBuilder::new();
    assert!(b.has_room(65535));
    assert!(!b.has_room(65536));
    b.vert(&[0]);
    assert!(b.has_room(65534));
    assert!(!b.has_room(65535));
}

#[test]
fn primitives_append_their_indices() {
    let mut t: MeshBuilder<Triangles> = MeshBuilder::new();
    t.triangle(0, 1, 2);
    t.triangle(2, 1, 3);
    assert_eq!(t.indices(), &vec![0, 1, 2, 2, 1, 3]);

    let mut l: MeshBuilder<Lines> = MeshBuilder::new();
    l.line(4, 5);
    l.line(5, 6);
    assert_eq!(l.indices(), &vec![4, 5, 5, 6]);

    let mut p: MeshBuilder<Points> = MeshBuilder::new();
    p.point(7);
    assert_eq!(p.indices(), &vec![7]);

    let mut ts: MeshBuilder<TriangleStrip> = MeshBuilder::new();
    ts.triangle_strip_index(1);
    ts.triangle_strip_index(2);
    assert_eq!(ts.indices(), &vec![1, 2]);

    let mut tf: MeshBuilder<TriangleFan> = MeshBuilder::new();
    tf.triangle_fan_index(3);
    assert_eq!(tf.indices(), &vec![3]);

    let mut ls: MeshBuilder<LineStrip> = MeshBuilder::new();
    ls.line_strip_index(8);
    assert_eq!(ls.indices(), &vec![8]);

    let mut ll: MeshBuilder<LineLoop> = MeshBuilder::new();
    ll.line_loop_index(9);
    assert_eq!(ll.indices(), &vec![9]);
    assert_eq!(ll.next_index(), 0);
}

#[test]
fn clear_empties_the_builder() {
    let mut b: MeshBuilder<Triangles> = MeshBuilder::new();
    b.vert(&[1, 2]);
    b.vert(&[3, 4]);
    b.vert(&[5, 6]);
    b.triangle(0, 1, 2);
    b.clear();
    assert_eq!(b.next_index(), 0);
    assert!(b.vertex_data().is_empty());
    assert!(b.indices().is_empty());
    assert_eq!(b.vert(&[7]), 0);
}

#[test]
fn extend_shifts_the_indices_of_the_other_mesh() {
    let mut a: MeshBuilder<Triangles> = MeshBuilder::new();
    a.vert(&[1]);
    a.vert(&[2]);
    a.vert(&[3]);
    a.triangle(0, 1, 2);
    let mut b: MeshBuilder<Triangles> = MeshBuilder::new();
    b.vert(&[4]);
    b.vert(&[5]);
    b.vert(&[6]);
    b.vert(&[7]);
    b.triangle(0, 1, 2);
    b.triangle(1, 2, 3);
    a.extend(b);
    assert_eq!(a.next_index(), 7);
    assert_eq!(a.vertex_data(), &vec![1, 2, 3, 4, 5, 6, 7]);
    assert_eq!(a.indices(), &vec![0, 1, 2, 3, 4, 5, 4, 5, 6]);
}

#[test]
fn extend_with_an_empty_mesh_changes_nothing() {
    let mut a: MeshBuilder<Lines> = MeshBuilder::new();
    a.vert(&[1]);
    a.vert(&[2]);
    a.line(0, 1);
    a.extend(MeshBuilder::new());
    assert_eq!(a.next_index(), 2);
    assert_eq!(a.vertex_data(), &vec![1, 2]);
    assert_eq!(a.indices(), &vec![0, 1]);
}

#[test]
fn fill_poly_builds_a_fan() {
    let mut b: MeshBuilder<Triangles> = MeshBuilder::new();
    b.vert(&[0, 0]);
    fill_poly(&mut b, &vec![vec![10, 11], vec![20, 21], vec![30, 31], vec![40, 41], vec![50, 51]]);
    assert_eq!(b.next_index(), 6);
    assert_eq!(b.vertex_data(), &vec![0, 0, 10, 11, 20, 21, 30, 31, 40, 41, 50, 51]);
    assert_eq!(b.indices(), &vec![1, 2, 3, 1, 3, 4, 1, 4, 5]);
}

#[test]
fn fill_poly_of_a_triangle_is_one_triangle() {
    let mut b: MeshBuilder<Triangles> = MeshBuilder::new();
    fill_poly(&mut b, &vec![vec![1], vec![2], vec![3]]);
    assert_eq!(b.indices(), &vec![0, 1, 2]);
    assert_eq!(b.next_index(), 3);
}

#[test]
fn add_quad_builds_two_triangles() {
    let mut b: MeshBuilder<Triangles> = MeshBuilder::new();
    b.vert(&[9]);
    b.vert(&[9]);
    add_quad(&mut b, &[1, 2], &[3, 4], &[5, 6], &[7, 8]);
    assert_eq!(b.next_index(), 6);
    assert_eq!(b.vertex_data(), &vec![9, 9, 1, 2, 3, 4, 5, 6, 7, 8]);
    assert_eq!(b.indices(), &vec![2, 3, 4, 3, 4, 5]);
}
