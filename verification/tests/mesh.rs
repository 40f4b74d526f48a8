use gobs::mesh::{FaceArity, Mesh};
use gobs::vec3::Vec3;

#[test]
fn new_mesh_is_empty() {
    let mesh: Mesh<i32> = Mesh::new(FaceArity::Three);
    assert!(mesh.is_empty());
    assert_eq!(0, mesh.get_vertex_count());
    assert_eq!(FaceArity::Three, mesh.face_arity());
}

#[test]
fn add_vertex_returns_positions_in_order() {
    let mut mesh: Mesh<i32> = Mesh::new(FaceArity::Three);
    assert_eq!(0, mesh.add_vertex(10));
    assert_eq!(1, mesh.add_vertex(20));
    assert_eq!(2, mesh.add_vertex(30));
    assert_eq!(3, mesh.get_vertex_count());
    assert_eq!(20, *mesh.get_vertex(1));
}

#[test]
fn add_triangle_appends_three_indices() {
    let mut mesh: Mesh<i32> = Mesh::new(FaceArity::Three);
    mesh.add_vertex(10);
    mesh.add_vertex(20);
    mesh.add_vertex(30);
    mesh.add_triangle(0, 1, 2);
    mesh.add_triangle(2, 1, 0);
    assert_eq!(vec![0, 1, 2, 2, 1, 0], mesh.indices().to_vec());
}

#[test]
fn add_quad_appends_four_indices() {
    let mut mesh: Mesh<i32> = Mesh::new(FaceArity::Four);
    for i in 0..4 {
        mesh.add_vertex(i);
    }
    mesh.add_quad(0, 1, 2, 3);
    assert_eq!(vec![0, 1, 2, 3], mesh.indices().to_vec());
}

#[test]
fn clear_keeps_arity_and_offset() {
    let mut mesh: Mesh<i32> = Mesh::new(FaceArity::Four);
    mesh.add_vertex(1);
    mesh.set_offset(Vec3::new(4, 5, 6));
    mesh.clear();
    assert!(mesh.is_empty());
    assert_eq!(FaceArity::Four, mesh.face_arity());
    assert_eq!(4, mesh.offset().x);
    assert_eq!(5, mesh.offset().y);
    assert_eq!(6, mesh.offset().z);
}

#[test]
fn remove_unused_vertices_drops_orphans_in_order() {
    let mut mesh: Mesh<i32> = Mesh::new(FaceArity::Three);
    for v in [10, 20, 30, 40, 50] {
        mesh.add_vertex(v);
    }
    // vertices 1 and 3 are never referenced
    mesh.add_triangle(0, 2, 4);
    mesh.add_triangle(4, 2, 0);

    mesh.remove_unused_vertices();

    assert_eq!(vec![10, 30, 50], mesh.vertices().to_vec());
    assert_eq!(vec![0, 1, 2, 2, 1, 0], mesh.indices().to_vec());
}

#[test]
fn remove_unused_vertices_preserves_faces() {
    let mut mesh: Mesh<i32> = Mesh::new(FaceArity::Three);
    for v in [7, 8, 9, 10, 11, 12] {
        mesh.add_vertex(v);
    }
    mesh.add_triangle(5, 3, 1);
    mesh.add_triangle(1, 1, 5);

    let before: Vec<i32> = mesh
        .indices()
        .iter()
        .map(|&i| *mesh.get_vertex(i as usize))
        .collect();

    mesh.remove_unused_vertices();

    let after: Vec<i32> = mesh
        .indices()
        .iter()
        .map(|&i| *mesh.get_vertex(i as usize))
        .collect();

    assert_eq!(before, after);
    // exactly the three referenced records survive, in their original order
    assert_eq!(vec![8, 10, 12], mesh.vertices().to_vec());
}

#[test]
fn remove_unused_vertices_on_unreferenced_mesh_drops_everything() {
    let mut mesh: Mesh<i32> = Mesh::new(FaceArity::Three);
    mesh.add_vertex(1);
    mesh.add_vertex(2);
    mesh.remove_unused_vertices();
    assert_eq!(0, mesh.get_vertex_count());
    assert_eq!(0, mesh.indices().len());
}
