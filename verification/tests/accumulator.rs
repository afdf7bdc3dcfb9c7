use mapmesh::geom::Coord;
use mapmesh::mesh::{Mesh, Vec3};

fn triangle_verts(shift: i64) -> Vec<Coord> {
    vec![
        Coord { x: shift, y: 0 },
        Coord { x: shift + 10, y: 0 },
        Coord { x: shift, y: 10 },
    ]
}

#[test]
fn accumulate_offsets_indices_per_polygon() {
    let mut mesh = Mesh::new();
    mesh.accumulate(&triangle_verts(0), &vec![0, 1, 2]);
    mesh.accumulate(&triangle_verts(100), &vec![0, 1, 2]);
    assert_eq!(mesh.vertices.len(), 6);
    assert_eq!(mesh.indices, vec![0, 1, 2, 3, 4, 5]);
    assert_eq!(mesh.index_base, 6);
    // every combined index stays below the total vertex count
    for idx in &mesh.indices {
        assert!((*idx as usize) < mesh.vertices.len());
    }
}

#[test]
fn accumulating_nothing_keeps_the_index_base() {
    let mut mesh = Mesh::new();
    mesh.accumulate(&triangle_verts(0), &vec![0, 1, 2]);
    let base_before = mesh.index_base;
    mesh.accumulate(&Vec::new(), &Vec::new());
    assert_eq!(mesh.index_base, base_before);
    assert_eq!(mesh.vertices.len(), 3);
    assert_eq!(mesh.indices.len(), 3);
}

#[test]
fn accumulate_keeps_vertices_in_order() {
    let mut mesh = Mesh::new();
    let verts = triangle_verts(7);
    mesh.accumulate(&verts, &vec![2, 1, 0]);
    assert_eq!(mesh.vertices, verts);
    assert_eq!(mesh.indices, vec![2, 1, 0]);
}

#[test]
fn finalize_adds_one_placeholder_per_vertex() {
    let mut mesh = Mesh::new();
    mesh.accumulate(&triangle_verts(0), &vec![0, 1, 2]);
    let rendered = mesh.finalize();
    assert_eq!(rendered.positions.len(), 3);
    assert_eq!(rendered.indices, vec![0, 1, 2]);
    assert_eq!(rendered.normals.len(), 3);
    assert_eq!(rendered.uvs.len(), 3);
    for n in &rendered.normals {
        assert_eq!(*n, Vec3 { x: 0, y: 0, z: 0 });
    }
    for uv in &rendered.uvs {
        assert_eq!(*uv, Coord { x: 0, y: 0 });
    }
}
