use erosion::mesh::{gen_mesh_vertices, mesh_fits, Mesh, MeshVertex};

#[test]
fn hundred_by_hundred_grid_has_documented_counts() {
    assert!(mesh_fits(100, 100));
    let (vertices, indices) = gen_mesh_vertices(100, 100);
    assert_eq!(vertices.len(), 10_000);
    assert_eq!(indices.len(), 58_806);
    assert!(indices.iter().all(|&i| (i as usize) < 10_000));
}

#[test]
fn two_by_two_grid_is_one_quad() {
    let (vertices, indices) = gen_mesh_vertices(2, 2);
    assert_eq!(
        vertices,
        vec![
            MeshVertex { x: 0, y: 0 },
            MeshVertex { x: 0, y: 1 },
            MeshVertex { x: 1, y: 0 },
            MeshVertex { x: 1, y: 1 },
        ]
    );
    assert_eq!(indices, vec![0, 1, 3, 0, 3, 2]);
}

#[test]
fn three_by_two_grid_has_two_quads_in_column_order() {
    let (vertices, indices) = gen_mesh_vertices(3, 2);
    assert_eq!(vertices.len(), 6);
    assert_eq!(vertices[4], MeshVertex { x: 2, y: 0 });
    assert_eq!(indices, vec![0, 1, 3, 0, 3, 2, 2, 3, 5, 2, 5, 4]);
}

#[test]
fn two_by_three_grid_winds_each_quad_from_its_first_corner() {
    let (vertices, indices) = gen_mesh_vertices(2, 3);
    assert_eq!(vertices.len(), 6);
    assert_eq!(vertices[1], MeshVertex { x: 0, y: 1 });
    assert_eq!(vertices[3], MeshVertex { x: 1, y: 0 });
    assert_eq!(indices, vec![0, 1, 4, 0, 4, 3, 1, 2, 5, 1, 5, 4]);
}

#[test]
fn vertices_come_column_after_column() {
    let width = 7usize;
    let height = 5usize;
    let (vertices, _) = gen_mesh_vertices(width, height);
    assert_eq!(vertices.len(), width * height);
    for x in 0..width {
        for y in 0..height {
            let vertex = vertices[x * height + y];
            assert_eq!(vertex, MeshVertex { x: x as u32, y: y as u32 });
        }
    }
}

#[test]
fn every_quad_has_the_documented_winding() {
    let width = 6usize;
    let height = 4usize;
    let (_, indices) = gen_mesh_vertices(width, height);
    assert_eq!(indices.len(), (width - 1) * (height - 1) * 6);
    for x in 0..width - 1 {
        for y in 0..height - 1 {
            let first = 6 * (x * (height - 1) + y);
            let v = (x * height + y) as u32;
            let h = height as u32;
            assert_eq!(
                &indices[first..first + 6],
                &[v, v + 1, v + h + 1, v, v + h + 1, v + h]
            );
        }
    }
}

#[test]
fn counts_follow_the_formula_for_many_sizes() {
    for width in 2..12usize {
        for height in 2..12usize {
            let (vertices, indices) = gen_mesh_vertices(width, height);
            assert_eq!(vertices.len(), width * height);
            assert_eq!(indices.len(), (width - 1) * (height - 1) * 6);
            assert!(indices.iter().all(|&i| (i as usize) < width * height));
        }
    }
}

#[test]
fn single_column_has_vertices_and_no_indices() {
    let (vertices, indices) = gen_mesh_vertices(1, 5);
    assert_eq!(vertices.len(), 5);
    assert_eq!(vertices[4], MeshVertex { x: 0, y: 4 });
    assert!(indices.is_empty());
}

#[test]
fn single_row_has_vertices_and_no_indices() {
    let (vertices, indices) = gen_mesh_vertices(5, 1);
    assert_eq!(vertices.len(), 5);
    assert_eq!(vertices[4], MeshVertex { x: 4, y: 0 });
    assert!(indices.is_empty());
}

#[test]
fn single_point_is_a_valid_mesh() {
    let (vertices, indices) = gen_mesh_vertices(1, 1);
    assert_eq!(vertices, vec![MeshVertex { x: 0, y: 0 }]);
    assert!(indices.is_empty());
}

#[test]
fn zero_width_or_height_gives_the_empty_mesh() {
    for (width, height) in [(0usize, 0usize), (0, 9), (9, 0), (0, usize::MAX), (usize::MAX, 0)] {
        assert!(mesh_fits(width, height));
        let (vertices, indices) = gen_mesh_vertices(width, height);
        assert!(vertices.is_empty());
        assert!(indices.is_empty());
    }
}

#[test]
fn generation_is_deterministic() {
    assert_eq!(gen_mesh_vertices(9, 4), gen_mesh_vertices(9, 4));
}

#[test]
fn mesh_fits_refuses_grids_whose_indices_overflow() {
    assert!(mesh_fits(1 << 16, 1 << 16));
    assert!(!mesh_fits((1 << 16) + 1, 1 << 16));
    assert!(!mesh_fits(usize::MAX, 2));
    assert!(!mesh_fits(usize::MAX, usize::MAX));
    assert!(mesh_fits(1, u32::MAX as usize));
}

#[test]
fn mesh_keeps_its_dimensions_and_streams() {
    let mesh = Mesh::new(4, 3);
    assert_eq!(mesh.width(), 4);
    assert_eq!(mesh.height(), 3);
    let (vertices, indices) = gen_mesh_vertices(4, 3);
    assert_eq!(mesh.vertices(), &vertices);
    assert_eq!(mesh.indices(), &indices);
    assert_eq!(mesh.indices().len(), 36);
}
