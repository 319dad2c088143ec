use viewer_core::mesh::{
    corners, expand, indices, indices_in_range, tex_coords, Cube, Position, TexCoord, Vertex,
    CORNER_COUNT, FACE_VERTEX_COUNT, INDEX_COUNT,
};

#[test]
fn table_sizes() {
    assert_eq!(CORNER_COUNT, 8);
    assert_eq!(FACE_VERTEX_COUNT, 6);
    assert_eq!(INDEX_COUNT, 36);
    assert_eq!(corners().len(), CORNER_COUNT);
    assert_eq!(tex_coords().len(), FACE_VERTEX_COUNT);
    assert_eq!(indices().len(), INDEX_COUNT);
}

#[test]
fn corner_table_values() {
    let expected = [
        (0, 0, 0),
        (0, 1, 0),
        (1, 1, 0),
        (1, 0, 0),
        (0, 1, 1),
        (1, 1, 1),
        (1, 0, 1),
        (0, 0, 1),
    ];
    let table = corners();
    for i in 0..8 {
        assert_eq!((table[i].x, table[i].y, table[i].z), expected[i]);
    }
}

#[test]
fn tex_coord_table_values() {
    let expected = [(1, 1), (0, 1), (0, 0), (1, 1), (1, 0), (0, 0)];
    let table = tex_coords();
    for i in 0..6 {
        assert_eq!((table[i].u, table[i].v), expected[i]);
    }
}

#[test]
fn index_table_values() {
    let expected: [u32; 36] = [
        0, 1, 2, 2, 3, 0, 1, 4, 5, 5, 2, 1, 2, 5, 6, 6, 3, 2, 7, 6, 5, 5, 4, 7, 4, 0, 3, 3, 7, 4, 7,
        3, 6, 6, 3, 2,
    ];
    assert_eq!(indices(), expected);
}

#[test]
fn corners_are_the_eight_points_of_the_unit_cube() {
    let table = corners();
    for x in 0..2 {
        for y in 0..2 {
            for z in 0..2 {
                let hits = table.iter().filter(|p| **p == Position { x, y, z }).count();
                assert_eq!(hits, 1);
            }
        }
    }
}

#[test]
fn cube_vertices_follow_the_tables() {
    let cube = Cube::new();
    let corner_table = corners();
    let tex_coord_table = tex_coords();
    let index_table = indices();
    assert_eq!(cube.vertices.len(), 36);
    assert_eq!(cube.indices.len(), 36);
    assert_eq!(cube.indices, index_table.to_vec());
    for i in 0..36 {
        assert_eq!(cube.vertices[i].position, corner_table[index_table[i] as usize]);
        assert_eq!(cube.vertices[i].tex_coords, tex_coord_table[i % 6]);
    }
}

#[test]
fn cube_front_face_comes_first() {
    let cube = Cube::new();
    let front: Vec<(i32, i32, i32, i32, i32)> = cube.vertices[0..6]
        .iter()
        .map(|v| (v.position.x, v.position.y, v.position.z, v.tex_coords.u, v.tex_coords.v))
        .collect();
    assert_eq!(
        front,
        vec![
            (0, 0, 0, 1, 1),
            (0, 1, 0, 0, 1),
            (1, 1, 0, 0, 0),
            (1, 1, 0, 1, 1),
            (1, 0, 0, 1, 0),
            (0, 0, 0, 0, 0),
        ]
    );
    for v in &cube.vertices[0..6] {
        assert_eq!(v.position.z, 0);
    }
}

#[test]
fn cube_last_vertex() {
    let cube = Cube::new();
    assert_eq!(
        cube.vertices[35],
        Vertex { position: Position { x: 1, y: 1, z: 0 }, tex_coords: TexCoord { u: 0, v: 0 } }
    );
}

#[test]
fn expand_small_mesh() {
    let pool = [
        Position { x: 5, y: 6, z: 7 },
        Position { x: -1, y: -2, z: -3 },
        Position { x: 9, y: 9, z: 9 },
    ];
    let quad = [TexCoord { u: 0, v: 0 }, TexCoord { u: 1, v: 0 }];
    let vertices = expand(&pool, &quad, &[2, 0, 0, 1, 2]);
    assert_eq!(
        vertices,
        vec![
            Vertex { position: pool[2], tex_coords: quad[0] },
            Vertex { position: pool[0], tex_coords: quad[1] },
            Vertex { position: pool[0], tex_coords: quad[0] },
            Vertex { position: pool[1], tex_coords: quad[1] },
            Vertex { position: pool[2], tex_coords: quad[0] },
        ]
    );
}

#[test]
fn expand_without_indices_is_empty() {
    let quad = [TexCoord { u: 0, v: 0 }];
    assert!(expand(&[], &quad, &[]).is_empty());
    assert!(expand(&corners(), &tex_coords(), &[]).is_empty());
}

#[test]
fn index_range_check() {
    assert!(indices_in_range(&indices(), 8));
    assert!(!indices_in_range(&indices(), 7));
    assert!(indices_in_range(&[], 0));
    assert!(!indices_in_range(&[0], 0));
    assert!(indices_in_range(&[0, 1, 2], 3));
    assert!(!indices_in_range(&[0, 3, 2], 3));
    assert!(!indices_in_range(&[u32::MAX], 8));
}

#[test]
fn last_face_repeats_a_triangle_of_the_third() {
    let table = indices();
    assert_eq!(table[15..18], [6, 3, 2]);
    assert_eq!(table[33..36], [6, 3, 2]);
    let cube = Cube::new();
    for i in 0..3 {
        assert_eq!(cube.vertices[15 + i].position, cube.vertices[33 + i].position);
    }
}

#[test]
fn every_triangle_has_three_corners() {
    let table = indices();
    for triangle in 0..12 {
        let (a, b, c) = (table[3 * triangle], table[3 * triangle + 1], table[3 * triangle + 2]);
        assert_ne!(a, b);
        assert_ne!(b, c);
        assert_ne!(a, c);
    }
}
