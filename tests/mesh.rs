use mm_core::{
    checked_mesh, exposed_quads, extract_mesh, is_occupied, is_occupied_checked,
    mm_core_api_version, mm_mesh_exposed_quads, mm_mesh_extract_index_count,
    mm_mesh_extract_indices, mm_mesh_extract_vertex_count, mm_mesh_stats_indices,
    mm_mesh_stats_quads, mm_mesh_stats_vertices, validated_dimensions, validated_occupancy,
    write_output, MeshStats,
};

#[test]
fn mesh_stats_scale_with_block_count() {
    assert_eq!(MeshStats::from_quads(0).quads, 0);
    assert_eq!(MeshStats::from_quads(12).vertices, 48);
    assert_eq!(MeshStats::from_quads(12).indices, 72);
}

#[test]
fn api_version_is_stable() {
    assert_eq!(mm_core_api_version(), 1);
}

#[test]
fn exposed_quads_single_block() {
    let occupancy = vec![1u8];
    assert_eq!(exposed_quads(1, 1, 1, &occupancy), 6);
}

#[test]
fn exposed_quads_two_adjacent_blocks() {
    let occupancy = vec![1u8, 1u8];
    assert_eq!(exposed_quads(2, 1, 1, &occupancy), 10);
}

#[test]
fn extract_mesh_single_block_lengths() {
    let occupancy = vec![1u8];
    let mesh = extract_mesh(1, 1, 1, &occupancy);
    assert_eq!(mesh.positions.len(), 6 * 4 * 3);
    assert_eq!(mesh.normals.len(), 6 * 4 * 3);
    assert_eq!(mesh.uvs.len(), 6 * 4 * 2);
    assert_eq!(mesh.indices.len(), 6 * 6);
}

#[test]
fn extract_mesh_two_adjacent_blocks_lengths() {
    let occupancy = vec![1u8, 1u8];
    let mesh = extract_mesh(2, 1, 1, &occupancy);
    assert_eq!(mesh.positions.len(), 10 * 4 * 3);
    assert_eq!(mesh.normals.len(), 10 * 4 * 3);
    assert_eq!(mesh.uvs.len(), 10 * 4 * 2);
    assert_eq!(mesh.indices.len(), 10 * 6);
}

#[test]
fn mesh_stats_saturate_instead_of_wrapping() {
    let stats = MeshStats::from_quads(u32::MAX);
    assert_eq!(stats.quads, u32::MAX);
    assert_eq!(stats.vertices, u32::MAX);
    assert_eq!(stats.indices, u32::MAX);
    let edge = MeshStats::from_quads(u32::MAX / 4);
    assert_eq!(edge.vertices, (u32::MAX / 4) * 4);
    assert_eq!(MeshStats::from_quads(u32::MAX / 4 + 1).vertices, u32::MAX);
    assert_eq!(MeshStats::from_quads(7).vertices, 28);
    assert_eq!(MeshStats::from_quads(7).indices, 42);
}

#[test]
fn api_version_repeats() {
    assert_eq!(mm_core_api_version(), mm_core_api_version());
}

#[test]
fn sizing_estimator_assumes_six_faces_per_block() {
    assert_eq!(mm_mesh_stats_quads(2), 12);
    assert_eq!(mm_mesh_stats_vertices(2), 48);
    assert_eq!(mm_mesh_stats_indices(2), 72);
    assert_eq!(mm_mesh_stats_quads(0), 0);
    assert_eq!(mm_mesh_stats_quads(u32::MAX), u32::MAX);
    assert_eq!(mm_mesh_stats_vertices(u32::MAX / 6), u32::MAX);
    assert_eq!(mm_mesh_stats_indices(u32::MAX), u32::MAX);
}

#[test]
fn interior_cell_contributes_no_faces() {
    let full = vec![1u8; 27];
    assert_eq!(exposed_quads(3, 3, 3, &full), 54);
    let mut hollow = full.clone();
    hollow[13] = 0;
    // Emptying the centre exposes the six faces around the hole.
    assert_eq!(exposed_quads(3, 3, 3, &hollow), 54 + 6);
    let mut lone_centre = vec![0u8; 27];
    lone_centre[13] = 1;
    assert_eq!(exposed_quads(3, 3, 3, &lone_centre), 6);
}

#[test]
fn empty_grid_has_no_faces() {
    let occupancy = vec![0u8; 8];
    assert_eq!(exposed_quads(2, 2, 2, &occupancy), 0);
    let mesh = extract_mesh(2, 2, 2, &occupancy);
    assert!(mesh.positions.is_empty());
    assert!(mesh.indices.is_empty());
}

#[test]
fn single_block_geometry_values() {
    let occupancy = vec![1u8];
    let mesh = extract_mesh(1, 1, 1, &occupancy);
    assert_eq!(&mesh.positions[0..12], &[0, 0, 1, 0, 1, 1, 0, 1, 0, 0, 0, 0]);
    assert_eq!(&mesh.normals[0..12], &[-1, 0, 0, -1, 0, 0, -1, 0, 0, -1, 0, 0]);
    assert_eq!(&mesh.positions[12..24], &[1, 0, 0, 1, 1, 0, 1, 1, 1, 1, 0, 1]);
    assert_eq!(&mesh.normals[60..72], &[0, 0, 1, 0, 0, 1, 0, 0, 1, 0, 0, 1]);
    assert_eq!(&mesh.uvs[0..8], &[0, 0, 0, 1, 1, 1, 1, 0]);
    assert_eq!(&mesh.uvs[40..48], &[0, 0, 0, 1, 1, 1, 1, 0]);
    assert_eq!(&mesh.indices[0..12], &[0, 1, 2, 0, 2, 3, 4, 5, 6, 4, 6, 7]);
}

#[test]
fn positions_are_offset_to_the_cell() {
    // Only cell (1, 0, 0) of a 2x1x1 grid is occupied.
    let occupancy = vec![0u8, 1u8];
    let mesh = extract_mesh(2, 1, 1, &occupancy);
    assert_eq!(mesh.positions.len(), 6 * 12);
    assert_eq!(&mesh.positions[0..12], &[1, 0, 1, 1, 1, 1, 1, 1, 0, 1, 0, 0]);
}

#[test]
fn every_index_names_an_emitted_vertex() {
    let occupancy = vec![1u8, 0, 1, 1, 0, 1, 1, 0, 1, 1, 1, 0];
    let mesh = extract_mesh(3, 2, 2, &occupancy);
    let vertices = (mesh.positions.len() / 3) as u32;
    assert!(vertices > 0);
    assert!(mesh.indices.iter().all(|&i| i < vertices));
    assert_eq!(mesh.indices.len() / 6 * 4, vertices as usize);
}

#[test]
fn counts_follow_the_grid() {
    let occupancy = vec![1u8, 1u8];
    assert_eq!(mm_mesh_exposed_quads(2, 1, 1, Some(&occupancy)), 10);
    assert_eq!(mm_mesh_extract_vertex_count(2, 1, 1, Some(&occupancy)), 40);
    assert_eq!(mm_mesh_extract_index_count(2, 1, 1, Some(&occupancy)), 60);
}

#[test]
fn height_major_layout_is_respected() {
    // Index y*d*w + z*w + x: in a 2x2x2 grid byte 4 is cell (0, 1, 0).
    let mut occupancy = vec![0u8; 8];
    occupancy[4] = 1;
    assert!(is_occupied(2, 2, &occupancy, 0, 1, 0));
    assert!(!is_occupied(2, 2, &occupancy, 0, 0, 1));
    assert!(is_occupied_checked(2, 2, 2, &occupancy, 0, 1, 0));
    assert!(!is_occupied_checked(2, 2, 2, &occupancy, -1, 1, 0));
    assert!(!is_occupied_checked(2, 2, 2, &occupancy, 0, 2, 0));
    assert!(!is_occupied(2, 2, &occupancy[0..4], 0, 1, 0));
}

#[test]
fn nonzero_bytes_count_as_solid() {
    let occupancy = vec![0xffu8, 0u8, 7u8];
    assert_eq!(mm_mesh_exposed_quads(3, 1, 1, Some(&occupancy)), 12);
}

#[test]
fn excess_occupancy_bytes_are_ignored() {
    let occupancy = vec![1u8, 1u8, 1u8, 1u8];
    assert_eq!(mm_mesh_exposed_quads(1, 1, 1, Some(&occupancy)), 6);
}

#[test]
fn rejected_arguments_yield_zero_everywhere() {
    let occupancy = vec![1u8; 8];
    let short = vec![1u8; 7];
    let cases: Vec<(u32, u32, u32, Option<&[u8]>)> = vec![
        (0, 2, 2, Some(&occupancy)),
        (2, 0, 2, Some(&occupancy)),
        (2, 2, 0, Some(&occupancy)),
        (2, 2, 2, None),
        (2, 2, 2, Some(&short)),
    ];
    for (w, h, d, occ) in cases {
        assert_eq!(mm_mesh_exposed_quads(w, h, d, occ), 0);
        assert_eq!(mm_mesh_extract_vertex_count(w, h, d, occ), 0);
        assert_eq!(mm_mesh_extract_index_count(w, h, d, occ), 0);
        let mut out = vec![9u32; 200];
        assert_eq!(mm_mesh_extract_indices(w, h, d, occ, &mut out), 0);
        assert!(out.iter().all(|&v| v == 9));
        assert!(checked_mesh(w, h, d, occ).is_none());
        assert!(validated_occupancy(w, h, d, occ).is_none());
    }
}

#[test]
fn validated_dimensions_multiplies_out() {
    assert_eq!(validated_dimensions(2, 3, 4), Some((2, 3, 4, 24)));
    assert_eq!(validated_dimensions(1, 1, 1), Some((1, 1, 1, 1)));
    let big = validated_dimensions(u32::MAX, u32::MAX, u32::MAX);
    if usize::BITS <= 64 {
        assert!(big.is_none());
    }
}

#[test]
fn extract_indices_writes_exact_capacity() {
    let occupancy = vec![1u8];
    let mut out = vec![u32::MAX; 36];
    assert_eq!(mm_mesh_extract_indices(1, 1, 1, Some(&occupancy), &mut out), 36);
    assert_eq!(&out[0..6], &[0, 1, 2, 0, 2, 3]);
    assert_eq!(&out[30..36], &[20, 21, 22, 20, 22, 23]);
}

#[test]
fn extract_indices_one_short_writes_nothing() {
    let occupancy = vec![1u8];
    let mut out = vec![u32::MAX; 35];
    assert_eq!(mm_mesh_extract_indices(1, 1, 1, Some(&occupancy), &mut out), 0);
    assert!(out.iter().all(|&v| v == u32::MAX));
}

#[test]
fn extract_indices_leaves_the_tail() {
    let occupancy = vec![1u8];
    let mut out = vec![u32::MAX; 40];
    assert_eq!(mm_mesh_extract_indices(1, 1, 1, Some(&occupancy), &mut out), 36);
    assert!(out[36..].iter().all(|&v| v == u32::MAX));
}

#[test]
fn write_output_checks_capacity() {
    let source = vec![1.5f32, 2.5, 3.5];
    let mut exact = vec![0.0f32; 3];
    assert_eq!(write_output(&source, &mut exact), 3);
    assert_eq!(exact, source);
    let mut short = vec![0.0f32; 2];
    assert_eq!(write_output(&source, &mut short), 0);
    assert_eq!(short, vec![0.0f32; 2]);
    let mut long = vec![0.0f32; 5];
    assert_eq!(write_output(&source, &mut long), 3);
    assert_eq!(long, vec![1.5, 2.5, 3.5, 0.0, 0.0]);
}

#[test]
fn checked_mesh_matches_counts() {
    let occupancy = vec![1u8, 1u8, 0u8, 1u8];
    let mesh = checked_mesh(2, 2, 1, Some(&occupancy)).unwrap();
    let quads = mm_mesh_exposed_quads(2, 2, 1, Some(&occupancy)) as usize;
    assert_eq!(quads, 14);
    assert_eq!(mesh.positions.len(), quads * 12);
    assert_eq!(mesh.normals.len(), quads * 12);
    assert_eq!(mesh.uvs.len(), quads * 8);
    assert_eq!(mesh.indices.len(), quads * 6);
    assert_eq!(
        mm_mesh_extract_vertex_count(2, 2, 1, Some(&occupancy)) as usize,
        mesh.positions.len() / 3
    );
}

#[test]
fn z_faces_wind_around_their_normals() {
    let occupancy = vec![1u8];
    let mesh = extract_mesh(1, 1, 1, &occupancy);
    // -z face: corners (0,0,0), (0,1,0), (1,1,0), (1,0,0).
    assert_eq!(&mesh.positions[48..60], &[0, 0, 0, 0, 1, 0, 1, 1, 0, 1, 0, 0]);
    assert_eq!(&mesh.normals[48..51], &[0, 0, -1]);
    // +z face: corners (1,0,1), (1,1,1), (0,1,1), (0,0,1).
    assert_eq!(&mesh.positions[60..72], &[1, 0, 1, 1, 1, 1, 0, 1, 1, 0, 0, 1]);
    assert_eq!(&mesh.normals[60..63], &[0, 0, 1]);
}

#[test]
fn every_face_winds_counter_clockwise_from_outside() {
    let occupancy = vec![1u8];
    let mesh = extract_mesh(1, 1, 1, &occupancy);
    let p: Vec<i64> = mesh.positions.iter().map(|&v| v as i64).collect();
    for face in 0..6 {
        let corner = |k: usize| {
            let at = face * 12 + k * 3;
            [p[at], p[at + 1], p[at + 2]]
        };
        let n = &mesh.normals[face * 12..face * 12 + 3];
        let normal = [n[0] as i64, n[1] as i64, n[2] as i64];
        for (a, b) in [(1, 2), (2, 3)] {
            let u: Vec<i64> = (0..3).map(|i| corner(a)[i] - corner(0)[i]).collect();
            let v: Vec<i64> = (0..3).map(|i| corner(b)[i] - corner(0)[i]).collect();
            let cross = [u[1] * v[2] - u[2] * v[1], u[2] * v[0] - u[0] * v[2], u[0] * v[1] - u[1] * v[0]];
            assert_eq!(cross, normal);
        }
    }
}
