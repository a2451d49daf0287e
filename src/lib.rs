//! Voxel surface extraction: turns a dense occupancy grid into one quad per
//! exposed cube face, with a bounds-checked occupancy accessor, validated
//! entry points and a worst-case sizing estimator.
pub mod api;
pub mod culling;
pub mod faces;
pub mod grid;
pub mod mesh;
pub mod stats;

pub use api::{
    checked_mesh, mm_core_api_version, mm_mesh_exposed_quads, mm_mesh_extract_index_count,
    mm_mesh_extract_indices, mm_mesh_extract_vertex_count, mm_mesh_stats_indices,
    mm_mesh_stats_quads, mm_mesh_stats_vertices, write_output, API_VERSION,
};
pub use culling::exposed_quads;
pub use grid::{is_occupied, is_occupied_checked, validated_dimensions, validated_occupancy};
pub use mesh::{extract_mesh, MeshBuffers, MAX_MESH_QUADS};
pub use stats::MeshStats;
