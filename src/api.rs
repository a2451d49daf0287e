use vstd::prelude::*;
use crate::culling::{clamp_u32, exposed_quads};
use crate::grid::{accepts, validated_occupancy, Grid};
use crate::mesh::{extract_mesh, lemma_mesh_indices_in_range, lemma_mesh_lengths, mesh_indices, u32_ints, MeshBuffers, MAX_MESH_QUADS};
use crate::stats::{saturating_mul_u32, saturating_times, MeshStats};

verus! {

/// Version of this interface, checked once by callers when they load it.
pub const API_VERSION: u32 = 1;

/// Worst-case number of quads of one block: all of its faces.
pub const QUADS_PER_BLOCK: u32 = 6;

pub fn mm_core_api_version() -> (r: u32)
    ensures
        r == API_VERSION,
{
    API_VERSION
}

/// Upper bound on the quads of `block_count` blocks, none of them culled.
pub fn mm_mesh_stats_quads(block_count: u32) -> (r: u32)
    ensures
        r == saturating_times(block_count, QUADS_PER_BLOCK),
{
    MeshStats::from_quads(saturating_mul_u32(block_count, QUADS_PER_BLOCK)).quads
}

/// Upper bound on the vertices of `block_count` blocks, none of them culled.
pub fn mm_mesh_stats_vertices(block_count: u32) -> (r: u32)
    ensures
        r == saturating_times(saturating_times(block_count, QUADS_PER_BLOCK), 4),
{
    MeshStats::from_quads(saturating_mul_u32(block_count, QUADS_PER_BLOCK)).vertices
}

/// Upper bound on the indices of `block_count` blocks, none of them culled.
pub fn mm_mesh_stats_indices(block_count: u32) -> (r: u32)
    ensures
        r == saturating_times(saturating_times(block_count, QUADS_PER_BLOCK), 6),
{
    MeshStats::from_quads(saturating_mul_u32(block_count, QUADS_PER_BLOCK)).indices
}

/// The grid an entry point reads once it has accepted its arguments.
pub open spec fn accepted_grid(width: u32, height: u32, depth: u32, occupancy: Option<&[u8]>) -> Grid {
    Grid { width: width as int, height: height as int, depth: depth as int, cells: occupancy->0@ }
}

/// Exposed quads of an accepted grid, saturated; zero for a rejected one.
pub open spec fn counted_quads(width: u32, height: u32, depth: u32, occupancy: Option<&[u8]>) -> u32 {
    if accepts(width, height, depth, occupancy) {
        clamp_u32(accepted_grid(width, height, depth, occupancy).quads().len())
    } else {
        0
    }
}

/// Number of exposed faces of the grid, or 0 when the arguments are rejected.
pub fn mm_mesh_exposed_quads(width: u32, height: u32, depth: u32, occupancy: Option<&[u8]>) -> (r: u32)
    ensures
        r == counted_quads(width, height, depth, occupancy),
{
    match validated_occupancy(width, height, depth, occupancy) {
        Some((w, h, d, cells)) => exposed_quads(w, h, d, cells),
        None => 0,
    }
}

/// Number of vertices extraction emits, or 0 when the arguments are rejected.
pub fn mm_mesh_extract_vertex_count(width: u32, height: u32, depth: u32, occupancy: Option<&[u8]>) -> (r: u32)
    ensures
        r == if accepts(width, height, depth, occupancy) {
            saturating_times(counted_quads(width, height, depth, occupancy), 4)
        } else {
            0
        },
{
    match validated_occupancy(width, height, depth, occupancy) {
        Some((w, h, d, cells)) => saturating_mul_u32(exposed_quads(w, h, d, cells), 4),
        None => 0,
    }
}

/// Number of indices extraction emits, or 0 when the arguments are rejected.
pub fn mm_mesh_extract_index_count(width: u32, height: u32, depth: u32, occupancy: Option<&[u8]>) -> (r: u32)
    ensures
        r == if accepts(width, height, depth, occupancy) {
            saturating_times(counted_quads(width, height, depth, occupancy), 6)
        } else {
            0
        },
{
    match validated_occupancy(width, height, depth, occupancy) {
        Some((w, h, d, cells)) => saturating_mul_u32(exposed_quads(w, h, d, cells), 6),
        None => 0,
    }
}

/// Validates the arguments and builds the mesh. `None` when they are rejected
/// or when the vertices could not all be numbered by a `u32`.
pub fn checked_mesh(width: u32, height: u32, depth: u32, occupancy: Option<&[u8]>) -> (r: Option<MeshBuffers>)
    ensures
        r is Some <==> accepts(width, height, depth, occupancy)
            && accepted_grid(width, height, depth, occupancy).quads().len() <= MAX_MESH_QUADS,
        r matches Some(mesh) ==> mesh.models(accepted_grid(width, height, depth, occupancy).quads()),
{
    match validated_occupancy(width, height, depth, occupancy) {
        Some((w, h, d, cells)) => {
            if exposed_quads(w, h, d, cells) <= MAX_MESH_QUADS {
                Some(extract_mesh(w, h, d, cells))
            } else {
                None
            }
        },
        None => None,
    }
}

/// Copies `source` to the front of `out` when it fits and returns the number
/// of elements written (saturated to `u32::MAX`); writes nothing and returns 0
/// when `out` is too short.
pub fn write_output<T: Copy>(source: &[T], out: &mut [T]) -> (r: u32)
    ensures
        old(out)@.len() < source@.len() ==> r == 0 && final(out)@ == old(out)@,
        old(out)@.len() >= source@.len() ==> r == clamp_u32(source@.len())
            && final(out)@ == source@ + old(out)@.subrange(source@.len() as int, old(out)@.len() as int),
{
    let needed = source.len();
    if out.len() < needed {
        return 0;
    }
    let mut i: usize = 0;
    while i < needed
        invariant
            needed == source@.len(),
            i <= needed,
            needed <= out@.len(),
            out@.len() == old(out)@.len(),
            forall|k: int| 0 <= k < i ==> out@[k] == source@[k],
            forall|k: int| i <= k < out@.len() ==> out@[k] == old(out)@[k],
        decreases needed - i,
    {
        out[i] = source[i];
        i += 1;
    }
    assert(out@ =~= source@ + old(out)@.subrange(needed as int, old(out)@.len() as int));
    if needed > u32::MAX as usize {
        u32::MAX
    } else {
        needed as u32
    }
}


/// Whether the triangle indices of an accepted grid fit in `capacity` slots.
pub open spec fn indices_fit(width: u32, height: u32, depth: u32, occupancy: Option<&[u8]>, capacity: nat) -> bool {
    let n = accepted_grid(width, height, depth, occupancy).quads().len();
    accepts(width, height, depth, occupancy) && n <= MAX_MESH_QUADS && 6 * n <= capacity
}

/// Extracts the mesh and copies its triangle indices to the front of `out`.
/// Returns the number written, saturated to `u32::MAX`; 0, with `out` untouched, when the arguments
/// are rejected or `out` is too short.
pub fn mm_mesh_extract_indices(
    width: u32,
    height: u32,
    depth: u32,
    occupancy: Option<&[u8]>,
    out: &mut [u32],
) -> (r: u32)
    ensures
        ({
            let quads = accepted_grid(width, height, depth, occupancy).quads();
            let n = 6 * quads.len();
            if indices_fit(width, height, depth, occupancy, old(out)@.len()) {
                &&& r == clamp_u32(n)
                &&& final(out)@.len() == old(out)@.len()
                &&& u32_ints(final(out)@.subrange(0, n as int)) == mesh_indices(quads)
                &&& final(out)@.subrange(n as int, old(out)@.len() as int)
                    == old(out)@.subrange(n as int, old(out)@.len() as int)
            } else {
                r == 0 && final(out)@ == old(out)@
            }
        }),
{
    let mesh = match checked_mesh(width, height, depth, occupancy) {
        Some(m) => m,
        None => return 0,
    };
    let ghost quads = accepted_grid(width, height, depth, occupancy).quads();
    proof {
        lemma_mesh_lengths(quads);
        assert(mesh.indices@.len() == u32_ints(mesh.indices@).len());
    }
    let r = write_output(mesh.indices.as_slice(), out);
    proof {
        if old(out)@.len() >= mesh.indices@.len() {
            assert(final(out)@.subrange(0, mesh.indices@.len() as int) =~= mesh.indices@);
            assert(final(out)@.subrange(mesh.indices@.len() as int, old(out)@.len() as int)
                =~= old(out)@.subrange(mesh.indices@.len() as int, old(out)@.len() as int));
        }
    }
    r
}


/// A zero dimension, a missing occupancy buffer or one shorter than the cell
/// count is rejected: every count is 0 and no output capacity is enough, so
/// every entry point returns 0 and writes nothing.
pub proof fn lemma_rejected_arguments_yield_zero(width: u32, height: u32, depth: u32, occupancy: Option<&[u8]>)
    requires
        width == 0 || height == 0 || depth == 0 || occupancy is None
            || occupancy->0@.len() < width * height * depth,
    ensures
        !accepts(width, height, depth, occupancy),
        counted_quads(width, height, depth, occupancy) == 0,
        forall|capacity: nat| !#[trigger] indices_fit(width, height, depth, occupancy, capacity),
{
}

/// An output buffer one element shorter than the index count is refused.
pub proof fn lemma_one_short_is_refused(width: u32, height: u32, depth: u32, occupancy: Option<&[u8]>)
    requires
        accepted_grid(width, height, depth, occupancy).quads().len() > 0,
    ensures
        !indices_fit(
            width,
            height,
            depth,
            occupancy,
            (6 * accepted_grid(width, height, depth, occupancy).quads().len() - 1) as nat,
        ),
{
}


/// Every index of a mesh that extraction returns for any arguments names one
/// of its vertices: it is below the number of positions divided by three.
pub proof fn lemma_extracted_indices_in_range(
    width: u32,
    height: u32,
    depth: u32,
    occupancy: Option<&[u8]>,
    mesh: &MeshBuffers,
)
    requires
        mesh.models(accepted_grid(width, height, depth, occupancy).quads()),
    ensures
        forall|i: int| 0 <= i < mesh.indices@.len() ==>
            (#[trigger] mesh.indices@[i]) < mesh.positions@.len() / 3,
{
    lemma_mesh_indices_in_range(mesh, accepted_grid(width, height, depth, occupancy).quads());
}

} // verus!
