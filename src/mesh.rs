use vstd::prelude::*;
use crate::culling::{lemma_walked_prefix_bound, neighbor_occupied, Quad};
use crate::faces::{corner_offset, face_corners, face_normal, face_uvs, normal_components, FACE_COUNT};
use crate::grid::{dims_fit, grid_of, is_occupied, lemma_cell_index_bound};

verus! {

/// Largest number of quads whose vertices can all be numbered by a `u32`.
pub const MAX_MESH_QUADS: u32 = 0x4000_0000;

/// Geometry of a set of independent quads, with integer coordinates: corner
/// positions, unit normals, texture coordinates and triangle indices.
pub struct MeshBuffers {
    pub positions: Vec<usize>,
    pub normals: Vec<i8>,
    pub uvs: Vec<u8>,
    pub indices: Vec<u32>,
}

pub open spec fn usize_ints(s: Seq<usize>) -> Seq<int> {
    s.map_values(|v: usize| v as int)
}

pub open spec fn i8_ints(s: Seq<i8>) -> Seq<int> {
    s.map_values(|v: i8| v as int)
}

pub open spec fn u8_ints(s: Seq<u8>) -> Seq<int> {
    s.map_values(|v: u8| v as int)
}

pub open spec fn u32_ints(s: Seq<u32>) -> Seq<int> {
    s.map_values(|v: u32| v as int)
}

/// Positions of the first `k` corners of a quad, three coordinates each,
/// offset to the quad's cell.
pub open spec fn corner_positions(q: Quad, k: int) -> Seq<int>
    decreases k,
{
    if k <= 0 {
        seq![]
    } else {
        let c = face_corners(q.3)[k - 1];
        corner_positions(q, k - 1) + seq![q.0 + c.0, q.1 + c.1, q.2 + c.2]
    }
}

/// The face normal repeated for the first `k` corners of a quad.
pub open spec fn corner_normals(q: Quad, k: int) -> Seq<int>
    decreases k,
{
    if k <= 0 {
        seq![]
    } else {
        let n = face_normal(q.3);
        corner_normals(q, k - 1) + seq![n.0, n.1, n.2]
    }
}

/// The two triangles of a quad whose first vertex is `base`.
pub open spec fn quad_indices(base: int) -> Seq<int> {
    seq![base, base + 1, base + 2, base, base + 2, base + 3]
}

pub open spec fn mesh_positions(qs: Seq<Quad>) -> Seq<int>
    decreases qs.len(),
{
    if qs.len() == 0 {
        seq![]
    } else {
        mesh_positions(qs.drop_last()) + corner_positions(qs.last(), 4)
    }
}

pub open spec fn mesh_normals(qs: Seq<Quad>) -> Seq<int>
    decreases qs.len(),
{
    if qs.len() == 0 {
        seq![]
    } else {
        mesh_normals(qs.drop_last()) + corner_normals(qs.last(), 4)
    }
}

pub open spec fn mesh_uvs(qs: Seq<Quad>) -> Seq<int>
    decreases qs.len(),
{
    if qs.len() == 0 {
        seq![]
    } else {
        mesh_uvs(qs.drop_last()) + face_uvs()
    }
}

/// Quad `i` owns vertices `4i .. 4i + 3`: no vertex is shared between quads.
pub open spec fn mesh_indices(qs: Seq<Quad>) -> Seq<int>
    decreases qs.len(),
{
    if qs.len() == 0 {
        seq![]
    } else {
        mesh_indices(qs.drop_last()) + quad_indices(4 * (qs.len() - 1))
    }
}

impl MeshBuffers {
    /// The buffers hold exactly the geometry of the quads `qs`, in order.
    pub open spec fn models(&self, qs: Seq<Quad>) -> bool {
        &&& usize_ints(self.positions@) == mesh_positions(qs)
        &&& i8_ints(self.normals@) == mesh_normals(qs)
        &&& u8_ints(self.uvs@) == mesh_uvs(qs)
        &&& u32_ints(self.indices@) == mesh_indices(qs)
    }
}

pub proof fn lemma_corner_lengths(q: Quad, k: int)
    requires
        0 <= k,
    ensures
        corner_positions(q, k).len() == 3 * k,
        corner_normals(q, k).len() == 3 * k,
    decreases k,
{
    if k > 0 {
        lemma_corner_lengths(q, k - 1);
    }
}

pub proof fn lemma_mesh_lengths(qs: Seq<Quad>)
    ensures
        mesh_positions(qs).len() == 12 * qs.len(),
        mesh_normals(qs).len() == 12 * qs.len(),
        mesh_uvs(qs).len() == 8 * qs.len(),
        mesh_indices(qs).len() == 6 * qs.len(),
    decreases qs.len(),
{
    if qs.len() > 0 {
        lemma_mesh_lengths(qs.drop_last());
        lemma_corner_lengths(qs.last(), 4);
    }
}

proof fn lemma_push_quad(qs: Seq<Quad>, q: Quad)
    ensures
        mesh_positions(qs.push(q)) == mesh_positions(qs) + corner_positions(q, 4),
        mesh_normals(qs.push(q)) == mesh_normals(qs) + corner_normals(q, 4),
        mesh_uvs(qs.push(q)) == mesh_uvs(qs) + face_uvs(),
        mesh_indices(qs.push(q)) == mesh_indices(qs) + quad_indices(4 * qs.len() as int),
{
    assert(qs.push(q).drop_last() =~= qs);
}


/// Every index of the geometry of `qs` names one of its vertices.
pub proof fn lemma_indices_name_vertices(qs: Seq<Quad>)
    ensures
        forall|i: int| 0 <= i < mesh_indices(qs).len() ==>
            0 <= #[trigger] mesh_indices(qs)[i] < mesh_positions(qs).len() / 3,
    decreases qs.len(),
{
    lemma_mesh_lengths(qs);
    if qs.len() > 0 {
        let prev = qs.drop_last();
        lemma_indices_name_vertices(prev);
        lemma_mesh_lengths(prev);
        assert forall|i: int| 0 <= i < mesh_indices(qs).len() implies
            0 <= #[trigger] mesh_indices(qs)[i] < mesh_positions(qs).len() / 3 by {
            if i < mesh_indices(prev).len() {
                assert(mesh_indices(qs)[i] == mesh_indices(prev)[i]);
            }
        }
    }
}

/// In buffers built by extraction, every index is below the vertex count.
pub proof fn lemma_mesh_indices_in_range(mesh: &MeshBuffers, qs: Seq<Quad>)
    requires
        mesh.models(qs),
    ensures
        forall|i: int| 0 <= i < mesh.indices@.len() ==>
            (#[trigger] mesh.indices@[i]) < mesh.positions@.len() / 3,
{
    lemma_indices_name_vertices(qs);
    assert forall|i: int| 0 <= i < mesh.indices@.len() implies
        (#[trigger] mesh.indices@[i]) < mesh.positions@.len() / 3 by {
        assert(u32_ints(mesh.indices@)[i] == mesh_indices(qs)[i]);
        assert(usize_ints(mesh.positions@).len() == mesh.positions@.len());
    }
}

/// Appends the four corners, normals, texture coordinates and two triangles
/// of face `face` of the cell at `(x, y, z)`.
fn emit_face(
    mesh: &mut MeshBuffers,
    x: usize,
    y: usize,
    z: usize,
    face: usize,
    Ghost(qs): Ghost<Seq<Quad>>,
)
    requires
        old(mesh).models(qs),
        face < FACE_COUNT,
        x < usize::MAX,
        y < usize::MAX,
        z < usize::MAX,
        4 * qs.len() + 3 <= u32::MAX,
    ensures
        final(mesh).models(qs.push((x as int, y as int, z as int, face as int))),
{
    let ghost q = (x as int, y as int, z as int, face as int);
    proof {
        lemma_mesh_lengths(qs);
        lemma_push_quad(qs, q);
    }
    let base_vertex = (mesh.positions.len() / 3) as u32;
    let ghost positions0 = usize_ints(mesh.positions@);
    let ghost normals0 = i8_ints(mesh.normals@);
    let (nx, ny, nz) = normal_components(face);
    let mut corner: usize = 0;
    while corner < 4
        invariant
            corner <= 4,
            face < FACE_COUNT,
            x < usize::MAX,
            y < usize::MAX,
            z < usize::MAX,
            q == (x as int, y as int, z as int, face as int),
            (nx as int, ny as int, nz as int) == face_normal(face as int),
            usize_ints(mesh.positions@) == positions0 + corner_positions(q, corner as int),
            i8_ints(mesh.normals@) == normals0 + corner_normals(q, corner as int),
            mesh.uvs@ == old(mesh).uvs@,
            mesh.indices@ == old(mesh).indices@,
        decreases 4 - corner,
    {
        let (cx, cy, cz) = corner_offset(face, corner);
        let ghost positions_before = mesh.positions@;
        let ghost normals_before = mesh.normals@;
        mesh.positions.push(x + cx);
        mesh.positions.push(y + cy);
        mesh.positions.push(z + cz);
        mesh.normals.push(nx);
        mesh.normals.push(ny);
        mesh.normals.push(nz);
        proof {
            let c = face_corners(face as int)[corner as int];
            let added = seq![x + c.0, y + c.1, z + c.2];
            assert(corner_positions(q, corner + 1) == corner_positions(q, corner as int) + added);
            assert(usize_ints(mesh.positions@) =~= usize_ints(positions_before) + added);
            assert(usize_ints(mesh.positions@) =~= positions0 + corner_positions(q, corner + 1));
            let normal = seq![nx as int, ny as int, nz as int];
            assert(corner_normals(q, corner + 1) == corner_normals(q, corner as int) + normal);
            assert(i8_ints(mesh.normals@) =~= i8_ints(normals_before) + normal);
            assert(i8_ints(mesh.normals@) =~= normals0 + corner_normals(q, corner + 1));
        }
        corner += 1;
    }
    mesh.uvs.push(0);
    mesh.uvs.push(0);
    mesh.uvs.push(0);
    mesh.uvs.push(1);
    mesh.uvs.push(1);
    mesh.uvs.push(1);
    mesh.uvs.push(1);
    mesh.uvs.push(0);
    mesh.indices.push(base_vertex);
    mesh.indices.push(base_vertex + 1);
    mesh.indices.push(base_vertex + 2);
    mesh.indices.push(base_vertex);
    mesh.indices.push(base_vertex + 2);
    mesh.indices.push(base_vertex + 3);
    proof {
        assert(u8_ints(mesh.uvs@) =~= mesh_uvs(qs) + face_uvs());
        assert(u32_ints(mesh.indices@) =~= mesh_indices(qs) + quad_indices(4 * qs.len() as int));
    }
}


/// Builds the geometry of every exposed face of the grid, one independent quad
/// per face, in walk order.
pub fn extract_mesh(width: usize, height: usize, depth: usize, occupancy: &[u8]) -> (r: MeshBuffers)
    requires
        dims_fit(width as int, height as int, depth as int),
        grid_of(width, height, depth, occupancy).quads().len() <= MAX_MESH_QUADS,
    ensures
        r.models(grid_of(width, height, depth, occupancy).quads()),
{
    let ghost g = grid_of(width, height, depth, occupancy);
    let mut mesh = MeshBuffers {
        positions: Vec::new(),
        normals: Vec::new(),
        uvs: Vec::new(),
        indices: Vec::new(),
    };
    let ghost mut qs: Seq<Quad> = seq![];
    proof {
        assert(usize_ints(mesh.positions@) =~= mesh_positions(qs));
        assert(i8_ints(mesh.normals@) =~= mesh_normals(qs));
        assert(u8_ints(mesh.uvs@) =~= mesh_uvs(qs));
        assert(u32_ints(mesh.indices@) =~= mesh_indices(qs));
        assert(qs =~= g.layers_quads(0));
    }
    let mut y: usize = 0;
    while y < height
        invariant
            g == grid_of(width, height, depth, occupancy),
            dims_fit(width as int, height as int, depth as int),
            g.quads().len() <= MAX_MESH_QUADS,
            y <= height,
            qs == g.layers_quads(y as int),
            mesh.models(qs),
        decreases height - y,
    {
        let mut z: usize = 0;
        proof {
            assert(qs =~= g.layers_quads(y as int) + g.layer_quads(y as int, 0));
        }
        while z < depth
            invariant
                g == grid_of(width, height, depth, occupancy),
                dims_fit(width as int, height as int, depth as int),
                g.quads().len() <= MAX_MESH_QUADS,
                y < height,
                z <= depth,
                qs == g.layers_quads(y as int) + g.layer_quads(y as int, z as int),
                mesh.models(qs),
            decreases depth - z,
        {
            let mut x: usize = 0;
            proof {
                assert(qs =~= g.layers_quads(y as int) + g.layer_quads(y as int, z as int)
                    + g.row_quads(y as int, z as int, 0));
            }
            while x < width
                invariant
                    g == grid_of(width, height, depth, occupancy),
                    dims_fit(width as int, height as int, depth as int),
                    g.quads().len() <= MAX_MESH_QUADS,
                    y < height,
                    z < depth,
                    x <= width,
                    qs == g.layers_quads(y as int) + g.layer_quads(y as int, z as int)
                        + g.row_quads(y as int, z as int, x as int),
                    mesh.models(qs),
                decreases width - x,
            {
                let ghost walked = qs;
                proof {
                    lemma_cell_index_bound(g.width, g.height, g.depth, x as int, y as int, z as int);
                }
                if is_occupied(width, depth, occupancy, x, y, z) {
                    let mut face: usize = 0;
                    proof {
                        assert(qs =~= walked + g.faces_below(x as int, y as int, z as int, 0));
                    }
                    while face < FACE_COUNT
                        invariant
                            g == grid_of(width, height, depth, occupancy),
                            dims_fit(width as int, height as int, depth as int),
                            g.quads().len() <= MAX_MESH_QUADS,
                            y < height,
                            z < depth,
                            x < width,
                            g.occupied(x as int, y as int, z as int),
                            face <= FACE_COUNT,
                            walked == g.layers_quads(y as int) + g.layer_quads(y as int, z as int)
                                + g.row_quads(y as int, z as int, x as int),
                            qs == walked + g.faces_below(x as int, y as int, z as int, face as int),
                            mesh.models(qs),
                        decreases FACE_COUNT - face,
                    {
                        if !neighbor_occupied(width, height, depth, occupancy, x, y, z, face) {
                            let ghost q = (x as int, y as int, z as int, face as int);
                            proof {
                                lemma_walked_prefix_bound(g, x as int, y as int, z as int, face + 1);
                            }
                            emit_face(&mut mesh, x, y, z, face, Ghost(qs));
                            proof {
                                qs = qs.push(q);
                                assert(qs =~= walked + g.faces_below(x as int, y as int, z as int, face + 1));
                            }
                        }
                        face += 1;
                    }
                }
                proof {
                    assert(qs =~= g.layers_quads(y as int) + g.layer_quads(y as int, z as int)
                        + g.row_quads(y as int, z as int, x + 1));
                }
                x += 1;
            }
            proof {
                assert(qs =~= g.layers_quads(y as int) + g.layer_quads(y as int, z + 1));
            }
            z += 1;
        }
        proof {
            assert(qs =~= g.layers_quads(y + 1));
        }
        y += 1;
    }
    mesh
}

} // verus!
