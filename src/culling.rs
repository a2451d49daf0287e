use vstd::prelude::*;
use crate::faces::{face_normal, FACE_COUNT};
use crate::grid::{
    dims_fit, grid_of, is_occupied, lemma_cell_index_bound, Grid,
};

verus! {

/// One exposed face: the cell it belongs to and the face number.
pub type Quad = (int, int, int, int);

/// `n` clamped to the largest `u32`.
pub open spec fn clamp_u32(n: nat) -> u32 {
    if n > u32::MAX {
        u32::MAX
    } else {
        n as u32
    }
}

impl Grid {
    /// Face `f` of cell `(x, y, z)` is exposed when the neighbour across it is
    /// empty or outside the grid.
    pub open spec fn exposed(self, x: int, y: int, z: int, f: int) -> bool {
        let n = face_normal(f);
        !self.occupied(x + n.0, y + n.1, z + n.2)
    }

    /// The exposed faces among the first `f` faces of a cell, in face order.
    pub open spec fn faces_below(self, x: int, y: int, z: int, f: int) -> Seq<Quad>
        decreases f,
    {
        if f <= 0 {
            seq![]
        } else {
            let prev = self.faces_below(x, y, z, f - 1);
            if self.exposed(x, y, z, f - 1) {
                prev.push((x, y, z, f - 1))
            } else {
                prev
            }
        }
    }

    /// The quads of one cell: none when it is empty.
    pub open spec fn cell_quads(self, x: int, y: int, z: int) -> Seq<Quad> {
        if self.occupied(x, y, z) {
            self.faces_below(x, y, z, FACE_COUNT as int)
        } else {
            seq![]
        }
    }

    /// The quads of the first `nx` cells of row `(y, z)`.
    pub open spec fn row_quads(self, y: int, z: int, nx: int) -> Seq<Quad>
        decreases nx,
    {
        if nx <= 0 {
            seq![]
        } else {
            self.row_quads(y, z, nx - 1) + self.cell_quads(nx - 1, y, z)
        }
    }

    /// The quads of the first `nz` rows of layer `y`.
    pub open spec fn layer_quads(self, y: int, nz: int) -> Seq<Quad>
        decreases nz,
    {
        if nz <= 0 {
            seq![]
        } else {
            self.layer_quads(y, nz - 1) + self.row_quads(y, nz - 1, self.width)
        }
    }

    /// The quads of the first `ny` layers.
    pub open spec fn layers_quads(self, ny: int) -> Seq<Quad>
        decreases ny,
    {
        if ny <= 0 {
            seq![]
        } else {
            self.layers_quads(ny - 1) + self.layer_quads(ny - 1, self.depth)
        }
    }

    /// Every exposed face of the grid, in the order cells are walked:
    /// `y`, then `z`, then `x`, and faces in table order within a cell.
    pub open spec fn quads(self) -> Seq<Quad> {
        self.layers_quads(self.height)
    }
}


proof fn lemma_faces_below_grow(g: Grid, x: int, y: int, z: int, f: int)
    requires
        0 <= f <= FACE_COUNT,
    ensures
        g.faces_below(x, y, z, f).len() <= g.faces_below(x, y, z, FACE_COUNT as int).len(),
    decreases FACE_COUNT - f,
{
    if f < FACE_COUNT {
        lemma_faces_below_grow(g, x, y, z, f + 1);
    }
}

proof fn lemma_row_grow(g: Grid, y: int, z: int, nx: int)
    requires
        0 <= nx <= g.width,
    ensures
        g.row_quads(y, z, nx).len() <= g.row_quads(y, z, g.width).len(),
    decreases g.width - nx,
{
    if nx < g.width {
        lemma_row_grow(g, y, z, nx + 1);
    }
}

proof fn lemma_layer_grow(g: Grid, y: int, nz: int)
    requires
        0 <= nz <= g.depth,
    ensures
        g.layer_quads(y, nz).len() <= g.layer_quads(y, g.depth).len(),
    decreases g.depth - nz,
{
    if nz < g.depth {
        lemma_layer_grow(g, y, nz + 1);
    }
}

proof fn lemma_layers_grow(g: Grid, ny: int)
    requires
        0 <= ny <= g.height,
    ensures
        g.layers_quads(ny).len() <= g.quads().len(),
    decreases g.height - ny,
{
    if ny < g.height {
        lemma_layers_grow(g, ny + 1);
    }
}

/// The quads walked before face `f` of an occupied cell, together with the
/// first `f` faces of that cell, are no more than all the quads of the grid.
pub proof fn lemma_walked_prefix_bound(g: Grid, x: int, y: int, z: int, f: int)
    requires
        g.in_bounds(x, y, z),
        g.occupied(x, y, z),
        0 <= f <= FACE_COUNT,
    ensures
        g.layers_quads(y).len() + g.layer_quads(y, z).len() + g.row_quads(y, z, x).len()
            + g.faces_below(x, y, z, f).len() <= g.quads().len(),
{
    lemma_faces_below_grow(g, x, y, z, f);
    lemma_row_grow(g, y, z, x + 1);
    lemma_layer_grow(g, y, z + 1);
    lemma_layers_grow(g, y + 1);
}


/// A cell whose six neighbours are all occupied contributes no quad.
pub proof fn lemma_interior_cell_has_no_quads(g: Grid, x: int, y: int, z: int)
    requires
        g.occupied(x - 1, y, z),
        g.occupied(x + 1, y, z),
        g.occupied(x, y - 1, z),
        g.occupied(x, y + 1, z),
        g.occupied(x, y, z - 1),
        g.occupied(x, y, z + 1),
    ensures
        g.cell_quads(x, y, z).len() == 0,
{
    assert(g.faces_below(x, y, z, 0).len() == 0);
    assert(face_normal(0) == (-1int, 0int, 0int));
    assert(!g.exposed(x, y, z, 0));
    assert(g.faces_below(x, y, z, 1).len() == 0);
    assert(g.faces_below(x, y, z, 2).len() == 0);
    assert(g.faces_below(x, y, z, 3).len() == 0);
    assert(g.faces_below(x, y, z, 4).len() == 0);
    assert(g.faces_below(x, y, z, 5).len() == 0);
    assert(g.faces_below(x, y, z, 6).len() == 0);
}


impl Grid {
    /// An exposed face of an occupied cell.
    pub open spec fn is_exposed_quad(self, q: Quad) -> bool {
        &&& 0 <= q.3 < FACE_COUNT
        &&& self.occupied(q.0, q.1, q.2)
        &&& self.exposed(q.0, q.1, q.2, q.3)
    }

    pub open spec fn all_exposed(self, qs: Seq<Quad>) -> bool {
        forall|i: int| 0 <= i < qs.len() ==> self.is_exposed_quad(#[trigger] qs[i])
    }
}

proof fn lemma_all_exposed_concat(g: Grid, a: Seq<Quad>, b: Seq<Quad>)
    requires
        g.all_exposed(a),
        g.all_exposed(b),
    ensures
        g.all_exposed(a + b),
{
    assert forall|i: int| 0 <= i < (a + b).len() implies g.is_exposed_quad(#[trigger] (a + b)[i]) by {
        if i >= a.len() {
            assert((a + b)[i] == b[i - a.len()]);
        }
    }
}

proof fn lemma_faces_below_exposed(g: Grid, x: int, y: int, z: int, f: int)
    requires
        g.occupied(x, y, z),
        0 <= f <= FACE_COUNT,
    ensures
        g.all_exposed(g.faces_below(x, y, z, f)),
    decreases f,
{
    if f > 0 {
        lemma_faces_below_exposed(g, x, y, z, f - 1);
    }
}

proof fn lemma_row_exposed(g: Grid, y: int, z: int, nx: int)
    ensures
        g.all_exposed(g.row_quads(y, z, nx)),
    decreases nx,
{
    if nx > 0 {
        lemma_row_exposed(g, y, z, nx - 1);
        if g.occupied(nx - 1, y, z) {
            lemma_faces_below_exposed(g, nx - 1, y, z, FACE_COUNT as int);
        }
        lemma_all_exposed_concat(g, g.row_quads(y, z, nx - 1), g.cell_quads(nx - 1, y, z));
    }
}

proof fn lemma_layer_exposed(g: Grid, y: int, nz: int)
    ensures
        g.all_exposed(g.layer_quads(y, nz)),
    decreases nz,
{
    if nz > 0 {
        lemma_layer_exposed(g, y, nz - 1);
        lemma_row_exposed(g, y, nz - 1, g.width);
        lemma_all_exposed_concat(g, g.layer_quads(y, nz - 1), g.row_quads(y, nz - 1, g.width));
    }
}

proof fn lemma_layers_exposed(g: Grid, ny: int)
    ensures
        g.all_exposed(g.layers_quads(ny)),
    decreases ny,
{
    if ny > 0 {
        lemma_layers_exposed(g, ny - 1);
        lemma_layer_exposed(g, ny - 1, g.depth);
        lemma_all_exposed_concat(g, g.layers_quads(ny - 1), g.layer_quads(ny - 1, g.depth));
    }
}

/// Every quad of the grid is an exposed face of an occupied cell.
pub proof fn lemma_quads_are_exposed_faces(g: Grid)
    ensures
        g.all_exposed(g.quads()),
{
    lemma_layers_exposed(g, g.height);
}

/// A quad lies on the unit square between its cell and the neighbour across
/// its face. For an occupied cell whose six neighbours are occupied, no quad
/// of the grid has that cell on either side: nothing is drawn on its sides.
pub proof fn lemma_interior_cell_sides_are_bare(g: Grid, x: int, y: int, z: int)
    requires
        g.occupied(x, y, z),
        g.occupied(x - 1, y, z),
        g.occupied(x + 1, y, z),
        g.occupied(x, y - 1, z),
        g.occupied(x, y + 1, z),
        g.occupied(x, y, z - 1),
        g.occupied(x, y, z + 1),
    ensures
        forall|i: int| 0 <= i < g.quads().len() ==> {
            let q = #[trigger] g.quads()[i];
            let n = face_normal(q.3);
            &&& (q.0, q.1, q.2) != (x, y, z)
            &&& (q.0 + n.0, q.1 + n.1, q.2 + n.2) != (x, y, z)
        },
{
    lemma_quads_are_exposed_faces(g);
    assert forall|i: int| 0 <= i < g.quads().len() implies {
        let q = #[trigger] g.quads()[i];
        let n = face_normal(q.3);
        &&& (q.0, q.1, q.2) != (x, y, z)
        &&& (q.0 + n.0, q.1 + n.1, q.2 + n.2) != (x, y, z)
    } by {
        let q = g.quads()[i];
        assert(g.is_exposed_quad(q));
    }
}

/// Whether the neighbour of a cell across `face` is occupied.
pub(crate) fn neighbor_occupied(
    width: usize,
    height: usize,
    depth: usize,
    occupancy: &[u8],
    x: usize,
    y: usize,
    z: usize,
    face: usize,
) -> (r: bool)
    requires
        dims_fit(width as int, height as int, depth as int),
        x < width,
        y < height,
        z < depth,
        face < FACE_COUNT,
    ensures
        ({
            let n = face_normal(face as int);
            r == grid_of(width, height, depth, occupancy).occupied(
                x + n.0,
                y + n.1,
                z + n.2,
            )
        }),
{
    proof {
        let g = grid_of(width, height, depth, occupancy);
        let n = face_normal(face as int);
        if g.in_bounds(x + n.0, y + n.1, z + n.2) {
            lemma_cell_index_bound(g.width, g.height, g.depth, x + n.0, y + n.1, z + n.2);
        }
    }
    if face == 0 {
        x > 0 && is_occupied(width, depth, occupancy, x - 1, y, z)
    } else if face == 1 {
        x + 1 < width && is_occupied(width, depth, occupancy, x + 1, y, z)
    } else if face == 2 {
        y > 0 && is_occupied(width, depth, occupancy, x, y - 1, z)
    } else if face == 3 {
        y + 1 < height && is_occupied(width, depth, occupancy, x, y + 1, z)
    } else if face == 4 {
        z > 0 && is_occupied(width, depth, occupancy, x, y, z - 1)
    } else {
        z + 1 < depth && is_occupied(width, depth, occupancy, x, y, z + 1)
    }
}

/// Counts the exposed faces of the grid, saturating at `u32::MAX`.
pub fn exposed_quads(width: usize, height: usize, depth: usize, occupancy: &[u8]) -> (r: u32)
    requires
        dims_fit(width as int, height as int, depth as int),
    ensures
        r == clamp_u32(grid_of(width, height, depth, occupancy).quads().len()),
{
    let ghost g = grid_of(width, height, depth, occupancy);
    let mut quads: u32 = 0;
    let mut y: usize = 0;
    while y < height
        invariant
            g == grid_of(width, height, depth, occupancy),
            dims_fit(width as int, height as int, depth as int),
            y <= height,
            quads == clamp_u32(g.layers_quads(y as int).len()),
        decreases height - y,
    {
        let mut z: usize = 0;
        while z < depth
            invariant
                g == grid_of(width, height, depth, occupancy),
                dims_fit(width as int, height as int, depth as int),
                y < height,
                z <= depth,
                quads == clamp_u32(
                    g.layers_quads(y as int).len() + g.layer_quads(y as int, z as int).len(),
                ),
            decreases depth - z,
        {
            let mut x: usize = 0;
            while x < width
                invariant
                    g == grid_of(width, height, depth, occupancy),
                    dims_fit(width as int, height as int, depth as int),
                    y < height,
                    z < depth,
                    x <= width,
                    quads == clamp_u32(
                        g.layers_quads(y as int).len() + g.layer_quads(y as int, z as int).len()
                            + g.row_quads(y as int, z as int, x as int).len(),
                    ),
                decreases width - x,
            {
                let ghost before = g.layers_quads(y as int).len() + g.layer_quads(
                    y as int,
                    z as int,
                ).len() + g.row_quads(y as int, z as int, x as int).len();
                proof {
                    lemma_cell_index_bound(g.width, g.height, g.depth, x as int, y as int, z as int);
                }
                if is_occupied(width, depth, occupancy, x, y, z) {
                    let mut face: usize = 0;
                    while face < FACE_COUNT
                        invariant
                            g == grid_of(width, height, depth, occupancy),
                            dims_fit(width as int, height as int, depth as int),
                            y < height,
                            z < depth,
                            x < width,
                            face <= FACE_COUNT,
                            quads == clamp_u32(
                                before + g.faces_below(x as int, y as int, z as int, face as int).len(),
                            ),
                        decreases FACE_COUNT - face,
                    {
                        if !neighbor_occupied(width, height, depth, occupancy, x, y, z, face) {
                            quads = quads.saturating_add(1);
                        }
                        face += 1;
                    }
                }
                x += 1;
            }
            z += 1;
        }
        y += 1;
    }
    quads
}

} // verus!
