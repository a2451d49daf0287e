use vstd::prelude::*;

verus! {

/// Mathematical view of an occupancy grid: its dimensions and the flat byte
/// sequence that backs it.
pub struct Grid {
    pub width: int,
    pub height: int,
    pub depth: int,
    pub cells: Seq<u8>,
}

/// The grid described by dimensions and an occupancy slice.
pub open spec fn grid_of(width: usize, height: usize, depth: usize, occupancy: &[u8]) -> Grid {
    Grid { width: width as int, height: height as int, depth: depth as int, cells: occupancy@ }
}

/// Linear position of cell `(x, y, z)`: height-major, then depth, then width.
pub open spec fn cell_index(width: int, depth: int, x: int, y: int, z: int) -> int {
    y * depth * width + z * width + x
}

/// Whether the cell count of a grid can be held in a `usize`.
pub open spec fn dims_fit(width: int, height: int, depth: int) -> bool {
    width * height * depth <= usize::MAX
}

impl Grid {
    pub open spec fn in_bounds(self, x: int, y: int, z: int) -> bool {
        0 <= x < self.width && 0 <= y < self.height && 0 <= z < self.depth
    }

    /// A cell is occupied when it lies in the grid and its byte is present and
    /// nonzero; every coordinate outside the grid reads as empty.
    pub open spec fn occupied(self, x: int, y: int, z: int) -> bool {
        let i = cell_index(self.width, self.depth, x, y, z);
        self.in_bounds(x, y, z) && i < self.cells.len() && self.cells[i] != 0
    }
}

pub proof fn lemma_cell_index_bound(w: int, h: int, d: int, x: int, y: int, z: int)
    requires
        0 <= x < w,
        0 <= y < h,
        0 <= z < d,
    ensures
        0 <= y * d * w,
        y * d <= y * d * w,
        0 <= z * w,
        0 <= cell_index(w, d, x, y, z) < w * h * d,
{
    assert(0 <= z * w + x < d * w) by (nonlinear_arith)
        requires
            0 <= x < w,
            0 <= z < d,
    ;
    assert(0 <= y * d * w <= (h - 1) * (d * w)) by (nonlinear_arith)
        requires
            0 <= y < h,
            0 < d,
            0 < w,
    ;
    assert(y * d <= y * d * w) by (nonlinear_arith)
        requires
            0 <= y,
            0 < d,
            0 < w,
    ;
    assert((h - 1) * (d * w) + d * w == w * h * d) by (nonlinear_arith);
}

/// Byte test for a cell given by valid coordinates; an index past the end of
/// the occupancy slice reads as empty.
pub fn is_occupied(width: usize, depth: usize, occupancy: &[u8], x: usize, y: usize, z: usize) -> (r: bool)
    requires
        x < width,
        z < depth,
        cell_index(width as int, depth as int, x as int, y as int, z as int) <= usize::MAX,
    ensures
        ({
            let i = cell_index(width as int, depth as int, x as int, y as int, z as int);
            r == (i < occupancy@.len() && occupancy@[i] != 0)
        }),
{
    proof {
        lemma_cell_index_bound(width as int, y as int + 1, depth as int, x as int, y as int, z as int);
    }
    let index = (y * depth * width) + (z * width) + x;
    index < occupancy.len() && occupancy[index] != 0
}

/// Occupancy probe with signed coordinates: anything outside the grid is empty.
pub fn is_occupied_checked(
    width: usize,
    height: usize,
    depth: usize,
    occupancy: &[u8],
    x: isize,
    y: isize,
    z: isize,
) -> (r: bool)
    requires
        dims_fit(width as int, height as int, depth as int),
    ensures
        r == grid_of(width, height, depth, occupancy).occupied(x as int, y as int, z as int),
{
    if x < 0 || y < 0 || z < 0 {
        return false;
    }
    let ux = x as usize;
    let uy = y as usize;
    let uz = z as usize;
    if ux >= width || uy >= height || uz >= depth {
        return false;
    }
    proof {
        lemma_cell_index_bound(width as int, height as int, depth as int, ux as int, uy as int, uz as int);
    }
    is_occupied(width, depth, occupancy, ux, uy, uz)
}


/// Converts the dimensions to `usize` and computes the cell count with
/// overflow-checked multiplication, width by height first; `None` when a
/// product does not fit.
pub fn validated_dimensions(width: u32, height: u32, depth: u32) -> (r: Option<(usize, usize, usize, usize)>)
    ensures
        r is Some <==> width * height <= usize::MAX && dims_fit(width as int, height as int, depth as int),
        r is Some ==> r->0 == (width as usize, height as usize, depth as usize, (width * height * depth) as usize),
{
    let w = width as usize;
    let h = height as usize;
    let d = depth as usize;
    match w.checked_mul(h) {
        Some(wh) => match wh.checked_mul(d) {
            Some(size) => Some((w, h, d, size)),
            None => None,
        },
        None => None,
    }
}

/// Whether an entry point accepts a grid: every dimension nonzero, the
/// occupancy present, the cell count addressable and covered by the bytes.
pub open spec fn accepts(width: u32, height: u32, depth: u32, occupancy: Option<&[u8]>) -> bool {
    &&& width > 0
    &&& height > 0
    &&& depth > 0
    &&& occupancy is Some
    &&& dims_fit(width as int, height as int, depth as int)
    &&& width * height * depth <= occupancy->0@.len()
}

/// Gate in front of every entry point. `None` stands for a null occupancy
/// buffer; the slice's length is the declared length of the buffer.
pub fn validated_occupancy<'a>(width: u32, height: u32, depth: u32, occupancy: Option<&'a [u8]>) -> (r: Option<(usize, usize, usize, &'a [u8])>)
    ensures
        r is Some <==> accepts(width, height, depth, occupancy),
        r matches Some((w, h, d, cells)) ==> w == width as usize && h == height as usize
            && d == depth as usize && cells@ == occupancy->0@,
{
    if width == 0 || height == 0 || depth == 0 {
        return None;
    }
    let cells = match occupancy {
        Some(c) => c,
        None => return None,
    };
    assert(width * height <= width * height * depth) by (nonlinear_arith)
        requires
            depth > 0,
            width * height >= 0,
    ;
    let (w, h, d, expected_len) = match validated_dimensions(width, height, depth) {
        Some(v) => v,
        None => return None,
    };
    if cells.len() < expected_len {
        return None;
    }
    Some((w, h, d, cells))
}

} // verus!
