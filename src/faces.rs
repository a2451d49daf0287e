use vstd::prelude::*;

verus! {

/// Number of faces of a cube.
pub const FACE_COUNT: usize = 6;

/// Outward unit normal of each cube face, in the order -x, +x, -y, +y, -z, +z.
/// The normal is also the step to the neighbouring cell across that face.
pub open spec fn face_normal(f: int) -> (int, int, int) {
    if f == 0 {
        (-1, 0, 0)
    } else if f == 1 {
        (1, 0, 0)
    } else if f == 2 {
        (0, -1, 0)
    } else if f == 3 {
        (0, 1, 0)
    } else if f == 4 {
        (0, 0, -1)
    } else {
        (0, 0, 1)
    }
}

/// The four corners of each face of the unit cube, counter-clockwise seen from
/// outside the cube.
pub open spec fn face_corners(f: int) -> Seq<(int, int, int)> {
    if f == 0 {
        seq![(0, 0, 1), (0, 1, 1), (0, 1, 0), (0, 0, 0)]
    } else if f == 1 {
        seq![(1, 0, 0), (1, 1, 0), (1, 1, 1), (1, 0, 1)]
    } else if f == 2 {
        seq![(0, 0, 0), (1, 0, 0), (1, 0, 1), (0, 0, 1)]
    } else if f == 3 {
        seq![(0, 1, 1), (1, 1, 1), (1, 1, 0), (0, 1, 0)]
    } else if f == 4 {
        seq![(0, 0, 0), (0, 1, 0), (1, 1, 0), (1, 0, 0)]
    } else {
        seq![(1, 0, 1), (1, 1, 1), (0, 1, 1), (0, 0, 1)]
    }
}

/// Texture coordinates shared by every face: (0,0), (0,1), (1,1), (1,0).
pub open spec fn face_uvs() -> Seq<int> {
    seq![0, 0, 0, 1, 1, 1, 1, 0]
}


pub open spec fn difference(a: (int, int, int), b: (int, int, int)) -> (int, int, int) {
    (a.0 - b.0, a.1 - b.1, a.2 - b.2)
}

pub open spec fn cross(a: (int, int, int), b: (int, int, int)) -> (int, int, int) {
    (a.1 * b.2 - a.2 * b.1, a.2 * b.0 - a.0 * b.2, a.0 * b.1 - a.1 * b.0)
}

/// Both triangles of every face, `(c0, c1, c2)` and `(c0, c2, c3)`, turn
/// counter-clockwise around the outward normal: their cross products are the
/// face's normal.
pub proof fn lemma_faces_wind_along_normal(f: int)
    requires
        0 <= f < FACE_COUNT,
    ensures
        ({
            let c = face_corners(f);
            &&& cross(difference(c[1], c[0]), difference(c[2], c[0])) == face_normal(f)
            &&& cross(difference(c[2], c[0]), difference(c[3], c[0])) == face_normal(f)
        }),
{
    let c = face_corners(f);
    if f == 0 {
        assert(face_normal(f) == (-1int, 0int, 0int));
        assert(c[0] == (0int, 0int, 1int) && c[1] == (0int, 1int, 1int));
        assert(c[2] == (0int, 1int, 0int) && c[3] == (0int, 0int, 0int));
        assert(difference(c[1], c[0]) == (0int, 1int, 0int) && difference(c[2], c[0]) == (0int, 1int, -1int));
        assert(cross((0int, 1int, 0int), (0int, 1int, -1int)) == (-1int, 0int, 0int)) by (nonlinear_arith);
        assert(difference(c[2], c[0]) == (0int, 1int, -1int) && difference(c[3], c[0]) == (0int, 0int, -1int));
        assert(cross((0int, 1int, -1int), (0int, 0int, -1int)) == (-1int, 0int, 0int)) by (nonlinear_arith);
    } else if f == 1 {
        assert(face_normal(f) == (1int, 0int, 0int));
        assert(c[0] == (1int, 0int, 0int) && c[1] == (1int, 1int, 0int));
        assert(c[2] == (1int, 1int, 1int) && c[3] == (1int, 0int, 1int));
        assert(difference(c[1], c[0]) == (0int, 1int, 0int) && difference(c[2], c[0]) == (0int, 1int, 1int));
        assert(cross((0int, 1int, 0int), (0int, 1int, 1int)) == (1int, 0int, 0int)) by (nonlinear_arith);
        assert(difference(c[2], c[0]) == (0int, 1int, 1int) && difference(c[3], c[0]) == (0int, 0int, 1int));
        assert(cross((0int, 1int, 1int), (0int, 0int, 1int)) == (1int, 0int, 0int)) by (nonlinear_arith);
    } else if f == 2 {
        assert(face_normal(f) == (0int, -1int, 0int));
        assert(c[0] == (0int, 0int, 0int) && c[1] == (1int, 0int, 0int));
        assert(c[2] == (1int, 0int, 1int) && c[3] == (0int, 0int, 1int));
        assert(difference(c[1], c[0]) == (1int, 0int, 0int) && difference(c[2], c[0]) == (1int, 0int, 1int));
        assert(cross((1int, 0int, 0int), (1int, 0int, 1int)) == (0int, -1int, 0int)) by (nonlinear_arith);
        assert(difference(c[2], c[0]) == (1int, 0int, 1int) && difference(c[3], c[0]) == (0int, 0int, 1int));
        assert(cross((1int, 0int, 1int), (0int, 0int, 1int)) == (0int, -1int, 0int)) by (nonlinear_arith);
    } else if f == 3 {
        assert(face_normal(f) == (0int, 1int, 0int));
        assert(c[0] == (0int, 1int, 1int) && c[1] == (1int, 1int, 1int));
        assert(c[2] == (1int, 1int, 0int) && c[3] == (0int, 1int, 0int));
        assert(difference(c[1], c[0]) == (1int, 0int, 0int) && difference(c[2], c[0]) == (1int, 0int, -1int));
        assert(cross((1int, 0int, 0int), (1int, 0int, -1int)) == (0int, 1int, 0int)) by (nonlinear_arith);
        assert(difference(c[2], c[0]) == (1int, 0int, -1int) && difference(c[3], c[0]) == (0int, 0int, -1int));
        assert(cross((1int, 0int, -1int), (0int, 0int, -1int)) == (0int, 1int, 0int)) by (nonlinear_arith);
    } else if f == 4 {
        assert(c[0] == (0int, 0int, 0int) && c[1] == (0int, 1int, 0int));
        assert(c[2] == (1int, 1int, 0int) && c[3] == (1int, 0int, 0int));
        assert(difference(c[1], c[0]) == (0int, 1int, 0int) && difference(c[2], c[0]) == (1int, 1int, 0int));
        assert(cross((0int, 1int, 0int), (1int, 1int, 0int)) == (0int, 0int, -1int)) by (nonlinear_arith);
        assert(difference(c[2], c[0]) == (1int, 1int, 0int) && difference(c[3], c[0]) == (1int, 0int, 0int));
        assert(cross((1int, 1int, 0int), (1int, 0int, 0int)) == (0int, 0int, -1int)) by (nonlinear_arith);
    } else {
        assert(c[0] == (1int, 0int, 1int) && c[1] == (1int, 1int, 1int));
        assert(c[2] == (0int, 1int, 1int) && c[3] == (0int, 0int, 1int));
        assert(difference(c[1], c[0]) == (0int, 1int, 0int) && difference(c[2], c[0]) == (-1int, 1int, 0int));
        assert(cross((0int, 1int, 0int), (-1int, 1int, 0int)) == (0int, 0int, 1int)) by (nonlinear_arith);
        assert(difference(c[2], c[0]) == (-1int, 1int, 0int) && difference(c[3], c[0]) == (-1int, 0int, 0int));
        assert(cross((-1int, 1int, 0int), (-1int, 0int, 0int)) == (0int, 0int, 1int)) by (nonlinear_arith);
    }
}

/// Components of the outward normal of `face`.
pub fn normal_components(face: usize) -> (r: (i8, i8, i8))
    requires
        face < FACE_COUNT,
    ensures
        (r.0 as int, r.1 as int, r.2 as int) == face_normal(face as int),
{
    if face == 0 {
        (-1, 0, 0)
    } else if face == 1 {
        (1, 0, 0)
    } else if face == 2 {
        (0, -1, 0)
    } else if face == 3 {
        (0, 1, 0)
    } else if face == 4 {
        (0, 0, -1)
    } else {
        (0, 0, 1)
    }
}

/// Offset of corner `corner` of `face` within the unit cube.
pub fn corner_offset(face: usize, corner: usize) -> (r: (usize, usize, usize))
    requires
        face < FACE_COUNT,
        corner < 4,
    ensures
        (r.0 as int, r.1 as int, r.2 as int) == face_corners(face as int)[corner as int],
{
    let table: [(usize, usize, usize); 4] = if face == 0 {
        [(0, 0, 1), (0, 1, 1), (0, 1, 0), (0, 0, 0)]
    } else if face == 1 {
        [(1, 0, 0), (1, 1, 0), (1, 1, 1), (1, 0, 1)]
    } else if face == 2 {
        [(0, 0, 0), (1, 0, 0), (1, 0, 1), (0, 0, 1)]
    } else if face == 3 {
        [(0, 1, 1), (1, 1, 1), (1, 1, 0), (0, 1, 0)]
    } else if face == 4 {
        [(0, 0, 0), (0, 1, 0), (1, 1, 0), (1, 0, 0)]
    } else {
        [(1, 0, 1), (1, 1, 1), (0, 1, 1), (0, 0, 1)]
    };
    table[corner]
}

} // verus!
