use vstd::prelude::*;

verus! {

/// Saturating product of a count and a small factor, as a mathematical value.
pub open spec fn saturating_times(n: u32, k: u32) -> u32 {
    if n * k > u32::MAX {
        u32::MAX
    } else {
        (n * k) as u32
    }
}

/// Multiplies with saturation at `u32::MAX` instead of wrapping.
pub fn saturating_mul_u32(n: u32, k: u32) -> (r: u32)
    ensures
        r == saturating_times(n, k),
{
    match n.checked_mul(k) {
        Some(v) => v,
        None => u32::MAX,
    }
}

/// Worst-case sizes of a mesh made of `quads` independent quads.
#[derive(Debug, Clone, Copy, PartialEq, Eq, Structural)]
pub struct MeshStats {
    pub quads: u32,
    pub vertices: u32,
    pub indices: u32,
}

impl MeshStats {
    /// Four vertices and six indices per quad, clamped to `u32::MAX`.
    pub fn from_quads(quads: u32) -> (r: MeshStats)
        ensures
            r.quads == quads,
            r.vertices == saturating_times(quads, 4),
            r.indices == saturating_times(quads, 6),
    {
        let vertices = saturating_mul_u32(quads, 4);
        let indices = saturating_mul_u32(quads, 6);
        MeshStats { quads, vertices, indices }
    }
}

} // verus!
