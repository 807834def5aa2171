//! The index buffer of the vinyl disc mesh: a polar grid of rings by sectors,
//! each cell drawn as two triangles, the last sector joined to the first.
use vstd::prelude::*;

verus! {

/// Concentric rings of vertices, from the centre to the rim.
pub const RINGS: usize = 128;

/// Vertices around each ring.
pub const SECTORS: usize = 256;

/// Vertices of the mesh: one per ring and sector, ring by ring.
pub const VERTEX_COUNT: usize = 32768;

/// Indices of the mesh: six per cell, one fewer ring of cells than rings.
pub const INDEX_COUNT: usize = 195072;

/// The vertex of ring `r`, sector `s`.
pub open spec fn vertex_of(r: int, s: int) -> int {
    r * 256 + s
}

/// The `k`-th index (of six) of the cell between rings `r` and `r + 1` and
/// sectors `s` and `s + 1` (wrapping to 0): the triangles
/// (cur, cur_next, ring) and (cur_next, ring_next, ring).
pub open spec fn cell_index(r: int, s: int, k: int) -> int {
    let ns = if s + 1 == 256 {
        0
    } else {
        s + 1
    };
    let cur = vertex_of(r, s);
    let cur_next = vertex_of(r, ns);
    let ring = vertex_of(r + 1, s);
    let ring_next = vertex_of(r + 1, ns);
    if k == 0 {
        cur
    } else if k == 1 {
        cur_next
    } else if k == 2 {
        ring
    } else if k == 3 {
        cur_next
    } else if k == 4 {
        ring_next
    } else {
        ring
    }
}

/// The position of the `k`-th index of cell (`r`, `s`) in the buffer.
pub open spec fn index_pos(r: int, s: int, k: int) -> int {
    1536 * r + 6 * s + k
}

/// The triangle indices of the disc, cell by cell, ring by ring.  Every index
/// names a vertex of the mesh.
pub fn disc_indices() -> (res: Vec<u32>)
    ensures
        res@.len() == INDEX_COUNT,
        forall|r: int, s: int, k: int|
            0 <= r < RINGS - 1 && 0 <= s < SECTORS && 0 <= k < 6 ==> #[trigger] res@[index_pos(
                r,
                s,
                k,
            )] as int == cell_index(r, s, k),
        forall|i: int| 0 <= i < res@.len() ==> #[trigger] res@[i] < VERTEX_COUNT,
{
    let mut out: Vec<u32> = Vec::new();
    let mut r: usize = 0;
    while r < RINGS - 1
        invariant
            r <= RINGS - 1,
            out@.len() == 1536 * r,
            forall|r2: int, s: int, k: int|
                0 <= r2 < r && 0 <= s < SECTORS && 0 <= k < 6 ==> #[trigger] out@[index_pos(
                    r2,
                    s,
                    k,
                )] as int == cell_index(r2, s, k),
            forall|i: int| 0 <= i < out@.len() ==> #[trigger] out@[i] < VERTEX_COUNT,
        decreases RINGS - 1 - r,
    {
        let mut s: usize = 0;
        while s < SECTORS
            invariant
                r < RINGS - 1,
                s <= SECTORS,
                out@.len() == 1536 * r + 6 * s,
                forall|r2: int, s2: int, k: int|
                    0 <= k < 6 && 0 <= s2 < SECTORS && 0 <= r2 && (r2 < r || (r2 == r && s2 < s))
                        ==> #[trigger] out@[index_pos(r2, s2, k)] as int == cell_index(r2, s2, k),
                forall|i: int| 0 <= i < out@.len() ==> #[trigger] out@[i] < VERTEX_COUNT,
            decreases SECTORS - s,
        {
            let next_s = if s + 1 == SECTORS {
                0
            } else {
                s + 1
            };
            let cur = (r * SECTORS + s) as u32;
            let cur_next = (r * SECTORS + next_s) as u32;
            let ring = ((r + 1) * SECTORS + s) as u32;
            let ring_next = ((r + 1) * SECTORS + next_s) as u32;
            let ghost before = out@;
            out.push(cur);
            out.push(cur_next);
            out.push(ring);
            out.push(cur_next);
            out.push(ring_next);
            out.push(ring);
            proof {
                assert forall|r2: int, s2: int, k: int|
                    0 <= k < 6 && 0 <= s2 < SECTORS && 0 <= r2 && (r2 < r || (r2 == r && s2 < s
                        + 1)) implies #[trigger] out@[index_pos(r2, s2, k)] as int == cell_index(
                    r2,
                    s2,
                    k,
                ) by {
                    if r2 < r || s2 < s {
                        assert(index_pos(r2, s2, k) < before.len());
                        assert(out@[index_pos(r2, s2, k)] == before[index_pos(r2, s2, k)]);
                    }
                }
            }
            s = s + 1;
        }
        r = r + 1;
    }
    out
}

} // verus!
