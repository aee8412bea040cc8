//! Structure of the heightfield mesh.
//!
//! A heightfield of `rows x cols` samples becomes one vertex per sample
//! and two triangles per grid cell.  Everything about the mesh that is
//! index arithmetic is here with a verified contract: the length check on
//! the sample buffer, the triangle index buffer, and the choice of the
//! neighbouring samples whose height difference feeds each vertex normal.
//! The floating-point vertex attributes themselves (position, normal,
//! colour) are computed by the unverified renderer from these indices.

use vstd::prelude::*;
use vstd::string::StringExecFns;

use crate::decimal::{dec_digits, u64_to_dec};
use crate::errors::VulkanRError;

verus! {

/// One vertex per heightfield sample.
pub open spec fn vertex_count(rows: int, cols: int) -> int {
    rows * cols
}

/// Two triangles of three indices for every interior grid cell.
pub open spec fn index_count(rows: int, cols: int) -> int {
    6 * (rows - 1) * (cols - 1)
}

/// The six indices emitted for grid cell `(i, j)` stand at their place in
/// `s` and name the cell's four corners: two counter-clockwise triangles,
/// `(base, next, base+1)` and `(next, next+1, base+1)`, where `base` is
/// the row-major index of the cell's corner `(i, j)` and `next` the corner
/// one row below.
pub open spec fn cell_triangles_at(s: Seq<u32>, i: int, j: int, rows: int, cols: int) -> bool {
    let k = 6 * (i * (cols - 1) + j);
    let base = i * cols + j;
    let next = (i + 1) * cols + j;
    &&& s[k] == base
    &&& s[k + 1] == next
    &&& s[k + 2] == base + 1
    &&& s[k + 3] == next
    &&& s[k + 4] == next + 1
    &&& s[k + 5] == base + 1
}

/// Message reported when the sample buffer does not match the grid shape.
pub open spec fn length_mismatch_msg(len: nat, expected: nat) -> Seq<char> {
    "z_data length "@ + dec_digits(len) + " doesn't match rows*cols "@ + dec_digits(expected)
}

/// Checks that a sample buffer of length `values_len` fills a
/// `rows x cols` grid exactly; the mesh builder runs it before anything
/// else, and it is the only way the builder fails.
pub fn check_heightfield(values_len: usize, rows: usize, cols: usize) -> (r: Result<
    (),
    VulkanRError,
>)
    requires
        rows * cols <= usize::MAX,
    ensures
        r is Ok <==> values_len == vertex_count(rows as int, cols as int),
        r matches Err(e) ==> e.is_recoverable(),
        r matches Err(e) ==> (e matches VulkanRError::InvalidInput { param, reason }
            && param@ == "z_data"@ && reason@ == length_mismatch_msg(
            values_len as nat,
            (rows * cols) as nat,
        )),
{
    let expected = rows * cols;
    if values_len != expected {
        let mut reason = String::from_str("z_data length ");
        let l = u64_to_dec(values_len as u64);
        reason.append(l.as_str());
        reason.append(" doesn't match rows*cols ");
        let e = u64_to_dec(expected as u64);
        reason.append(e.as_str());
        proof {
            assert(reason@ =~= length_mismatch_msg(values_len as nat, (rows * cols) as nat));
        }
        return Err(VulkanRError::InvalidInput {
            param: String::from_str("z_data"),
            reason,
        });
    }
    Ok(())
}

/// Builds the triangle index buffer of a `rows x cols` grid: for each cell,
/// two triangles wound counter-clockwise for back-face culling, cells in
/// row-major order.
pub fn grid_indices(rows: usize, cols: usize) -> (r: Vec<u32>)
    requires
        2 <= rows,
        2 <= cols,
        vertex_count(rows as int, cols as int) <= u32::MAX,
        index_count(rows as int, cols as int) <= usize::MAX,
    ensures
        r@.len() == index_count(rows as int, cols as int),
        forall|k: int|
            0 <= k < r@.len() ==> (#[trigger] r@[k]) < vertex_count(rows as int, cols as int),
        forall|i: int, j: int|
            0 <= i < rows - 1 && 0 <= j < cols - 1 ==> #[trigger] cell_triangles_at(
                r@,
                i,
                j,
                rows as int,
                cols as int,
            ),
{
    let mut out: Vec<u32> = Vec::new();
    let mut i: usize = 0;
    while i < rows - 1
        invariant
            2 <= rows,
            2 <= cols,
            rows * cols <= u32::MAX,
            6 * (rows - 1) * (cols - 1) <= usize::MAX,
            i <= rows - 1,
            out@.len() == 6 * i * (cols - 1),
            forall|k: int| 0 <= k < out@.len() ==> (#[trigger] out@[k]) < rows * cols,
            forall|i2: int, j2: int|
                0 <= i2 < i && 0 <= j2 < cols - 1 ==> #[trigger] cell_triangles_at(
                    out@,
                    i2,
                    j2,
                    rows as int,
                    cols as int,
                ),
        decreases rows - 1 - i,
    {
        let mut j: usize = 0;
        while j < cols - 1
            invariant
                2 <= rows,
                2 <= cols,
                rows * cols <= u32::MAX,
                6 * (rows - 1) * (cols - 1) <= usize::MAX,
                i < rows - 1,
                j <= cols - 1,
                out@.len() == 6 * i * (cols - 1) + 6 * j,
                forall|k: int| 0 <= k < out@.len() ==> (#[trigger] out@[k]) < rows * cols,
                forall|i2: int, j2: int|
                    0 <= i2 < i && 0 <= j2 < cols - 1 ==> #[trigger] cell_triangles_at(
                        out@,
                        i2,
                        j2,
                        rows as int,
                        cols as int,
                    ),
                forall|j2: int|
                    0 <= j2 < j ==> #[trigger] cell_triangles_at(
                        out@,
                        i as int,
                        j2,
                        rows as int,
                        cols as int,
                    ),
            decreases cols - 1 - j,
        {
            proof {
                assert((i as int) * (cols as int) + (j as int) + (cols as int) + 1 < (rows as int)
                    * (cols as int)) by (nonlinear_arith)
                    requires
                        i + 1 < rows,
                        j + 1 < cols,
                        2 <= cols,
                ;
                assert(6 * (rows as int - 1) * (cols as int - 1) <= usize::MAX ==> 6 * (i as int) * (
                cols as int - 1) + 6 * (j as int) + 6 <= usize::MAX) by (nonlinear_arith)
                    requires
                        i + 1 < rows,
                        j + 1 < cols,
                ;
            }
            let base = i * cols + j;
            let next = base + cols;
            let ghost prev = out@;
            out.push(base as u32);
            out.push(next as u32);
            out.push((base + 1) as u32);
            out.push(next as u32);
            out.push((next + 1) as u32);
            out.push((base + 1) as u32);
            proof {
                assert(out@.len() == prev.len() + 6);
                assert(forall|k: int| 0 <= k < prev.len() ==> out@[k] == prev[k]);
                assert(6 * ((i as int) * (cols as int - 1) + (j as int)) == 6 * (i as int) * (
                cols as int - 1) + 6 * (j as int)) by (nonlinear_arith);
                assert(6 * ((i as int) * (cols as int - 1) + (j as int)) == prev.len());
                assert(out@[prev.len() as int] == base as u32);
                assert(out@[prev.len() as int + 1] == next as u32);
                assert(out@[prev.len() as int + 2] == (base + 1) as u32);
                assert(out@[prev.len() as int + 3] == next as u32);
                assert(out@[prev.len() as int + 4] == (next + 1) as u32);
                assert(out@[prev.len() as int + 5] == (base + 1) as u32);
                assert((i as int + 1) * (cols as int) == (i as int) * (cols as int) + (cols as int))
                    by (nonlinear_arith);
                assert(cell_triangles_at(out@, i as int, j as int, rows as int, cols as int));
                assert forall|i2: int, j2: int|
                    0 <= i2 < i && 0 <= j2 < cols - 1 implies #[trigger] cell_triangles_at(
                    out@,
                    i2,
                    j2,
                    rows as int,
                    cols as int,
                ) by {
                    assert(6 * (i2 * (cols as int - 1) + j2) + 6 <= 6 * (i as int) * (cols as int
                        - 1) + 6 * (j as int)) by (nonlinear_arith)
                        requires
                            0 <= i2 < i,
                            0 <= j2 < cols - 1,
                            0 <= j,
                    ;
                    assert(cell_triangles_at(prev, i2, j2, rows as int, cols as int));
                }
                assert forall|j2: int| 0 <= j2 < j implies #[trigger] cell_triangles_at(
                    out@,
                    i as int,
                    j2,
                    rows as int,
                    cols as int,
                ) by {
                    assert(6 * ((i as int) * (cols as int - 1) + j2) + 6 <= 6 * (i as int) * (
                    cols as int - 1) + 6 * (j as int)) by (nonlinear_arith)
                        requires
                            0 <= j2 < j,
                    ;
                    assert(cell_triangles_at(prev, i as int, j2, rows as int, cols as int));
                }
            }
            j += 1;
        }
        proof {
            assert(6 * ((i as int) + 1) * (cols as int - 1) == 6 * (i as int) * (cols as int - 1)
                + 6 * (cols as int - 1)) by (nonlinear_arith);
        }
        i += 1;
    }
    out
}

/// Row-major indices of the two samples whose height difference gives the
/// x-axis slope at vertex `(i, j)`: central difference in the interior,
/// one-sided (forward or backward) at the first and last column, so no
/// neighbour outside the grid is ever read.  Returns `(plus, minus)`.
pub fn normal_dx_samples(i: usize, j: usize, rows: usize, cols: usize) -> (r: (usize, usize))
    requires
        2 <= rows,
        2 <= cols,
        i < rows,
        j < cols,
        rows * cols <= usize::MAX,
    ensures
        (r.0 as int) < vertex_count(rows as int, cols as int),
        (r.1 as int) < vertex_count(rows as int, cols as int),
        0 < j < cols - 1 ==> r.0 == i * cols + j + 1 && r.1 == i * cols + j - 1,
        j == 0 ==> r.0 == i * cols + 1 && r.1 == i * cols,
        j == cols - 1 ==> r.0 == i * cols + j && r.1 == i * cols + j - 1,
{
    proof {
        assert((i as int) * (cols as int) + (j as int) + 1 < (rows as int) * (cols as int) || (
        j as int) + 1 == cols) by (nonlinear_arith)
            requires
                i < rows,
                j < cols,
                2 <= cols,
        ;
        assert((i as int) * (cols as int) + (j as int) < (rows as int) * (cols as int))
            by (nonlinear_arith)
            requires
                i < rows,
                j < cols,
        ;
    }
    let idx = i * cols + j;
    if j > 0 && j < cols - 1 {
        (idx + 1, idx - 1)
    } else if j == 0 {
        (idx + 1, idx)
    } else {
        (idx, idx - 1)
    }
}

/// Row-major indices of the two samples whose height difference gives the
/// z-axis slope at vertex `(i, j)`: central difference in the interior,
/// one-sided at the first and last row.  Returns `(plus, minus)`.
pub fn normal_dz_samples(i: usize, j: usize, rows: usize, cols: usize) -> (r: (usize, usize))
    requires
        2 <= rows,
        2 <= cols,
        i < rows,
        j < cols,
        rows * cols <= usize::MAX,
    ensures
        (r.0 as int) < vertex_count(rows as int, cols as int),
        (r.1 as int) < vertex_count(rows as int, cols as int),
        0 < i < rows - 1 ==> r.0 == (i + 1) * cols + j && r.1 == (i - 1) * cols + j,
        i == 0 ==> r.0 == cols + j && r.1 == j,
        i == rows - 1 ==> r.0 == i * cols + j && r.1 == (i - 1) * cols + j,
{
    proof {
        assert((i as int + 1) * (cols as int) == (i as int) * (cols as int) + (cols as int) && (
        i as int - 1) * (cols as int) == (i as int) * (cols as int) - (cols as int) && (i as int)
            * (cols as int) + (j as int) < (rows as int) * (cols as int) && (i as int + 1 < rows
            ==> (i as int + 1) * (cols as int) + (j as int) < (rows as int) * (cols as int)) && (1
            <= i ==> (i as int - 1) * (cols as int) >= 0) && (i == 0 ==> (i as int) * (
        cols as int) == 0)) by (nonlinear_arith)
            requires
                i < rows,
                j < cols,
                2 <= rows,
                2 <= cols,
        ;
    }
    let idx = i * cols + j;
    if i > 0 && i < rows - 1 {
        (idx + cols, idx - cols)
    } else if i == 0 {
        (idx + cols, idx)
    } else {
        (idx, idx - cols)
    }
}

} // verus!
