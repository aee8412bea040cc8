//! Readback compositing.
//!
//! The GPU copies the rendered colour texture into a CPU-visible buffer
//! whose rows are padded to the hardware's copy alignment (a 256-byte
//! stride boundary).  The compositor strips that padding and emits the
//! tightly packed top-to-bottom RGBA image handed to the PNG encoder.  No
//! colour conversion happens here: input and output pixels are identical
//! bytes.

use vstd::prelude::*;
use vstd::arithmetic::div_mod::{
    lemma_fundamental_div_mod, lemma_fundamental_div_mod_converse, lemma_mod_multiples_basic,
};
use vstd::string::StringExecFns;

use crate::errors::VulkanRError;

verus! {

/// Number of bytes a row of `width` RGBA pixels occupies once padded up
/// to the next 256-byte boundary, as the hardware requires of
/// texture-to-buffer copies.
pub open spec fn padded_row_bytes(width: int) -> int {
    ((width * 4 + 255) / 256) * 256
}

/// Computes the padded row stride for a row of `width` RGBA pixels: the
/// smallest multiple of 256 bytes that holds `width * 4` bytes.
pub fn padded_bytes_per_row(width: u32) -> (r: u32)
    requires
        width * 4 + 255 <= u32::MAX,
    ensures
        r == padded_row_bytes(width as int),
        r % 256 == 0,
        width * 4 <= r < width * 4 + 256,
{
    let unpadded = width * 4;
    let r = ((unpadded + 255) / 256) * 256;
    proof {
        let u = (width as int) * 4;
        lemma_fundamental_div_mod(u + 255, 256);
        lemma_mod_multiples_basic((u + 255) / 256, 256);
    }
    r
}

/// The byte of the packed image at offset `k`, read out of the padded
/// framebuffer: row `k / (width * 4)`, byte `k % (width * 4)` of that row.
pub open spec fn composed_byte(raw: Seq<u8>, width: int, row_stride_bytes: int, k: int) -> u8 {
    raw[(k / (width * 4)) * row_stride_bytes + k % (width * 4)]
}

/// Strips the row padding from a mapped framebuffer: copies exactly
/// `width * 4` bytes out of every `row_stride_bytes`-byte row of `raw`
/// into a tightly packed `width * height * 4` buffer.  Fails only if the
/// raw buffer is shorter than `height * row_stride_bytes` — a defensive
/// check; the renderer allocates the buffer at exactly that size.
pub fn compose(raw: &Vec<u8>, width: u32, height: u32, row_stride_bytes: u32) -> (r: Result<
    Vec<u8>,
    VulkanRError,
>)
    requires
        width * 4 <= row_stride_bytes,
        (height as int) * (row_stride_bytes as int) <= usize::MAX,
    ensures
        r is Ok <==> raw@.len() >= (height as int) * (row_stride_bytes as int),
        r matches Ok(img) ==> {
            &&& img@.len() == (width as int) * 4 * (height as int)
            &&& forall|k: int|
                0 <= k < img@.len() ==> (#[trigger] img@[k]) == composed_byte(
                    raw@,
                    width as int,
                    row_stride_bytes as int,
                    k,
                )
        },
        r matches Err(e) ==> e.is_recoverable(),
        r matches Err(e) ==> (e matches VulkanRError::InvalidInput { param, reason }
            && param@ == "raw_buffer"@ && reason@
            == "raw framebuffer is shorter than height * row_stride_bytes"@),
{
    let stride = row_stride_bytes as usize;
    let needed = (height as usize) * stride;
    if raw.len() < needed {
        return Err(VulkanRError::InvalidInput {
            param: String::from_str("raw_buffer"),
            reason: String::from_str("raw framebuffer is shorter than height * row_stride_bytes"),
        });
    }
    let row_bytes = (width as usize) * 4;
    let mut out: Vec<u8> = Vec::new();
    let mut y: usize = 0;
    while y < height as usize
        invariant
            row_bytes == (width as int) * 4,
            stride == row_stride_bytes,
            row_bytes <= stride,
            needed == (height as int) * (stride as int),
            needed <= usize::MAX,
            raw@.len() >= needed,
            y <= height,
            out@.len() == (y as int) * row_bytes,
            forall|k: int|
                0 <= k < out@.len() ==> (#[trigger] out@[k]) == composed_byte(
                    raw@,
                    width as int,
                    row_stride_bytes as int,
                    k,
                ),
        decreases height - y,
    {
        proof {
            assert((y as int) * stride + stride <= (height as int) * stride && (y as int) * stride
                >= 0 && (y as int) * row_bytes + row_bytes <= (y as int) * stride + stride)
                by (nonlinear_arith)
                requires
                    y < height,
                    0 <= row_bytes <= stride,
            ;
        }
        let row_start = y * stride;
        let mut x: usize = 0;
        while x < row_bytes
            invariant
                row_bytes == (width as int) * 4,
                stride == row_stride_bytes,
                row_bytes <= stride,
                needed == (height as int) * (stride as int),
                needed <= usize::MAX,
                raw@.len() >= needed,
                y < height,
                x <= row_bytes,
                row_start == (y as int) * stride,
                row_start + stride <= needed,
                out@.len() == (y as int) * row_bytes + x,
                out@.len() + (row_bytes - x) <= usize::MAX,
                forall|k: int|
                    0 <= k < out@.len() ==> (#[trigger] out@[k]) == composed_byte(
                        raw@,
                        width as int,
                        row_stride_bytes as int,
                        k,
                    ),
            decreases row_bytes - x,
        {
            let b = raw[row_start + x];
            out.push(b);
            proof {
                let p = (y as int) * row_bytes + x;
                lemma_fundamental_div_mod_converse(p, row_bytes as int, y as int, x as int);
                assert(out@[p] == composed_byte(raw@, width as int, row_stride_bytes as int, p));
            }
            x += 1;
        }
        proof {
            assert(((y as int) + 1) * row_bytes == (y as int) * row_bytes + row_bytes)
                by (nonlinear_arith);
            assert(((y as int) + 1) * row_bytes <= (height as int) * row_bytes <= (height as int)
                * stride) by (nonlinear_arith)
                requires
                    y < height,
                    0 <= row_bytes <= stride,
                    0 <= height,
            ;
        }
        y += 1;
    }
    proof {
        assert((height as int) * row_bytes == (width as int) * 4 * (height as int))
            by (nonlinear_arith)
            requires
                row_bytes == (width as int) * 4,
        ;
    }
    Ok(out)
}

/// Compositing preserves every pixel: byte `c` of pixel `(x, y)` of the
/// packed image — offset `y * width * 4 + x * 4 + c` — is exactly byte
/// `y * row_stride_bytes + x * 4 + c` of the padded framebuffer.
pub proof fn lemma_composed_pixel(
    raw: Seq<u8>,
    width: int,
    row_stride_bytes: int,
    x: int,
    y: int,
    c: int,
)
    requires
        0 <= x < width,
        0 <= y,
        0 <= c < 4,
    ensures
        composed_byte(raw, width, row_stride_bytes, y * (width * 4) + x * 4 + c) == raw[y
            * row_stride_bytes + x * 4 + c],
{
    assert(0 <= x * 4 + c < width * 4) by (nonlinear_arith)
        requires
            0 <= x < width,
            0 <= c < 4,
    ;
    lemma_fundamental_div_mod_converse(y * (width * 4) + x * 4 + c, width * 4, y, x * 4 + c);
}

} // verus!
