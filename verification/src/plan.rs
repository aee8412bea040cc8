//! The per-render resource plan.
//!
//! Before the renderer allocates anything it runs the preflight check and
//! fixes every size the GPU pass depends on: the texture extent, the
//! unpadded row size of the readback copy, the hardware-aligned row
//! stride, and the readback buffer size.  The unverified device layer
//! allocates exactly what the plan says.

use vstd::prelude::*;

use crate::compositor::{padded_bytes_per_row, padded_row_bytes};
use crate::errors::VulkanRError;
use crate::validate::{
    budget_msg, limit_msg, validate_limits, validate_ok, within_budget, within_device_limit,
    DeviceLimits,
};

verus! {

/// Sizes of one render's GPU resources, all derived from the requested
/// output dimensions.
#[derive(Clone, Copy, Debug, PartialEq, Eq, Structural)]
pub struct RenderPlan {
    /// Width of the output image, in pixels.
    pub width: u32,
    /// Height of the output image, in pixels.
    pub height: u32,
    /// Bytes of one packed RGBA row: `width * 4`.
    pub unpadded_bytes_per_row: u32,
    /// Bytes of one row in the readback buffer, padded to the 256-byte
    /// copy alignment.
    pub padded_bytes_per_row: u32,
    /// Total size of the readback buffer: `height` padded rows.
    pub readback_bytes: u64,
}

/// The plan's fields agree with its dimensions.
pub open spec fn plan_wf(p: RenderPlan) -> bool {
    &&& p.unpadded_bytes_per_row == p.width * 4
    &&& p.padded_bytes_per_row == padded_row_bytes(p.width as int)
    &&& p.padded_bytes_per_row % 256 == 0
    &&& p.unpadded_bytes_per_row <= p.padded_bytes_per_row
    &&& p.readback_bytes == (p.height as int) * padded_row_bytes(p.width as int)
}

/// Runs the preflight check for a `width x height` RGBA target and, when
/// it passes, fixes the sizes of the resources the render pass allocates.
/// Nothing is allocated before this returns `Ok`.
pub fn plan_render(limits: &DeviceLimits, vram_budget: u64, width: u32, height: u32) -> (r: Result<
    RenderPlan,
    VulkanRError,
>)
    requires
        (limits.max_texture_dimension_2d as int) * 4 + 255 <= u32::MAX,
    ensures
        r is Ok <==> validate_ok(
            limits.max_texture_dimension_2d as nat,
            vram_budget as nat,
            width as nat,
            height as nat,
            4,
        ),
        r matches Ok(p) ==> p.width == width && p.height == height && plan_wf(p),
        r matches Err(e) ==> e.is_recoverable(),
        width == 0 ==> (r matches Err(VulkanRError::InvalidInput { param, reason })
            && param@ == "width"@ && reason@ == "must be > 0"@),
        width > 0 && height == 0 ==> (r matches Err(VulkanRError::InvalidInput { param, reason })
            && param@ == "height"@ && reason@ == "must be > 0"@),
        width > 0 && height > 0 && !within_device_limit(
            limits.max_texture_dimension_2d as nat,
            width as nat,
            height as nat,
        ) ==> (r matches Err(VulkanRError::Capability(msg)) && msg@ == limit_msg(
            width as nat,
            height as nat,
            limits.max_texture_dimension_2d as nat,
        )),
        width > 0 && height > 0 && within_device_limit(
            limits.max_texture_dimension_2d as nat,
            width as nat,
            height as nat,
        ) && !within_budget(vram_budget as nat, width as nat, height as nat, 4) ==> (r matches Err(
            VulkanRError::Capability(msg),
        ) && msg@ == budget_msg(width as nat, height as nat, 4, vram_budget as nat)),
{
    match validate_limits(limits, vram_budget, width, height, 4) {
        Err(e) => Err(e),
        Ok(()) => {
            let padded = padded_bytes_per_row(width);
            proof {
                assert((height as int) * (padded as int) <= u64::MAX) by (nonlinear_arith)
                    requires
                        height <= u32::MAX,
                        padded <= u32::MAX,
                ;
            }
            let readback = (height as u64) * (padded as u64);
            Ok(RenderPlan {
                width,
                height,
                unpadded_bytes_per_row: width * 4,
                padded_bytes_per_row: padded,
                readback_bytes: readback,
            })
        },
    }
}

} // verus!
