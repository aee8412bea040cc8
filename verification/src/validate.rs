//! Preflight capability validation.
//!
//! The validator is a pure function of the cached device limits, the
//! configured memory budget and the requested output size.  It must accept
//! before any GPU texture or buffer is allocated, so that oversized
//! requests are shed here instead of aborting inside the device driver.

use vstd::prelude::*;
use vstd::string::StringExecFns;

use crate::decimal::{dec_digits, u64_to_dec};
use crate::errors::VulkanRError;

verus! {

/// The device limits the renderer caches once at initialisation.
///
/// Only the limit the pipeline actually consults is modelled; the value is
/// copied out of the adapter's limit table by the unverified device layer.
#[derive(Clone, Copy, Debug, PartialEq, Eq, Structural)]
pub struct DeviceLimits {
    /// Largest width or height, in texels, of a 2-D texture.
    pub max_texture_dimension_2d: u32,
}

/// Default VRAM budget: an explicit safety ceiling of 256 MiB, policy
/// rather than a hardware fact.
pub const DEFAULT_VRAM_BUDGET_BYTES: u64 = 256 * 1024 * 1024;

/// Both requested dimensions fit the device's texture limit.
pub open spec fn within_device_limit(max_dim: nat, width: nat, height: nat) -> bool {
    width <= max_dim && height <= max_dim
}

/// The requested target fits the memory budget.
pub open spec fn within_budget(budget: nat, width: nat, height: nat, bytes_per_pixel: nat) -> bool {
    width * height * bytes_per_pixel <= budget
}

/// The whole preflight check passes.
pub open spec fn validate_ok(
    max_dim: nat,
    budget: nat,
    width: nat,
    height: nat,
    bytes_per_pixel: nat,
) -> bool {
    &&& width > 0
    &&& height > 0
    &&& within_device_limit(max_dim, width, height)
    &&& within_budget(budget, width, height, bytes_per_pixel)
}

/// Message reported when a dimension exceeds the device texture limit.
pub open spec fn limit_msg(width: nat, height: nat, max_dim: nat) -> Seq<char> {
    "Requested "@ + dec_digits(width) + "x"@ + dec_digits(height) + " exceeds device limit "@
        + dec_digits(max_dim) + "x"@ + dec_digits(max_dim) + " (vkr_caps)"@
}

/// Message reported when the requested target exceeds the VRAM budget.
pub open spec fn budget_msg(width: nat, height: nat, bytes_per_pixel: nat, budget: nat) -> Seq<
    char,
> {
    "Requested "@ + dec_digits(width) + "x"@ + dec_digits(height) + " with "@ + dec_digits(
        bytes_per_pixel,
    ) + " B/pixel exceeds VRAM budget "@ + dec_digits(budget) + " bytes (vkr_caps)"@
}

fn limit_message(width: u32, height: u32, max_dim: u32) -> (s: String)
    ensures
        s@ == limit_msg(width as nat, height as nat, max_dim as nat),
{
    let mut s = String::from_str("Requested ");
    let w = u64_to_dec(width as u64);
    s.append(w.as_str());
    s.append("x");
    let h = u64_to_dec(height as u64);
    s.append(h.as_str());
    s.append(" exceeds device limit ");
    let m = u64_to_dec(max_dim as u64);
    s.append(m.as_str());
    s.append("x");
    s.append(m.as_str());
    s.append(" (vkr_caps)");
    proof {
        assert(s@ =~= limit_msg(width as nat, height as nat, max_dim as nat));
    }
    s
}

fn budget_message(width: u32, height: u32, bytes_per_pixel: u32, budget: u64) -> (s: String)
    ensures
        s@ == budget_msg(width as nat, height as nat, bytes_per_pixel as nat, budget as nat),
{
    let mut s = String::from_str("Requested ");
    let w = u64_to_dec(width as u64);
    s.append(w.as_str());
    s.append("x");
    let h = u64_to_dec(height as u64);
    s.append(h.as_str());
    s.append(" with ");
    let bpp = u64_to_dec(bytes_per_pixel as u64);
    s.append(bpp.as_str());
    s.append(" B/pixel exceeds VRAM budget ");
    let b = u64_to_dec(budget);
    s.append(b.as_str());
    s.append(" bytes (vkr_caps)");
    proof {
        assert(s@ =~= budget_msg(
            width as nat,
            height as nat,
            bytes_per_pixel as nat,
            budget as nat,
        ));
    }
    s
}

/// Checks a requested render target against the device limits and the
/// memory budget, in this order: zero dimensions, texture limit, budget.
/// The first failing rule decides the error; nothing is allocated here.
pub fn validate_limits(
    limits: &DeviceLimits,
    vram_budget: u64,
    width: u32,
    height: u32,
    bytes_per_pixel: u32,
) -> (r: Result<(), VulkanRError>)
    ensures
        r is Ok <==> validate_ok(
            limits.max_texture_dimension_2d as nat,
            vram_budget as nat,
            width as nat,
            height as nat,
            bytes_per_pixel as nat,
        ),
        r matches Err(e) ==> e.is_recoverable(),
        width == 0 ==> (r matches Err(VulkanRError::InvalidInput { param, reason })
            && param@ == "width"@ && reason@ == "must be > 0"@),
        width > 0 && height == 0 ==> (r matches Err(VulkanRError::InvalidInput { param, reason })
            && param@ == "height"@ && reason@ == "must be > 0"@),
        width > 0 && height > 0 && !within_device_limit(
            limits.max_texture_dimension_2d as nat,
            width as nat,
            height as nat,
        ) ==> (r matches Err(VulkanRError::Capability(msg)) && msg@ == limit_msg(
            width as nat,
            height as nat,
            limits.max_texture_dimension_2d as nat,
        )),
        width > 0 && height > 0 && within_device_limit(
            limits.max_texture_dimension_2d as nat,
            width as nat,
            height as nat,
        ) && !within_budget(
            vram_budget as nat,
            width as nat,
            height as nat,
            bytes_per_pixel as nat,
        ) ==> (r matches Err(VulkanRError::Capability(msg)) && msg@ == budget_msg(
            width as nat,
            height as nat,
            bytes_per_pixel as nat,
            vram_budget as nat,
        )),
{
    if width == 0 {
        return Err(VulkanRError::InvalidInput {
            param: String::from_str("width"),
            reason: String::from_str("must be > 0"),
        });
    }
    if height == 0 {
        return Err(VulkanRError::InvalidInput {
            param: String::from_str("height"),
            reason: String::from_str("must be > 0"),
        });
    }
    let max_dim = limits.max_texture_dimension_2d;
    if width > max_dim || height > max_dim {
        return Err(VulkanRError::Capability(limit_message(width, height, max_dim)));
    }
    proof {
        assert((width as int) * (height as int) <= u64::MAX as int && (width as int) * (
        height as int) * (bytes_per_pixel as int) < u128::MAX as int) by (nonlinear_arith)
            requires
                width <= u32::MAX,
                height <= u32::MAX,
                bytes_per_pixel <= u32::MAX,
        ;
    }
    let requested: u128 = (width as u128) * (height as u128) * (bytes_per_pixel as u128);
    if requested > vram_budget as u128 {
        return Err(VulkanRError::Capability(budget_message(
            width,
            height,
            bytes_per_pixel,
            vram_budget,
        )));
    }
    Ok(())
}

} // verus!
