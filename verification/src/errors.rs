//! Error taxonomy of the rendering pipeline.

use vstd::prelude::*;

verus! {

/// Everything that can go wrong while rendering a heightmap.
///
/// * `DeviceInit` — adapter/device acquisition or GPU synchronisation
///   failure; fatal for the call, never retried internally.
/// * `ShaderCompilation` — reserved for shader build failures; the shipped
///   shaders are fixed and pre-validated, so no verified function returns it.
/// * `OutOfMemory` — allocation-time capacity mismatch not caught by the
///   preflight check.
/// * `InvalidInput` — caller-supplied data violates a precondition; names
///   the offending parameter.
/// * `Capability` — the preflight check rejected the request because it
///   exceeds a device limit or the memory budget; the message embeds the
///   requested and allowed values.
/// * `Io` — the final image write failed.
#[derive(Debug)]
pub enum VulkanRError {
    DeviceInit(String),
    ShaderCompilation(String),
    OutOfMemory { requested: usize, available: usize },
    InvalidInput { param: String, reason: String },
    Capability(String),
    Io(String),
}

impl VulkanRError {
    /// True of the errors the caller can recover from by supplying
    /// corrected parameters, as opposed to device-level failures.
    pub open spec fn is_recoverable(&self) -> bool {
        self is InvalidInput || self is Capability
    }
}

} // verus!
