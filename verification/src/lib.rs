//! Offscreen heightfield rendering support library.
//!
//! A rectangular grid of elevation samples is turned into a lit,
//! perspective-projected raster image.  This crate holds the parts of that
//! pipeline that are pure data logic, each with a verified contract:
//!
//! * preflight validation of the requested output size against device
//!   limits and a memory budget ([`validate::validate_limits`]),
//! * the triangulation of the height grid and the selection of the
//!   neighbouring samples that feed each vertex normal ([`mesh`]),
//! * the byte layout of the GPU uniform block ([`uniforms`]),
//! * the sizing of every per-render GPU resource ([`plan`]),
//! * row-alignment arithmetic and the compositing step that strips the
//!   hardware row padding from the mapped framebuffer ([`compositor`]),
//! * the diagnostic strings the renderer reports ([`info`]).
//!
//! The floating-point vertex attributes, the camera matrices and the GPU
//! calls themselves live with the unverified renderer that drives this
//! library.

use vstd::prelude::*;

pub mod compositor;
pub mod decimal;
pub mod errors;
pub mod info;
pub mod mesh;
pub mod plan;
pub mod uniforms;
pub mod validate;

verus! {

/// Number of bytes a single RGBA pixel occupies in the render target.
pub const BYTES_PER_PIXEL: u32 = 4;

} // verus!
