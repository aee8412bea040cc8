use vulkanr::errors::VulkanRError;
use vulkanr::plan::plan_render;
use vulkanr::validate::{DeviceLimits, DEFAULT_VRAM_BUDGET_BYTES};

#[test]
fn plan_for_aligned_width() {
    let limits = DeviceLimits {
        max_texture_dimension_2d: 4096,
    };
    let p = plan_render(&limits, DEFAULT_VRAM_BUDGET_BYTES, 1024, 768).unwrap();
    assert_eq!(p.width, 1024);
    assert_eq!(p.height, 768);
    assert_eq!(p.unpadded_bytes_per_row, 4096);
    assert_eq!(p.padded_bytes_per_row, 4096);
    assert_eq!(p.readback_bytes, 4096 * 768);
}

#[test]
fn plan_pads_narrow_rows() {
    let limits = DeviceLimits {
        max_texture_dimension_2d: 4096,
    };
    let p = plan_render(&limits, DEFAULT_VRAM_BUDGET_BYTES, 100, 2).unwrap();
    assert_eq!(p.unpadded_bytes_per_row, 400);
    assert_eq!(p.padded_bytes_per_row, 512);
    assert_eq!(p.readback_bytes, 512 * 2);
}

#[test]
fn plan_rejects_zero_dimension() {
    let limits = DeviceLimits {
        max_texture_dimension_2d: 4096,
    };
    let err = plan_render(&limits, DEFAULT_VRAM_BUDGET_BYTES, 0, 32).unwrap_err();
    match err {
        VulkanRError::InvalidInput { param, .. } => assert_eq!(param, "width"),
        _ => panic!("unexpected error variant"),
    }
}

#[test]
fn plan_rejects_oversized_target() {
    let limits = DeviceLimits {
        max_texture_dimension_2d: 4096,
    };
    let err = plan_render(&limits, DEFAULT_VRAM_BUDGET_BYTES, 8192, 8192).unwrap_err();
    match err {
        VulkanRError::Capability(msg) => assert!(msg.contains("exceeds device limit")),
        _ => panic!("unexpected error variant"),
    }
}
