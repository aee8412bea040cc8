use vulkanr::errors::VulkanRError;
use vulkanr::validate::{validate_limits, DeviceLimits, DEFAULT_VRAM_BUDGET_BYTES};

#[test]
fn exceeds_limits_message() {
    let limits = DeviceLimits {
        max_texture_dimension_2d: 4096,
    };
    let err = validate_limits(&limits, 256 * 1024 * 1024, 8192, 8192, 4).unwrap_err();
    match err {
        VulkanRError::Capability(msg) => {
            assert!(msg.contains("exceeds device limit"));
            assert!(msg.contains("(vkr_caps)"));
        }
        _ => panic!("unexpected error variant"),
    }
}

#[test]
fn over_budget_message() {
    let limits = DeviceLimits {
        max_texture_dimension_2d: 4096,
    };
    let err = validate_limits(&limits, 1 * 1024 * 1024, 4096, 4096, 4).unwrap_err();
    match err {
        VulkanRError::Capability(msg) => {
            assert!(msg.contains("VRAM budget"));
            assert!(msg.contains("(vkr_caps)"));
        }
        _ => panic!("unexpected error variant"),
    }
}

#[test]
fn valid_passes() {
    let limits = DeviceLimits {
        max_texture_dimension_2d: 4096,
    };
    let res = validate_limits(&limits, 256 * 1024 * 1024, 1024, 1024, 4);
    assert!(res.is_ok());
}

#[test]
fn exact_limit_message_text() {
    let limits = DeviceLimits {
        max_texture_dimension_2d: 4096,
    };
    let err = validate_limits(&limits, 256 * 1024 * 1024, 8192, 8192, 4).unwrap_err();
    match err {
        VulkanRError::Capability(msg) => {
            assert_eq!(
                msg,
                "Requested 8192x8192 exceeds device limit 4096x4096 (vkr_caps)"
            );
        }
        _ => panic!("unexpected error variant"),
    }
}

#[test]
fn exact_budget_message_text() {
    let limits = DeviceLimits {
        max_texture_dimension_2d: 4096,
    };
    let err = validate_limits(&limits, 1024 * 1024, 4096, 4096, 4).unwrap_err();
    match err {
        VulkanRError::Capability(msg) => {
            assert_eq!(
                msg,
                "Requested 4096x4096 with 4 B/pixel exceeds VRAM budget 1048576 bytes (vkr_caps)"
            );
        }
        _ => panic!("unexpected error variant"),
    }
}

#[test]
fn rejects_zero_width() {
    let limits = DeviceLimits {
        max_texture_dimension_2d: 4096,
    };
    let err = validate_limits(&limits, DEFAULT_VRAM_BUDGET_BYTES, 0, 600, 4).unwrap_err();
    match err {
        VulkanRError::InvalidInput { param, reason } => {
            assert_eq!(param, "width");
            assert_eq!(reason, "must be > 0");
        }
        _ => panic!("unexpected error variant"),
    }
}

#[test]
fn rejects_zero_height() {
    let limits = DeviceLimits {
        max_texture_dimension_2d: 4096,
    };
    let err = validate_limits(&limits, DEFAULT_VRAM_BUDGET_BYTES, 800, 0, 4).unwrap_err();
    match err {
        VulkanRError::InvalidInput { param, reason } => {
            assert_eq!(param, "height");
            assert_eq!(reason, "must be > 0");
        }
        _ => panic!("unexpected error variant"),
    }
}

#[test]
fn zero_width_reported_before_limit() {
    // The checks run in order: a zero dimension wins over the limit check.
    let limits = DeviceLimits {
        max_texture_dimension_2d: 16,
    };
    let err = validate_limits(&limits, DEFAULT_VRAM_BUDGET_BYTES, 0, 9999, 4).unwrap_err();
    match err {
        VulkanRError::InvalidInput { param, .. } => assert_eq!(param, "width"),
        _ => panic!("unexpected error variant"),
    }
}

#[test]
fn budget_boundary_is_inclusive() {
    let limits = DeviceLimits {
        max_texture_dimension_2d: 4096,
    };
    // Exactly on budget passes; one byte less fails.
    let exact = 1024u64 * 1024 * 4;
    assert!(validate_limits(&limits, exact, 1024, 1024, 4).is_ok());
    assert!(validate_limits(&limits, exact - 1, 1024, 1024, 4).is_err());
}
