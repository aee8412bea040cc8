use vulkanr::decimal::u64_to_dec;
use vulkanr::info::{device_class_label, format_gpu_info, format_info, DeviceClass};

#[test]
fn decimal_rendering() {
    assert_eq!(u64_to_dec(0), "0");
    assert_eq!(u64_to_dec(7), "7");
    assert_eq!(u64_to_dec(1024), "1024");
    assert_eq!(u64_to_dec(4096), "4096");
    assert_eq!(u64_to_dec(u64::MAX), "18446744073709551615");
}

#[test]
fn device_class_labels() {
    assert_eq!(device_class_label(DeviceClass::DiscreteGpu), "Discrete GPU");
    assert_eq!(
        device_class_label(DeviceClass::IntegratedGpu),
        "Integrated GPU"
    );
    assert_eq!(device_class_label(DeviceClass::VirtualGpu), "Virtual GPU");
    assert_eq!(device_class_label(DeviceClass::Cpu), "CPU");
    assert_eq!(device_class_label(DeviceClass::Other), "Other");
}

#[test]
fn adapter_summary_string() {
    let s = format_info("Vulkan", "TestGPU", DeviceClass::DiscreteGpu);
    assert_eq!(s, "Backend: Vulkan, Device: TestGPU (Discrete GPU)");
}

#[test]
fn capability_summary_string() {
    let s = format_gpu_info("Vulkan", "TestGPU", 16384, 8, 256 * 1024 * 1024);
    assert_eq!(
        s,
        "Backend: Vulkan; Device: TestGPU; max_tex_2d: 16384; max_bind_groups: 8; budget_mb: 256"
    );
}
