//! Diagnostic strings reported about the device.
//!
//! The unverified device layer reads the adapter's name, backend and
//! device class once at initialisation and hands them here as plain
//! values; these functions assemble the exact strings the renderer
//! exposes.

use vstd::prelude::*;
use vstd::string::StringExecFns;

use crate::decimal::{dec_digits, u64_to_dec};

verus! {

/// The class of device the adapter reports.
#[derive(Clone, Copy, Debug, PartialEq, Eq, Structural)]
pub enum DeviceClass {
    DiscreteGpu,
    IntegratedGpu,
    VirtualGpu,
    Cpu,
    Other,
}

/// The human-readable label of a device class.
pub open spec fn class_label(c: DeviceClass) -> Seq<char> {
    match c {
        DeviceClass::DiscreteGpu => "Discrete GPU"@,
        DeviceClass::IntegratedGpu => "Integrated GPU"@,
        DeviceClass::VirtualGpu => "Virtual GPU"@,
        DeviceClass::Cpu => "CPU"@,
        DeviceClass::Other => "Other"@,
    }
}

/// Returns the label of a device class.
pub fn device_class_label(c: DeviceClass) -> (s: &'static str)
    ensures
        s@ == class_label(c),
{
    match c {
        DeviceClass::DiscreteGpu => "Discrete GPU",
        DeviceClass::IntegratedGpu => "Integrated GPU",
        DeviceClass::VirtualGpu => "Virtual GPU",
        DeviceClass::Cpu => "CPU",
        DeviceClass::Other => "Other",
    }
}

/// The adapter summary string.
pub open spec fn info_msg(backend: Seq<char>, device: Seq<char>, class: DeviceClass) -> Seq<char> {
    "Backend: "@ + backend + ", Device: "@ + device + " ("@ + class_label(class) + ")"@
}

/// Assembles the human-readable adapter string: backend, device name and
/// device class.
pub fn format_info(backend: &str, device: &str, class: DeviceClass) -> (s: String)
    ensures
        s@ == info_msg(backend@, device@, class),
{
    let mut s = String::from_str("Backend: ");
    s.append(backend);
    s.append(", Device: ");
    s.append(device);
    s.append(" (");
    s.append(device_class_label(class));
    s.append(")");
    proof {
        assert(s@ =~= info_msg(backend@, device@, class));
    }
    s
}

/// The capability summary string.
pub open spec fn gpu_info_msg(
    backend: Seq<char>,
    device: Seq<char>,
    max_tex_2d: nat,
    max_bind_groups: nat,
    budget_mb: nat,
) -> Seq<char> {
    "Backend: "@ + backend + "; Device: "@ + device + "; max_tex_2d: "@ + dec_digits(max_tex_2d)
        + "; max_bind_groups: "@ + dec_digits(max_bind_groups) + "; budget_mb: "@ + dec_digits(
        budget_mb,
    )
}

/// Assembles the capability summary: backend, device name, the cached
/// texture and bind-group limits, and the VRAM budget in whole MiB.
pub fn format_gpu_info(
    backend: &str,
    device: &str,
    max_tex_2d: u32,
    max_bind_groups: u32,
    budget_bytes: u64,
) -> (s: String)
    ensures
        s@ == gpu_info_msg(
            backend@,
            device@,
            max_tex_2d as nat,
            max_bind_groups as nat,
            (budget_bytes as nat) / (1024 * 1024),
        ),
{
    let budget_mb = budget_bytes / (1024 * 1024);
    let mut s = String::from_str("Backend: ");
    s.append(backend);
    s.append("; Device: ");
    s.append(device);
    s.append("; max_tex_2d: ");
    let t = u64_to_dec(max_tex_2d as u64);
    s.append(t.as_str());
    s.append("; max_bind_groups: ");
    let g = u64_to_dec(max_bind_groups as u64);
    s.append(g.as_str());
    s.append("; budget_mb: ");
    let m = u64_to_dec(budget_mb);
    s.append(m.as_str());
    proof {
        assert(s@ =~= gpu_info_msg(
            backend@,
            device@,
            max_tex_2d as nat,
            max_bind_groups as nat,
            (budget_bytes as nat) / (1024 * 1024),
        ));
    }
    s
}

} // verus!
