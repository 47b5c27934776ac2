use restop::fallback::None2NaNDef;
use restop::battery::{State, Technology};
use restop::drive::DriveType;
use restop::gpu::{classify_gpu, GpuError, GpuVendor};
use restop::network::InterfaceType;

fn lines(v: &[&str]) -> Vec<String> {
    v.iter().map(|s| s.to_string()).collect()
}

#[test]
fn battery_states_ignore_case() {
    assert_eq!(State::parse("Charging"), State::Charging);
    assert_eq!(State::parse("DISCHARGING"), State::Discharging);
    assert_eq!(State::parse("full"), State::Full);
    assert_eq!(State::parse("Not charging"), State::Unknown);
    assert_eq!(State::Empty.name(), "Empty");
}

#[test]
fn battery_technologies() {
    assert_eq!(Technology::parse("Li-ion"), Technology::LithiumIon);
    assert_eq!(Technology::parse("LiP"), Technology::LithiumPolymer);
    assert_eq!(Technology::parse("PbAc"), Technology::LeadAcid);
    assert_eq!(Technology::parse("NiMH"), Technology::NickelMetalHydride);
    assert_eq!(Technology::parse("carbon"), Technology::Unknown);
    assert_eq!(Technology::LithiumIon.name(), "Lithium-Ion");
    assert_eq!(Technology::Unknown.name(), "N/A");
}

#[test]
fn kind_descriptions() {
    assert_eq!(DriveType::Zram.name(), "Compressed RAM Disk (zram)");
    assert_eq!(DriveType::Unknown.name(), "N/A");
    assert_eq!(InterfaceType::Wireguard.name(), "VPN Tunnel (WireGuard)");
    assert_eq!(InterfaceType::Unknown.name(), "Network Interface");
}

#[test]
fn gpu_from_uevent() {
    let g = classify_gpu(&lines(&[
        "DRIVER=amdgpu",
        "PCI_CLASS=30000",
        "PCI_ID=1002:73BF",
        "PCI_SLOT_NAME=0000:03:00.0",
    ]))
    .expect("a gpu");
    assert_eq!(g.vid, 0x1002);
    assert_eq!(g.pid, 0x73bf);
    assert_eq!(g.driver, "amdgpu");
    assert_eq!(g.pci_slot, "0000:03:00.0");
    assert_eq!(g.vendor, GpuVendor::Amd);
}

#[test]
fn gpu_vendor_by_driver_or_id() {
    let g = classify_gpu(&lines(&["DRIVER=i915", "PCI_ID=8086:46A6"])).unwrap();
    assert_eq!(g.vendor, GpuVendor::Intel);
    assert_eq!(g.pci_slot, "N/A");
    let g = classify_gpu(&lines(&["DRIVER=nouveau", "PCI_ID=10DE:2684"])).unwrap();
    assert_eq!(g.vendor, GpuVendor::Nvidia);
    let g = classify_gpu(&lines(&["DRIVER=virtio-pci"])).unwrap();
    assert_eq!((g.vid, g.pid, g.vendor), (0, 0, GpuVendor::Other));
}

#[test]
fn gpu_refusals() {
    assert_eq!(
        classify_gpu(&lines(&["DRIVER=simple-framebuffer"])).err(),
        Some(GpuError::SimpleFramebuffer)
    );
    assert_eq!(classify_gpu(&lines(&["DRIVER"])).err(), Some(GpuError::MalformedUevent));
    assert_eq!(classify_gpu(&lines(&["PCI_ID=10DE"])).err(), Some(GpuError::BadPciId));
    assert_eq!(classify_gpu(&lines(&["PCI_ID=XYZ:1"])).err(), Some(GpuError::BadPciId));
}

#[test]
fn missing_values_show_placeholders() {
    let some: Option<String> = Some("eth0".to_string());
    let none: Option<String> = None;
    assert_eq!(some.or_nan_def(), "eth0");
    assert_eq!(none.or_nan_def(), "N/A");
    assert_eq!(none.or_unk_def(), "Unknown");
    let s: Option<&str> = Some("x");
    let n: Option<&str> = None;
    assert_eq!(s.or_unk_def(), "x");
    assert_eq!(n.or_nan_def(), "N/A");
}
