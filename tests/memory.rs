use restop::memory::{parse_dmidecode, parse_virtual_dmi, MemInfoError, MemoryData, BYTES_IN_GIB};
use restop::registry::map_all_unique;

const MEMINFO: &str = "MemTotal:       32657084 kB\nMemFree:         1204340 kB\nMemAvailable:   20123456 kB\nBuffers:          123456 kB\nSwapCached:            0 kB\nSwapTotal:       8388604 kB\nSwapFree:        8000000 kB\n";

#[test]
fn meminfo_totals_in_bytes() {
    let m = MemoryData::from_meminfo(MEMINFO).expect("complete");
    assert_eq!(m.total_mem, 32657084 * 1024);
    assert_eq!(m.available_mem, 20123456 * 1024);
    assert_eq!(m.total_swap, 8388604 * 1024);
    assert_eq!(m.free_swap, 8000000 * 1024);
}

#[test]
fn meminfo_missing_field_is_an_error() {
    let text = "MemTotal: 100 kB\nMemAvailable: 50 kB\nSwapTotal: 0 kB\n";
    assert_eq!(MemoryData::from_meminfo(text).err(), Some(MemInfoError::Field));
    assert_eq!(MemoryData::from_meminfo("").err(), Some(MemInfoError::Field));
}

const DMI: &str = "Handle 0x0040, DMI type 17, 92 bytes\nMemory Device\n\tSize: 16 GB\n\tForm Factor: SODIMM\n\tType: DDR4\n\tType Detail: Synchronous Unbuffered\n\tSpeed: 3200 MT/s\n\tConfigured Memory Speed: 2933 MT/s\n\nHandle 0x0041, DMI type 17, 92 bytes\nMemory Device\n\tSize: No Module Installed\n\tForm Factor: Unknown\n\tType: Unknown\n\tSpeed: Unknown\n\n";

#[test]
fn dmidecode_modules() {
    let d = parse_dmidecode(DMI);
    assert_eq!(d.len(), 2);
    assert_eq!(d[0].speed_mts, Some(2933));
    assert_eq!(d[0].size, Some(16 * BYTES_IN_GIB));
    assert_eq!(d[0].form_factor.as_deref(), Some("SODIMM"));
    assert_eq!(d[0].mem_type.as_deref(), Some("DDR4"));
    assert_eq!(d[0].type_detail.as_deref(), Some("Synchronous Unbuffered"));
    assert!(d[0].installed);
    assert_eq!(d[1].speed_mts, None);
    assert_eq!(d[1].size, None);
    assert_eq!(d[1].mem_type.as_deref(), Some("Unknown"));
    assert!(!d[1].installed);
    assert!(parse_dmidecode("").is_empty());
}

#[test]
fn unique_values_keep_first_occurrence_order() {
    let v: Vec<String> = ["DDR4", "DDR5", "DDR4", "N/A", "DDR5"].iter().map(|s| s.to_string()).collect();
    assert_eq!(map_all_unique(&v), vec!["DDR4", "DDR5", "N/A"]);
    assert!(map_all_unique(&vec![]).is_empty());
}

const UDEV: &str = "P: /devices/virtual/dmi/id\nE: MEMORY_ARRAY_NUM_DEVICES=2\nE: MEMORY_DEVICE_0_PRESENT=1\nE: MEMORY_DEVICE_0_CONFIGURED_SPEED_MTS=3200\nE: MEMORY_DEVICE_0_FORM_FACTOR=SODIMM\nE: MEMORY_DEVICE_0_TYPE=DDR4\nE: MEMORY_DEVICE_0_TYPE_DETAIL=Synchronous\nE: MEMORY_DEVICE_0_SIZE=17179869184\nE: MEMORY_DEVICE_1_PRESENT=0\nE: MEMORY_DEVICE_1_TYPE=<OUT OF SPEC>\n";

#[test]
fn udev_dmi_modules() {
    let d = parse_virtual_dmi(UDEV);
    assert_eq!(d.len(), 2);
    assert_eq!(d[0].speed_mts, Some(3200));
    assert_eq!(d[0].form_factor.as_deref(), Some("SODIMM"));
    assert_eq!(d[0].mem_type.as_deref(), Some("DDR4"));
    assert_eq!(d[0].type_detail.as_deref(), Some("Synchronous"));
    assert_eq!(d[0].size, Some(17179869184));
    assert!(d[0].installed);
    assert_eq!(d[1].mem_type, None);
    assert_eq!(d[1].size, None);
    assert!(!d[1].installed);
    assert!(parse_virtual_dmi("nothing here").is_empty());
}
