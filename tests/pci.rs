use restop::pci::{parse_pci_ids, DeviceCache, PciIdsError};

fn db() -> Vec<String> {
    [
        "# PCI ID database",
        "",
        "1002  Advanced Micro Devices, Inc. [AMD/ATI]",
        "\t1478  Navi 10 XL Upstream Port of PCI Express Switch",
        "\t73bf  Navi 21 [Radeon RX 6800/6800 XT / 6900 XT]",
        "\t\t1002 0e3a  Radeon RX 6900 XT",
        "\t\t1043 04f0  Radeon RX 6800",
        "\t73df  Navi 22 [Radeon RX 6700/6700 XT/6750 XT / 6800M/6850M XT]",
        "10de  NVIDIA Corporation",
        "\t2684  AD102 [GeForce RTX 4090]",
        "C 00  Unclassified device",
        "\t00  Non-VGA unclassified device",
    ]
    .iter()
    .map(|s| s.to_string())
    .collect()
}

#[test]
fn finds_device_with_subdevices() {
    let d = parse_pci_ids(&db(), 0x1002, 0x73bf).expect("listed");
    assert_eq!(d.pid(), 0x73bf);
    assert_eq!(d.vid(), 0x1002);
    assert_eq!(d.name(), "Navi 21 [Radeon RX 6800/6800 XT / 6900 XT]");
    assert_eq!(d.vendor_name, "Advanced Micro Devices, Inc. [AMD/ATI]");
    let subs = d.subdevices();
    assert_eq!(subs.len(), 2);
}

#[test]
fn finds_device_of_later_vendor() {
    let d = parse_pci_ids(&db(), 0x10de, 0x2684).expect("listed");
    assert_eq!(d.name(), "AD102 [GeForce RTX 4090]");
    assert_eq!(d.vendor_name, "NVIDIA Corporation");
    assert_eq!(d.subdevices().len(), 0);
}

#[test]
fn missing_device_is_not_found() {
    assert_eq!(parse_pci_ids(&db(), 0x1002, 0x1234).err(), Some(PciIdsError::NotFound));
    assert_eq!(parse_pci_ids(&db(), 0x8086, 0x1234).err(), Some(PciIdsError::NotFound));
    assert_eq!(parse_pci_ids(&vec![], 0x8086, 0x1234).err(), Some(PciIdsError::NotFound));
}

#[test]
fn malformed_vendor_line_is_an_error() {
    let lines = vec!["zz12  Bad".to_string()];
    assert_eq!(parse_pci_ids(&lines, 0x1002, 0x1).err(), Some(PciIdsError::Malformed));
    let lines = vec!["1002".to_string()];
    assert_eq!(parse_pci_ids(&lines, 0x1002, 0x1).err(), Some(PciIdsError::Malformed));
}

#[test]
fn cache_finds_first_inserted() {
    let mut c = DeviceCache::new();
    assert!(c.find(0x1002, 0x73bf).is_none());
    c.insert(parse_pci_ids(&db(), 0x1002, 0x73bf).unwrap());
    c.insert(parse_pci_ids(&db(), 0x10de, 0x2684).unwrap());
    assert_eq!(c.find(0x10de, 0x2684).unwrap().name(), "AD102 [GeForce RTX 4090]");
    assert!(c.find(0x10de, 0x73bf).is_none());
}
