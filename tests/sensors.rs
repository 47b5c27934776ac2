use restop::drive::{classify_drive, update_partition, Drive, DriveType, Partition};
use restop::process::ProcessAction;
use restop::sensor::Sensor;
use restop::network::{display_name, read_uevent, InterfaceType};
use restop::process::{try_change_sort, LineBuilder, ProcessCell, ProcessMsg, PROCESS_ID};
use restop::settings::{Base, RefreshSpeed, Settings, SidebarMeterType, TemperatureUnit};

#[test]
fn interface_types_by_name() {
    assert_eq!(InterfaceType::from_interface_name("eth0"), InterfaceType::Ethernet);
    assert_eq!(InterfaceType::from_interface_name("enp3s0"), InterfaceType::Ethernet);
    assert_eq!(InterfaceType::from_interface_name("wlp2s0"), InterfaceType::Wlan);
    assert_eq!(InterfaceType::from_interface_name("docker0"), InterfaceType::Docker);
    assert_eq!(InterfaceType::from_interface_name("br-1"), InterfaceType::Bridge);
    assert_eq!(InterfaceType::from_interface_name("veth12"), InterfaceType::VirtualEthernet);
    assert_eq!(InterfaceType::from_interface_name("virbr0"), InterfaceType::VmBridge);
    assert_eq!(InterfaceType::from_interface_name("wg0"), InterfaceType::Wireguard);
    assert_eq!(InterfaceType::from_interface_name("ap0"), InterfaceType::AccessPoint);
    assert_eq!(InterfaceType::from_interface_name("lo"), InterfaceType::Unknown);
    assert_eq!(InterfaceType::from_interface_name(""), InterfaceType::Unknown);
}

#[test]
fn interface_short_types_and_virtual_kinds() {
    assert_eq!(InterfaceType::Wlan.short_type(), "Wi-Fi");
    assert_eq!(InterfaceType::Slip.short_type(), "Serial Line IP Connection");
    assert_eq!(InterfaceType::Unknown.short_type(), "Network");
    assert!(InterfaceType::Docker.is_virtual());
    assert!(!InterfaceType::Ethernet.is_virtual());
}

fn drive(kind: DriveType) -> Drive {
    Drive {
        model: None,
        drive_type: kind,
        block_device: "sda".to_string(),
        sysfs_path: "/sys/block/sda".to_string(),
    }
}

#[test]
fn drive_kinds_by_name_and_properties() {
    assert_eq!(classify_drive("nvme0n1", None, None), DriveType::Nvme);
    assert_eq!(classify_drive("mmcblk0", None, None), DriveType::Emmc);
    assert_eq!(classify_drive("zram0", Some(true), None), DriveType::Zram);
    assert_eq!(classify_drive("loop3", None, None), DriveType::LoopDevice);
    assert_eq!(classify_drive("sda", Some(true), None), DriveType::Hdd);
    assert_eq!(classify_drive("sda", Some(false), Some(true)), DriveType::Flash);
    assert_eq!(classify_drive("sda", Some(false), Some(false)), DriveType::Ssd);
    assert_eq!(classify_drive("sda", Some(false), None), DriveType::Unknown);
    assert_eq!(classify_drive("sda", None, Some(true)), DriveType::Unknown);
}

#[test]
fn drive_names_icons_and_virtuality() {
    assert_eq!(drive(DriveType::Ssd).display_name("512 GB"), "512 GB Drive");
    assert_eq!(drive(DriveType::LoopDevice).display_name("1 MB"), "1 MB Loop Device");
    assert_eq!(drive(DriveType::Floppy).display_name("1 MB"), "Floppy Drive");
    assert_eq!(drive(DriveType::Nvme).icon(), "nvme-symbolic");
    assert_eq!(drive(DriveType::Unknown).icon(), Drive::default_icon());
    assert!(drive(DriveType::Raid).is_virtual(Some(100)));
    assert!(drive(DriveType::Ssd).is_virtual(Some(0)));
    assert!(drive(DriveType::Ssd).is_virtual(None));
    assert!(!drive(DriveType::Ssd).is_virtual(Some(512)));
}

#[test]
fn partition_contains_and_used_bytes() {
    let p = Partition {
        total_bytes: 1000,
        free_bytes: 250,
        mount_point: "/".to_string(),
        fs_type: "ext4".to_string(),
        device: "/dev/nvme0n1p2".to_string(),
    };
    assert!(p.contains("nvme0n1"));
    assert!(p.contains(""));
    assert!(!p.contains("sda"));
    assert_eq!(p.used_bytes(), 750);
}

#[test]
fn process_cells_fit_their_width() {
    assert_eq!(ProcessCell::PID.width(), 9);
    assert_eq!(ProcessCell::PID.keep_width("1234"), "1234     ");
    assert_eq!(ProcessCell::USER.keep_width("rootuser"), "root  ");
    assert_eq!(ProcessCell::USER.keep_width("中文字"), "中文  ");
    assert_eq!(ProcessCell::CPU.keep_width(""), "      ");
    assert_eq!(ProcessCell::MEM.to_label('↓'), "MEM↓   ");
    assert_eq!(ProcessCell::WRITE.to_label(' '), "WRIT   ");
}

#[test]
fn sort_toggles_direction_on_same_column() {
    let mut sort = None;
    try_change_sort(&mut sort, ProcessCell::CPU);
    assert_eq!(sort, Some((ProcessCell::CPU, true)));
    try_change_sort(&mut sort, ProcessCell::CPU);
    assert_eq!(sort, Some((ProcessCell::CPU, false)));
    try_change_sort(&mut sort, ProcessCell::MEM);
    assert_eq!(sort, Some((ProcessCell::MEM, true)));
}

#[test]
fn header_marks_sorted_column() {
    let b = LineBuilder::new();
    assert_eq!(b.labels().len(), 7);
    let h = b.header_labels(Some((ProcessCell::CPU, false)));
    assert_eq!(h[0], "PID      ");
    assert_eq!(h[2], "CPU↑  ");
    let h = b.header_labels(None);
    assert_eq!(h[2], "CPU   ");
    assert_eq!(PROCESS_ID, "PROCESS");
    assert!(matches!(ProcessMsg::Filter("x".to_string()), ProcessMsg::Filter(_)));
}

#[test]
fn settings_defaults() {
    let s = Settings {};
    assert_eq!(s.base(), Base::Decimal);
    assert_eq!(s.temperature_unit(), TemperatureUnit::Celsius);
    assert_eq!(s.refresh_speed(), RefreshSpeed::Normal);
    assert_eq!(s.sidebar_meter_type(), SidebarMeterType::ProgressBar);
    assert!(!s.network_bits());
    assert!(s.set_base(Base::Binary).is_ok());
    assert!(s.set_temperature_unit(TemperatureUnit::Kelvin).is_ok());
    assert!(s.set_refresh_speed(RefreshSpeed::Fast).is_ok());
    assert!(s.set_sidebar_meter_type(SidebarMeterType::Graph).is_ok());
    assert!(s.set_last_viewed_page("cpu").is_ok());
    assert_eq!(s.base(), Base::Decimal);
}

fn part(device: &str) -> Partition {
    Partition {
        total_bytes: 10,
        free_bytes: 5,
        mount_point: "/mnt".to_string(),
        fs_type: "ext4".to_string(),
        device: device.to_string(),
    }
}

#[test]
fn drive_partitions_and_identity() {
    let parts = vec![part("/dev/sda1"), part("/dev/nvme0n1p1"), part("/dev/sda2")];
    let mine = update_partition(&parts, "sda");
    let devices: Vec<&str> = mine.iter().map(|p| p.device.as_str()).collect();
    assert_eq!(devices, vec!["/dev/sda1", "/dev/sda2"]);
    let d = drive(DriveType::Ssd);
    assert_eq!(d.get_type_name(), "Drive");
    assert_eq!(d.get_id(), "/sys/block/sda");
    assert_eq!(d.get_name(), "sda");
    assert_eq!(restop::apps::file_name("/a/b/c"), "c");
    assert_eq!(restop::apps::file_name("plain"), "plain");
    assert_eq!(ProcessAction::KILL.name(), "KILL");
}

#[test]
fn command_lines_are_sanitized() {
    assert_eq!(restop::process::sanitize_cmdline(""), None);
    assert_eq!(restop::process::sanitize_cmdline("ls\0-l\0/tmp").as_deref(), Some("ls -l /tmp"));
}

#[test]
fn interface_names_and_uevent_entries() {
    assert_eq!(display_name(&Some("Onboard".to_string()), &Some("I219-V".to_string()), "eno1"), "Onboard");
    assert_eq!(display_name(&None, &Some("I219-V".to_string()), "eno1"), "I219-V");
    assert_eq!(display_name(&None, &None, "eno1"), "eno1");
    let lines: Vec<String> = ["DRIVER=e1000e", "PCI_ID=8086:15B8", "NOEQUALS", "A=B=C", "MODALIAS=pci:v00008086"]
        .iter()
        .map(|s| s.to_string())
        .collect();
    let e = read_uevent(&lines);
    let keys: Vec<&str> = e.iter().map(|(k, _)| k.as_str()).collect();
    assert_eq!(keys, vec!["DRIVER", "PCI_ID", "MODALIAS"]);
    assert_eq!(e[1].1, "8086:15B8");
}
