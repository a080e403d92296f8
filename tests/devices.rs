use tap::devices::{device_entry, is_encrypted_output, is_offered, is_partition_name, mounted_sources};

#[test]
fn partition_names() {
    assert!(is_partition_name("sda1"));
    assert!(is_partition_name("sdb12"));
    assert!(is_partition_name("nvme0n1p1"));
    assert!(is_partition_name("mmcblk0p2"));
    assert!(is_partition_name("vda1"));
    assert!(!is_partition_name("sda"));
    assert!(!is_partition_name("nvme0n1"));
    assert!(!is_partition_name("loop0"));
    assert!(!is_partition_name("vdb"));
}

#[test]
fn system_sources_from_findmnt() {
    let out = "/dev/nvme0n1p2\ntmpfs\n /dev/nvme0n1p1 \nproc\n";
    assert_eq!(mounted_sources(out), vec!["/dev/nvme0n1p2".to_string(), "/dev/nvme0n1p1".to_string()]);
}

#[test]
fn luks_detection() {
    assert!(is_encrypted_output("crypto_LUKS\n"));
    assert!(is_encrypted_output("\n  crypto_LUKS  \next4\n"));
    assert!(!is_encrypted_output("ext4\n"));
}

#[test]
fn offered_devices_and_entries() {
    let system = vec!["/dev/sda1".to_string()];
    assert!(!is_offered("/dev/sda1", &system, false));
    assert!(!is_offered("/dev/sdb1", &system, true));
    assert!(is_offered("/dev/sdb1", &system, false));
    let d = device_entry("/dev/sdb1".to_string(), Some("14.91 GB".to_string()));
    assert_eq!(d.display_name, "/dev/sdb1 (14.91 GB)");
    assert_eq!(device_entry("/dev/sdc1".to_string(), None).display_name, "/dev/sdc1");
}
