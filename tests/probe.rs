use tap::probe::{
    classify_device, find_mapper_device, is_likely_degraded, list_mapper_devices, output_mentions,
    parse_dmraid_sets, parse_examine, parse_mdstat, read_only_from_options, single_value_of, DeviceKind,
};

const EXAMINE: &str = "/dev/sdb1:
          Magic : a92b4efc
        Version : 1.2
     Array UUID : 3f2a1b4c:5d6e7f80:91a2b3c4:d5e6f708
           Name : host:0
     Raid Level : raid1
   Raid Devices : 2
  Total Devices : 1
";

#[test]
fn classify_from_blkid_type() {
    assert!(classify_device(true, "linux_raid_member\n") == DeviceKind::StandardRaidMember);
    assert!(classify_device(true, "isw_raid_member\n") == DeviceKind::FirmwareRaidMember);
    assert!(classify_device(true, "ntfs\n") == DeviceKind::Plain);
    assert!(classify_device(false, "linux_raid_member\n") == DeviceKind::Plain);
    assert!(classify_device(true, "") == DeviceKind::Plain);
}

#[test]
fn single_values_are_trimmed() {
    assert_eq!(single_value_of(true, "  ntfs \n"), Some("ntfs".to_string()));
    assert_eq!(single_value_of(true, " \n"), None);
    assert_eq!(single_value_of(false, "/mnt/x\n"), None);
    assert_eq!(single_value_of(true, "/media/usb\n"), Some("/media/usb".to_string()));
}

#[test]
fn read_only_needs_ro_option() {
    assert!(read_only_from_options(true, "ro,relatime\n"));
    assert!(read_only_from_options(true, "nosuid, ro\n"));
    assert!(!read_only_from_options(true, "rw,relatime\n"));
    assert!(!read_only_from_options(true, "rw,errors=remount-ro\n"));
    assert!(!read_only_from_options(false, "ro\n"));
}

#[test]
fn examine_reads_fields() {
    let m = parse_examine(EXAMINE);
    assert_eq!(m.name, Some("host".to_string()));
    assert_eq!(m.raid_level, Some("raid1".to_string()));
    assert_eq!(m.raid_devices, Some(2));
    assert_eq!(m.total_devices, Some(1));
    assert_eq!(m.uuid, None);
    assert!(is_likely_degraded(&m));
}

#[test]
fn examine_uuid_takes_text_up_to_second_colon() {
    let m = parse_examine("UUID : aa:bb:cc\nRaid Devices : 3\nTotal Devices : 3\r\n");
    assert_eq!(m.uuid, Some("aa".to_string()));
    assert_eq!(m.raid_devices, Some(3));
    assert_eq!(m.total_devices, Some(3));
    assert!(!is_likely_degraded(&m));
}

#[test]
fn examine_unparsable_counts_are_unknown() {
    let m = parse_examine("Raid Devices : two\nTotal Devices : +4\n");
    assert_eq!(m.raid_devices, None);
    assert_eq!(m.total_devices, Some(4));
    assert!(is_likely_degraded(&m));
    let big = parse_examine("Raid Devices : 4294967296\n");
    assert_eq!(big.raid_devices, None);
}

#[test]
fn dmraid_sets_read_fields() {
    let m = parse_dmraid_sets("name   : isw_bfjdhhhcg_Volume0\ntype   : mirror\nstatus : ok\nsize   : 100\n");
    assert_eq!(m.raid_set_name, Some("isw_bfjdhhhcg_Volume0".to_string()));
    assert_eq!(m.raid_type, Some("mirror".to_string()));
    assert_eq!(m.status, Some("ok".to_string()));
    let none = parse_dmraid_sets("  name : indented\n");
    assert_eq!(none.raid_set_name, None);
}

#[test]
fn mentions_use_short_device_name() {
    assert!(output_mentions("/dev/sdb: isw, \"isw_x\", GROUP, ok", "/dev/sdb"));
    assert!(output_mentions("   0   8   17   0   active sync   /dev/sdb1", "/dev/sdb1"));
    assert!(!output_mentions("active sync /dev/sdc1", "/dev/sdb1"));
}

#[test]
fn mentions_need_the_whole_device_name() {
    assert!(!output_mentions("   0   8   26   0   active sync   /dev/sda10\n", "/dev/sda1"));
    assert!(output_mentions("/dev/sda10 /dev/sda1\n", "/dev/sda1"));
    assert!(output_mentions("sda1", "/dev/sda1"));
    assert!(!output_mentions("xsda1", "/dev/sda1"));
}

#[test]
fn unicode_white_space_is_trimmed() {
    assert_eq!(single_value_of(true, "\u{a0}\u{2003}ext4\u{3000}\t"), Some("ext4".to_string()));
    assert_eq!(single_value_of(true, "\u{200b}ext4"), Some("\u{200b}ext4".to_string()));
}

#[test]
fn mdstat_lists_arrays() {
    let out = "Personalities : [raid1]\nmd127 : active (read-only) raid1 sdb1[0]\n      976630464 blocks\nmd0 : inactive sdc1[1](S)\nunused devices: <none>\n";
    assert_eq!(parse_mdstat(out), vec!["/dev/md127".to_string(), "/dev/md0".to_string()]);
    assert!(parse_mdstat("Personalities :\n").is_empty());
}

#[test]
fn mapper_listing_matches_set_name_only() {
    let out = "control\nisw_abc_Volume0\n";
    assert_eq!(find_mapper_device(out, "abc"), Some("/dev/mapper/isw_abc_Volume0".to_string()));
    assert_eq!(find_mapper_device("control\nisw_other_Volume0\n", "abc"), None);
    assert_eq!(find_mapper_device("control\nvg-root\n", "zzz"), None);
    assert_eq!(find_mapper_device("control\nvg-root\n", "root"), Some("/dev/mapper/vg-root".to_string()));
    assert_eq!(list_mapper_devices("control\nvg-root\n\n"), vec!["/dev/mapper/vg-root".to_string()]);
}
