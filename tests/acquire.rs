use tap::acquire::{is_managed_mount, Acquisition, Command, Event, Failure, Outcome, Question, Step};

fn out(success: bool, stdout: &str) -> Event {
    Event::Output { success, stdout: stdout.to_string(), stderr: String::new() }
}

fn failed(stderr: &str) -> Event {
    Event::Output { success: false, stdout: String::new(), stderr: stderr.to_string() }
}

fn answer(yes: bool) -> Event {
    Event::Answer { yes }
}

fn start(device: &str) -> Acquisition {
    let (a, step) = Acquisition::for_device(device.to_string(), "/mnt".to_string(), "tap_".to_string());
    assert!(matches!(step, Step::Run { command: Command::ProbeType { ref device } } if device == "/dev/sdb1" || device == "/dev/sda1"));
    a
}

const EXAMINE_CLEAN: &str = "     Raid Level : raid1\n   Raid Devices : 2\n  Total Devices : 2\n";
const EXAMINE_DEGRADED: &str = "           UUID : 1234\n   Raid Devices : 2\n  Total Devices : 1\n";
const MDSTAT: &str = "Personalities : [raid1]\nmd126 : active raid1 sdc1[0]\nmd127 : active (read-only) raid1 sdb1[0]\n";

#[test]
fn clean_raid_member_resolves_without_prompt() {
    let mut a = start("/dev/sdb1");
    let steps = vec![
        a.on_event(out(true, "linux_raid_member\n")),
        a.on_event(out(true, EXAMINE_CLEAN)),
        a.on_event(out(true, "")),
        a.on_event(out(true, MDSTAT)),
        a.on_event(out(true, "  0  8  33  0  active sync  /dev/sdc1\n")),
        a.on_event(out(true, "  0  8  17  0  active sync  /dev/sdb1\n")),
    ];
    assert!(steps.iter().all(|s| !matches!(s, Step::Ask { .. })));
    assert!(matches!(&steps[1], Step::Run { command: Command::AssembleScan }));
    assert!(matches!(&steps[2], Step::Run { command: Command::ReadMdstat }));
    assert!(matches!(&steps[3], Step::Run { command: Command::Detail { array } } if array == "/dev/md126"));
    assert!(matches!(&steps[4], Step::Run { command: Command::Detail { array } } if array == "/dev/md127"));
    assert!(matches!(&steps[5], Step::Run { command: Command::FindMount { device } } if device == "/dev/md127"));
    assert_eq!(a.device, "/dev/md127");
}

#[test]
fn degraded_member_declined_never_forces() {
    let mut a = start("/dev/sdb1");
    a.on_event(out(true, "linux_raid_member\n"));
    a.on_event(out(true, EXAMINE_DEGRADED));
    let ask = a.on_event(failed("mdadm: /dev/md/0 assembled from 1 drive - not enough"));
    assert!(matches!(ask, Step::Ask { question: Question::ForceAssemble }));
    let done = a.on_event(answer(false));
    assert!(matches!(done, Step::Done { outcome: Outcome::Declined { question: Question::ForceAssemble } }));
}

#[test]
fn degraded_member_accepted_forces_by_uuid() {
    let mut a = start("/dev/sdb1");
    a.on_event(out(true, "linux_raid_member\n"));
    a.on_event(out(true, EXAMINE_DEGRADED));
    a.on_event(failed(""));
    let force = a.on_event(answer(true));
    assert!(matches!(force, Step::Run { command: Command::ForceAssembleByUuid { ref uuid } } if uuid == "1234"));
    let err = a.on_event(failed("mdadm: no devices found"));
    match err {
        Step::Done { outcome: Outcome::Failed { failure: Failure::ForceAssemblyFailed { stderr } } } => {
            assert_eq!(stderr, "mdadm: no devices found")
        },
        _ => panic!("expected a forced assembly failure"),
    }
}

#[test]
fn complete_array_failing_assembly_fails_without_prompt() {
    let mut a = start("/dev/sdb1");
    a.on_event(out(true, "linux_raid_member\n"));
    a.on_event(out(true, EXAMINE_CLEAN));
    let step = a.on_event(failed(""));
    assert!(matches!(step, Step::Done { outcome: Outcome::Failed { failure: Failure::AssemblyFailed } }));
}

#[test]
fn unreadable_raid_metadata_fails() {
    let mut a = start("/dev/sdb1");
    a.on_event(out(true, "linux_raid_member\n"));
    let step = a.on_event(failed("mdadm: cannot open"));
    assert!(matches!(step, Step::Done { outcome: Outcome::Failed { failure: Failure::RaidMetadataUnreadable } }));
}

#[test]
fn array_not_found_after_assembly() {
    let mut a = start("/dev/sdb1");
    a.on_event(out(true, "linux_raid_member\n"));
    a.on_event(out(true, EXAMINE_CLEAN));
    a.on_event(out(true, ""));
    let step = a.on_event(out(true, "Personalities :\n"));
    assert!(matches!(step, Step::Done { outcome: Outcome::Failed { failure: Failure::ArrayNotFound } }));
}

#[test]
fn firmware_member_activates_and_finds_mapper_device() {
    let mut a = start("/dev/sdb1");
    assert!(matches!(a.on_event(out(true, "isw_raid_member\n")), Step::Run { command: Command::ListFirmwareSets }));
    assert!(matches!(a.on_event(out(true, "")), Step::Run { command: Command::ListFirmwareMembers }));
    assert!(matches!(a.on_event(out(true, "/dev/sdb1: isw, \"isw_abc\", GROUP, ok\n")), Step::Run { command: Command::ShowFirmwareSets }));
    assert!(matches!(a.on_event(out(true, "name   : isw_abc_Vol0\n")), Step::Run { command: Command::ActivateFirmware }));
    assert!(matches!(a.on_event(out(true, "")), Step::Run { command: Command::ListMapper }));
    let step = a.on_event(out(true, "control\nisw_abc_Vol0\n"));
    assert!(matches!(step, Step::Run { command: Command::FindMount { ref device } } if device == "/dev/mapper/isw_abc_Vol0"));
}

#[test]
fn firmware_set_is_not_guessed_from_isw_prefix() {
    let mut a = start("/dev/sdb1");
    a.on_event(out(true, "isw_raid_member\n"));
    a.on_event(out(true, ""));
    a.on_event(out(true, "/dev/sdb1: isw\n"));
    a.on_event(out(true, "name : isw_abc_Vol0\n"));
    a.on_event(out(true, ""));
    match a.on_event(out(true, "control\nisw_zzz_Vol1\n")) {
        Step::Done { outcome: Outcome::Failed { failure: Failure::MapperDeviceNotFound { candidates } } } => {
            assert_eq!(candidates, vec!["/dev/mapper/isw_zzz_Vol1".to_string()])
        },
        _ => panic!("expected no mapper device"),
    }
}

#[test]
fn correlation_does_not_take_a_longer_device_name() {
    let mut a = start("/dev/sda1");
    a.on_event(out(true, "linux_raid_member\n"));
    a.on_event(out(true, EXAMINE_CLEAN));
    a.on_event(out(true, ""));
    a.on_event(out(true, "md0 : active raid1 sda10[0]\n"));
    let step = a.on_event(out(true, "  0  8  10  0  active sync  /dev/sda10\n"));
    assert!(matches!(step, Step::Done { outcome: Outcome::Failed { failure: Failure::ArrayNotFound } }));
}

#[test]
fn firmware_failures() {
    let mut a = start("/dev/sdb1");
    a.on_event(out(true, "isw_raid_member\n"));
    a.on_event(out(true, ""));
    let step = a.on_event(out(true, "/dev/sdc: isw\n"));
    assert!(matches!(step, Step::Done { outcome: Outcome::Failed { failure: Failure::FirmwareMetadataUnreadable } }));

    let mut b = start("/dev/sdb1");
    b.on_event(out(true, "isw_raid_member\n"));
    b.on_event(out(true, ""));
    b.on_event(out(true, "/dev/sdb1: isw\n"));
    b.on_event(out(true, "name : vol\n"));
    let step = b.on_event(failed("ERROR: no RAID set"));
    assert!(matches!(step, Step::Done { outcome: Outcome::Failed { failure: Failure::FirmwareActivationFailed { .. } } }));

    let mut c = start("/dev/sdb1");
    c.on_event(out(true, "isw_raid_member\n"));
    c.on_event(out(true, ""));
    c.on_event(out(true, "/dev/sdb1: isw\n"));
    c.on_event(out(true, "name : vol\n"));
    c.on_event(out(true, ""));
    match c.on_event(out(true, "control\nvg-root\n")) {
        Step::Done { outcome: Outcome::Failed { failure: Failure::MapperDeviceNotFound { candidates } } } => {
            assert_eq!(candidates, vec!["/dev/mapper/vg-root".to_string()])
        },
        _ => panic!("expected no mapper device"),
    }
}

#[test]
fn plain_device_mounted_read_only_is_used_as_is() {
    let mut a = start("/dev/sda1");
    assert!(matches!(a.on_event(out(true, "ext4\n")), Step::Run { command: Command::FindMount { .. } }));
    assert!(matches!(a.on_event(out(true, "/media/usb\n")), Step::Run { command: Command::MountOptions { ref path } } if path == "/media/usb"));
    let done = a.on_event(out(true, "ro,relatime\n"));
    assert!(matches!(done, Step::Done { outcome: Outcome::Ready { ref path, mounted_here: false, read_only: true } } if path == "/media/usb"));
}

#[test]
fn read_write_mount_remount_choices() {
    let mut a = start("/dev/sda1");
    a.on_event(out(true, "ext4\n"));
    a.on_event(out(true, "/media/usb\n"));
    assert!(matches!(a.on_event(out(true, "rw,relatime\n")), Step::Ask { question: Question::Remount }));
    let declined = a.on_event(answer(false));
    assert!(matches!(declined, Step::Done { outcome: Outcome::Ready { read_only: false, .. } }));

    let mut b = start("/dev/sda1");
    b.on_event(out(true, "ext4\n"));
    b.on_event(out(true, "/media/usb\n"));
    b.on_event(out(true, "rw\n"));
    assert!(matches!(b.on_event(answer(true)), Step::Run { command: Command::Remount { ref device } } if device == "/dev/sda1"));
    assert!(matches!(b.on_event(failed("busy")), Step::Done { outcome: Outcome::Failed { failure: Failure::RemountFailed { .. } } }));
}

#[test]
fn unmounted_ntfs_device_is_mounted_with_ntfs3g() {
    let mut a = start("/dev/sda1");
    a.on_event(out(true, "ntfs\n"));
    assert!(matches!(a.on_event(out(false, "")), Step::Ask { question: Question::Mount }));
    let mk = a.on_event(answer(true));
    assert!(matches!(mk, Step::Run { command: Command::MakeMountPoint { ref path } } if path == "/mnt/tap_sda1"));
    assert!(matches!(a.on_event(out(true, "")), Step::Run { command: Command::ProbeType { .. } }));
    let mount = a.on_event(out(true, "ntfs\n"));
    assert!(matches!(mount, Step::Run { command: Command::Mount { ntfs: true, ref path, .. } } if path == "/mnt/tap_sda1"));
    let done = a.on_event(out(true, ""));
    assert!(matches!(done, Step::Done { outcome: Outcome::Ready { mounted_here: true, read_only: true, .. } }));
    assert!(is_managed_mount("/mnt/tap_sda1", "/mnt", "tap_"));
}

#[test]
fn mount_declined_and_mount_failures() {
    let mut a = start("/dev/sda1");
    a.on_event(out(true, "ext4\n"));
    a.on_event(out(true, ""));
    assert!(matches!(a.on_event(answer(false)), Step::Done { outcome: Outcome::Declined { question: Question::Mount } }));

    let mut b = start("/dev/sda1");
    b.on_event(out(true, "ext4\n"));
    b.on_event(out(true, ""));
    b.on_event(answer(true));
    assert!(matches!(b.on_event(failed("denied")), Step::Done { outcome: Outcome::Failed { failure: Failure::MountPointFailed { .. } } }));

    let mut c = start("/dev/sda1");
    c.on_event(out(true, "ext4\n"));
    c.on_event(out(true, ""));
    c.on_event(answer(true));
    c.on_event(out(true, ""));
    assert!(matches!(c.on_event(out(true, "ext4\n")), Step::Run { command: Command::Mount { ntfs: false, .. } }));
    assert!(matches!(c.on_event(failed("wrong fs type")), Step::Done { outcome: Outcome::Failed { failure: Failure::MountFailed { ntfs: false, .. } } }));
}

#[test]
fn path_source_checks_read_only() {
    let (mut a, step) = Acquisition::for_path("/evidence".to_string());
    assert!(matches!(step, Step::Run { command: Command::MountOptions { ref path } } if path == "/evidence"));
    assert!(matches!(a.on_event(out(true, "rw\n")), Step::Ask { question: Question::ContinueWritable }));
    assert!(matches!(a.on_event(answer(false)), Step::Done { outcome: Outcome::Declined { question: Question::ContinueWritable } }));

    let (mut b, _) = Acquisition::for_path("/evidence".to_string());
    assert!(matches!(b.on_event(out(true, "ro\n")), Step::Done { outcome: Outcome::Ready { read_only: true, .. } }));
}

#[test]
fn only_own_mount_points_are_unmounted() {
    assert!(is_managed_mount("/mnt/tap_md127", "/mnt", "tap_"));
    assert!(!is_managed_mount("/media/usb", "/mnt", "tap_"));
    assert!(!is_managed_mount("/mnt/other", "/mnt", "tap_"));
}
