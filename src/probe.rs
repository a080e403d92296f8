//! Readers for the text that the diagnostic tools print: what `blkid`,
//! `mdadm`, `dmraid`, `/proc/mdstat`, `findmnt` and a listing of
//! `/dev/mapper` say about a device.

use vstd::prelude::*;
use crate::text::{
    chars_of, contains, contains_token, has_infix, has_token, has_prefix, leading_word, first_word, lines, lines_of,
    parse_u32, parsed_u32, split, split_on, starts_with, starts_with_str, string_from_chars, strip_leading,
    strip_prefix_all, trim, trimmed, views,
};

verus! {

/// How a block device takes part in RAID.
#[derive(PartialEq, Eq, Structural, Clone, Copy)]
pub enum DeviceKind {
    /// Not a RAID member: the device itself is read.
    Plain,
    /// A member of a standard Linux (md) RAID set.
    StandardRaidMember,
    /// A member of an Intel firmware (ISW) RAID set.
    FirmwareRaidMember,
}

/// The kind that `blkid`'s TYPE value gives a device; a failed run means a
/// plain device.
pub open spec fn kind_of(success: bool, out: Seq<char>) -> DeviceKind {
    let t = trimmed(out);
    if !success {
        DeviceKind::Plain
    } else if has_infix(t, "isw_raid_member"@) {
        DeviceKind::FirmwareRaidMember
    } else if has_infix(t, "raid_member"@) {
        DeviceKind::StandardRaidMember
    } else {
        DeviceKind::Plain
    }
}

/// Classifies a device from what `blkid -s TYPE -o value` printed.
pub fn classify_device(success: bool, out: &str) -> (r: DeviceKind)
    ensures
        r == kind_of(success, out@),
{
    if !success {
        return DeviceKind::Plain;
    }
    let t = trim(&chars_of(out));
    if contains(&t, &chars_of("isw_raid_member")) {
        DeviceKind::FirmwareRaidMember
    } else if contains(&t, &chars_of("raid_member")) {
        DeviceKind::StandardRaidMember
    } else {
        DeviceKind::Plain
    }
}

/// The single value a tool printed, trimmed, when it ran and printed one.
pub open spec fn single_value(success: bool, out: Seq<char>) -> Option<Seq<char>> {
    if success && trimmed(out).len() > 0 {
        Some(trimmed(out))
    } else {
        None
    }
}

/// The view of an optional string.
pub open spec fn opt_str(o: Option<String>) -> Option<Seq<char>> {
    match o {
        Some(s) => Some(s@),
        None => None,
    }
}

/// The value printed by `blkid -s TYPE -o value` (the file system type) or
/// `findmnt -n -o TARGET` (the mount point), if any.
pub fn single_value_of(success: bool, out: &str) -> (r: Option<String>)
    ensures
        opt_str(r) == single_value(success, out@),
{
    if !success {
        return None;
    }
    let t = trim(&chars_of(out));
    if t.len() > 0 {
        Some(string_from_chars(&t))
    } else {
        None
    }
}

/// Whether the comma-separated mount options that `findmnt -n -o OPTIONS`
/// printed hold `ro`.
pub open spec fn options_read_only(success: bool, out: Seq<char>) -> bool {
    success && exists|i: int| 0 <= i < split_on(out, ',').len() && trimmed(#[trigger] split_on(out, ',')[i]) == "ro"@
}

/// Reads whether a mount is read-only from its options.
pub fn read_only_from_options(success: bool, out: &str) -> (r: bool)
    ensures
        r == options_read_only(success, out@),
{
    if !success {
        return false;
    }
    let parts = split(&chars_of(out), ',');
    let ro = chars_of("ro");
    let n = parts.len();
    for i in 0..n
        invariant
            n == parts@.len(),
            success,
            views(parts@) == split_on(out@, ','),
            ro@ == "ro"@,
            forall|j: int| 0 <= j < i ==> trimmed(#[trigger] split_on(out@, ',')[j]) != "ro"@,
    {
        assert(views(parts@)[i as int] == parts@[i as int]@);
        let t = trim(&parts[i]);
        if t.len() == ro.len() && starts_with(&t, &ro) {
            assert(t@ =~= ro@) by {
                assert(t@.take(ro@.len() as int) =~= t@);
            }
            assert(trimmed(split_on(out@, ',')[i as int]) == "ro"@);
            return true;
        }
        assert(t@ != ro@) by {
            if t@ == ro@ {
                assert(t@.take(ro@.len() as int) =~= t@);
            }
        }
    }
    false
}

proof fn lemma_split_has_two(s: Seq<char>, sep: char)
    requires
        s.contains(sep),
    ensures
        split_on(s, sep).len() >= 2,
    decreases s.len(),
{
    crate::text::lemma_split_nonempty(s.drop_last(), sep);
    if s.last() != sep {
        let k = choose|k: int| 0 <= k < s.len() && s[k] == sep;
        assert(s.drop_last()[k] == sep);
        lemma_split_has_two(s.drop_last(), sep);
    }
}

/// The value of a `key : value` line: the trimmed text between the first
/// colon and the next one.
pub open spec fn field_value(t: Seq<char>) -> Seq<char> {
    trimmed(split_on(t, ':')[1])
}

/// Whether `t` holds the character `c`.
pub fn has_char(t: &Vec<char>, c: char) -> (r: bool)
    ensures
        r == t@.contains(c),
{
    let n = t.len();
    for i in 0..n
        invariant
            n == t@.len(),
            forall|j: int| 0 <= j < i ==> t@[j] != c,
    {
        if t[i] == c {
            return true;
        }
    }
    false
}

/// The value of a `key : value` line that holds a colon.
pub fn field_of(t: &Vec<char>) -> (r: Vec<char>)
    requires
        t@.contains(':'),
    ensures
        r@ == field_value(t@),
{
    proof {
        lemma_split_has_two(t@, ':');
    }
    let parts = split(t, ':');
    assert(views(parts@)[1] == parts@[1]@);
    trim(&parts[1])
}

/// Array metadata that `mdadm --examine` reports for a member device.
pub struct RaidMetadata {
    pub uuid: Option<String>,
    pub raid_level: Option<String>,
    /// The number of devices the array expects.
    pub raid_devices: Option<u32>,
    /// The number of devices present.
    pub total_devices: Option<u32>,
    pub name: Option<String>,
}

/// `RaidMetadata` as plain values.
pub struct RaidInfo {
    pub uuid: Option<Seq<char>>,
    pub raid_level: Option<Seq<char>>,
    pub raid_devices: Option<u32>,
    pub total_devices: Option<u32>,
    pub name: Option<Seq<char>>,
}

impl RaidMetadata {
    pub open spec fn model(&self) -> RaidInfo {
        RaidInfo {
            uuid: opt_str(self.uuid),
            raid_level: opt_str(self.raid_level),
            raid_devices: self.raid_devices,
            total_devices: self.total_devices,
            name: opt_str(self.name),
        }
    }
}

/// Metadata with no field known.
pub open spec fn no_raid_info() -> RaidInfo {
    RaidInfo { uuid: None, raid_level: None, raid_devices: None, total_devices: None, name: None }
}

/// The metadata after one line of `mdadm --examine` output: a trimmed
/// `key : value` line sets the field its key names.
pub open spec fn examine_line(m: RaidInfo, line: Seq<char>) -> RaidInfo {
    let t = trimmed(line);
    if !t.contains(':') {
        m
    } else if has_prefix(t, "UUID"@) {
        RaidInfo { uuid: Some(field_value(t)), ..m }
    } else if has_prefix(t, "Raid Level"@) {
        RaidInfo { raid_level: Some(field_value(t)), ..m }
    } else if has_prefix(t, "Raid Devices"@) {
        RaidInfo { raid_devices: parsed_u32(field_value(t)), ..m }
    } else if has_prefix(t, "Total Devices"@) {
        RaidInfo { total_devices: parsed_u32(field_value(t)), ..m }
    } else if has_prefix(t, "Name"@) || has_prefix(t, "MD_DEVNAME"@) {
        RaidInfo { name: Some(field_value(t)), ..m }
    } else {
        m
    }
}

/// The metadata read from some lines, in order.
pub open spec fn examined(ls: Seq<Seq<char>>) -> RaidInfo
    decreases ls.len(),
{
    if ls.len() == 0 {
        no_raid_info()
    } else {
        examine_line(examined(ls.drop_last()), ls.last())
    }
}

/// Reads array metadata from the output of `mdadm --examine`.
pub fn parse_examine(out: &str) -> (r: RaidMetadata)
    ensures
        r.model() == examined(lines_of(out@)),
{
    let ls = lines(&chars_of(out));
    let ghost lv = lines_of(out@);
    let mut m = RaidMetadata { uuid: None, raid_level: None, raid_devices: None, total_devices: None, name: None };
    let n = ls.len();
    assert(lv.take(0) =~= Seq::<Seq<char>>::empty());
    for i in 0..n
        invariant
            n == ls@.len(),
            views(ls@) == lv,
            m.model() == examined(lv.take(i as int)),
    {
        assert(lv[i as int] == ls@[i as int]@);
        assert(lv.take(i + 1).drop_last() =~= lv.take(i as int));
        let t = trim(&ls[i]);
        if has_char(&t, ':') {
            if starts_with_str(&t, "UUID") {
                m.uuid = Some(string_from_chars(&field_of(&t)));
            } else if starts_with_str(&t, "Raid Level") {
                m.raid_level = Some(string_from_chars(&field_of(&t)));
            } else if starts_with_str(&t, "Raid Devices") {
                m.raid_devices = parse_u32(&field_of(&t));
            } else if starts_with_str(&t, "Total Devices") {
                m.total_devices = parse_u32(&field_of(&t));
            } else if starts_with_str(&t, "Name") || starts_with_str(&t, "MD_DEVNAME") {
                m.name = Some(string_from_chars(&field_of(&t)));
            }
        }
    }
    assert(lv.take(n as int) =~= lv);
    m
}

/// Whether the array looks degraded: fewer devices present than expected,
/// or counts unknown.
pub open spec fn likely_degraded(m: RaidInfo) -> bool {
    match (m.raid_devices, m.total_devices) {
        (Some(expected), Some(present)) => present < expected,
        _ => true,
    }
}

/// Decides whether the array looks degraded.
pub fn is_likely_degraded(m: &RaidMetadata) -> (r: bool)
    ensures
        r == likely_degraded(m.model()),
{
    match (m.raid_devices, m.total_devices) {
        (Some(expected), Some(present)) => present < expected,
        _ => true,
    }
}

/// Firmware RAID set metadata that `dmraid -s` reports.
pub struct DmraidMetadata {
    pub raid_set_name: Option<String>,
    pub raid_type: Option<String>,
    pub status: Option<String>,
}

/// `DmraidMetadata` as plain values.
pub struct DmraidInfo {
    pub raid_set_name: Option<Seq<char>>,
    pub raid_type: Option<Seq<char>>,
    pub status: Option<Seq<char>>,
}

impl DmraidMetadata {
    pub open spec fn model(&self) -> DmraidInfo {
        DmraidInfo { raid_set_name: opt_str(self.raid_set_name), raid_type: opt_str(self.raid_type), status: opt_str(self.status) }
    }
}

/// The set metadata after one line of `dmraid -s` output: a line that
/// starts with a key and holds a colon sets that field.
pub open spec fn dmraid_line(m: DmraidInfo, line: Seq<char>) -> DmraidInfo {
    if !line.contains(':') {
        m
    } else if has_prefix(line, "name"@) {
        DmraidInfo { raid_set_name: Some(field_value(line)), ..m }
    } else if has_prefix(line, "type"@) {
        DmraidInfo { raid_type: Some(field_value(line)), ..m }
    } else if has_prefix(line, "status"@) {
        DmraidInfo { status: Some(field_value(line)), ..m }
    } else {
        m
    }
}

/// The set metadata read from some lines, in order.
pub open spec fn dmraid_read(ls: Seq<Seq<char>>) -> DmraidInfo
    decreases ls.len(),
{
    if ls.len() == 0 {
        DmraidInfo { raid_set_name: None, raid_type: None, status: None }
    } else {
        dmraid_line(dmraid_read(ls.drop_last()), ls.last())
    }
}

/// Reads set metadata from the output of `dmraid -s`.
pub fn parse_dmraid_sets(out: &str) -> (r: DmraidMetadata)
    ensures
        r.model() == dmraid_read(lines_of(out@)),
{
    let ls = lines(&chars_of(out));
    let ghost lv = lines_of(out@);
    let mut m = DmraidMetadata { raid_set_name: None, raid_type: None, status: None };
    let n = ls.len();
    assert(lv.take(0) =~= Seq::<Seq<char>>::empty());
    for i in 0..n
        invariant
            n == ls@.len(),
            views(ls@) == lv,
            m.model() == dmraid_read(lv.take(i as int)),
    {
        assert(lv[i as int] == ls@[i as int]@);
        assert(lv.take(i + 1).drop_last() =~= lv.take(i as int));
        let l = &ls[i];
        if has_char(l, ':') {
            if starts_with_str(l, "name") {
                m.raid_set_name = Some(string_from_chars(&field_of(l)));
            } else if starts_with_str(l, "type") {
                m.raid_type = Some(string_from_chars(&field_of(l)));
            } else if starts_with_str(l, "status") {
                m.status = Some(string_from_chars(&field_of(l)));
            }
        }
    }
    assert(lv.take(n as int) =~= lv);
    m
}

/// A device path without its leading `/dev/` (every repetition of it).
pub open spec fn short_name(device: Seq<char>) -> Seq<char> {
    strip_prefix_all(device, "/dev/"@)
}

/// Whether a tool's output mentions the device by its short name, as a
/// whole word (`sda1` is not mentioned by `sda10`).
pub open spec fn mentions_device(out: Seq<char>, device: Seq<char>) -> bool {
    has_token(out, short_name(device))
}

/// Decides whether output (of `dmraid -r` or `mdadm --detail`) mentions the
/// device by its short name.
pub fn output_mentions(out: &str, device: &str) -> (r: bool)
    ensures
        r == mentions_device(out@, device@),
{
    let dev = chars_of("/dev/");
    proof {
        reveal_strlit("/dev/");
    }
    let short = strip_leading(&chars_of(device), &dev);
    contains_token(&chars_of(out), &short)
}

/// The array devices that `/proc/mdstat` lists: `/dev/` and the first word
/// of each line that starts with `md`.
pub open spec fn md_arrays(ls: Seq<Seq<char>>) -> Seq<Seq<char>>
    decreases ls.len(),
{
    if ls.len() == 0 {
        Seq::empty()
    } else if has_prefix(ls.last(), "md"@) {
        md_arrays(ls.drop_last()).push("/dev/"@ + first_word(ls.last()))
    } else {
        md_arrays(ls.drop_last())
    }
}

/// The array devices listed in `/proc/mdstat`.
pub fn parse_mdstat(out: &str) -> (r: Vec<String>)
    ensures
        r@.map_values(|s: String| s@) == md_arrays(lines_of(out@)),
{
    let ls = lines(&chars_of(out));
    let ghost lv = lines_of(out@);
    let mut r: Vec<String> = Vec::new();
    let n = ls.len();
    assert(lv.take(0) =~= Seq::<Seq<char>>::empty());
    assert(r@.map_values(|s: String| s@) =~= md_arrays(lv.take(0)));
    for i in 0..n
        invariant
            n == ls@.len(),
            views(ls@) == lv,
            r@.map_values(|s: String| s@) == md_arrays(lv.take(i as int)),
    {
        assert(lv[i as int] == ls@[i as int]@);
        assert(lv.take(i + 1).drop_last() =~= lv.take(i as int));
        assert(lv.take(i + 1).last() == lv[i as int]);
        if starts_with_str(&ls[i], "md") {
            let w = leading_word(&ls[i]);
            let mut dev = String::from_str("/dev/");
            dev.append(string_from_chars(&w).as_str());
            let ghost prev = r@;
            r.push(dev);
            assert(r@.map_values(|s: String| s@) =~= prev.map_values(|s: String| s@).push(dev@));
        }
    }
    assert(lv.take(n as int) =~= lv);
    r
}

/// The first entry of a `/dev/mapper` listing (trimmed) that holds the set
/// name, as a device path.
pub open spec fn mapper_match(ls: Seq<Seq<char>>, set_name: Seq<char>) -> Option<Seq<char>>
    decreases ls.len(),
{
    if ls.len() == 0 {
        None
    } else if has_infix(trimmed(ls[0]), set_name) {
        Some("/dev/mapper/"@ + trimmed(ls[0]))
    } else {
        mapper_match(ls.skip(1), set_name)
    }
}

/// Finds the activated firmware RAID device in a `/dev/mapper` listing.
pub fn find_mapper_device(out: &str, set_name: &str) -> (r: Option<String>)
    ensures
        opt_str(r) == mapper_match(lines_of(out@), set_name@),
{
    let ls = lines(&chars_of(out));
    let ghost lv = lines_of(out@);
    let name = chars_of(set_name);
    let n = ls.len();
    assert(lv.skip(0) =~= lv);
    for i in 0..n
        invariant
            n == ls@.len(),
            views(ls@) == lv,
            lv == lines_of(out@),
            name@ == set_name@,
            mapper_match(lv.skip(i as int), set_name@) == mapper_match(lv, set_name@),
    {
        assert(lv.skip(i as int)[0] == ls@[i as int]@);
        assert(lv.skip(i as int).skip(1) =~= lv.skip(i + 1));
        let t = trim(&ls[i]);
        assert(t@ == trimmed(lv.skip(i as int)[0]));
        if contains(&t, &name) {
            let mut dev = String::from_str("/dev/mapper/");
            dev.append(string_from_chars(&t).as_str());
            assert(mapper_match(lv.skip(i as int), set_name@) == Some("/dev/mapper/"@ + t@));
            return Some(dev);
        }
    }
    assert(lv.skip(n as int) =~= Seq::<Seq<char>>::empty());
    None
}

/// The entries of a `/dev/mapper` listing offered when no device matched:
/// every non-empty trimmed line but `control`, as a device path.
pub open spec fn mapper_candidates(ls: Seq<Seq<char>>) -> Seq<Seq<char>>
    decreases ls.len(),
{
    if ls.len() == 0 {
        Seq::empty()
    } else if trimmed(ls.last()).len() > 0 && trimmed(ls.last()) != "control"@ {
        mapper_candidates(ls.drop_last()).push("/dev/mapper/"@ + trimmed(ls.last()))
    } else {
        mapper_candidates(ls.drop_last())
    }
}

/// The device mapper entries of a listing, for the operator to choose from.
pub fn list_mapper_devices(out: &str) -> (r: Vec<String>)
    ensures
        r@.map_values(|s: String| s@) == mapper_candidates(lines_of(out@)),
{
    let ls = lines(&chars_of(out));
    let ghost lv = lines_of(out@);
    let control = String::from_str("control");
    let mut r: Vec<String> = Vec::new();
    let n = ls.len();
    assert(lv.take(0) =~= Seq::<Seq<char>>::empty());
    assert(r@.map_values(|s: String| s@) =~= mapper_candidates(lv.take(0)));
    for i in 0..n
        invariant
            n == ls@.len(),
            views(ls@) == lv,
            control@ == "control"@,
            r@.map_values(|s: String| s@) == mapper_candidates(lv.take(i as int)),
    {
        assert(lv[i as int] == ls@[i as int]@);
        assert(lv.take(i + 1).drop_last() =~= lv.take(i as int));
        assert(lv.take(i + 1).last() == lv[i as int]);
        let tc = trim(&ls[i]);
        let t = string_from_chars(&tc);
        if tc.len() > 0 && !(t == control) {
            let mut dev = String::from_str("/dev/mapper/");
            dev.append(t.as_str());
            let ghost prev = r@;
            r.push(dev);
            assert(r@.map_values(|s: String| s@) =~= prev.map_values(|s: String| s@).push(dev@));
        }
    }
    assert(lv.take(n as int) =~= lv);
    r
}

} // verus!
