//! Which block devices are offered for selection: partitions that the
//! running system does not use and that are not encrypted.

use vstd::prelude::*;
use crate::text::{
    chars_of, contains, has_infix, has_prefix, is_digit, lines, lines_of, starts_with_str, string_from_chars,
    trim, trimmed, views,
};

verus! {

/// A device offered for selection.
pub struct BlockDevice {
    pub path: String,
    /// The path, with its size when known.
    pub display_name: String,
}

/// A partition name (not a whole disk) of a SATA/SCSI, NVMe, MMC or virtio
/// disk: `sda1`, `nvme0n1p1`, `mmcblk0p1`, `vda1`.
pub open spec fn partition_name(n: Seq<char>) -> bool {
    ||| (has_prefix(n, "sd"@) && n.len() > 3 && is_digit(n[3]))
    ||| (has_prefix(n, "nvme"@) && has_infix(n, "p"@) && is_digit(n.last()))
    ||| (has_prefix(n, "mmcblk"@) && has_infix(n, "p"@) && is_digit(n.last()))
    ||| (has_prefix(n, "vd"@) && n.len() > 3 && is_digit(n[3]))
}

/// Whether a `/dev` entry name is a partition that may be offered.
pub fn is_partition_name(name: &str) -> (r: bool)
    ensures
        r == partition_name(name@),
{
    let n = chars_of(name);
    let len = n.len();
    let p = chars_of("p");
    let fourth_digit = len > 3 && '0' <= n[3] && n[3] <= '9';
    let last_digit = len > 0 && '0' <= n[len - 1] && n[len - 1] <= '9';
    proof {
        reveal_strlit("sd");
        reveal_strlit("vd");
        reveal_strlit("nvme");
        reveal_strlit("mmcblk");
    }
    if starts_with_str(&n, "sd") && fourth_digit {
        return true;
    }
    if starts_with_str(&n, "nvme") && contains(&n, &p) && last_digit {
        return true;
    }
    if starts_with_str(&n, "mmcblk") && contains(&n, &p) && last_digit {
        return true;
    }
    starts_with_str(&n, "vd") && fourth_digit
}

/// The device sources of mounted file systems, as `findmnt -n -o SOURCE`
/// lists them: each trimmed line that starts with `/dev/`.
pub open spec fn device_sources(ls: Seq<Seq<char>>) -> Seq<Seq<char>>
    decreases ls.len(),
{
    if ls.len() == 0 {
        Seq::empty()
    } else if has_prefix(trimmed(ls.last()), "/dev/"@) {
        device_sources(ls.drop_last()).push(trimmed(ls.last()))
    } else {
        device_sources(ls.drop_last())
    }
}

/// The devices the running system has mounted.
pub fn mounted_sources(out: &str) -> (r: Vec<String>)
    ensures
        r@.map_values(|s: String| s@) == device_sources(lines_of(out@)),
{
    let ls = lines(&chars_of(out));
    let ghost lv = lines_of(out@);
    let mut r: Vec<String> = Vec::new();
    let n = ls.len();
    assert(lv.take(0) =~= Seq::<Seq<char>>::empty());
    assert(r@.map_values(|s: String| s@) =~= device_sources(lv.take(0)));
    for i in 0..n
        invariant
            n == ls@.len(),
            views(ls@) == lv,
            r@.map_values(|s: String| s@) == device_sources(lv.take(i as int)),
    {
        assert(lv[i as int] == ls@[i as int]@);
        assert(lv.take(i + 1).drop_last() =~= lv.take(i as int));
        assert(lv.take(i + 1).last() == lv[i as int]);
        let t = trim(&ls[i]);
        if starts_with_str(&t, "/dev/") {
            let s = string_from_chars(&t);
            let ghost prev = r@;
            r.push(s);
            assert(r@.map_values(|s: String| s@) =~= prev.map_values(|s: String| s@).push(s@));
        }
    }
    assert(lv.take(n as int) =~= lv);
    r
}

/// Whether `lsblk -n -o FSTYPE` reports a LUKS container: some trimmed line
/// is `crypto_LUKS`.
pub open spec fn luks_reported(ls: Seq<Seq<char>>) -> bool {
    exists|i: int| 0 <= i < ls.len() && trimmed(#[trigger] ls[i]) == "crypto_LUKS"@
}

/// Reads whether a device is encrypted from `lsblk`'s file system types.
pub fn is_encrypted_output(out: &str) -> (r: bool)
    ensures
        r == luks_reported(lines_of(out@)),
{
    let ls = lines(&chars_of(out));
    let ghost lv = lines_of(out@);
    let luks = String::from_str("crypto_LUKS");
    let n = ls.len();
    for i in 0..n
        invariant
            n == ls@.len(),
            views(ls@) == lv,
            lv == lines_of(out@),
            luks@ == "crypto_LUKS"@,
            forall|j: int| 0 <= j < i ==> trimmed(#[trigger] lv[j]) != "crypto_LUKS"@,
    {
        assert(lv[i as int] == ls@[i as int]@);
        let t = string_from_chars(&trim(&ls[i]));
        if t == luks {
            return true;
        }
    }
    false
}

/// Whether a partition is offered: the system does not have it mounted and
/// it is not encrypted.
pub fn is_offered(path: &str, system: &Vec<String>, encrypted: bool) -> (r: bool)
    ensures
        r == (!encrypted && !system@.map_values(|s: String| s@).contains(path@)),
{
    if encrypted {
        return false;
    }
    let p = String::from_str(path);
    let n = system.len();
    for i in 0..n
        invariant
            n == system@.len(),
            p@ == path@,
            forall|j: int| 0 <= j < i ==> system@[j]@ != path@,
    {
        if system[i] == p {
            assert(system@.map_values(|s: String| s@)[i as int] == path@);
            return false;
        }
    }
    let ghost sv = system@.map_values(|s: String| s@);
    assert forall|j: int| 0 <= j < sv.len() implies #[trigger] sv[j] != path@ by {
        assert(sv[j] == system@[j]@);
    }
    true
}

/// The entry shown for a device: its path, and its size in parentheses
/// when known.
pub fn device_entry(path: String, size: Option<String>) -> (r: BlockDevice)
    ensures
        r.path@ == path@,
        r.display_name@ == match size {
            Some(s) => path@ + " ("@ + s@ + ")"@,
            None => path@,
        },
{
    let mut display_name = path.clone();
    match &size {
        Some(s) => {
            display_name.append(" (");
            display_name.append(s.as_str());
            display_name.append(")");
        },
        None => {},
    }
    BlockDevice { path, display_name }
}

} // verus!
