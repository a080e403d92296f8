//! Acquiring a source read-only: resolving a RAID member to its array
//! device, then finding, checking or making a read-only mount of it.
//!
//! The decisions are a state machine. The caller runs each command it is
//! handed, or asks the operator each question, and feeds back what came of
//! it; the machine answers with the next step until it is done.

use vstd::prelude::*;
use crate::probe::{
    DeviceKind, DmraidMetadata, RaidMetadata, classify_device, dmraid_read, examined, find_mapper_device,
    is_likely_degraded, kind_of, likely_degraded, list_mapper_devices, mapper_candidates, mapper_match,
    md_arrays, mentions_device, options_read_only, output_mentions, parse_dmraid_sets,
    parse_examine, parse_mdstat, read_only_from_options, short_name, single_value, single_value_of,
};
use crate::categories::string_views;
use crate::text::{chars_of, lines_of, string_from_chars, strip_leading};

verus! {

/// A command for the caller to run.
pub enum Command {
    /// `blkid -s TYPE -o value <device>`: RAID membership or file system.
    ProbeType { device: String },
    /// `dmraid -s -c`: whether firmware RAID sets can be listed.
    ListFirmwareSets,
    /// `dmraid -r`: the member devices of firmware RAID sets.
    ListFirmwareMembers,
    /// `dmraid -s`: the firmware RAID set details.
    ShowFirmwareSets,
    /// `dmraid -ay`: activate the firmware RAID sets.
    ActivateFirmware,
    /// `ls -1 /dev/mapper`: the device mapper entries.
    ListMapper,
    /// `mdadm --examine <device>`: standard RAID metadata.
    Examine { device: String },
    /// `mdadm --assemble --scan --readonly`.
    AssembleScan,
    /// `mdadm --assemble --force --readonly --uuid <uuid> /dev/md127`.
    ForceAssembleByUuid { uuid: String },
    /// `mdadm --assemble --force --readonly /dev/md127 <device>`.
    ForceAssembleByDevice { device: String },
    /// Read `/proc/mdstat`.
    ReadMdstat,
    /// `mdadm --detail <array>`: the members of an array.
    Detail { array: String },
    /// `findmnt -n -o TARGET <device>`: where the device is mounted.
    FindMount { device: String },
    /// `findmnt -n -o OPTIONS <path>`: the options of a mount.
    MountOptions { path: String },
    /// `mount -o remount,ro <device>`.
    Remount { device: String },
    /// `mkdir -p <path>`.
    MakeMountPoint { path: String },
    /// `ntfs-3g -o ro <device> <path>` when `ntfs`, else `mount -o ro <device> <path>`.
    Mount { device: String, path: String, ntfs: bool },
}

/// A question for the operator.
#[derive(PartialEq, Eq, Structural, Clone, Copy)]
pub enum Question {
    /// Force-assemble a degraded array, read-only?
    ForceAssemble,
    /// Remount a read-write mount read-only?
    Remount,
    /// Mount the device read-only?
    Mount,
    /// Go on with a path that is not mounted read-only?
    ContinueWritable,
}

/// Why acquisition failed.
pub enum Failure {
    /// The firmware RAID metadata could not be read.
    FirmwareMetadataUnreadable,
    /// `dmraid -ay` failed; its error output.
    FirmwareActivationFailed { stderr: String },
    /// No device mapper entry matched the set; the entries there are.
    MapperDeviceNotFound { candidates: Vec<String> },
    /// `mdadm --examine` failed.
    RaidMetadataUnreadable,
    /// Assembly failed and the array does not look degraded.
    AssemblyFailed,
    /// Forced assembly failed; its error output.
    ForceAssemblyFailed { stderr: String },
    /// The assembled array could not be told among the arrays.
    ArrayNotFound,
    /// The remount failed; its error output.
    RemountFailed { stderr: String },
    /// The mount point could not be made; its error output.
    MountPointFailed { stderr: String },
    /// The mount failed; its error output, and whether ntfs-3g was used.
    MountFailed { stderr: String, ntfs: bool },
}

/// How acquisition ended.
pub enum Outcome {
    /// The source can be read at `path`. `mounted_here`: this run made the
    /// mount; `read_only`: the mount is read-only.
    Ready { path: String, mounted_here: bool, read_only: bool },
    /// The operator said no to a question.
    Declined { question: Question },
    Failed { failure: Failure },
}

/// What the caller does next.
pub enum Step {
    Run { command: Command },
    Ask { question: Question },
    Done { outcome: Outcome },
}

/// What came of a step.
pub enum Event {
    /// A command ran (or could not be run: `success` false).
    Output { success: bool, stdout: String, stderr: String },
    /// The operator answered.
    Answer { yes: bool },
}

/// Where the machine stands.
pub enum Phase {
    Classifying,
    FirmwareSets,
    FirmwareMembers,
    FirmwareSetInfo,
    Activating { sets: DmraidMetadata },
    ListingMapper { sets: DmraidMetadata },
    Examining,
    Assembling { meta: RaidMetadata },
    DegradedPromptPending { meta: RaidMetadata },
    ForceAssembling,
    ReadingMdstat,
    Correlating { arrays: Vec<String>, next: usize },
    FindingMount,
    CheckingOptions { path: String },
    RemountPromptPending { path: String },
    Remounting { path: String },
    MountPromptPending,
    MakingMountPoint { path: String },
    DetectingFs { path: String },
    Mounting { path: String, ntfs: bool },
    CheckingPath { path: String },
    ContinuePromptPending { path: String },
    Finished,
}

/// An acquisition in progress: the device in hand (the source, or the
/// array it resolved to), where new mounts go, and the phase.
pub struct Acquisition {
    pub device: String,
    pub mount_root: String,
    pub mount_prefix: String,
    pub phase: Phase,
}

/// Whether the phase waits for an answer rather than a command's output.
pub open spec fn expects_answer(p: Phase) -> bool {
    p is DegradedPromptPending || p is RemountPromptPending || p is MountPromptPending
        || p is ContinuePromptPending
}

/// Whether the event is a command that succeeded.
pub open spec fn ev_ok(ev: Event) -> bool {
    match ev {
        Event::Output { success, .. } => success,
        Event::Answer { .. } => false,
    }
}

/// What the command printed, or nothing for an answer.
pub open spec fn ev_out(ev: Event) -> Seq<char> {
    match ev {
        Event::Output { stdout, .. } => stdout@,
        Event::Answer { .. } => Seq::empty(),
    }
}

/// The command's error output, or nothing for an answer.
pub open spec fn ev_err(ev: Event) -> Seq<char> {
    match ev {
        Event::Output { stderr, .. } => stderr@,
        Event::Answer { .. } => Seq::empty(),
    }
}

/// Whether the event is a yes from the operator.
pub open spec fn ev_yes(ev: Event) -> bool {
    match ev {
        Event::Output { .. } => false,
        Event::Answer { yes } => yes,
    }
}

/// The mount point made for a device: under the mount root, the prefix
/// and the device's short name.
pub open spec fn mount_point_for(root: Seq<char>, prefix: Seq<char>, device: Seq<char>) -> Seq<char> {
    root + "/"@ + prefix + short_name(device)
}

/// The machine ends with a failure.
pub open spec fn fails(b: Acquisition, step: Step) -> bool {
    &&& b.phase is Finished
    &&& step matches Step::Done { outcome: Outcome::Failed { .. } }
}

/// The failure a finishing step reports.
pub open spec fn failure_of(step: Step) -> Failure {
    match step {
        Step::Done { outcome: Outcome::Failed { failure } } => failure,
        _ => Failure::ArrayNotFound,
    }
}

/// The machine ends with the source ready at `path`.
pub open spec fn ready(b: Acquisition, step: Step, path: Seq<char>, mounted_here: bool, read_only: bool) -> bool {
    &&& b.phase is Finished
    &&& step matches Step::Done { outcome: Outcome::Ready { path: p, mounted_here: m, read_only: r } }
    &&& p@ == path && m == mounted_here && r == read_only
}

/// The machine ends because the operator said no to `q`.
pub open spec fn declined(b: Acquisition, step: Step, q: Question) -> bool {
    &&& b.phase is Finished
    &&& step matches Step::Done { outcome: Outcome::Declined { question } }
    &&& question == q
}

/// The step asks the operator `q`.
pub open spec fn asks(step: Step, q: Question) -> bool {
    step matches Step::Ask { question } && question == q
}

/// The command a step runs, if it runs one.
pub open spec fn runs_plain(step: Step) -> Option<Command> {
    match step {
        Step::Run { command } => Some(command),
        _ => None,
    }
}

/// The step looks up where `dev` is mounted.
pub open spec fn runs_find_mount(step: Step, dev: Seq<char>) -> bool {
    step matches Step::Run { command: Command::FindMount { device } } && device@ == dev
}

/// The step examines `dev` for RAID metadata.
pub open spec fn runs_examine(step: Step, dev: Seq<char>) -> bool {
    step matches Step::Run { command: Command::Examine { device } } && device@ == dev
}

/// The step force-assembles the array of UUID `u`.
pub open spec fn runs_force_by_uuid(step: Step, u: Seq<char>) -> bool {
    step matches Step::Run { command: Command::ForceAssembleByUuid { uuid } } && uuid@ == u
}

/// The step force-assembles the array of member `dev`.
pub open spec fn runs_force_by_device(step: Step, dev: Seq<char>) -> bool {
    step matches Step::Run { command: Command::ForceAssembleByDevice { device } } && device@ == dev
}

/// The step asks for the members of array `a`.
pub open spec fn runs_detail(step: Step, a: Seq<char>) -> bool {
    step matches Step::Run { command: Command::Detail { array } } && array@ == a
}

/// The step reads the options of the mount at `p`.
pub open spec fn runs_mount_options(step: Step, p: Seq<char>) -> bool {
    step matches Step::Run { command: Command::MountOptions { path } } && path@ == p
}

/// The step remounts `dev` read-only.
pub open spec fn runs_remount(step: Step, dev: Seq<char>) -> bool {
    step matches Step::Run { command: Command::Remount { device } } && device@ == dev
}

/// The step makes the mount point `p`.
pub open spec fn runs_make_mount_point(step: Step, p: Seq<char>) -> bool {
    step matches Step::Run { command: Command::MakeMountPoint { path } } && path@ == p
}

/// The step probes the type of `dev`.
pub open spec fn runs_probe(step: Step, dev: Seq<char>) -> bool {
    step matches Step::Run { command: Command::ProbeType { device } } && device@ == dev
}

/// The step mounts `dev` read-only at `p`, with ntfs-3g when `n`.
pub open spec fn runs_mount(step: Step, dev: Seq<char>, p: Seq<char>, n: bool) -> bool {
    step matches Step::Run { command: Command::Mount { device, path, ntfs } } && device@ == dev && path@ == p && ntfs == n
}

/// The error output a failure carries, if any.
pub open spec fn failure_stderr(f: Failure) -> Option<Seq<char>> {
    match f {
        Failure::FirmwareActivationFailed { stderr } => Some(stderr@),
        Failure::ForceAssemblyFailed { stderr } => Some(stderr@),
        Failure::RemountFailed { stderr } => Some(stderr@),
        Failure::MountPointFailed { stderr } => Some(stderr@),
        Failure::MountFailed { stderr, .. } => Some(stderr@),
        _ => None,
    }
}

/// The phase's metadata, when it holds firmware RAID metadata.
pub open spec fn phase_dmraid(p: Phase) -> Option<crate::probe::DmraidInfo> {
    match p {
        Phase::Activating { sets } => Some(sets.model()),
        Phase::ListingMapper { sets } => Some(sets.model()),
        _ => None,
    }
}

/// The phase's metadata, when it holds standard RAID metadata.
pub open spec fn phase_raid(p: Phase) -> Option<crate::probe::RaidInfo> {
    match p {
        Phase::Assembling { meta } => Some(meta.model()),
        Phase::DegradedPromptPending { meta } => Some(meta.model()),
        _ => None,
    }
}

/// The phase's path, when it holds one.
pub open spec fn phase_path(p: Phase) -> Option<Seq<char>> {
    match p {
        Phase::CheckingOptions { path } => Some(path@),
        Phase::RemountPromptPending { path } => Some(path@),
        Phase::Remounting { path } => Some(path@),
        Phase::MakingMountPoint { path } => Some(path@),
        Phase::DetectingFs { path } => Some(path@),
        Phase::Mounting { path, .. } => Some(path@),
        Phase::CheckingPath { path } => Some(path@),
        Phase::ContinuePromptPending { path } => Some(path@),
        _ => None,
    }
}

/// The arrays being tried and the index of the one asked about, when
/// correlating.
pub open spec fn phase_arrays(p: Phase) -> Option<(Seq<Seq<char>>, int)> {
    match p {
        Phase::Correlating { arrays, next } => Some((string_views(arrays@), next as int)),
        _ => None,
    }
}

/// One step of the machine: from `a`, on event `ev`, it moves to `b` and
/// hands out `step`.
pub open spec fn advances(a: Acquisition, ev: Event, b: Acquisition, step: Step) -> bool {
    let d = a.device@;
    let ok = ev_ok(ev);
    let out = ev_out(ev);
    let err = ev_err(ev);
    &&& b.mount_root@ == a.mount_root@
    &&& b.mount_prefix@ == a.mount_prefix@
    &&& match a.phase {
        Phase::Classifying => b.device@ == d && match kind_of(ok, out) {
            DeviceKind::Plain => b.phase is FindingMount && runs_find_mount(step, d),
            DeviceKind::FirmwareRaidMember => b.phase is FirmwareSets && runs_plain(step) == Some(Command::ListFirmwareSets),
            DeviceKind::StandardRaidMember => b.phase is Examining && runs_examine(step, d),
        },
        Phase::FirmwareSets => b.device@ == d && if ok {
            b.phase is FirmwareMembers && runs_plain(step) == Some(Command::ListFirmwareMembers)
        } else {
            fails(b, step) && failure_of(step) is FirmwareMetadataUnreadable
        },
        Phase::FirmwareMembers => b.device@ == d && if ok && mentions_device(out, d) {
            b.phase is FirmwareSetInfo && runs_plain(step) == Some(Command::ShowFirmwareSets)
        } else {
            fails(b, step) && failure_of(step) is FirmwareMetadataUnreadable
        },
        Phase::FirmwareSetInfo => b.device@ == d && runs_plain(step) == Some(Command::ActivateFirmware)
            && b.phase is Activating && phase_dmraid(b.phase) == Some(if ok {
                dmraid_read(lines_of(out))
            } else {
                dmraid_read(Seq::empty())
            }),
        Phase::Activating { sets } => b.device@ == d && if ok {
            runs_plain(step) == Some(Command::ListMapper) && b.phase is ListingMapper
                && phase_dmraid(b.phase) == Some(sets.model())
        } else {
            fails(b, step) && failure_of(step) is FirmwareActivationFailed && failure_stderr(failure_of(step)) == Some(err)
        },
        Phase::ListingMapper { sets } => {
            let found = match sets.model().raid_set_name {
                Some(n) => if ok { mapper_match(lines_of(out), n) } else { None },
                None => None,
            };
            match found {
                Some(dev) => b.device@ == dev && b.phase is FindingMount && runs_find_mount(step, dev),
                None => b.device@ == d && fails(b, step) && failure_of(step) is MapperDeviceNotFound
                    && mapper_candidates_of(failure_of(step)) == (if ok { mapper_candidates(lines_of(out)) } else { Seq::empty() }),
            }
        },
        Phase::Examining => b.device@ == d && if ok {
            runs_plain(step) == Some(Command::AssembleScan) && b.phase is Assembling
                && phase_raid(b.phase) == Some(examined(lines_of(out)))
        } else {
            fails(b, step) && failure_of(step) is RaidMetadataUnreadable
        },
        Phase::Assembling { meta } => b.device@ == d && if ok {
            b.phase is ReadingMdstat && runs_plain(step) == Some(Command::ReadMdstat)
        } else if likely_degraded(meta.model()) {
            asks(step, Question::ForceAssemble) && b.phase is DegradedPromptPending
                && phase_raid(b.phase) == Some(meta.model())
        } else {
            fails(b, step) && failure_of(step) is AssemblyFailed
        },
        Phase::DegradedPromptPending { meta } => b.device@ == d && if ev_yes(ev) {
            b.phase is ForceAssembling && match meta.model().uuid {
                Some(u) => runs_force_by_uuid(step, u),
                None => runs_force_by_device(step, d),
            }
        } else {
            declined(b, step, Question::ForceAssemble)
        },
        Phase::ForceAssembling => b.device@ == d && if ok {
            b.phase is ReadingMdstat && runs_plain(step) == Some(Command::ReadMdstat)
        } else {
            fails(b, step) && failure_of(step) is ForceAssemblyFailed && failure_stderr(failure_of(step)) == Some(err)
        },
        Phase::ReadingMdstat => b.device@ == d && if ok && md_arrays(lines_of(out)).len() > 0 {
            phase_arrays(b.phase) == Some((md_arrays(lines_of(out)), 0int)) && runs_detail(step, md_arrays(lines_of(out))[0])
        } else {
            fails(b, step) && failure_of(step) is ArrayNotFound
        },
        Phase::Correlating { arrays, next } => if ok && mentions_device(out, d) {
            b.device@ == arrays@[next as int]@ && b.phase is FindingMount && runs_find_mount(step, arrays@[next as int]@)
        } else if next + 1 < arrays@.len() {
            b.device@ == d && phase_arrays(b.phase) == Some((string_views(arrays@), next + 1))
                && runs_detail(step, arrays@[next + 1]@)
        } else {
            b.device@ == d && fails(b, step) && failure_of(step) is ArrayNotFound
        },
        Phase::FindingMount => b.device@ == d && match single_value(ok, out) {
            Some(p) => b.phase is CheckingOptions && phase_path(b.phase) == Some(p) && runs_mount_options(step, p),
            None => b.phase is MountPromptPending && asks(step, Question::Mount),
        },
        Phase::CheckingOptions { path } => b.device@ == d && if options_read_only(ok, out) {
            ready(b, step, path@, false, true)
        } else {
            asks(step, Question::Remount) && b.phase is RemountPromptPending && phase_path(b.phase) == Some(path@)
        },
        Phase::RemountPromptPending { path } => b.device@ == d && if ev_yes(ev) {
            b.phase is Remounting && phase_path(b.phase) == Some(path@) && runs_remount(step, d)
        } else {
            ready(b, step, path@, false, false)
        },
        Phase::Remounting { path } => b.device@ == d && if ok {
            ready(b, step, path@, false, true)
        } else {
            fails(b, step) && failure_of(step) is RemountFailed && failure_stderr(failure_of(step)) == Some(err)
        },
        Phase::MountPromptPending => {
            let mp = mount_point_for(a.mount_root@, a.mount_prefix@, d);
            b.device@ == d && if ev_yes(ev) {
                b.phase is MakingMountPoint && phase_path(b.phase) == Some(mp) && runs_make_mount_point(step, mp)
            } else {
                declined(b, step, Question::Mount)
            }
        },
        Phase::MakingMountPoint { path } => b.device@ == d && if ok {
            b.phase is DetectingFs && phase_path(b.phase) == Some(path@) && runs_probe(step, d)
        } else {
            fails(b, step) && failure_of(step) is MountPointFailed && failure_stderr(failure_of(step)) == Some(err)
        },
        Phase::DetectingFs { path } => {
            let ntfs = single_value(ok, out) == Some("ntfs"@);
            b.device@ == d && b.phase is Mounting && phase_path(b.phase) == Some(path@)
                && mounting_ntfs(b.phase) == ntfs && runs_mount(step, d, path@, ntfs)
        },
        Phase::Mounting { path, ntfs } => b.device@ == d && if ok {
            ready(b, step, path@, true, true)
        } else {
            fails(b, step) && failure_of(step) is MountFailed && failure_stderr(failure_of(step)) == Some(err)
                && failure_ntfs(failure_of(step)) == ntfs
        },
        Phase::CheckingPath { path } => b.device@ == d && if options_read_only(ok, out) {
            ready(b, step, path@, false, true)
        } else {
            asks(step, Question::ContinueWritable) && b.phase is ContinuePromptPending && phase_path(b.phase) == Some(path@)
        },
        Phase::ContinuePromptPending { path } => b.device@ == d && if ev_yes(ev) {
            ready(b, step, path@, false, false)
        } else {
            declined(b, step, Question::ContinueWritable)
        },
        Phase::Finished => true,
    }
}

/// The candidates a mapper failure lists.
pub open spec fn mapper_candidates_of(f: Failure) -> Seq<Seq<char>> {
    match f {
        Failure::MapperDeviceNotFound { candidates } => string_views(candidates@),
        _ => Seq::empty(),
    }
}

/// Whether a mount failure was with ntfs-3g.
pub open spec fn failure_ntfs(f: Failure) -> bool {
    match f {
        Failure::MountFailed { ntfs, .. } => ntfs,
        _ => false,
    }
}

/// Whether the mounting phase uses ntfs-3g.
pub open spec fn mounting_ntfs(p: Phase) -> bool {
    match p {
        Phase::Mounting { ntfs, .. } => ntfs,
        _ => false,
    }
}

/// The phase is consistent: when correlating, the array asked about is one
/// of the arrays.
pub open spec fn phase_wf(p: Phase) -> bool {
    match p {
        Phase::Correlating { arrays, next } => next < arrays@.len(),
        _ => true,
    }
}

fn fail_with(failure: Failure) -> (r: Step)
    ensures
        r == (Step::Done { outcome: Outcome::Failed { failure } }),
{
    Step::Done { outcome: Outcome::Failed { failure } }
}

impl Acquisition {
    /// Starts acquiring a block device: it is classified first.
    pub fn for_device(device: String, mount_root: String, mount_prefix: String) -> (r: (Acquisition, Step))
        ensures
            r.0.device@ == device@,
            r.0.mount_root@ == mount_root@,
            r.0.mount_prefix@ == mount_prefix@,
            r.0.phase is Classifying,
            runs_probe(r.1, device@),
    {
        let probe = device.clone();
        (Acquisition { device, mount_root, mount_prefix, phase: Phase::Classifying },
         Step::Run { command: Command::ProbeType { device: probe } })
    }

    /// Starts acquiring a directory that exists: its mount options are
    /// checked first.
    pub fn for_path(path: String) -> (r: (Acquisition, Step))
        ensures
            r.0.device@ == path@,
            phase_path(r.0.phase) == Some(path@),
            r.0.phase is CheckingPath,
            runs_mount_options(r.1, path@),
    {
        let held = path.clone();
        let asked = path.clone();
        (Acquisition { device: path, mount_root: String::new(), mount_prefix: String::new(), phase: Phase::CheckingPath { path: held } },
         Step::Run { command: Command::MountOptions { path: asked } })
    }

    /// Where a new mount of the device goes.
    pub fn mount_point(&self) -> (r: String)
        ensures
            r@ == mount_point_for(self.mount_root@, self.mount_prefix@, self.device@),
    {
        let mut mp = self.mount_root.clone();
        mp.append("/");
        mp.append(self.mount_prefix.as_str());
        proof {
            reveal_strlit("/dev/");
        }
        let short = strip_leading(&chars_of(self.device.as_str()), &chars_of("/dev/"));
        mp.append(string_from_chars(&short).as_str());
        mp
    }

    /// Takes in what came of the last step and hands out the next one.
    pub fn on_event(&mut self, ev: Event) -> (step: Step)
        requires
            !(old(self).phase is Finished),
            phase_wf(old(self).phase),
            expects_answer(old(self).phase) <==> ev is Answer,
        ensures
            advances(*old(self), ev, *final(self), step),
            phase_wf(final(self).phase),
    {
        let ghost e = ev;
        let (ok, out, err, yes) = match ev {
            Event::Output { success, stdout, stderr } => (success, stdout, stderr, false),
            Event::Answer { yes } => (false, String::new(), String::new(), yes),
        };
        assert(ok == ev_ok(e) && out@ == ev_out(e) && err@ == ev_err(e) && yes == ev_yes(e));
        let mut phase = Phase::Finished;
        std::mem::swap(&mut self.phase, &mut phase);
        match phase {
            Phase::Classifying => match classify_device(ok, out.as_str()) {
                DeviceKind::Plain => {
                    self.phase = Phase::FindingMount;
                    Step::Run { command: Command::FindMount { device: self.device.clone() } }
                },
                DeviceKind::FirmwareRaidMember => {
                    self.phase = Phase::FirmwareSets;
                    Step::Run { command: Command::ListFirmwareSets }
                },
                DeviceKind::StandardRaidMember => {
                    self.phase = Phase::Examining;
                    Step::Run { command: Command::Examine { device: self.device.clone() } }
                },
            },
            Phase::FirmwareSets => {
                if ok {
                    self.phase = Phase::FirmwareMembers;
                    Step::Run { command: Command::ListFirmwareMembers }
                } else {
                    fail_with(Failure::FirmwareMetadataUnreadable)
                }
            },
            Phase::FirmwareMembers => {
                if ok && output_mentions(out.as_str(), self.device.as_str()) {
                    self.phase = Phase::FirmwareSetInfo;
                    Step::Run { command: Command::ShowFirmwareSets }
                } else {
                    fail_with(Failure::FirmwareMetadataUnreadable)
                }
            },
            Phase::FirmwareSetInfo => {
                let meta = if ok {
                    parse_dmraid_sets(out.as_str())
                } else {
                    DmraidMetadata { raid_set_name: None, raid_type: None, status: None }
                };
                self.phase = Phase::Activating { sets: meta };
                Step::Run { command: Command::ActivateFirmware }
            },
            Phase::Activating { sets } => {
                if ok {
                    self.phase = Phase::ListingMapper { sets };
                    Step::Run { command: Command::ListMapper }
                } else {
                    fail_with(Failure::FirmwareActivationFailed { stderr: err })
                }
            },
            Phase::ListingMapper { sets } => {
                let found = match &sets.raid_set_name {
                    Some(n) => if ok { find_mapper_device(out.as_str(), n.as_str()) } else { None },
                    None => None,
                };
                match found {
                    Some(dev) => {
                        self.device = dev.clone();
                        self.phase = Phase::FindingMount;
                        Step::Run { command: Command::FindMount { device: dev } }
                    },
                    None => {
                        let candidates = if ok { list_mapper_devices(out.as_str()) } else { Vec::new() };
                        proof {
                            if !ok {
                                assert(string_views(candidates@) =~= Seq::<Seq<char>>::empty());
                            }
                        }
                        fail_with(Failure::MapperDeviceNotFound { candidates })
                    },
                }
            },
            Phase::Examining => {
                if ok {
                    let meta = parse_examine(out.as_str());
                    self.phase = Phase::Assembling { meta };
                    Step::Run { command: Command::AssembleScan }
                } else {
                    fail_with(Failure::RaidMetadataUnreadable)
                }
            },
            Phase::Assembling { meta } => {
                if ok {
                    self.phase = Phase::ReadingMdstat;
                    Step::Run { command: Command::ReadMdstat }
                } else if is_likely_degraded(&meta) {
                    self.phase = Phase::DegradedPromptPending { meta };
                    Step::Ask { question: Question::ForceAssemble }
                } else {
                    fail_with(Failure::AssemblyFailed)
                }
            },
            Phase::DegradedPromptPending { meta } => {
                if yes {
                    self.phase = Phase::ForceAssembling;
                    match meta.uuid {
                        Some(u) => Step::Run { command: Command::ForceAssembleByUuid { uuid: u } },
                        None => Step::Run { command: Command::ForceAssembleByDevice { device: self.device.clone() } },
                    }
                } else {
                    Step::Done { outcome: Outcome::Declined { question: Question::ForceAssemble } }
                }
            },
            Phase::ForceAssembling => {
                if ok {
                    self.phase = Phase::ReadingMdstat;
                    Step::Run { command: Command::ReadMdstat }
                } else {
                    fail_with(Failure::ForceAssemblyFailed { stderr: err })
                }
            },
            Phase::ReadingMdstat => {
                if ok {
                    let arrays = parse_mdstat(out.as_str());
                    if arrays.len() > 0 {
                        let first = arrays[0].clone();
                        assert(string_views(arrays@) =~= arrays@.map_values(|s: String| s@));
                        self.phase = Phase::Correlating { arrays, next: 0 };
                        Step::Run { command: Command::Detail { array: first } }
                    } else {
                        fail_with(Failure::ArrayNotFound)
                    }
                } else {
                    fail_with(Failure::ArrayNotFound)
                }
            },
            Phase::Correlating { arrays, next } => {
                assert(next < arrays@.len());
                if ok && output_mentions(out.as_str(), self.device.as_str()) {
                    let dev = arrays[next].clone();
                    self.device = dev.clone();
                    self.phase = Phase::FindingMount;
                    Step::Run { command: Command::FindMount { device: dev } }
                } else if next < arrays.len() - 1 {
                    let a = arrays[next + 1].clone();
                    self.phase = Phase::Correlating { arrays, next: next + 1 };
                    Step::Run { command: Command::Detail { array: a } }
                } else {
                    fail_with(Failure::ArrayNotFound)
                }
            },
            Phase::FindingMount => match single_value_of(ok, out.as_str()) {
                Some(p) => {
                    let q = p.clone();
                    self.phase = Phase::CheckingOptions { path: p };
                    Step::Run { command: Command::MountOptions { path: q } }
                },
                None => {
                    self.phase = Phase::MountPromptPending;
                    Step::Ask { question: Question::Mount }
                },
            },
            Phase::CheckingOptions { path } => {
                if read_only_from_options(ok, out.as_str()) {
                    Step::Done { outcome: Outcome::Ready { path, mounted_here: false, read_only: true } }
                } else {
                    self.phase = Phase::RemountPromptPending { path };
                    Step::Ask { question: Question::Remount }
                }
            },
            Phase::RemountPromptPending { path } => {
                if yes {
                    self.phase = Phase::Remounting { path };
                    Step::Run { command: Command::Remount { device: self.device.clone() } }
                } else {
                    Step::Done { outcome: Outcome::Ready { path, mounted_here: false, read_only: false } }
                }
            },
            Phase::Remounting { path } => {
                if ok {
                    Step::Done { outcome: Outcome::Ready { path, mounted_here: false, read_only: true } }
                } else {
                    fail_with(Failure::RemountFailed { stderr: err })
                }
            },
            Phase::MountPromptPending => {
                if yes {
                    let mp = self.mount_point();
                    let q = mp.clone();
                    self.phase = Phase::MakingMountPoint { path: mp };
                    Step::Run { command: Command::MakeMountPoint { path: q } }
                } else {
                    Step::Done { outcome: Outcome::Declined { question: Question::Mount } }
                }
            },
            Phase::MakingMountPoint { path } => {
                if ok {
                    self.phase = Phase::DetectingFs { path };
                    Step::Run { command: Command::ProbeType { device: self.device.clone() } }
                } else {
                    fail_with(Failure::MountPointFailed { stderr: err })
                }
            },
            Phase::DetectingFs { path } => {
                let fs = single_value_of(ok, out.as_str());
                let ntfs = match fs {
                    Some(t) => t == String::from_str("ntfs"),
                    None => false,
                };
                let q = path.clone();
                self.phase = Phase::Mounting { path, ntfs };
                Step::Run { command: Command::Mount { device: self.device.clone(), path: q, ntfs } }
            },
            Phase::Mounting { path, ntfs } => {
                if ok {
                    Step::Done { outcome: Outcome::Ready { path, mounted_here: true, read_only: true } }
                } else {
                    fail_with(Failure::MountFailed { stderr: err, ntfs })
                }
            },
            Phase::CheckingPath { path } => {
                if read_only_from_options(ok, out.as_str()) {
                    Step::Done { outcome: Outcome::Ready { path, mounted_here: false, read_only: true } }
                } else {
                    self.phase = Phase::ContinuePromptPending { path };
                    Step::Ask { question: Question::ContinueWritable }
                }
            },
            Phase::ContinuePromptPending { path } => {
                if yes {
                    Step::Done { outcome: Outcome::Ready { path, mounted_here: false, read_only: false } }
                } else {
                    Step::Done { outcome: Outcome::Declined { question: Question::ContinueWritable } }
                }
            },
            Phase::Finished => fail_with(Failure::ArrayNotFound),
        }
    }
}

/// The prefix every mount point this machine makes starts with.
pub open spec fn managed_prefix(root: Seq<char>, prefix: Seq<char>) -> Seq<char> {
    root + "/"@ + prefix
}

/// Whether a mount point is one this tool made, and so may be unmounted:
/// it lies under the mount root with the tool's prefix.
pub fn is_managed_mount(path: &str, mount_root: &str, mount_prefix: &str) -> (r: bool)
    ensures
        r == crate::text::has_prefix(path@, managed_prefix(mount_root@, mount_prefix@)),
{
    let mut p = String::from_str(mount_root);
    p.append("/");
    p.append(mount_prefix);
    crate::text::starts_with(&chars_of(path), &chars_of(p.as_str()))
}

/// Every mount point the machine makes may later be unmounted by it.
pub proof fn law_own_mounts_are_managed(root: Seq<char>, prefix: Seq<char>, device: Seq<char>)
    ensures
        crate::text::has_prefix(mount_point_for(root, prefix, device), managed_prefix(root, prefix)),
{
    let m = managed_prefix(root, prefix);
    assert(mount_point_for(root, prefix, device).take(m.len() as int) =~= m);
}

/// Once assemble-by-scan succeeds, resolution never asks the operator: from
/// a successful assembly, from reading `/proc/mdstat` and while telling the
/// arrays apart, no step is a question, the machine stays in those phases
/// or ends, and when it goes on to mounting, it holds the array whose
/// detail mentions the member device.
pub proof fn law_clean_assembly_never_prompts(a: Acquisition, ev: Event, b: Acquisition, step: Step)
    requires
        advances(a, ev, b, step),
        phase_wf(a.phase),
        (a.phase is Assembling && ev_ok(ev)) || a.phase is ReadingMdstat || a.phase is Correlating,
    ensures
        !(step is Ask),
        b.phase is ReadingMdstat || b.phase is Correlating || b.phase is FindingMount || b.phase is Finished,
        b.phase is FindingMount ==> a.phase is Correlating && mentions_device(ev_out(ev), a.device@)
            && b.device@ == (phase_arrays(a.phase)->0).0[(phase_arrays(a.phase)->0).1],
{
    match a.phase {
        Phase::Correlating { arrays, next } => {
            assert(string_views(arrays@)[next as int] == arrays@[next as int]@);
        },
        _ => {},
    }
}

/// A failed assembly of an array with fewer members present than it
/// expects asks the operator before forcing anything.
pub proof fn law_degraded_member_asks(a: Acquisition, ev: Event, b: Acquisition, step: Step)
    requires
        advances(a, ev, b, step),
        a.phase is Assembling,
        !ev_ok(ev),
        phase_raid(a.phase)->0.raid_devices is Some,
        phase_raid(a.phase)->0.total_devices is Some,
        phase_raid(a.phase)->0.total_devices->0 < phase_raid(a.phase)->0.raid_devices->0,
    ensures
        asks(step, Question::ForceAssemble),
        b.phase is DegradedPromptPending,
{
}

/// When the operator declines forced assembly, resolution ends with no
/// device and runs no command: forced assembly is never attempted.
pub proof fn law_declined_force_assembly(a: Acquisition, ev: Event, b: Acquisition, step: Step)
    requires
        advances(a, ev, b, step),
        a.phase is DegradedPromptPending,
        !ev_yes(ev),
    ensures
        declined(b, step, Question::ForceAssemble),
        !(step is Run),
{
}

} // verus!
