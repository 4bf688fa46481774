//! Required-filesystem mount sequencer.
//!
//! Boot mounts the declared table of required filesystems in order; earlier
//! entries must succeed before later ones are attempted. Before each mount
//! the target must be verified safe — an existing non-empty directory, or a
//! non-directory, must never be mounted over, and a missing target is
//! created first. Every mount failure is fatal: a small fixed set of error
//! codes has a precise meaning, and an unmapped code is still fatal, because
//! there is no safe default assumption about an unknown errno during early
//! boot.
//!
//! The sequencer is a state machine: the unverified shell performs one
//! observation or syscall at a time (stat the target, create the directory,
//! call mount) and reports the outcome back; the machine decides every step
//! and the order.

use vstd::prelude::*;

verus! {

/// Mount options of one required mount, as plain switches.
#[derive(Clone, Copy, PartialEq, Eq, Structural, Debug)]
pub struct MountFlags {
    pub noexec: bool,
    pub nosuid: bool,
    pub nodev: bool,
    pub relatime: bool,
}

/// One entry of the required-mount table.
#[derive(Debug)]
pub struct MountSpec {
    /// Absolute path of the mount target.
    pub target: String,
    /// Filesystem type handed to the mount syscall.
    pub fstype: String,
    pub flags: MountFlags,
    /// Optional mount-option data string.
    pub data: Option<String>,
}

/// The flags every required mount is made with: transient and pseudo
/// filesystems carry no executables, no setuid binaries and no device nodes,
/// and use relative atime.
pub open spec fn standard_mount_flags() -> MountFlags {
    MountFlags { noexec: true, nosuid: true, nodev: true, relatime: true }
}

/// The declared required-mount table, in mount order: `/proc` and `/sys`
/// first, so later services can introspect kernel state, then the transient
/// in-memory `/run` and `/tmp`, whose options do not depend on the earlier
/// entries.
pub fn required_mounts() -> (v: Vec<MountSpec>)
    ensures
        v@.len() == 4,
        v@[0].target@ == "/proc"@,
        v@[0].fstype@ == "proc"@,
        v@[0].flags == standard_mount_flags(),
        v@[0].data is None,
        v@[1].target@ == "/sys"@,
        v@[1].fstype@ == "sysfs"@,
        v@[1].flags == standard_mount_flags(),
        v@[1].data is None,
        v@[2].target@ == "/run"@,
        v@[2].fstype@ == "tmpfs"@,
        v@[2].flags == standard_mount_flags(),
        v@[2].data is None,
        v@[3].target@ == "/tmp"@,
        v@[3].fstype@ == "tmpfs"@,
        v@[3].flags == standard_mount_flags(),
        v@[3].data matches Some(d) && d@ == "usrquota"@,
{
    let flags = MountFlags { noexec: true, nosuid: true, nodev: true, relatime: true };
    let mut v: Vec<MountSpec> = Vec::new();
    v.push(MountSpec { target: "/proc".to_owned(), fstype: "proc".to_owned(), flags, data: None });
    v.push(MountSpec { target: "/sys".to_owned(), fstype: "sysfs".to_owned(), flags, data: None });
    v.push(MountSpec { target: "/run".to_owned(), fstype: "tmpfs".to_owned(), flags, data: None });
    v.push(
        MountSpec {
            target: "/tmp".to_owned(),
            fstype: "tmpfs".to_owned(),
            flags,
            data: Some("usrquota".to_owned()),
        },
    );
    v
}

/// What the shell observed about a mount target path.
#[derive(Clone, Copy, PartialEq, Eq, Structural, Debug)]
pub enum PathState {
    /// The path does not exist.
    Missing,
    /// The path is a directory with no entries.
    EmptyDir,
    /// The path is a directory with at least one entry.
    NonEmptyDir,
    /// The path exists but is not a directory.
    NotADirectory,
}

/// Whether a target may be mounted over, after the observation.
#[derive(Clone, Copy, PartialEq, Eq, Structural, Debug)]
pub enum MountSafety {
    /// An empty directory: mount without modification.
    Safe,
    /// Missing: create an empty directory first, then mount.
    CreateFirst,
    /// Non-empty, or not a directory: mounting would mask pre-existing data
    /// or land on the wrong node type. The mount must not be attempted.
    Unsafe,
}

/// The safety precondition of one required mount, as a function of what was
/// observed at the target path.
pub open spec fn mountpoint_safety_spec(st: PathState) -> MountSafety {
    match st {
        PathState::EmptyDir => MountSafety::Safe,
        PathState::Missing => MountSafety::CreateFirst,
        PathState::NonEmptyDir => MountSafety::Unsafe,
        PathState::NotADirectory => MountSafety::Unsafe,
    }
}

/// Decides whether a mount target is safe: an empty directory is safe as it
/// stands, a missing path must first be created as an empty directory, and
/// anything else is unsafe and fails before any mount is attempted.
pub fn ensure_mountpoint_safe(st: PathState) -> (r: MountSafety)
    ensures
        r == mountpoint_safety_spec(st),
{
    match st {
        PathState::EmptyDir => MountSafety::Safe,
        PathState::Missing => MountSafety::CreateFirst,
        PathState::NonEmptyDir => MountSafety::Unsafe,
        PathState::NotADirectory => MountSafety::Unsafe,
    }
}

/// Linux errno for "no such device": the running kernel does not support the
/// requested filesystem type.
pub const ENODEV_CODE: i32 = 19;

/// Linux errno for "operation not permitted".
pub const EPERM_CODE: i32 = 1;

/// Linux errno for "permission denied".
pub const EACCES_CODE: i32 = 13;

/// How a mount failure is reported. Every class is fatal at boot; the class
/// only selects the diagnostic.
#[derive(Clone, Copy, PartialEq, Eq, Structural, Debug)]
pub enum MountErrorClass {
    /// The running kernel does not support the filesystem type.
    UnsupportedFilesystem,
    /// Permission denied under the privilege level this process is expected
    /// to hold: assumed unreachable, so observing it is an internal
    /// consistency violation, never silently retried.
    InternalInconsistency,
    /// An errno with no mapped meaning: fatal all the same, with the code in
    /// the diagnostic, because silent continuation has no safe default.
    Unclassified,
}

/// Classification of a mount errno.
pub open spec fn classify_mount_errno_spec(errno: i32) -> MountErrorClass {
    if errno == ENODEV_CODE {
        MountErrorClass::UnsupportedFilesystem
    } else if errno == EPERM_CODE || errno == EACCES_CODE {
        MountErrorClass::InternalInconsistency
    } else {
        MountErrorClass::Unclassified
    }
}

/// Classifies the errno of a failed mount attempt.
pub fn classify_mount_errno(errno: i32) -> (c: MountErrorClass)
    ensures
        c == classify_mount_errno_spec(errno),
{
    if errno == ENODEV_CODE {
        MountErrorClass::UnsupportedFilesystem
    } else if errno == EPERM_CODE || errno == EACCES_CODE {
        MountErrorClass::InternalInconsistency
    } else {
        MountErrorClass::Unclassified
    }
}

/// A fatal boot error of the mount sequencer. `index` is the position of the
/// failing entry in the required-mount table.
#[derive(Clone, Copy, PartialEq, Eq, Structural, Debug)]
pub enum BootFailure {
    /// The target exists but is non-empty or not a directory; mounting was
    /// refused before any syscall.
    UnsafeMountTarget { index: usize, state: PathState },
    /// Creating the missing target directory failed.
    CreateDirFailed { index: usize, errno: i32 },
    /// The mount syscall itself failed.
    MountFailed { index: usize, errno: i32, class: MountErrorClass },
}

/// Where the sequencer stands for the current table entry.
#[derive(Clone, Copy, PartialEq, Eq, Structural, Debug)]
pub enum SeqPhase {
    /// Waiting for the shell to observe the state of the current target.
    Inspect,
    /// Waiting for the shell to create the missing target directory.
    Create,
    /// Waiting for the shell to perform the mount syscall.
    Mount,
    /// Every entry was mounted.
    Done,
    /// A fatal boot error was reported; nothing further is attempted.
    Failed,
}

/// The mount sequencer: walks the table in declared order, one shell
/// operation per step.
pub struct MountSequencer {
    pub specs: Vec<MountSpec>,
    /// Index of the entry being worked on; entries before it are mounted.
    pub idx: usize,
    pub phase: SeqPhase,
    pub failure: Option<BootFailure>,
}

impl MountSequencer {
    /// Whether the machine still expects an event from the shell.
    pub open spec fn running(&self) -> bool {
        self.phase == SeqPhase::Inspect || self.phase == SeqPhase::Create || self.phase
            == SeqPhase::Mount
    }

    /// Internal consistency of the machine.
    pub open spec fn wf(&self) -> bool {
        &&& self.idx <= self.specs.len()
        &&& self.running() ==> self.idx < self.specs.len()
        &&& self.phase == SeqPhase::Done ==> self.idx == self.specs.len()
        &&& (self.phase == SeqPhase::Failed) <==> (self.failure is Some)
    }

    /// A sequencer over the given table, starting at its first entry.
    pub fn new(specs: Vec<MountSpec>) -> (m: MountSequencer)
        ensures
            m.wf(),
            m.specs == specs,
            m.idx == 0,
            m.failure is None,
            specs.len() == 0 ==> m.phase == SeqPhase::Done,
            specs.len() > 0 ==> m.phase == SeqPhase::Inspect,
    {
        let phase = if specs.len() == 0 {
            SeqPhase::Done
        } else {
            SeqPhase::Inspect
        };
        MountSequencer { specs, idx: 0, phase, failure: None }
    }

    /// The entry being worked on, whose target the shell must observe,
    /// create or mount next.
    pub fn current(&self) -> (s: &MountSpec)
        requires
            self.wf(),
            self.running(),
        ensures
            *s == self.specs@[self.idx as int],
    {
        &self.specs[self.idx]
    }

    /// Feeds in what the shell observed at the current target. An unsafe
    /// target fails the boot here, before any mount syscall for the entry;
    /// a missing target asks for creation; an empty directory goes straight
    /// to the mount, with no modification of the target.
    pub fn on_path_state(&mut self, st: PathState)
        requires
            old(self).wf(),
            old(self).phase == SeqPhase::Inspect,
        ensures
            final(self).wf(),
            final(self).specs == old(self).specs,
            final(self).idx == old(self).idx,
            mountpoint_safety_spec(st) == MountSafety::Safe ==> final(self).phase
                == SeqPhase::Mount && final(self).failure is None,
            mountpoint_safety_spec(st) == MountSafety::CreateFirst ==> final(self).phase
                == SeqPhase::Create && final(self).failure is None,
            mountpoint_safety_spec(st) == MountSafety::Unsafe ==> final(self).phase
                == SeqPhase::Failed && final(self).failure == Some(
                BootFailure::UnsafeMountTarget { index: old(self).idx, state: st },
            ),
    {
        match ensure_mountpoint_safe(st) {
            MountSafety::Safe => {
                self.phase = SeqPhase::Mount;
            },
            MountSafety::CreateFirst => {
                self.phase = SeqPhase::Create;
            },
            MountSafety::Unsafe => {
                self.phase = SeqPhase::Failed;
                self.failure = Some(BootFailure::UnsafeMountTarget { index: self.idx, state: st });
            },
        }
    }

    /// Feeds in the outcome of creating the missing target directory: on
    /// success the entry proceeds to its mount; a failure is fatal.
    pub fn on_create_result(&mut self, created: bool, errno: i32)
        requires
            old(self).wf(),
            old(self).phase == SeqPhase::Create,
        ensures
            final(self).wf(),
            final(self).specs == old(self).specs,
            final(self).idx == old(self).idx,
            created ==> final(self).phase == SeqPhase::Mount && final(self).failure is None,
            !created ==> final(self).phase == SeqPhase::Failed && final(self).failure == Some(
                BootFailure::CreateDirFailed { index: old(self).idx, errno },
            ),
    {
        if created {
            self.phase = SeqPhase::Mount;
        } else {
            self.phase = SeqPhase::Failed;
            self.failure = Some(BootFailure::CreateDirFailed { index: self.idx, errno });
        }
    }

    /// Feeds in the outcome of the mount syscall for the current entry: on
    /// success the sequencer advances to the next entry, or completes after
    /// the last one; any failure is fatal, classified by its errno.
    pub fn on_mount_result(&mut self, mounted: bool, errno: i32)
        requires
            old(self).wf(),
            old(self).phase == SeqPhase::Mount,
        ensures
            final(self).wf(),
            final(self).specs == old(self).specs,
            mounted ==> final(self).idx == old(self).idx + 1 && final(self).failure is None,
            mounted && old(self).idx + 1 < old(self).specs.len() ==> final(self).phase
                == SeqPhase::Inspect,
            mounted && old(self).idx + 1 == old(self).specs.len() ==> final(self).phase
                == SeqPhase::Done,
            !mounted ==> final(self).idx == old(self).idx && final(self).phase == SeqPhase::Failed
                && final(self).failure == Some(
                BootFailure::MountFailed {
                    index: old(self).idx,
                    errno,
                    class: classify_mount_errno_spec(errno),
                },
            ),
    {
        if mounted {
            self.idx = self.idx + 1;
            if self.idx < self.specs.len() {
                self.phase = SeqPhase::Inspect;
            } else {
                self.phase = SeqPhase::Done;
            }
        } else {
            self.phase = SeqPhase::Failed;
            self.failure = Some(
                BootFailure::MountFailed {
                    index: self.idx,
                    errno,
                    class: classify_mount_errno(errno),
                },
            );
        }
    }
}

} // verus!
