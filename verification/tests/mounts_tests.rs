use easyinit::mounts::BootFailure;
use easyinit::mounts::MountErrorClass;
use easyinit::mounts::MountSafety;
use easyinit::mounts::MountSequencer;
use easyinit::mounts::PathState;
use easyinit::mounts::SeqPhase;
use easyinit::mounts::classify_mount_errno;
use easyinit::mounts::ensure_mountpoint_safe;
use easyinit::mounts::required_mounts;

#[test]
fn mountpoint_safety_decisions() {
    assert_eq!(ensure_mountpoint_safe(PathState::EmptyDir), MountSafety::Safe);
    assert_eq!(ensure_mountpoint_safe(PathState::Missing), MountSafety::CreateFirst);
    assert_eq!(ensure_mountpoint_safe(PathState::NonEmptyDir), MountSafety::Unsafe);
    assert_eq!(ensure_mountpoint_safe(PathState::NotADirectory), MountSafety::Unsafe);
}

#[test]
fn required_mount_table_order_and_options() {
    let v = required_mounts();
    assert_eq!(v.len(), 4);
    assert_eq!(v[0].target, "/proc");
    assert_eq!(v[0].fstype, "proc");
    assert_eq!(v[1].target, "/sys");
    assert_eq!(v[1].fstype, "sysfs");
    assert_eq!(v[2].target, "/run");
    assert_eq!(v[2].fstype, "tmpfs");
    assert!(v[2].data.is_none());
    assert_eq!(v[3].target, "/tmp");
    assert_eq!(v[3].fstype, "tmpfs");
    assert_eq!(v[3].data.as_deref(), Some("usrquota"));
    for spec in &v {
        assert!(spec.flags.noexec);
        assert!(spec.flags.nosuid);
        assert!(spec.flags.nodev);
        assert!(spec.flags.relatime);
    }
}

#[test]
fn boot_with_missing_run_creates_then_mounts() {
    let mut seq = MountSequencer::new(required_mounts());

    // /proc and /sys present and empty.
    assert_eq!(seq.current().target, "/proc");
    seq.on_path_state(PathState::EmptyDir);
    assert_eq!(seq.phase, SeqPhase::Mount);
    seq.on_mount_result(true, 0);

    assert_eq!(seq.current().target, "/sys");
    seq.on_path_state(PathState::EmptyDir);
    seq.on_mount_result(true, 0);

    // /run absent: created first, then mounted as tmpfs with the
    // no-exec/no-setuid/no-device flags.
    assert_eq!(seq.current().target, "/run");
    seq.on_path_state(PathState::Missing);
    assert_eq!(seq.phase, SeqPhase::Create);
    seq.on_create_result(true, 0);
    assert_eq!(seq.phase, SeqPhase::Mount);
    assert_eq!(seq.current().fstype, "tmpfs");
    assert!(seq.current().flags.noexec);
    assert!(seq.current().flags.nosuid);
    assert!(seq.current().flags.nodev);
    seq.on_mount_result(true, 0);

    assert_eq!(seq.current().target, "/tmp");
    seq.on_path_state(PathState::EmptyDir);
    seq.on_mount_result(true, 0);

    assert_eq!(seq.phase, SeqPhase::Done);
    assert!(seq.failure.is_none());
}

#[test]
fn boot_with_nonempty_proc_fails_before_the_mount_syscall() {
    let mut seq = MountSequencer::new(required_mounts());
    assert_eq!(seq.current().target, "/proc");
    seq.on_path_state(PathState::NonEmptyDir);
    assert_eq!(seq.phase, SeqPhase::Failed);
    assert_eq!(
        seq.failure,
        Some(BootFailure::UnsafeMountTarget { index: 0, state: PathState::NonEmptyDir })
    );
}

#[test]
fn mount_target_of_wrong_node_type_is_fatal() {
    let mut seq = MountSequencer::new(required_mounts());
    seq.on_path_state(PathState::NotADirectory);
    assert_eq!(seq.phase, SeqPhase::Failed);
    assert_eq!(
        seq.failure,
        Some(BootFailure::UnsafeMountTarget { index: 0, state: PathState::NotADirectory })
    );
}

#[test]
fn failed_directory_creation_is_fatal() {
    let mut seq = MountSequencer::new(required_mounts());
    seq.on_path_state(PathState::Missing);
    seq.on_create_result(false, 28);
    assert_eq!(seq.phase, SeqPhase::Failed);
    assert_eq!(seq.failure, Some(BootFailure::CreateDirFailed { index: 0, errno: 28 }));
}

#[test]
fn unsupported_filesystem_errno_is_fatal_and_classified() {
    let mut seq = MountSequencer::new(required_mounts());
    seq.on_path_state(PathState::EmptyDir);
    seq.on_mount_result(false, 19);
    assert_eq!(seq.phase, SeqPhase::Failed);
    assert_eq!(
        seq.failure,
        Some(BootFailure::MountFailed {
            index: 0,
            errno: 19,
            class: MountErrorClass::UnsupportedFilesystem,
        })
    );
}

#[test]
fn errno_classification() {
    assert_eq!(classify_mount_errno(19), MountErrorClass::UnsupportedFilesystem);
    assert_eq!(classify_mount_errno(1), MountErrorClass::InternalInconsistency);
    assert_eq!(classify_mount_errno(13), MountErrorClass::InternalInconsistency);
    assert_eq!(classify_mount_errno(22), MountErrorClass::Unclassified);
    assert_eq!(classify_mount_errno(0), MountErrorClass::Unclassified);
}
