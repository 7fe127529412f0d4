use crater::mounts::MountFlags;
use crater::run::{kernel_fs_mounts, loopback_up_command};

#[test]
fn proc_then_read_only_sys() {
    let m = kernel_fs_mounts();
    assert_eq!(m.len(), 2);
    assert_eq!((m[0].source.as_str(), m[0].target.as_str(), m[0].fstype.as_str()), ("proc", "/proc", "proc"));
    assert_eq!(
        m[0].flags,
        MountFlags { read_only: false, nosuid: true, noexec: true, nodev: true, bind: false, recursive: false }
    );
    assert_eq!((m[1].source.as_str(), m[1].target.as_str(), m[1].fstype.as_str()), ("sysfs", "/sys", "sysfs"));
    assert_eq!(
        m[1].flags,
        MountFlags { read_only: true, nosuid: true, noexec: true, nodev: true, bind: false, recursive: false }
    );
}

#[test]
fn loopback_is_brought_up_by_the_shell() {
    let (cmd, args) = loopback_up_command();
    assert_eq!(cmd, "/bin/sh");
    assert_eq!(args, vec!["-c".to_string(), "ip link set up dev lo || ifconfig lo up".to_string()]);
}
