use std::path::Path;

use crater::paths::{
    bundle_path, cgroup_dir, container_image, container_rootfs, get_container_dir, join_path,
    loop_device_path, mount_target, pid_file_path, pivot_paths, proc_path, sync_fifo_path,
    trim_start_char,
};

#[test]
fn get_container_dir_joins_id_to_state_root() {
    assert_eq!(get_container_dir("abc"), "/var/run/crater/abc");
    assert_eq!(get_container_dir("/abs/dir"), "/abs/dir");
    assert_eq!(get_container_dir(""), "/var/run/crater/");
}

#[test]
fn join_path_agrees_with_path_join() {
    let cases = [
        ("/var/run/crater", "abc"),
        ("/var/run/crater", "/etc"),
        ("/var/run/crater", ""),
        ("a/", "b"),
        ("", "b"),
        ("", ""),
        ("/", "old_root"),
        ("x//", "y"),
    ];
    for (base, p) in cases {
        let expected = Path::new(base).join(p);
        assert_eq!(join_path(base, p), expected.to_str().unwrap(), "{base} {p}");
    }
}

#[test]
fn container_files_sit_in_container_dir() {
    assert_eq!(sync_fifo_path("c1"), "/var/run/crater/c1/sync.fifo");
    assert_eq!(pid_file_path("c1"), "/var/run/crater/c1/pid");
    assert_eq!(pid_file_path("c1"), Path::new("/var/run/crater").join("c1").join("pid").to_str().unwrap());
}

#[test]
fn numbered_paths() {
    assert_eq!(proc_path(12), "/proc/12");
    assert_eq!(cgroup_dir(34), "/sys/fs/cgroup/crater-34");
    assert_eq!(bundle_path("c1"), "/run/crater/c1");
    assert_eq!(loop_device_path(-1), None);
    assert_eq!(loop_device_path(3), Some("/dev/loop3".to_string()));
    assert_eq!(loop_device_path(0), Some("/dev/loop0".to_string()));
}

#[test]
fn trim_start_char_matches_std() {
    for s in ["///etc/x", "etc", "", "/", "a/b/"] {
        assert_eq!(trim_start_char(s, '/'), s.trim_start_matches('/'));
    }
}

#[test]
fn mount_targets_land_in_rootfs() {
    let rootfs = container_rootfs();
    assert_eq!(rootfs, "/app/crater_rootfs");
    assert_eq!(mount_target(&rootfs, "/proc"), "/app/crater_rootfs/proc");
    assert_eq!(mount_target(&rootfs, "//dev/pts"), "/app/crater_rootfs/dev/pts");
    assert_eq!(mount_target(&rootfs, "/"), "/app/crater_rootfs/");
    assert_eq!(mount_target(&rootfs, "tmp"), "/app/crater_rootfs/tmp");
    assert_eq!(container_image(), "/app/container_disk.img");
}

#[test]
fn pivot_paths_name_one_directory() {
    let p = pivot_paths("/app/crater_rootfs");
    assert_eq!(p.put_old, "/app/crater_rootfs/old_root");
    assert_eq!(p.old_root_after_pivot, "/old_root");
    assert_eq!(p.put_old, format!("/app/crater_rootfs{}", p.old_root_after_pivot));
}
