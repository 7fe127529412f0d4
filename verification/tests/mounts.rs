use crater::mounts::{parse_mount_opts, plan_mount, MountConfig, MountFlags};

fn opts(list: &[&str]) -> Option<Vec<String>> {
    Some(list.iter().map(|s| s.to_string()).collect())
}

#[test]
fn no_options_mean_no_flags() {
    assert_eq!(parse_mount_opts(&None), (MountFlags::none(), String::new()));
    assert_eq!(parse_mount_opts(&opts(&[])), (MountFlags::none(), String::new()));
}

#[test]
fn flag_options_set_flags_and_others_become_data() {
    let (flags, data) = parse_mount_opts(&opts(&["nosuid", "strictatime", "mode=755", "size=65536k", "noexec", "nodev"]));
    assert_eq!(
        flags,
        MountFlags { read_only: false, nosuid: true, noexec: true, nodev: true, bind: false, recursive: false }
    );
    assert_eq!(data, "strictatime,mode=755,size=65536k");
}

#[test]
fn rbind_sets_bind_and_recursive() {
    let (flags, data) = parse_mount_opts(&opts(&["rbind", "ro"]));
    assert_eq!(
        flags,
        MountFlags { read_only: true, nosuid: false, noexec: false, nodev: false, bind: true, recursive: true }
    );
    assert_eq!(data, "");
    let (flags, _) = parse_mount_opts(&opts(&["bind"]));
    assert!(flags.bind && !flags.recursive);
}

#[test]
fn defaults_and_rw_change_nothing() {
    assert_eq!(parse_mount_opts(&opts(&["defaults", "rw"])), (MountFlags::none(), String::new()));
    assert_eq!(
        parse_mount_opts(&opts(&["ro", "rw", "defaults", "x=1"])),
        parse_mount_opts(&opts(&["ro", "x=1"]))
    );
}

#[test]
fn plan_mount_combines_target_and_options() {
    let m = MountConfig { destination: "/dev/shm".to_string(), options: opts(&["nosuid", "mode=1777"]) };
    let plan = plan_mount("/app/crater_rootfs", &m);
    assert_eq!(plan.target, "/app/crater_rootfs/dev/shm");
    assert!(plan.flags.nosuid && !plan.flags.read_only);
    assert_eq!(plan.data, "mode=1777");
}
