use crater::cgroup::{cgroup_limit_writes, CPU_PERIOD_US, CPU_QUOTA_US, MEMORY_MAX_BYTES, PIDS_MAX};
use crater::state::{container_state, start_signal, START_READ_LEN};

#[test]
fn state_reports_running_or_stopped() {
    let s = container_state("c1", 4321, true);
    assert_eq!(s.oci_version, "1.0.2");
    assert_eq!(s.id, "c1");
    assert_eq!(s.state, "running");
    assert_eq!(s.pid, 4321);
    assert_eq!(s.bundle, "/run/crater/c1");
    let s = container_state("c2", 7, false);
    assert_eq!(s.state, "stopped");
    assert_eq!(s.bundle, "/run/crater/c2");
}

#[test]
fn start_signal_is_go_newline() {
    assert_eq!(start_signal(), b"GO\n".to_vec());
    assert!(start_signal().len() >= START_READ_LEN);
}

#[test]
fn cgroup_limits_written_in_order() {
    let w = cgroup_limit_writes(1234);
    let pairs: Vec<(String, String)> = w.into_iter().map(|w| (w.file, w.contents)).collect();
    assert_eq!(
        pairs,
        vec![
            ("pids.max".to_string(), "20".to_string()),
            ("cgroup.procs".to_string(), "1234".to_string()),
            ("memory.max".to_string(), "104857600".to_string()),
            ("cpu.max".to_string(), "50000 100000".to_string()),
        ]
    );
    assert_eq!(PIDS_MAX, 20);
    assert_eq!(MEMORY_MAX_BYTES, 104857600);
    assert_eq!(CPU_QUOTA_US * 2, CPU_PERIOD_US);
}
