use crater::config::{
    environment_pairs, launch_plan, require_root_path, ConfigError, ContainerConfig, ProcessConfig,
};

fn strings(list: &[&str]) -> Vec<String> {
    list.iter().map(|s| s.to_string()).collect()
}

fn full_config() -> ContainerConfig {
    ContainerConfig {
        root_path: Some("rootfs".to_string()),
        hostname: Some("box".to_string()),
        process: Some(ProcessConfig {
            args: Some(strings(&["/bin/sh", "-c", "echo hi"])),
            env: Some(strings(&["PATH=/bin", "TERM=xterm"])),
            uid: 1000,
            gid: 100,
        }),
    }
}

#[test]
fn launch_plan_splits_command_and_arguments() {
    let plan = launch_plan(&full_config()).unwrap();
    assert_eq!(plan.command, "/bin/sh");
    assert_eq!(plan.args, strings(&["-c", "echo hi"]));
    assert_eq!(plan.env, strings(&["PATH=/bin", "TERM=xterm"]));
    assert_eq!((plan.uid, plan.gid), (1000, 100));
    assert_eq!(plan.hostname, "box");
}

#[test]
fn launch_plan_reports_first_missing_piece() {
    let mut c = full_config();
    c.hostname = None;
    assert_eq!(launch_plan(&c).err(), Some(ConfigError::MissingHostname));
    c.process.as_mut().unwrap().args = None;
    assert_eq!(launch_plan(&c).err(), Some(ConfigError::MissingHostname));
    c.process.as_mut().unwrap().env = None;
    assert_eq!(launch_plan(&c).err(), Some(ConfigError::MissingEnv));
    c.process = None;
    assert_eq!(launch_plan(&c).err(), Some(ConfigError::MissingProcess));
}

#[test]
fn no_command_runs_the_shell() {
    let mut c = full_config();
    c.process.as_mut().unwrap().args = None;
    let plan = launch_plan(&c).unwrap();
    assert_eq!(plan.command, "/bin/sh");
    assert!(plan.args.is_empty());
    assert_eq!(plan.hostname, "box");
    c.process.as_mut().unwrap().args = Some(Vec::new());
    let plan = launch_plan(&c).unwrap();
    assert_eq!(plan.command, "/bin/sh");
    assert!(plan.args.is_empty());
    assert_eq!(plan.env, strings(&["PATH=/bin", "TERM=xterm"]));
}

#[test]
fn root_path_is_required() {
    let mut c = full_config();
    assert_eq!(require_root_path(&c), Ok("rootfs".to_string()));
    c.root_path = None;
    assert_eq!(require_root_path(&c), Err(ConfigError::MissingRootPath));
}

#[test]
fn environment_entries_split_at_first_equals() {
    let pairs = environment_pairs(&strings(&["A=1", "B=x=y", "C="])).unwrap();
    assert_eq!(
        pairs,
        vec![
            ("A".to_string(), "1".to_string()),
            ("B".to_string(), "x=y".to_string()),
            ("C".to_string(), String::new()),
        ]
    );
    assert_eq!(environment_pairs(&Vec::new()), Ok(Vec::new()));
}

#[test]
fn first_entry_without_equals_is_reported() {
    assert_eq!(
        environment_pairs(&strings(&["A=1", "BAD", "ALSO_BAD"])),
        Err(ConfigError::InvalidEnvVar("BAD".to_string()))
    );
}

#[test]
fn config_error_messages() {
    assert_eq!(ConfigError::MissingRootPath.message(), "Root path not defined in config.json");
    assert_eq!(ConfigError::MissingProcess.message(), "Failed to get process from config.json");
    assert_eq!(ConfigError::MissingEnv.message(), "Failed to get envs from process");
    assert_eq!(ConfigError::MissingHostname.message(), "Failed to get hostname");
    assert_eq!(
        ConfigError::InvalidEnvVar("BAD".to_string()).message(),
        "Invalid environment variable: BAD"
    );
}
