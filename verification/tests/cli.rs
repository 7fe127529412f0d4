use crater::cli::{parse_cli, program_name, usage_message, CliCommand, CliError, Verb};

fn args(list: &[&str]) -> Vec<String> {
    list.iter().map(|s| s.to_string()).collect()
}

#[test]
fn subcommands_take_an_id() {
    assert_eq!(parse_cli(&args(&["crater", "create", "c1"])), Ok(CliCommand::Create { id: "c1".to_string() }));
    assert_eq!(parse_cli(&args(&["crater", "start", "c1", "extra"])), Ok(CliCommand::Start { id: "c1".to_string() }));
    assert_eq!(parse_cli(&args(&["crater", "state", "c1"])), Ok(CliCommand::State { id: "c1".to_string() }));
}

#[test]
fn kill_defaults_to_sigkill() {
    assert_eq!(
        parse_cli(&args(&["crater", "kill", "c1"])),
        Ok(CliCommand::Kill { id: "c1".to_string(), signal: "SIGKILL".to_string() })
    );
    assert_eq!(
        parse_cli(&args(&["crater", "kill", "c1", "TERM"])),
        Ok(CliCommand::Kill { id: "c1".to_string(), signal: "TERM".to_string() })
    );
}

#[test]
fn missing_id() {
    assert_eq!(parse_cli(&args(&["crater", "kill"])), Err(CliError::MissingId(Verb::Kill)));
    assert_eq!(parse_cli(&args(&["crater", "start"])), Err(CliError::MissingId(Verb::Start)));
    assert_eq!(parse_cli(&args(&["crater", "create"])), Err(CliError::MissingId(Verb::Create)));
    assert_eq!(parse_cli(&args(&["crater", "state"])), Err(CliError::MissingId(Verb::State)));
}

#[test]
fn other_command_lines_run_a_command() {
    assert_eq!(
        parse_cli(&args(&["crater", "/bin/echo", "hello from crater"])),
        Ok(CliCommand::Run { command: "/bin/echo".to_string(), args: args(&["hello from crater"]) })
    );
    assert_eq!(
        parse_cli(&args(&["crater", "/bin/sh", "-lc", "uname -a && id"])),
        Ok(CliCommand::Run { command: "/bin/sh".to_string(), args: args(&["-lc", "uname -a && id"]) })
    );
    assert_eq!(
        parse_cli(&args(&["crater", "CREATE", "c1"])),
        Ok(CliCommand::Run { command: "CREATE".to_string(), args: args(&["c1"]) })
    );
}

#[test]
fn no_command_runs_the_shell_by_default() {
    let shell = Ok(CliCommand::Run { command: "/bin/sh".to_string(), args: Vec::new() });
    assert_eq!(parse_cli(&args(&["crater"])), shell);
    assert_eq!(parse_cli(&Vec::new()), shell);
}

#[test]
fn usage_lines() {
    assert_eq!(usage_message("crater", CliError::MissingId(Verb::Create)), "Usage crater: cargo run <container_id>");
    assert_eq!(usage_message("crater", CliError::MissingId(Verb::Start)), "Usage crater: cargo start <container_id>");
    assert_eq!(usage_message("prog", CliError::MissingId(Verb::Kill)), "Usage: prog kill <container_id> <signal>");
    assert_eq!(usage_message("prog", CliError::MissingId(Verb::State)), "Usage: prog state <container_id>");
}

#[test]
fn program_name_defaults_to_crater() {
    assert_eq!(program_name(&args(&["/usr/bin/crater", "state"])), "/usr/bin/crater");
    assert_eq!(program_name(&Vec::new()), "crater");
}
