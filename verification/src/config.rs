//! What the runtime takes from a container's configuration, and the checks
//! it makes before it launches the container's command.

use vstd::prelude::*;

use crate::text::{clone_strings, owned, push_str, split_once_char, splits_at_first};

verus! {

/// What the runtime reads of the process section of the configuration. The
/// working directory is handed to the command as it stands.
pub struct ProcessConfig {
    pub args: Option<Vec<String>>,
    pub env: Option<Vec<String>>,
    pub uid: u32,
    pub gid: u32,
}

/// What the runtime reads of a container's configuration.
pub struct ContainerConfig {
    pub root_path: Option<String>,
    pub hostname: Option<String>,
    pub process: Option<ProcessConfig>,
}

/// A configuration the runtime cannot run a container from.
#[derive(PartialEq, Eq, Debug)]
pub enum ConfigError {
    MissingRootPath,
    MissingProcess,
    MissingEnv,
    MissingHostname,
    InvalidEnvVar(String),
}

/// The root file-system path of the configuration.
pub fn require_root_path(config: &ContainerConfig) -> (r: Result<String, ConfigError>)
    ensures
        r is Err <==> config.root_path is None,
        r matches Err(e) ==> e == ConfigError::MissingRootPath,
        r matches Ok(p) ==> config.root_path == Some(p),
{
    match &config.root_path {
        Some(p) => Ok(p.clone()),
        None => Err(ConfigError::MissingRootPath),
    }
}

/// The first thing missing for a launch, in the order the runtime looks:
/// the process, its environment, then the host name. Arguments are not
/// required: without them the default command runs.
pub open spec fn launch_error(config: ContainerConfig) -> Option<ConfigError> {
    match config.process {
        None => Some(ConfigError::MissingProcess),
        Some(p) => match p.env {
            None => Some(ConfigError::MissingEnv),
            Some(_) => match config.hostname {
                None => Some(ConfigError::MissingHostname),
                Some(_) => None,
            },
        },
    }
}

/// The command run when the configuration gives none.
pub open spec fn default_command() -> Seq<char> {
    "/bin/sh"@
}

/// Whether the process configuration gives a command: an argument list
/// with at least one entry.
pub open spec fn gives_command(p: ProcessConfig) -> bool {
    p.args is Some && p.args->0.len() > 0
}

/// A launch fails exactly when the process, its environment or the host
/// name is missing, and then for the first of them that is missing. The
/// argument list, the user and the group never make it fail.
pub proof fn lemma_launch_error_causes(config: ContainerConfig)
    ensures
        launch_error(config) is None <==> (config.process is Some && config.process->0.env is Some
            && config.hostname is Some),
        config.process is None ==> launch_error(config) == Some(ConfigError::MissingProcess),
        (config.process is Some && config.process->0.env is None) ==> launch_error(config) == Some(
            ConfigError::MissingEnv,
        ),
        (config.process is Some && config.process->0.env is Some && config.hostname is None)
            ==> launch_error(config) == Some(ConfigError::MissingHostname),
{
}

/// A process configuration gives a command exactly when its argument list
/// is present and holds at least one entry; otherwise `/bin/sh` runs.
pub proof fn lemma_command_given(p: ProcessConfig)
    ensures
        gives_command(p) <==> (p.args is Some && p.args->0.len() >= 1),
        default_command() == "/bin/sh"@,
{
}

/// How the container's command is launched.
pub struct LaunchPlan {
    pub command: String,
    pub args: Vec<String>,
    pub env: Vec<String>,
    pub uid: u32,
    pub gid: u32,
    pub hostname: String,
}

/// The launch of the configured command: the first argument is the
/// command, the rest are its arguments. With no argument list, or an empty
/// one, the command is `/bin/sh` with no arguments. The environment, user and
/// host name are those configured.
pub fn launch_plan(config: &ContainerConfig) -> (r: Result<LaunchPlan, ConfigError>)
    ensures
        r is Err <==> launch_error(*config) is Some,
        r matches Err(e) ==> launch_error(*config) == Some(e),
        r matches Ok(plan) ==> ({
            let p = config.process.unwrap();
            &&& gives_command(p) ==> plan.command == p.args->0[0] && plan.args@ == p.args->0@.skip(1)
            &&& !gives_command(p) ==> plan.command@ == default_command() && plan.args@.len() == 0
            &&& plan.env@ == p.env.unwrap()@
            &&& plan.uid == p.uid
            &&& plan.gid == p.gid
            &&& config.hostname == Some(plan.hostname)
        }),
        r is Ok <==> (config.process is Some && config.process->0.env is Some
            && config.hostname is Some),
        config.process is None ==> (r matches Err(e) && e == ConfigError::MissingProcess),
        (config.process is Some && config.process->0.env is None) ==> (r matches Err(e) && e
            == ConfigError::MissingEnv),
        (config.process is Some && config.process->0.env is Some && config.hostname is None) ==> (
        r matches Err(e) && e == ConfigError::MissingHostname),
        (r is Ok && config.process->0.args is Some && config.process->0.args->0.len() >= 1) ==> (
        r->Ok_0.command == config.process->0.args->0[0] && r->Ok_0.args@
            == config.process->0.args->0@.skip(1)),
        (r is Ok && (config.process->0.args is None || config.process->0.args->0.len() == 0)) ==> (
        r->Ok_0.command@ == "/bin/sh"@ && r->Ok_0.args@.len() == 0),
        r is Ok ==> r->Ok_0.uid == config.process->0.uid && r->Ok_0.gid == config.process->0.gid,
{
    let process = match &config.process {
        Some(p) => p,
        None => return Err(ConfigError::MissingProcess),
    };
    let env = match &process.env {
        Some(e) => e,
        None => return Err(ConfigError::MissingEnv),
    };
    let hostname = match &config.hostname {
        Some(h) => h.clone(),
        None => return Err(ConfigError::MissingHostname),
    };
    let (command, rest) = match &process.args {
        Some(args) if args.len() > 0 => (args[0].clone(), arguments_after_first(args)),
        _ => (owned("/bin/sh"), Vec::new()),
    };
    Ok(
        LaunchPlan {
            command,
            args: rest,
            env: clone_strings(env),
            uid: process.uid,
            gid: process.gid,
            hostname,
        },
    )
}

/// All arguments but the first.
fn arguments_after_first(args: &Vec<String>) -> (rest: Vec<String>)
    requires
        args.len() > 0,
    ensures
        rest@ == args@.skip(1),
{
    let mut rest: Vec<String> = Vec::new();
    for i in 1..args.len()
        invariant
            args.len() > 0,
            rest@ == args@.subrange(1, i as int),
    {
        rest.push(args[i].clone());
        assert(args@.subrange(1, (i + 1) as int) == args@.subrange(1, i as int).push(args@[i as int]));
    }
    assert(args@.subrange(1, args.len() as int) == args@.skip(1));
    rest
}

/// Whether an environment entry has the `KEY=VALUE` form.
pub open spec fn is_env_entry(s: Seq<char>) -> bool {
    s.contains('=')
}

/// An entry has the `KEY=VALUE` form exactly when it holds a `=`, wherever
/// that is and whatever else it holds.
pub proof fn lemma_env_entry(s: Seq<char>)
    ensures
        is_env_entry(s) <==> exists|i: int| 0 <= i < s.len() && s[i] == '=',
{
}

/// The variables to set from the configured environment entries: each
/// entry split at its first `=` into a name and a value. The first entry
/// without a `=` makes the environment invalid.
pub fn environment_pairs(env: &Vec<String>) -> (r: Result<Vec<(String, String)>, ConfigError>)
    ensures
        r is Ok <==> forall|i: int| 0 <= i < env.len() ==> is_env_entry(#[trigger] env[i]@),
        r matches Ok(pairs) ==> {
            &&& pairs.len() == env.len()
            &&& forall|i: int|
                0 <= i < env.len() ==> splits_at_first(
                    #[trigger] env[i]@,
                    '=',
                    pairs[i].0@,
                    pairs[i].1@,
                )
        },
        r matches Err(e) ==> exists|i: int|
            0 <= i < env.len() && !is_env_entry(#[trigger] env[i]@) && (forall|j: int|
                0 <= j < i ==> is_env_entry(#[trigger] env[j]@)) && e
                == ConfigError::InvalidEnvVar(env[i]),
        r is Ok <==> forall|i: int| 0 <= i < env.len() ==> (#[trigger] env[i]@).contains('='),
        r matches Ok(pairs) ==> forall|i: int|
            0 <= i < env.len() ==> #[trigger] env[i]@ == pairs[i].0@ + seq!['='] + pairs[i].1@
                && !pairs[i].0@.contains('='),
{
    let mut pairs: Vec<(String, String)> = Vec::new();
    for i in 0..env.len()
        invariant
            pairs.len() == i,
            forall|j: int| 0 <= j < i ==> is_env_entry(#[trigger] env[j]@),
            forall|j: int|
                0 <= j < i ==> splits_at_first(#[trigger] env[j]@, '=', pairs[j].0@, pairs[j].1@),
    {
        match split_once_char(env[i].as_str(), '=') {
            Some(kv) => {
                pairs.push(kv);
            },
            None => {
                return Err(ConfigError::InvalidEnvVar(env[i].clone()));
            },
        }
    }
    Ok(pairs)
}

impl ConfigError {
    /// The message the runtime stops with.
    pub open spec fn spec_message(self) -> Seq<char> {
        match self {
            ConfigError::MissingRootPath => "Root path not defined in config.json"@,
            ConfigError::MissingProcess => "Failed to get process from config.json"@,
            ConfigError::MissingEnv => "Failed to get envs from process"@,
            ConfigError::MissingHostname => "Failed to get hostname"@,
            ConfigError::InvalidEnvVar(v) => "Invalid environment variable: "@ + v@,
        }
    }

    /// The message the runtime stops with.
    pub fn message(&self) -> (m: String)
        ensures
            m@ == self.spec_message(),
    {
        let lit = match self {
            ConfigError::MissingRootPath => "Root path not defined in config.json",
            ConfigError::MissingProcess => "Failed to get process from config.json",
            ConfigError::MissingEnv => "Failed to get envs from process",
            ConfigError::MissingHostname => "Failed to get hostname",
            ConfigError::InvalidEnvVar(_) => "Invalid environment variable: ",
        };
        let mut m = owned(lit);
        if let ConfigError::InvalidEnvVar(var) = self {
            push_str(&mut m, var.as_str());
        }
        m
    }
}

} // verus!
