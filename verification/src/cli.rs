//! The command line: `create`, `start`, `kill` and `state`, each with a
//! container id; any other command line names a command to run in a fresh
//! container (`/bin/sh` when it names none). Also the usage lines printed
//! when a subcommand lacks its id.

use vstd::prelude::*;

use crate::config::default_command;
use crate::text::{owned, push_str, same_text};

verus! {

/// The subcommands of the runtime.
#[derive(Clone, Copy, PartialEq, Eq, Structural, Debug)]
pub enum Verb {
    Create,
    Start,
    Kill,
    State,
}

/// A command the runtime carries out.
#[derive(PartialEq, Eq, Debug)]
pub enum CliCommand {
    Create { id: String },
    Start { id: String },
    Kill { id: String, signal: String },
    State { id: String },
    /// Run a command in a fresh container and wait for it.
    Run { command: String, args: Vec<String> },
}

/// A command line the runtime does not carry out.
#[derive(Clone, Copy, PartialEq, Eq, Structural, Debug)]
pub enum CliError {
    /// A subcommand given without a container id.
    MissingId(Verb),
}

/// The subcommand a word names.
pub open spec fn verb_named(w: Seq<char>) -> Option<Verb> {
    if w == "create"@ {
        Some(Verb::Create)
    } else if w == "start"@ {
        Some(Verb::Start)
    } else if w == "kill"@ {
        Some(Verb::Kill)
    } else if w == "state"@ {
        Some(Verb::State)
    } else {
        None
    }
}

/// The signal `kill` sends when none is given.
pub open spec fn default_kill_signal() -> Seq<char> {
    "SIGKILL"@
}

fn verb_from_word(w: &str) -> (r: Option<Verb>)
    ensures
        r == verb_named(w@),
{
    if same_text(w, "create") {
        Some(Verb::Create)
    } else if same_text(w, "start") {
        Some(Verb::Start)
    } else if same_text(w, "kill") {
        Some(Verb::Kill)
    } else if same_text(w, "state") {
        Some(Verb::State)
    } else {
        None
    }
}

/// The arguments from position `start` on.
fn arguments_from(args: &Vec<String>, start: usize) -> (rest: Vec<String>)
    requires
        start <= args.len(),
    ensures
        rest@ == args@.skip(start as int),
{
    let mut rest: Vec<String> = Vec::new();
    for i in start..args.len()
        invariant
            start <= args.len(),
            rest@ == args@.subrange(start as int, i as int),
    {
        rest.push(args[i].clone());
        assert(args@.subrange(start as int, (i + 1) as int) == args@.subrange(
            start as int,
            i as int,
        ).push(args@[i as int]));
    }
    assert(args@.subrange(start as int, args.len() as int) == args@.skip(start as int));
    rest
}

/// The command that the arguments (the program name first) ask for. The
/// subcommand is the second argument and the container id the third; `kill`
/// takes the signal from the fourth, `SIGKILL` when there is none. When the
/// second argument names no subcommand, it is a command to run, with the
/// arguments after it; with no second argument the command is `/bin/sh`.
pub fn parse_cli(args: &Vec<String>) -> (r: Result<CliCommand, CliError>)
    ensures
        args.len() < 2 ==> (r matches Ok(CliCommand::Run { command, args: rest })
            && command@ == default_command() && rest@.len() == 0),
        (args.len() >= 2 && verb_named(args[1]@) is None) ==> (r matches Ok(
            CliCommand::Run { command, args: rest },
        ) && command == args[1] && rest@ == args@.skip(2)),
        (args.len() == 2 && verb_named(args[1]@) is Some) ==> r == Err::<CliCommand, CliError>(
            CliError::MissingId(verb_named(args[1]@).unwrap()),
        ),
        (args.len() >= 3 && verb_named(args[1]@) == Some(Verb::Create)) ==> (r matches Ok(
            CliCommand::Create { id },
        ) && id == args[2]),
        (args.len() >= 3 && verb_named(args[1]@) == Some(Verb::Start)) ==> (r matches Ok(
            CliCommand::Start { id },
        ) && id == args[2]),
        (args.len() >= 3 && verb_named(args[1]@) == Some(Verb::State)) ==> (r matches Ok(
            CliCommand::State { id },
        ) && id == args[2]),
        (args.len() >= 3 && verb_named(args[1]@) == Some(Verb::Kill)) ==> (r matches Ok(
            CliCommand::Kill { id, signal },
        ) && id == args[2] && signal@ == (if args.len() >= 4 {
            args[3]@
        } else {
            default_kill_signal()
        })),
{
    if args.len() < 2 {
        return Ok(CliCommand::Run { command: owned("/bin/sh"), args: Vec::new() });
    }
    let verb = match verb_from_word(args[1].as_str()) {
        Some(v) => v,
        None => {
            return Ok(
                CliCommand::Run { command: args[1].clone(), args: arguments_from(args, 2) },
            );
        },
    };
    if args.len() < 3 {
        return Err(CliError::MissingId(verb));
    }
    let id = args[2].clone();
    match verb {
        Verb::Create => Ok(CliCommand::Create { id }),
        Verb::Start => Ok(CliCommand::Start { id }),
        Verb::State => Ok(CliCommand::State { id }),
        Verb::Kill => {
            let signal = if args.len() >= 4 {
                args[3].clone()
            } else {
                owned("SIGKILL")
            };
            Ok(CliCommand::Kill { id, signal })
        },
    }
}

/// The name the program goes by in messages: its first argument, or
/// `crater` when there is none.
pub fn program_name(args: &Vec<String>) -> (r: String)
    ensures
        r@ == (if args.len() > 0 {
            args[0]@
        } else {
            "crater"@
        }),
{
    if args.len() > 0 {
        args[0].clone()
    } else {
        owned("crater")
    }
}

/// The usage line printed for a command line that is not carried out.
pub open spec fn usage_line(program: Seq<char>, err: CliError) -> Seq<char> {
    match err {
        CliError::MissingId(Verb::Create) => "Usage "@ + program + ": cargo run <container_id>"@,
        CliError::MissingId(Verb::Start) => "Usage "@ + program + ": cargo start <container_id>"@,
        CliError::MissingId(Verb::Kill) => "Usage: "@ + program
            + " kill <container_id> <signal>"@,
        CliError::MissingId(Verb::State) => "Usage: "@ + program + " state <container_id>"@,
    }
}

/// The usage line printed for a command line that is not carried out.
pub fn usage_message(program: &str, err: CliError) -> (r: String)
    ensures
        r@ == usage_line(program@, err),
{
    let (head, tail) = match err {
        CliError::MissingId(Verb::Create) => ("Usage ", ": cargo run <container_id>"),
        CliError::MissingId(Verb::Start) => ("Usage ", ": cargo start <container_id>"),
        CliError::MissingId(Verb::Kill) => ("Usage: ", " kill <container_id> <signal>"),
        CliError::MissingId(Verb::State) => ("Usage: ", " state <container_id>"),
    };
    let mut r = owned(head);
    push_str(&mut r, program);
    push_str(&mut r, tail);
    r
}

} // verus!
