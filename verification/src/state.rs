//! What the runtime records of a container and reports about it, and the
//! handshake that starts a created container.

use vstd::prelude::*;

use crate::paths::bundle_path;
use crate::text::{
    decimal_string, int_decimal, lemma_int_decimal_trimmed, lemma_parse_decimal_round_trip,
    owned, parse_i32, spec_parse_i32, trim, trim_whitespace,
};

verus! {

/// The OCI runtime-spec version that state reports carry.
pub open spec fn oci_version() -> Seq<char> {
    "1.0.2"@
}

/// The status word of a container whose process does or does not exist.
pub open spec fn status_word(running: bool) -> Seq<char> {
    if running {
        "running"@
    } else {
        "stopped"@
    }
}

/// The state of a container as `state` reports it.
pub struct ContainerState {
    pub oci_version: String,
    pub id: String,
    pub state: String,
    pub pid: i32,
    pub bundle: String,
}

/// The state report of container `id`, whose recorded process is `pid`;
/// `process_exists` tells whether that process's `/proc` entry exists.
pub fn container_state(id: &str, pid: i32, process_exists: bool) -> (r: ContainerState)
    ensures
        r.oci_version@ == oci_version(),
        r.id@ == id@,
        r.state@ == status_word(process_exists),
        r.pid == pid,
        r.bundle@ == "/run/crater/"@ + id@,
{
    let state = if process_exists {
        owned("running")
    } else {
        owned("stopped")
    };
    ContainerState {
        oci_version: owned("1.0.2"),
        id: owned(id),
        state,
        pid,
        bundle: bundle_path(id),
    }
}

/// What the pid file of a container holds: the decimal pid.
pub fn pid_file_contents(pid: i32) -> (r: String)
    ensures
        r@ == int_decimal(pid as int),
{
    decimal_string(pid)
}

/// The pid that a pid file holds: its text without surrounding whitespace,
/// read as a decimal `i32`; none when that text is not one.
pub fn parse_pid_file(contents: &str) -> (r: Option<i32>)
    ensures
        r == spec_parse_i32(trim(contents@)),
{
    let t = trim_whitespace(contents);
    parse_i32(t.as_str())
}

/// A pid written to a pid file is the pid read back from it.
pub proof fn lemma_pid_file_round_trip(pid: i32)
    ensures
        spec_parse_i32(trim(int_decimal(pid as int))) == Some(pid),
{
    lemma_int_decimal_trimmed(pid as int);
    lemma_parse_decimal_round_trip(pid);
}

/// The bytes that `start` writes to a created container's FIFO: `GO` and a
/// newline.
pub open spec fn start_message() -> Seq<u8> {
    seq![71u8, 79u8, 10u8]
}

/// How many bytes the created container waits for on its FIFO.
pub const START_READ_LEN: usize = 2;

/// The bytes that `start` writes to a created container's FIFO.
pub fn start_signal() -> (r: Vec<u8>)
    ensures
        r@ == start_message(),
{
    let mut r: Vec<u8> = Vec::new();
    r.push(71u8);
    r.push(79u8);
    r.push(10u8);
    r
}

/// The start message holds at least as many bytes as the container waits
/// for, so one write releases it.
pub proof fn lemma_start_message_releases()
    ensures
        start_message().len() >= START_READ_LEN,
{
}

} // verus!
