//! Crater: the decisions of a small Linux container runtime, verified.
//!
//! The runtime unshares namespaces, attaches a disk image to a loop device,
//! mounts the container's root file system, pivots into it, applies cgroup v2
//! limits and execs the configured command. Everything that touches the
//! kernel or the file system lives in the program around this library; what
//! stands here is the logic that decides what those calls receive.

pub mod text;
pub mod paths;
pub mod mounts;
pub mod signals;
pub mod state;
pub mod cgroup;
pub mod device;
pub mod config;
pub mod cli;
pub mod run;
