//! What a container started with `crater [command args…]` gets besides its
//! root file system: the kernel's pseudo file systems, and its loopback
//! interface brought up.

use vstd::prelude::*;

use crate::mounts::MountFlags;
use crate::text::owned;

verus! {

/// A pseudo file system mounted inside the new root.
pub struct KernelFsMount {
    pub source: String,
    pub target: String,
    pub fstype: String,
    pub flags: MountFlags,
}

/// Whether `m` mounts the file system `fstype`, named `source`, at `target`
/// with `flags`.
pub open spec fn mounts_fs(
    m: KernelFsMount,
    source: Seq<char>,
    target: Seq<char>,
    fstype: Seq<char>,
    flags: MountFlags,
) -> bool {
    &&& m.source@ == source
    &&& m.target@ == target
    &&& m.fstype@ == fstype
    &&& m.flags == flags
}

/// The flags of the `/proc` mount: no set-user-id, no execution, no devices.
pub open spec fn proc_flags() -> MountFlags {
    MountFlags {
        read_only: false,
        nosuid: true,
        noexec: true,
        nodev: true,
        bind: false,
        recursive: false,
    }
}

/// The flags of the `/sys` mount: those of `/proc`, and read-only.
pub open spec fn sys_flags() -> MountFlags {
    MountFlags { read_only: true, ..proc_flags() }
}

fn kernel_fs_mount(source: &str, target: &str, fstype: &str, flags: MountFlags) -> (m:
    KernelFsMount)
    ensures
        mounts_fs(m, source@, target@, fstype@, flags),
{
    KernelFsMount { source: owned(source), target: owned(target), fstype: owned(fstype), flags }
}

/// The pseudo file systems mounted after the pivot, in order: `proc` at
/// `/proc`, then `sysfs` read-only at `/sys`.
pub fn kernel_fs_mounts() -> (r: Vec<KernelFsMount>)
    ensures
        r.len() == 2,
        mounts_fs(r[0], "proc"@, "/proc"@, "proc"@, proc_flags()),
        mounts_fs(r[1], "sysfs"@, "/sys"@, "sysfs"@, sys_flags()),
{
    let proc_fl = MountFlags {
        read_only: false,
        nosuid: true,
        noexec: true,
        nodev: true,
        bind: false,
        recursive: false,
    };
    let sys_fl = MountFlags { read_only: true, ..proc_fl };
    let mut r: Vec<KernelFsMount> = Vec::new();
    r.push(kernel_fs_mount("proc", "/proc", "proc", proc_fl));
    r.push(kernel_fs_mount("sysfs", "/sys", "sysfs", sys_fl));
    r
}

/// The shell line that brings up the loopback interface, with `ip` or, where
/// that fails, `ifconfig`.
pub open spec fn loopback_script() -> Seq<char> {
    "ip link set up dev lo || ifconfig lo up"@
}

/// The command that brings up the loopback interface: the shell, given the
/// loopback script with `-c`.
pub fn loopback_up_command() -> (r: (String, Vec<String>))
    ensures
        r.0@ == "/bin/sh"@,
        r.1.len() == 2,
        r.1[0]@ == "-c"@,
        r.1[1]@ == loopback_script(),
{
    let mut args: Vec<String> = Vec::new();
    args.push(owned("-c"));
    args.push(owned("ip link set up dev lo || ifconfig lo up"));
    (owned("/bin/sh"), args)
}

} // verus!
