//! Loop devices: the requests made to the kernel and the device number of a
//! loop device node.

use vstd::prelude::*;

verus! {

/// The `ioctl` request that attaches a backing file to a loop device.
pub const LOOP_SET_FD: u64 = 0x4C00;

/// The `ioctl` request that asks the loop control device for a free device.
pub const LOOP_CTL_GET_FREE: u64 = 0x4C82;

/// The major number of loop block devices on Linux.
pub const LOOP_MAJOR: u64 = 7;

/// The Linux device number made of a major and a minor number, as
/// `nix::sys::stat::makedev` computes it.
pub open spec fn spec_makedev(major: u64, minor: u64) -> u64 {
    ((major & 0xffff_f000) << 32u64) | ((major & 0x0000_0fff) << 8u64) | ((minor & 0xffff_ff00)
        << 12u64) | (minor & 0x0000_00ff)
}

/// The major number of a Linux device number, as `nix::sys::stat::major`
/// reads it.
pub open spec fn spec_major(dev: u64) -> u64 {
    ((dev >> 32u64) & 0xffff_f000) | ((dev >> 8u64) & 0x0000_0fff)
}

/// The minor number of a Linux device number, as `nix::sys::stat::minor`
/// reads it.
pub open spec fn spec_minor(dev: u64) -> u64 {
    ((dev >> 12u64) & 0xffff_ff00) | (dev & 0x0000_00ff)
}

/// Calls `nix::sys::stat::makedev`, whose source on Linux computes exactly
/// `spec_makedev`.
#[verifier::external_body]
fn makedev(major: u64, minor: u64) -> (dev: u64)
    ensures
        dev == spec_makedev(major, minor),
{
    nix::sys::stat::makedev(major, minor)
}

/// The device number of the node for loop device `dev_num`.
pub fn loop_device_number(dev_num: i32) -> (dev: u64)
    requires
        dev_num >= 0,
    ensures
        dev == spec_makedev(LOOP_MAJOR, dev_num as u64),
{
    makedev(LOOP_MAJOR, dev_num as u64)
}

/// A device number made of a major and a minor number that fit in 32 bits
/// gives those numbers back.
pub proof fn lemma_makedev_round_trip(major: u64, minor: u64)
    requires
        major <= 0xffff_ffff,
        minor <= 0xffff_ffff,
    ensures
        spec_major(spec_makedev(major, minor)) == major,
        spec_minor(spec_makedev(major, minor)) == minor,
{
    assert(spec_major(spec_makedev(major, minor)) == major) by (bit_vector)
        requires
            major <= 0xffff_ffff,
            minor <= 0xffff_ffff,
    ;
    assert(spec_minor(spec_makedev(major, minor)) == minor) by (bit_vector)
        requires
            major <= 0xffff_ffff,
            minor <= 0xffff_ffff,
    ;
}

/// The node made for a loop device has the loop major number and the
/// device's own number as its minor number.
pub proof fn lemma_loop_device_number(dev_num: i32)
    requires
        dev_num >= 0,
    ensures
        spec_major(spec_makedev(LOOP_MAJOR, dev_num as u64)) == LOOP_MAJOR,
        spec_minor(spec_makedev(LOOP_MAJOR, dev_num as u64)) == dev_num,
{
    lemma_makedev_round_trip(LOOP_MAJOR, dev_num as u64);
}

} // verus!
