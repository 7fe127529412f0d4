//! The paths the runtime works with: its state directory, the files in it,
//! and the places inside the container's root file system.

use vstd::prelude::*;

use crate::text::{chars_of, decimal_string, int_decimal, owned, push_str, string_from_range};

verus! {

/// What `Path::join` gives on a Unix system: a path that starts with `/`
/// replaces the base; otherwise it is appended, with a `/` between the two
/// unless the base is empty or already ends with one.
pub open spec fn path_join(base: Seq<char>, p: Seq<char>) -> Seq<char> {
    if p.len() > 0 && p[0] == '/' {
        p
    } else if base.len() > 0 && base.last() != '/' {
        base + seq!['/'] + p
    } else {
        base + p
    }
}

/// Joins two paths as `Path::join` does on a Unix system.
pub fn join_path(base: &str, p: &str) -> (r: String)
    ensures
        r@ == path_join(base@, p@),
{
    let pv = chars_of(p);
    if pv.len() > 0 && pv[0] == '/' {
        return string_from_range(&pv, 0, pv.len());
    }
    let bv = chars_of(base);
    let mut r = string_from_range(&bv, 0, bv.len());
    if bv.len() > 0 && bv[bv.len() - 1] != '/' {
        push_str(&mut r, "/");
        proof {
            reveal_strlit("/");
        }
    }
    push_str(&mut r, p);
    r
}

/// The directory under which every container keeps its state.
pub open spec fn state_root() -> Seq<char> {
    "/var/run/crater"@
}

/// The state directory of a container: its id joined to the state root.
pub open spec fn container_dir(id: Seq<char>) -> Seq<char> {
    path_join(state_root(), id)
}

/// The state directory of the container `id`.
pub fn get_container_dir(id: &str) -> (r: String)
    ensures
        r@ == container_dir(id@),
{
    join_path("/var/run/crater", id)
}

/// The named FIFO through which `start` releases a created container.
pub fn sync_fifo_path(id: &str) -> (r: String)
    ensures
        r@ == path_join(container_dir(id@), "sync.fifo"@),
{
    let dir = get_container_dir(id);
    join_path(dir.as_str(), "sync.fifo")
}

/// The file that records the pid of a container's process.
pub fn pid_file_path(id: &str) -> (r: String)
    ensures
        r@ == path_join(container_dir(id@), "pid"@),
{
    let dir = get_container_dir(id);
    join_path(dir.as_str(), "pid")
}

/// `prefix` followed by the decimal text of `n`.
fn with_decimal(prefix: &str, n: i32) -> (r: String)
    ensures
        r@ == prefix@ + int_decimal(n as int),
{
    let mut r = owned(prefix);
    let d = decimal_string(n);
    push_str(&mut r, d.as_str());
    r
}

/// The `/proc` entry of a process, whose existence tells that it runs.
pub fn proc_path(pid: i32) -> (r: String)
    ensures
        r@ == "/proc/"@ + int_decimal(pid as int),
{
    with_decimal("/proc/", pid)
}

/// The bundle path reported in a container's state.
pub fn bundle_path(id: &str) -> (r: String)
    ensures
        r@ == "/run/crater/"@ + id@,
{
    let mut r = owned("/run/crater/");
    push_str(&mut r, id);
    r
}

/// The cgroup v2 directory made for the container process `pid`.
pub fn cgroup_dir(pid: i32) -> (r: String)
    ensures
        r@ == "/sys/fs/cgroup/crater-"@ + int_decimal(pid as int),
{
    with_decimal("/sys/fs/cgroup/crater-", pid)
}

/// The device node of loop device number `dev_num`; there is none for a
/// negative number, which is how the loop control device reports failure.
pub fn loop_device_path(dev_num: i32) -> (r: Option<String>)
    ensures
        r is None <==> dev_num < 0,
        r matches Some(p) ==> p@ == "/dev/loop"@ + int_decimal(dev_num as int),
{
    if dev_num < 0 {
        None
    } else {
        Some(with_decimal("/dev/loop", dev_num))
    }
}

/// `s` without the leading occurrences of `c`, as `str::trim_start_matches`
/// gives it for a `char` pattern.
pub open spec fn strip_leading(s: Seq<char>, c: char) -> Seq<char>
    decreases s.len(),
{
    if s.len() > 0 && s[0] == c {
        strip_leading(s.drop_first(), c)
    } else {
        s
    }
}

/// Removes the leading occurrences of `c`, as `str::trim_start_matches` does.
pub fn trim_start_char(s: &str, c: char) -> (r: String)
    ensures
        r@ == strip_leading(s@, c),
{
    let v = chars_of(s);
    let n = v.len();
    let mut i: usize = 0;
    assert(v@.subrange(0, n as int) == s@);
    while i < n && v[i] == c
        invariant
            v@ == s@,
            n == v.len(),
            i <= n,
            strip_leading(s@, c) == strip_leading(v@.subrange(i as int, n as int), c),
        decreases n - i,
    {
        assert(v@.subrange(i as int, n as int).drop_first() == v@.subrange(
            (i + 1) as int,
            n as int,
        ));
        i = i + 1;
    }
    string_from_range(&v, i, n)
}

/// After stripping, the text is empty or starts with another character.
pub proof fn lemma_strip_leading(s: Seq<char>, c: char)
    ensures
        strip_leading(s, c).len() == 0 || strip_leading(s, c)[0] != c,
        strip_leading(s, c).len() <= s.len(),
    decreases s.len(),
{
    if s.len() > 0 && s[0] == c {
        lemma_strip_leading(s.drop_first(), c);
    }
}

/// Where a configured mount lands inside the root file system: the
/// destination with its leading slashes removed, joined to the root.
pub open spec fn mount_target_path(rootfs: Seq<char>, destination: Seq<char>) -> Seq<char> {
    path_join(rootfs, strip_leading(destination, '/'))
}

/// The mount point inside `rootfs` for a configured destination.
pub fn mount_target(rootfs: &str, destination: &str) -> (r: String)
    ensures
        r@ == mount_target_path(rootfs@, destination@),
{
    let dest = trim_start_char(destination, '/');
    join_path(rootfs, dest.as_str())
}

/// Where the container's root file system is mounted.
pub open spec fn container_rootfs_path() -> Seq<char> {
    "/app/crater_rootfs"@
}

/// Where the container's root file system is mounted.
pub fn container_rootfs() -> (r: String)
    ensures
        r@ == container_rootfs_path(),
{
    owned("/app/crater_rootfs")
}

/// The disk image that holds the container's root file system.
pub fn container_image() -> (r: String)
    ensures
        r@ == "/app/container_disk.img"@,
{
    owned("/app/container_disk.img")
}

/// Every mount target spells out the root, a `/`, then the destination
/// without its leading slashes. (This is a statement about the text: `..`
/// components in the destination are kept.)
pub proof fn lemma_mount_target_under_root(rootfs: Seq<char>, destination: Seq<char>)
    requires
        rootfs.len() > 0,
        rootfs.last() != '/',
    ensures
        mount_target_path(rootfs, destination) == rootfs + seq!['/'] + strip_leading(
            destination,
            '/',
        ),
{
    lemma_strip_leading(destination, '/');
}

/// The mount target of every configured mount of a container spells out the
/// root file-system path, a `/`, then the destination without its leading
/// slashes. (This is a statement about the text: `..` components in the
/// destination are kept, and can lead out of the root on disk.)
pub proof fn lemma_container_mounts_under_rootfs(destination: Seq<char>)
    ensures
        mount_target_path(container_rootfs_path(), destination) == container_rootfs_path()
            + seq!['/'] + strip_leading(destination, '/'),
{
    reveal_strlit("/app/crater_rootfs");
    lemma_mount_target_under_root(container_rootfs_path(), destination);
}

/// The two names of the directory that receives the old root in
/// `pivot_root`: inside the new root before the pivot, and from `/` after it.
pub struct PivotPaths {
    pub put_old: String,
    pub old_root_after_pivot: String,
}

/// The name of the directory that receives the old root.
pub open spec fn old_root_name() -> Seq<char> {
    "old_root"@
}

/// The paths of the old root around the pivot into `rootfs`.
pub fn pivot_paths(rootfs: &str) -> (r: PivotPaths)
    ensures
        r.put_old@ == path_join(rootfs@, old_root_name()),
        r.old_root_after_pivot@ == path_join("/"@, old_root_name()),
{
    PivotPaths { put_old: join_path(rootfs, "old_root"), old_root_after_pivot: join_path("/", "old_root") }
}

/// The old root that the pivot puts in `rootfs` is the directory that is
/// found, after the pivot, at the path the runtime unmounts: the root's own
/// path followed by it.
pub proof fn lemma_old_root_consistent(rootfs: Seq<char>)
    requires
        rootfs.len() > 0,
        rootfs.last() != '/',
    ensures
        path_join(rootfs, old_root_name()) == rootfs + path_join("/"@, old_root_name()),
{
    reveal_strlit("old_root");
    reveal_strlit("/");
    assert(path_join("/"@, old_root_name()) == seq!['/'] + old_root_name());
}

} // verus!
