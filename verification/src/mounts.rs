//! Mount options as the runtime reads them from the container
//! configuration, and the mounts it makes inside the root file system.

use vstd::prelude::*;

use crate::paths::{mount_target, mount_target_path};
use crate::text::{join_strings, join_with, lemma_push_contains, same_text};

verus! {

/// The mount flags that the runtime sets from configuration options.
#[derive(Clone, Copy, PartialEq, Eq, Structural, Debug)]
pub struct MountFlags {
    pub read_only: bool,
    pub nosuid: bool,
    pub noexec: bool,
    pub nodev: bool,
    pub bind: bool,
    pub recursive: bool,
}

impl MountFlags {
    /// No flag set.
    pub open spec fn spec_none() -> MountFlags {
        MountFlags {
            read_only: false,
            nosuid: false,
            noexec: false,
            nodev: false,
            bind: false,
            recursive: false,
        }
    }

    /// No flag set.
    pub fn none() -> (r: MountFlags)
        ensures
            r == MountFlags::spec_none(),
    {
        MountFlags {
            read_only: false,
            nosuid: false,
            noexec: false,
            nodev: false,
            bind: false,
            recursive: false,
        }
    }
}

/// Whether an option is one that the runtime turns into flags (or ignores
/// as the default); every other option is handed to the file system.
pub open spec fn is_flag_option(o: Seq<char>) -> bool {
    ||| o == "defaults"@
    ||| o == "ro"@
    ||| o == "rw"@
    ||| o == "nosuid"@
    ||| o == "noexec"@
    ||| o == "nodev"@
    ||| o == "bind"@
    ||| o == "rbind"@
}

/// The flags that a list of options sets: `ro`, `nosuid`, `noexec` and
/// `nodev` set their own flag, `bind` sets the bind flag, and `rbind` sets
/// both the bind and the recursive flag. `defaults` and `rw` set nothing.
pub open spec fn flags_of(opts: Seq<Seq<char>>) -> MountFlags {
    MountFlags {
        read_only: opts.contains("ro"@),
        nosuid: opts.contains("nosuid"@),
        noexec: opts.contains("noexec"@),
        nodev: opts.contains("nodev"@),
        bind: opts.contains("bind"@) || opts.contains("rbind"@),
        recursive: opts.contains("rbind"@),
    }
}

/// The options handed to the file system, in their order: those that are
/// not flag options.
pub open spec fn data_options(opts: Seq<Seq<char>>) -> Seq<Seq<char>>
    decreases opts.len(),
{
    if opts.len() == 0 {
        Seq::empty()
    } else if is_flag_option(opts.last()) {
        data_options(opts.drop_last())
    } else {
        data_options(opts.drop_last()).push(opts.last())
    }
}

/// The options of an optional list; an absent list has none.
pub open spec fn option_list(options: Option<Vec<String>>) -> Seq<Seq<char>> {
    match options {
        Some(v) => v.deep_view(),
        None => Seq::empty(),
    }
}

/// The file-system data string for a list of options: its data options
/// joined with commas.
pub open spec fn mount_data(opts: Seq<Seq<char>>) -> Seq<char> {
    join_with(data_options(opts), ","@)
}

/// The option names that the runtime knows are different words.
proof fn lemma_option_names_distinct()
    ensures
        distinct_names(
            seq!["defaults"@, "ro"@, "rw"@, "nosuid"@, "noexec"@, "nodev"@, "bind"@, "rbind"@],
        ),
{
    reveal_strlit("defaults");
    reveal_strlit("ro");
    reveal_strlit("rw");
    reveal_strlit("nosuid");
    reveal_strlit("noexec");
    reveal_strlit("nodev");
    reveal_strlit("bind");
    reveal_strlit("rbind");
    assert("defaults"@.len() == 8);
    assert("ro"@.len() == 2);
    assert("rw"@.len() == 2);
    assert("nosuid"@.len() == 6);
    assert("noexec"@.len() == 6);
    assert("nodev"@.len() == 5);
    assert("bind"@.len() == 4);
    assert("rbind"@.len() == 5);
    assert("ro"@[1] != "rw"@[1]);
    assert("nosuid"@[2] != "noexec"@[2]);
    assert("nodev"@[0] != "rbind"@[0]);
    let names = seq!["defaults"@, "ro"@, "rw"@, "nosuid"@, "noexec"@, "nodev"@, "bind"@, "rbind"@];
    assert forall|i: int, j: int| 0 <= i < names.len() && 0 <= j < names.len() && i != j implies
        #[trigger] names[i] != #[trigger] names[j] by {
        if names[i] == names[j] {
            assert(names[i].len() == names[j].len());
            assert(names[i][0] == names[j][0]);
            assert(names[i][1] == names[j][1]);
            assert(names[i][2] == names[j][2]);
        }
    }
}

/// No two entries of the list are the same.
pub open spec fn distinct_names(names: Seq<Seq<char>>) -> bool {
    forall|i: int, j: int|
        0 <= i < names.len() && 0 <= j < names.len() && i != j ==> #[trigger] names[i]
            != #[trigger] names[j]
}

/// Splits fstab-style mount options into the flags they set and the data
/// string for the file system.
pub fn parse_mount_opts(options: &Option<Vec<String>>) -> (r: (MountFlags, String))
    ensures
        r.0 == flags_of(option_list(*options)),
        r.1@ == mount_data(option_list(*options)),
        r.0.read_only == option_list(*options).contains("ro"@),
        r.0.nosuid == option_list(*options).contains("nosuid"@),
        r.0.noexec == option_list(*options).contains("noexec"@),
        r.0.nodev == option_list(*options).contains("nodev"@),
        r.0.bind == (option_list(*options).contains("bind"@) || option_list(*options).contains(
            "rbind"@,
        )),
        r.0.recursive == option_list(*options).contains("rbind"@),
        options is None ==> r.0 == MountFlags::spec_none() && r.1@.len() == 0,
        options matches Some(v) ==> option_list(*options) == v.deep_view(),
{
    let mut flags = MountFlags::none();
    let mut data: Vec<String> = Vec::new();
    let ghost opts = option_list(*options);
    if let Some(list) = options {
        for i in 0..list.len()
            invariant
                opts == list.deep_view(),
                flags == flags_of(opts.take(i as int)),
                data.deep_view() == data_options(opts.take(i as int)),
        {
            proof {
                lemma_option_names_distinct();
            }
            let opt = &list[i];
            let ghost prev = opts.take(i as int);
            let ghost o = opts[i as int];
            assert(opts.take((i + 1) as int) == prev.push(o));
            assert(opts.take((i + 1) as int).drop_last() == prev);
            assert(o == opt@);
            proof {
                lemma_push_contains(prev, o, "ro"@);
                lemma_push_contains(prev, o, "nosuid"@);
                lemma_push_contains(prev, o, "noexec"@);
                lemma_push_contains(prev, o, "nodev"@);
                lemma_push_contains(prev, o, "bind"@);
                lemma_push_contains(prev, o, "rbind"@);
            }
            let s = opt.as_str();
            if same_text(s, "defaults") || same_text(s, "rw") {
            } else if same_text(s, "ro") {
                flags.read_only = true;
            } else if same_text(s, "nosuid") {
                flags.nosuid = true;
            } else if same_text(s, "noexec") {
                flags.noexec = true;
            } else if same_text(s, "nodev") {
                flags.nodev = true;
            } else if same_text(s, "bind") {
                flags.bind = true;
            } else if same_text(s, "rbind") {
                flags.bind = true;
                flags.recursive = true;
            } else {
                data.push(opt.clone());
                assert(data.deep_view() == data_options(prev).push(o));
            }
        }
        assert(opts.take(list.len() as int) == opts);
    }
    (flags, join_strings(&data, ","))
}

/// The options handed to the file system are exactly those of the list that
/// are not flag options: no flag option reaches the data string, and every
/// other option does.
pub proof fn lemma_data_options_partition(opts: Seq<Seq<char>>, o: Seq<char>)
    ensures
        data_options(opts).contains(o) <==> (opts.contains(o) && !is_flag_option(o)),
    decreases opts.len(),
{
    if opts.len() > 0 {
        let prev = opts.drop_last();
        lemma_data_options_partition(prev, o);
        assert(opts == prev.push(opts.last()));
        lemma_push_contains(prev, opts.last(), o);
        if !is_flag_option(opts.last()) {
            lemma_push_contains(data_options(prev), opts.last(), o);
        }
    }
}

/// `defaults` and `rw` change nothing: adding either to a list of options
/// leaves its flags and its data as they were.
pub proof fn lemma_neutral_options(opts: Seq<Seq<char>>, o: Seq<char>)
    requires
        o == "defaults"@ || o == "rw"@,
    ensures
        flags_of(opts.push(o)) == flags_of(opts),
        data_options(opts.push(o)) == data_options(opts),
{
    lemma_option_names_distinct();
    let names = seq!["defaults"@, "ro"@, "rw"@, "nosuid"@, "noexec"@, "nodev"@, "bind"@, "rbind"@];
    assert(names[0] != names[1] && names[0] != names[3] && names[0] != names[4]);
    assert(names[0] != names[5] && names[0] != names[6] && names[0] != names[7]);
    assert(names[2] != names[1] && names[2] != names[3] && names[2] != names[4]);
    assert(names[2] != names[5] && names[2] != names[6] && names[2] != names[7]);
    lemma_push_contains(opts, o, "ro"@);
    lemma_push_contains(opts, o, "nosuid"@);
    lemma_push_contains(opts, o, "noexec"@);
    lemma_push_contains(opts, o, "nodev"@);
    lemma_push_contains(opts, o, "bind"@);
    lemma_push_contains(opts, o, "rbind"@);
    assert(opts.push(o).drop_last() == opts);
}

/// Each flag is set by its own option words and by no other: the flags of a
/// list are those of the list without its last option, with the one flag
/// (or, for `rbind`, the two flags) that this option names added.
pub proof fn lemma_flags_push(opts: Seq<Seq<char>>, w: Seq<char>)
    ensures
        flags_of(opts.push(w)).read_only == (flags_of(opts).read_only || w == "ro"@),
        flags_of(opts.push(w)).nosuid == (flags_of(opts).nosuid || w == "nosuid"@),
        flags_of(opts.push(w)).noexec == (flags_of(opts).noexec || w == "noexec"@),
        flags_of(opts.push(w)).nodev == (flags_of(opts).nodev || w == "nodev"@),
        flags_of(opts.push(w)).bind == (flags_of(opts).bind || w == "bind"@ || w == "rbind"@),
        flags_of(opts.push(w)).recursive == (flags_of(opts).recursive || w == "rbind"@),
{
    lemma_push_contains(opts, w, "ro"@);
    lemma_push_contains(opts, w, "nosuid"@);
    lemma_push_contains(opts, w, "noexec"@);
    lemma_push_contains(opts, w, "nodev"@);
    lemma_push_contains(opts, w, "bind"@);
    lemma_push_contains(opts, w, "rbind"@);
}

/// A list with no option sets no flag, and a flag is set exactly when the
/// list holds the word that asks for it: `ro`, `nosuid`, `noexec`, `nodev`;
/// `bind` or `rbind` for the bind flag, `rbind` for the recursive flag.
pub proof fn lemma_flags_words(opts: Seq<Seq<char>>)
    ensures
        flags_of(Seq::empty()) == MountFlags::spec_none(),
        flags_of(opts).read_only <==> exists|i: int| 0 <= i < opts.len() && opts[i] == "ro"@,
        flags_of(opts).nosuid <==> exists|i: int| 0 <= i < opts.len() && opts[i] == "nosuid"@,
        flags_of(opts).noexec <==> exists|i: int| 0 <= i < opts.len() && opts[i] == "noexec"@,
        flags_of(opts).nodev <==> exists|i: int| 0 <= i < opts.len() && opts[i] == "nodev"@,
        flags_of(opts).bind <==> exists|i: int|
            0 <= i < opts.len() && (opts[i] == "bind"@ || opts[i] == "rbind"@),
        flags_of(opts).recursive <==> exists|i: int| 0 <= i < opts.len() && opts[i] == "rbind"@,
{
    assert(!Seq::<Seq<char>>::empty().contains("ro"@));
    assert(!Seq::<Seq<char>>::empty().contains("nosuid"@));
    assert(!Seq::<Seq<char>>::empty().contains("noexec"@));
    assert(!Seq::<Seq<char>>::empty().contains("nodev"@));
    assert(!Seq::<Seq<char>>::empty().contains("bind"@));
    assert(!Seq::<Seq<char>>::empty().contains("rbind"@));
    if flags_of(opts).bind {
        if opts.contains("bind"@) {
            let k = choose|k: int| 0 <= k < opts.len() && opts[k] == "bind"@;
            assert(0 <= k < opts.len() && (opts[k] == "bind"@ || opts[k] == "rbind"@));
        } else {
            let k = choose|k: int| 0 <= k < opts.len() && opts[k] == "rbind"@;
            assert(0 <= k < opts.len() && (opts[k] == "bind"@ || opts[k] == "rbind"@));
        }
    }
    if exists|i: int| 0 <= i < opts.len() && (opts[i] == "bind"@ || opts[i] == "rbind"@) {
        let k = choose|k: int| 0 <= k < opts.len() && (opts[k] == "bind"@ || opts[k] == "rbind"@);
        assert(opts.contains(opts[k]));
    }
}

/// The words the runtime turns into flags or ignores are exactly
/// `defaults`, `ro`, `rw`, `nosuid`, `noexec`, `nodev`, `bind` and `rbind`:
/// an option reaches the data string exactly when it is in the list and is
/// none of them.
pub proof fn lemma_data_words(opts: Seq<Seq<char>>, o: Seq<char>)
    ensures
        data_options(opts).contains(o) <==> (opts.contains(o) && !seq![
            "defaults"@,
            "ro"@,
            "rw"@,
            "nosuid"@,
            "noexec"@,
            "nodev"@,
            "bind"@,
            "rbind"@,
        ].contains(o)),
{
    lemma_data_options_partition(opts, o);
    let words = seq!["defaults"@, "ro"@, "rw"@, "nosuid"@, "noexec"@, "nodev"@, "bind"@, "rbind"@];
    if is_flag_option(o) {
        if o == "defaults"@ { assert(words[0] == o); }
        else if o == "ro"@ { assert(words[1] == o); }
        else if o == "rw"@ { assert(words[2] == o); }
        else if o == "nosuid"@ { assert(words[3] == o); }
        else if o == "noexec"@ { assert(words[4] == o); }
        else if o == "nodev"@ { assert(words[5] == o); }
        else if o == "bind"@ { assert(words[6] == o); }
        else { assert(words[7] == o); }
    }
    if words.contains(o) {
        let k = choose|k: int| 0 <= k < words.len() && words[k] == o;
        assert(is_flag_option(o));
    }
}

/// The data string keeps the order of its options: the data options of two
/// lists one after the other are those of the first list, then those of the
/// second.
pub proof fn lemma_data_options_concat(a: Seq<Seq<char>>, b: Seq<Seq<char>>)
    ensures
        data_options(a + b) == data_options(a) + data_options(b),
    decreases b.len(),
{
    if b.len() == 0 {
        assert(a + b == a);
        assert(data_options(b) == Seq::<Seq<char>>::empty());
    } else {
        lemma_data_options_concat(a, b.drop_last());
        assert((a + b).drop_last() == a + b.drop_last());
        assert((a + b).last() == b.last());
    }
}

/// What the runtime reads of a mount in the container configuration: where
/// it goes and its options. Its source and type are handed to the mount
/// as they stand.
pub struct MountConfig {
    pub destination: String,
    pub options: Option<Vec<String>>,
}

/// A mount to make inside the root file system.
pub struct MountPlan {
    pub target: String,
    pub flags: MountFlags,
    pub data: String,
}

/// The mount point, flags and data for a configured mount.
pub fn plan_mount(rootfs: &str, m: &MountConfig) -> (r: MountPlan)
    ensures
        r.target@ == mount_target_path(rootfs@, m.destination@),
        r.flags == flags_of(option_list(m.options)),
        r.data@ == mount_data(option_list(m.options)),
        r.flags.nodev == option_list(m.options).contains("nodev"@),
        r.flags.noexec == option_list(m.options).contains("noexec"@),
        r.flags.nosuid == option_list(m.options).contains("nosuid"@),
        r.flags.read_only == option_list(m.options).contains("ro"@),
{
    let target = mount_target(rootfs, m.destination.as_str());
    let (flags, data) = parse_mount_opts(&m.options);
    MountPlan { target, flags, data }
}

} // verus!
