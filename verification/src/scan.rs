//! Choosing the cleaners, finding the projects, sizing their artifacts.
use vstd::prelude::*;

use crate::cmd::{command_type_named, Cmd, CommandType};
use crate::constant::{cmd_table, get_cmd_map, kinds_distinct, lemma_cmd_table_kinds_distinct, marker_files, CmdMap};
use crate::text::{chars_of, spells, str_views, string_views};
use crate::utils::command_available;

verus! {

/// The view of a cleaner: its kind and the names of its marker files.
pub open spec fn cmd_view(c: Cmd) -> (CommandType, Seq<Seq<char>>) {
    (c.command_type, str_views(c.related_files@))
}

/// The views of a list of cleaners.
pub open spec fn cmd_views(s: Seq<Cmd>) -> Seq<(CommandType, Seq<Seq<char>>)> {
    s.map_values(|c: Cmd| cmd_view(c))
}

/// The name `n` denotes a kind that shares its canonical name with `t`.
pub open spec fn names_cleaner(n: Seq<char>, t: CommandType) -> bool {
    match command_type_named(n) {
        Some(p) => p.canonical_name() == t.canonical_name(),
        None => false,
    }
}

/// Some name in `exclude` denotes a kind that shares its canonical name with `t`.
pub open spec fn excluded(t: CommandType, exclude: Seq<Seq<char>>) -> bool {
    exists|i: int| 0 <= i < exclude.len() && #[trigger] names_cleaner(exclude[i], t)
}

/// The entries of `table` whose tool is available and whose kind is not excluded,
/// in the order of the table; `available[i]` tells whether the tool of entry `i` is.
pub open spec fn enabled_entries(
    table: Seq<(CommandType, Seq<Seq<char>>)>,
    available: Seq<bool>,
    exclude: Seq<Seq<char>>,
) -> Seq<(CommandType, Seq<Seq<char>>)>
    decreases table.len(),
{
    if table.len() == 0 {
        seq![]
    } else {
        let rest = enabled_entries(table.drop_last(), available.drop_last(), exclude);
        if available.last() && !excluded(table.last().0, exclude) {
            rest.push(table.last())
        } else {
            rest
        }
    }
}

/// The enabled cleaners are cleaners of the table, and none of them is of a kind that
/// `--exclude-type` names, by any of its names: excluding a type disables its cleaner.
pub proof fn lemma_enabled_respects_exclusions(
    table: Seq<(CommandType, Seq<Seq<char>>)>,
    available: Seq<bool>,
    exclude: Seq<Seq<char>>,
)
    requires
        available.len() == table.len(),
    ensures
        forall|i: int|
            0 <= i < enabled_entries(table, available, exclude).len() ==> {
                let e = #[trigger] enabled_entries(table, available, exclude)[i];
                &&& table.contains(e)
                &&& !excluded(e.0, exclude)
            },
    decreases table.len(),
{
    if table.len() > 0 {
        lemma_enabled_respects_exclusions(table.drop_last(), available.drop_last(), exclude);
        let rest = enabled_entries(table.drop_last(), available.drop_last(), exclude);
        assert forall|i: int| 0 <= i < rest.len() implies table.contains(#[trigger] rest[i]) by {
            let j = choose|j: int| 0 <= j < table.drop_last().len() && table.drop_last()[j] == rest[i];
            assert(table[j] == rest[i]);
        }
        assert(table[table.len() - 1] == table.last());
    }
}

/// Of a table that names each kind at most once, an entry is enabled exactly when its
/// tool is available and `--exclude-type` does not disable its kind, and no kind is
/// enabled twice.
pub proof fn lemma_enabled_exactly_once(
    table: Seq<(CommandType, Seq<Seq<char>>)>,
    available: Seq<bool>,
    exclude: Seq<Seq<char>>,
)
    requires
        available.len() == table.len(),
        kinds_distinct(table),
    ensures
        kinds_distinct(enabled_entries(table, available, exclude)),
        forall|k: int|
            0 <= k < table.len() ==> (enabled_entries(table, available, exclude).contains(
                #[trigger] table[k],
            ) <==> available[k] && !excluded(table[k].0, exclude)),
    decreases table.len(),
{
    if table.len() > 0 {
        let front = table.drop_last();
        let avail = available.drop_last();
        lemma_enabled_exactly_once(front, avail, exclude);
        lemma_enabled_respects_exclusions(front, avail, exclude);
        let rest = enabled_entries(front, avail, exclude);
        let last = table.last();
        let n = table.len() - 1;
        assert(table[n] == last);
        assert forall|i: int| 0 <= i < rest.len() implies #[trigger] rest[i].0 != last.0 by {
            assert(front.contains(rest[i]));
            let j = choose|j: int| 0 <= j < front.len() && front[j] == rest[i];
            assert(table[j] == front[j]);
        }
        assert(!rest.contains(last)) by {
            if rest.contains(last) {
                let i = choose|i: int| 0 <= i < rest.len() && rest[i] == last;
                assert(rest[i].0 != last.0);
            }
        }
        let all = enabled_entries(table, available, exclude);
        assert forall|k: int| 0 <= k < table.len() implies (all.contains(#[trigger] table[k])
            <==> available[k] && !excluded(table[k].0, exclude)) by {
            if k < n {
                assert(table[k] == front[k]);
                assert(table[k].0 != last.0);
                if available.last() && !excluded(last.0, exclude) {
                    if all.contains(table[k]) {
                        let i = choose|i: int| 0 <= i < all.len() && all[i] == table[k];
                        assert(i < rest.len());
                        assert(rest[i] == table[k]);
                    }
                    if rest.contains(table[k]) {
                        let i = choose|i: int| 0 <= i < rest.len() && rest[i] == table[k];
                        assert(all[i] == table[k]);
                    }
                }
            } else {
                if available.last() && !excluded(last.0, exclude) {
                    assert(all[rest.len() as int] == last);
                } else {
                    assert(all == rest);
                }
            }
        }
        if available.last() && !excluded(last.0, exclude) {
            assert forall|i: int, j: int| 0 <= i < j < all.len() implies #[trigger] all[i].0
                != #[trigger] all[j].0 by {
                if j == rest.len() {
                    assert(rest[i].0 != last.0);
                } else {
                    assert(all[i] == rest[i]);
                    assert(all[j] == rest[j]);
                }
            }
        }
    }
}

/// Whether `--exclude-type` disables the cleaner of kind `cmd_type`: some excluded
/// name denotes a kind with the same canonical name; unknown names disable nothing.
pub fn exclude_type_matches(cmd_type: CommandType, exclude_type: &[String]) -> (r: bool)
    ensures
        r == excluded(cmd_type, string_views(exclude_type@)),
{
    let ghost names = string_views(exclude_type@);
    let mut i: usize = 0;
    while i < exclude_type.len()
        invariant
            i <= exclude_type@.len(),
            names == string_views(exclude_type@),
            forall|j: int| 0 <= j < i ==> !#[trigger] names_cleaner(names[j], cmd_type),
        decreases exclude_type@.len() - i,
    {
        proof {
            assert(names[i as int] == exclude_type@[i as int]@);
        }
        match CommandType::try_from(exclude_type[i].as_str()) {
            Ok(p) => {
                if p.same_cleaner(&cmd_type) {
                    proof {
                        assert(names_cleaner(names[i as int], cmd_type));
                    }
                    return true;
                }
            },
            Err(_) => {},
        }
        i = i + 1;
    }
    false
}

/// The cleaners of `map` whose tool is available and whose kind `--exclude-type`
/// does not disable, in the order of the table; `available[i]` tells whether the
/// tool of entry `i` was found. No kind is enabled twice.
pub fn enabled_commands(map: &CmdMap, available: &[bool], exclude_type: &[String]) -> (r: Vec<Cmd>)
    requires
        available@.len() == map@.len(),
    ensures
        cmd_views(r@) == enabled_entries(map@, available@, string_views(exclude_type@)),
        forall|i: int, j: int|
            0 <= i < j < r@.len() ==> #[trigger] r@[i].command_type != #[trigger] r@[j].command_type,
{
    let ghost exclude = string_views(exclude_type@);
    let mut r: Vec<Cmd> = Vec::new();
    let mut i: usize = 0;
    while i < map.len()
        invariant
            i <= map@.len(),
            available@.len() == map@.len(),
            exclude == string_views(exclude_type@),
            cmd_views(r@) == enabled_entries(
                map@.subrange(0, i as int),
                available@.subrange(0, i as int),
                exclude,
            ),
        decreases map@.len() - i,
    {
        let (t, files) = map.entry(i);
        proof {
            assert(map@.subrange(0, i + 1).drop_last() =~= map@.subrange(0, i as int));
            assert(available@.subrange(0, i + 1).drop_last() =~= available@.subrange(0, i as int));
        }
        if available[i] && !exclude_type_matches(t, exclude_type) {
            let cmd = Cmd::new(t, marker_files(files.as_slice()));
            r.push(cmd);
            proof {
                assert(cmd_views(r@) =~= enabled_entries(
                    map@.subrange(0, i as int),
                    available@.subrange(0, i as int),
                    exclude,
                ).push(map@[i as int]));
            }
        }
        i = i + 1;
    }
    proof {
        assert(map@.subrange(0, map@.len() as int) =~= map@);
        assert(available@.subrange(0, map@.len() as int) =~= available@);
        use_type_invariant(map);
        lemma_enabled_exactly_once(map@, available@, exclude);
        assert forall|i: int, j: int| 0 <= i < j < r@.len() implies #[trigger] r@[i].command_type
            != #[trigger] r@[j].command_type by {
            assert(cmd_views(r@)[i].0 == r@[i].command_type);
            assert(cmd_views(r@)[j].0 == r@[j].command_type);
        }
    }
    r
}

/// Cleaners that are present on PATH and not disabled by `--exclude-type`, from the
/// table of the platform (`windows` tells which: Maven runs as `mvn.cmd` there).
/// The tool of each kind of the table is looked up by `command_available`; what a
/// lookup answers depends on the environment. Whatever the lookups found, the result
/// is the table filtered by them and by `exclude_type`: each kind of the table is
/// enabled exactly when its tool was found and it is not excluded, and none twice.
pub fn select_enabled_commands(exclude_type: &[String]) -> (r: Vec<Cmd>)
    ensures
        exists|windows: bool, available: Seq<bool>|
            {
                &&& available.len() == cmd_table(windows).len()
                &&& forall|i: int|
                    0 <= i < available.len() ==> call_ensures(
                        command_available,
                        (cmd_table(windows)[i].0,),
                        #[trigger] available[i],
                    )
                &&& cmd_views(r@) == enabled_entries(
                    cmd_table(windows),
                    available,
                    string_views(exclude_type@),
                )
                &&& forall|k: int|
                    0 <= k < available.len() ==> (cmd_views(r@).contains(
                        #[trigger] cmd_table(windows)[k],
                    ) <==> available[k] && !excluded(
                        cmd_table(windows)[k].0,
                        string_views(exclude_type@),
                    ))
            },
        forall|i: int, j: int|
            0 <= i < j < r@.len() ==> #[trigger] r@[i].command_type != #[trigger] r@[j].command_type,
{
    let map = get_cmd_map();
    let ghost windows = map@ == cmd_table(true);
    let mut available: Vec<bool> = Vec::new();
    let mut i: usize = 0;
    while i < map.len()
        invariant
            i <= map@.len(),
            map@ == cmd_table(windows),
            available@.len() == i,
            forall|j: int|
                0 <= j < i ==> call_ensures(command_available, (map@[j].0,), #[trigger] available@[j]),
        decreases map@.len() - i,
    {
        let (t, _) = map.entry(i);
        let lookup = command_available;
        let hit = lookup(t);
        available.push(hit);
        i = i + 1;
    }
    let r = enabled_commands(&map, available.as_slice(), exclude_type);
    proof {
        lemma_cmd_table_kinds_distinct(windows);
        lemma_enabled_exactly_once(cmd_table(windows), available@, string_views(exclude_type@));
    }
    r
}

/// Whether the scan enters a directory found at `depth` whose name is `name`
/// (`None` when the name is not valid UTF-8): the start directory is always
/// entered; below it, hidden directories and those named in `exclude_dirs` are skipped.
pub open spec fn descends(name: Option<Seq<char>>, depth: nat, exclude_dirs: Seq<Seq<char>>) -> bool {
    depth == 0 || match name {
        Some(n) => !(n.len() > 0 && n[0] == '.') && !exclude_dirs.contains(n),
        None => true,
    }
}

/// Below the start directory, a directory is entered exactly when its name does not
/// start with `.` and differs from every name in `--exclude-dir`; the start directory
/// is always entered, and so is a directory whose name is not valid UTF-8.
pub proof fn lemma_descends_skips_every_excluded_name(
    name: Seq<char>,
    depth: nat,
    exclude_dirs: Seq<Seq<char>>,
)
    ensures
        descends(Some(name), 0, exclude_dirs),
        descends(None, depth, exclude_dirs),
        depth > 0 ==> (descends(Some(name), depth, exclude_dirs) <==> (!(name.len() > 0 && name[0]
            == '.') && forall|k: int| 0 <= k < exclude_dirs.len() ==> exclude_dirs[k] != name)),
        forall|k: int|
            0 <= k < exclude_dirs.len() && depth > 0 ==> !descends(
                Some(#[trigger] exclude_dirs[k]),
                depth,
                exclude_dirs,
            ),
{
    if depth > 0 && (forall|k: int| 0 <= k < exclude_dirs.len() ==> exclude_dirs[k] != name) {
        assert(!exclude_dirs.contains(name));
    }
    assert forall|k: int| 0 <= k < exclude_dirs.len() && depth > 0 implies !descends(
        Some(#[trigger] exclude_dirs[k]),
        depth,
        exclude_dirs,
    ) by {
        assert(exclude_dirs.contains(exclude_dirs[k]));
    }
}

/// Whether the scan enters a directory found at `depth` whose name is `name`.
pub fn should_descend(name: Option<&str>, depth: usize, exclude_dirs: &[String]) -> (r: bool)
    ensures
        r == descends(
            match name {
                Some(n) => Some(n@),
                None => None,
            },
            depth as nat,
            string_views(exclude_dirs@),
        ),
{
    if depth == 0 {
        return true;
    }
    match name {
        None => true,
        Some(n) => {
            let v = chars_of(n);
            if v.len() > 0 && v[0] == '.' {
                return false;
            }
            let ghost names = string_views(exclude_dirs@);
            let mut i: usize = 0;
            while i < exclude_dirs.len()
                invariant
                    i <= exclude_dirs@.len(),
                    names == string_views(exclude_dirs@),
                    v@ == n@,
                    depth != 0,
                    name == Some(n),
                    !(n@.len() > 0 && n@[0] == '.'),
                    forall|j: int| 0 <= j < i ==> names[j] != n@,
                decreases exclude_dirs@.len() - i,
            {
                if spells(&v, exclude_dirs[i].as_str()) {
                    proof {
                        assert(names[i as int] == n@);
                        assert(names.contains(n@));
                    }
                    return false;
                }
                i = i + 1;
            }
            true
        },
    }
}

/// The position of the first `true` in `flags`, if any.
pub fn first_set(flags: &[bool]) -> (r: Option<usize>)
    ensures
        match r {
            Some(i) => i < flags@.len() && flags@[i as int] && forall|j: int|
                0 <= j < i ==> !flags@[j],
            None => forall|j: int| 0 <= j < flags@.len() ==> !flags@[j],
        },
{
    let mut i: usize = 0;
    while i < flags.len()
        invariant
            i <= flags@.len(),
            forall|j: int| 0 <= j < i ==> !flags@[j],
        decreases flags@.len() - i,
    {
        if flags[i] {
            return Some(i);
        }
        i = i + 1;
    }
    None
}

/// Some file in `found` was found.
pub open spec fn any_found(found: Seq<bool>) -> bool {
    exists|j: int| 0 <= j < found.len() && found[j]
}

/// The cleaner that claims a directory: the first whose marker files include one that
/// exists there. `markers[i][j]` tells whether the `j`-th marker file of the `i`-th
/// cleaner exists in the directory.
pub fn claiming_command(markers: &[Vec<bool>]) -> (r: Option<usize>)
    ensures
        match r {
            Some(i) => i < markers@.len() && any_found(markers@[i as int]@) && forall|k: int|
                0 <= k < i ==> !any_found(#[trigger] markers@[k]@),
            None => forall|k: int| 0 <= k < markers@.len() ==> !any_found(#[trigger] markers@[k]@),
        },
{
    let mut i: usize = 0;
    while i < markers.len()
        invariant
            i <= markers@.len(),
            forall|k: int| 0 <= k < i ==> !any_found(#[trigger] markers@[k]@),
        decreases markers@.len() - i,
    {
        if first_set(markers[i].as_slice()).is_some() {
            return Some(i);
        }
        i = i + 1;
    }
    None
}

/// The position of the first cleaner in `commands` whose tool is named `name`.
pub fn find_command(commands: &[Cmd], name: &str) -> (r: Option<usize>)
    ensures
        match r {
            Some(i) => i < commands@.len() && commands@[i as int].command_type.name() == name@
                && forall|k: int|
                0 <= k < i ==> (#[trigger] commands@[k]).command_type.name() != name@,
            None => forall|k: int|
                0 <= k < commands@.len() ==> (#[trigger] commands@[k]).command_type.name() != name@,
        },
{
    let v = chars_of(name);
    let mut i: usize = 0;
    while i < commands.len()
        invariant
            i <= commands@.len(),
            v@ == name@,
            forall|k: int| 0 <= k < i ==> (#[trigger] commands@[k]).command_type.name() != name@,
        decreases commands@.len() - i,
    {
        if spells(&v, commands[i].command_type.as_str()) {
            return Some(i);
        }
        i = i + 1;
    }
    None
}

/// `a + b`, or `u64::MAX` when the sum does not fit.
pub open spec fn sat_add(a: u64, b: u64) -> u64 {
    if a + b > u64::MAX {
        u64::MAX
    } else {
        (a + b) as u64
    }
}

/// One step of sizing a directory tree breadth-first.
pub enum ScanStep {
    /// List the directory `dir`, found at `depth` below the start.
    Visit { dir: String, depth: usize },
    /// The directory `dir` lies deeper than allowed; it is skipped and the size may be
    /// incomplete.
    TooDeep { dir: String },
    /// Nothing is left to visit; `total` is the size found.
    Finished { total: u64 },
}

/// The state of sizing a directory tree: the directories still to list (in the
/// order they were found), the bytes and the files counted so far, and the limits.
pub struct DirSizeScan {
    queue: Vec<(String, usize)>,
    next: usize,
    total: u64,
    files: usize,
    max_depth: usize,
    max_files: usize,
}

impl DirSizeScan {
    /// The directories still to list, with their depths, in order.
    pub closed spec fn pending(&self) -> Seq<(Seq<char>, usize)> {
        self.queue@.subrange(self.next as int, self.queue@.len() as int).map_values(
            |e: (String, usize)| (e.0@, e.1),
        )
    }

    /// The bytes counted so far.
    pub closed spec fn counted_bytes(&self) -> u64 {
        self.total
    }

    /// The files counted so far.
    pub closed spec fn counted_files(&self) -> usize {
        self.files
    }

    /// The deepest level that is listed.
    pub closed spec fn depth_limit(&self) -> usize {
        self.max_depth
    }

    /// The most files that are counted.
    pub closed spec fn file_limit(&self) -> usize {
        self.max_files
    }

    /// The state is well formed: no more files than the limit have been counted.
    pub closed spec fn wf(&self) -> bool {
        &&& self.next <= self.queue@.len()
        &&& self.files <= self.max_files
    }

    /// A well-formed scan has counted at most the limit of files.
    pub proof fn lemma_files_within_limit(&self)
        requires
            self.wf(),
        ensures
            self.counted_files() <= self.file_limit(),
    {
    }

    /// Start sizing the tree at `root`; nothing is visited when `root` does not exist.
    pub fn new(root: String, root_exists: bool, max_depth: usize, max_files: usize) -> (r: Self)
        ensures
            r.wf(),
            r.pending() == (if root_exists {
                seq![(root@, 0usize)]
            } else {
                seq![]
            }),
            r.counted_bytes() == 0,
            r.counted_files() == 0,
            r.depth_limit() == max_depth,
            r.file_limit() == max_files,
    {
        let mut queue: Vec<(String, usize)> = Vec::new();
        if root_exists {
            queue.push((root, 0));
        }
        let r = DirSizeScan { queue, next: 0, total: 0, files: 0, max_depth, max_files };
        proof {
            assert(r.pending() =~= (if root_exists {
                seq![(root@, 0usize)]
            } else {
                seq![]
            }));
        }
        r
    }

    /// Take the next directory to list: it is skipped when it lies deeper than the
    /// limit; when none is left, the total is final.
    pub fn next_step(&mut self) -> (r: ScanStep)
        requires
            old(self).wf(),
        ensures
            final(self).wf(),
            final(self).counted_bytes() == old(self).counted_bytes(),
            final(self).counted_files() == old(self).counted_files(),
            final(self).depth_limit() == old(self).depth_limit(),
            final(self).file_limit() == old(self).file_limit(),
            old(self).pending().len() == 0 ==> final(self).pending() == old(self).pending() && r
                == (ScanStep::Finished { total: old(self).counted_bytes() }),
            old(self).pending().len() > 0 ==> final(self).pending() == old(self).pending().drop_first()
                && match r {
                ScanStep::Visit { dir, depth } => dir@ == old(self).pending()[0].0 && depth
                    == old(self).pending()[0].1 && depth <= old(self).depth_limit(),
                ScanStep::TooDeep { dir } => dir@ == old(self).pending()[0].0 && old(
                    self,
                ).pending()[0].1 > old(self).depth_limit(),
                ScanStep::Finished { .. } => false,
            },
    {
        if self.next >= self.queue.len() {
            return ScanStep::Finished { total: self.total };
        }
        let ghost before = self.pending();
        let dir = self.queue[self.next].0.clone();
        let depth = self.queue[self.next].1;
        self.next = self.next + 1;
        proof {
            assert(before[0] == (dir@, depth));
            assert(self.pending() =~= before.drop_first());
        }
        if depth > self.max_depth {
            ScanStep::TooDeep { dir }
        } else {
            ScanStep::Visit { dir, depth }
        }
    }

    /// Whether one more file may be counted: once the limit of files has been counted,
    /// sizing stops, so at most that many files are counted.
    pub fn may_count_file(&self) -> (r: bool)
        ensures
            r == (self.counted_files() < self.file_limit()),
    {
        self.files < self.max_files
    }

    /// Count a file of `len` bytes; it may only be counted while fewer files than the
    /// limit have been (`may_count_file`).
    pub fn add_file(&mut self, len: u64)
        requires
            old(self).wf(),
            old(self).counted_files() < old(self).file_limit(),
        ensures
            final(self).wf(),
            final(self).pending() == old(self).pending(),
            final(self).counted_bytes() == sat_add(old(self).counted_bytes(), len),
            final(self).counted_files() == old(self).counted_files() + 1,
            final(self).depth_limit() == old(self).depth_limit(),
            final(self).file_limit() == old(self).file_limit(),
    {
        self.total = self.total.saturating_add(len);
        self.files = self.files + 1;
    }

    /// Queue the subdirectory `path` of a directory listed at `parent_depth`.
    pub fn add_dir(&mut self, path: String, parent_depth: usize)
        requires
            old(self).wf(),
        ensures
            final(self).wf(),
            final(self).pending() == old(self).pending().push(
                (
                    path@,
                    if parent_depth < usize::MAX {
                        (parent_depth + 1) as usize
                    } else {
                        usize::MAX
                    },
                ),
            ),
            final(self).counted_bytes() == old(self).counted_bytes(),
            final(self).counted_files() == old(self).counted_files(),
            final(self).depth_limit() == old(self).depth_limit(),
            final(self).file_limit() == old(self).file_limit(),
    {
        let depth = if parent_depth < usize::MAX {
            parent_depth + 1
        } else {
            usize::MAX
        };
        let ghost before = self.pending();
        self.queue.push((path, depth));
        proof {
            assert(self.pending() =~= before.push((path@, depth)));
        }
    }

    /// The bytes counted so far.
    pub fn total(&self) -> (r: u64)
        ensures
            r == self.counted_bytes(),
    {
        self.total
    }
}

/// The sum of `sizes`, as an integer.
pub open spec fn sum_of(sizes: Seq<u64>) -> int
    decreases sizes.len(),
{
    if sizes.len() == 0 {
        0
    } else {
        sum_of(sizes.drop_last()) + sizes.last()
    }
}

/// `x`, or `u64::MAX` when it does not fit.
pub open spec fn capped(x: int) -> u64 {
    if x > u64::MAX {
        u64::MAX
    } else if x < 0 {
        0
    } else {
        x as u64
    }
}

/// A sum of sizes is never negative.
pub proof fn lemma_sum_nonnegative(sizes: Seq<u64>)
    ensures
        sum_of(sizes) >= 0,
    decreases sizes.len(),
{
    if sizes.len() > 0 {
        lemma_sum_nonnegative(sizes.drop_last());
    }
}

/// The total of `sizes` (`u64::MAX` when it does not fit).
pub fn total_size(sizes: &[u64]) -> (r: u64)
    ensures
        r == capped(sum_of(sizes@)),
{
    let mut total: u64 = 0;
    let mut i: usize = 0;
    while i < sizes.len()
        invariant
            i <= sizes@.len(),
            total == capped(sum_of(sizes@.subrange(0, i as int))),
        decreases sizes@.len() - i,
    {
        proof {
            assert(sizes@.subrange(0, i + 1).drop_last() =~= sizes@.subrange(0, i as int));
            lemma_sum_nonnegative(sizes@.subrange(0, i as int));
        }
        total = total.saturating_add(sizes[i]);
        i = i + 1;
    }
    proof {
        assert(sizes@.subrange(0, sizes@.len() as int) =~= sizes@);
    }
    total
}

} // verus!
