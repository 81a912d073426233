//! Built-in defaults and the table of cleaners.
use vstd::prelude::*;

use crate::cmd::CommandType;
use crate::text::{chars_of, spells, str_views, string_views};

verus! {

pub const DEFAULT_MAX_DIRECTORY_DEPTH: usize = 5;

pub const DEFAULT_MAX_FILES_PER_PROJECT: usize = 10000;

pub const DEFAULT_EXCLUDE_DIRS: [&'static str; 5] = [
    "node_modules",
    "target",
    "dist",
    "build",
    "vendor",
];

pub const NODEJS_ARTIFACT_DIRS: [&'static str; 7] = [
    "node_modules",
    "dist",
    "build",
    ".next",
    "out",
    "coverage",
    ".cache",
];

pub const PYTHON_ARTIFACT_DIRS: [&'static str; 9] = [
    "__pycache__",
    "build",
    "dist",
    ".eggs",
    ".pytest_cache",
    "htmlcov",
    ".mypy_cache",
    "venv",
    ".venv",
];

pub const PYTHON_ARTIFACT_GLOBS: [&'static str; 1] = ["*.egg-info"];

/// The directory names skipped by the scan unless configured otherwise.
pub open spec fn default_exclude_dir_names() -> Seq<Seq<char>> {
    seq!["node_modules"@, "target"@, "dist"@, "build"@, "vendor"@]
}

/// The artifact directories of a Node.js project.
pub open spec fn nodejs_artifact_dir_names() -> Seq<Seq<char>> {
    seq!["node_modules"@, "dist"@, "build"@, ".next"@, "out"@, "coverage"@, ".cache"@]
}

/// The artifact directories of a Python project.
pub open spec fn python_artifact_dir_names() -> Seq<Seq<char>> {
    seq![
        "__pycache__"@,
        "build"@,
        "dist"@,
        ".eggs"@,
        ".pytest_cache"@,
        "htmlcov"@,
        ".mypy_cache"@,
        "venv"@,
        ".venv"@,
    ]
}

/// The glob patterns of the artifact directories of a Python project.
pub open spec fn python_artifact_glob_names() -> Seq<Seq<char>> {
    seq!["*.egg-info"@]
}

pub fn default_exclude_dirs() -> (r: Vec<String>)
    ensures
        string_views(r@) == default_exclude_dir_names(),
{
    let mut r: Vec<String> = Vec::new();
    r.push(String::from_str("node_modules"));
    r.push(String::from_str("target"));
    r.push(String::from_str("dist"));
    r.push(String::from_str("build"));
    r.push(String::from_str("vendor"));
    proof {
        assert(string_views(r@) =~= default_exclude_dir_names());
    }
    r
}

/// The kinds of cleaner, each with the files that mark a project of its kind,
/// in the order in which they are tried. On Windows Maven is run as `mvn.cmd`.
pub open spec fn cmd_table(windows: bool) -> Seq<(CommandType, Seq<Seq<char>>)> {
    seq![
        (CommandType::Cargo, seq!["Cargo.toml"@]),
        (CommandType::Go, seq!["go.mod"@]),
        (CommandType::Gradle, seq!["build.gradle"@, "build.gradle.kts"@]),
        (CommandType::NodeJs, seq!["package.json"@]),
        (CommandType::Flutter, seq!["pubspec.yaml"@]),
        (CommandType::Python, seq!["requirements.txt"@, "pyproject.toml"@]),
        (if windows { CommandType::MavenCmd } else { CommandType::Maven }, seq!["pom.xml"@]),
    ]
}

/// No kind occurs twice among the entries of `table`.
pub open spec fn kinds_distinct(table: Seq<(CommandType, Seq<Seq<char>>)>) -> bool {
    forall|i: int, j: int| 0 <= i < j < table.len() ==> #[trigger] table[i].0 != #[trigger] table[j].0
}

/// The table of cleaners names each kind at most once.
pub proof fn lemma_cmd_table_kinds_distinct(windows: bool)
    ensures
        kinds_distinct(cmd_table(windows)),
{
}

/// The marker files of the first entry of `table` whose kind is `key`.
pub open spec fn table_lookup(table: Seq<(CommandType, Seq<Seq<char>>)>, key: CommandType) -> Option<
    Seq<Seq<char>>,
>
    decreases table.len(),
{
    if table.len() == 0 {
        None
    } else if table[0].0 == key {
        Some(table[0].1)
    } else {
        table_lookup(table.drop_first(), key)
    }
}

/// A table of cleaners: each kind with the files that mark a project of that kind.
pub struct CmdMap {
    entries: Vec<(CommandType, Vec<&'static str>)>,
}

impl View for CmdMap {
    type V = Seq<(CommandType, Seq<Seq<char>>)>;

    closed spec fn view(&self) -> Self::V {
        self.entries@.map_values(|e: (CommandType, Vec<&'static str>)| (e.0, str_views(e.1@)))
    }
}

impl CmdMap {
    /// A table names each kind at most once.
    #[verifier::type_invariant]
    pub open spec fn each_kind_once(self) -> bool {
        kinds_distinct(self@)
    }

    /// The number of kinds in the table.
    pub fn len(&self) -> (r: usize)
        ensures
            r == self@.len(),
    {
        self.entries.len()
    }

    /// The marker files of `key`, if the table has that kind.
    pub fn get(&self, key: &CommandType) -> (r: Option<&Vec<&'static str>>)
        ensures
            match table_lookup(self@, *key) {
                Some(files) => r matches Some(v) && str_views(v@) == files,
                None => r is None,
            },
    {
        let mut i: usize = 0;
        proof {
            assert(self@.skip(0) =~= self@);
        }
        while i < self.entries.len()
            invariant
                i <= self@.len(),
                self@.len() == self.entries@.len(),
                table_lookup(self@, *key) == table_lookup(self@.skip(i as int), *key),
            decreases self.entries.len() - i,
        {
            assert(self@.skip(i as int)[0] == self@[i as int]);
            if self.entries[i].0 == *key {
                return Some(&self.entries[i].1);
            }
            assert(self@.skip(i as int).drop_first() =~= self@.skip(i + 1));
            i = i + 1;
        }
        None
    }

    /// The kind at position `i` and its marker files.
    pub fn entry(&self, i: usize) -> (r: (CommandType, &Vec<&'static str>))
        requires
            i < self@.len(),
        ensures
            r.0 == self@[i as int].0,
            str_views(r.1@) == self@[i as int].1,
    {
        (self.entries[i].0, &self.entries[i].1)
    }
}

/// The names in `names`, as an owned list.
pub fn marker_files(names: &[&'static str]) -> (r: Vec<&'static str>)
    ensures
        r@ == names@,
{
    let mut r: Vec<&'static str> = Vec::new();
    let mut i: usize = 0;
    while i < names.len()
        invariant
            i <= names@.len(),
            r@ == names@.subrange(0, i as int),
        decreases names@.len() - i,
    {
        r.push(names[i]);
        i = i + 1;
    }
    proof {
        assert(names@.subrange(0, names@.len() as int) =~= names@);
    }
    r
}

/// The table of cleaners for the platform: Maven is `mvn.cmd` on Windows.
pub fn cmd_map_for(windows: bool) -> (r: CmdMap)
    ensures
        r@ == cmd_table(windows),
{
    let mut entries: Vec<(CommandType, Vec<&'static str>)> = Vec::new();
    entries.push((CommandType::Cargo, marker_files(&["Cargo.toml"])));
    entries.push((CommandType::Go, marker_files(&["go.mod"])));
    entries.push((CommandType::Gradle, marker_files(&["build.gradle", "build.gradle.kts"])));
    entries.push((CommandType::NodeJs, marker_files(&["package.json"])));
    entries.push((CommandType::Flutter, marker_files(&["pubspec.yaml"])));
    entries.push((CommandType::Python, marker_files(&["requirements.txt", "pyproject.toml"])));
    let maven = if windows {
        CommandType::MavenCmd
    } else {
        CommandType::Maven
    };
    entries.push((maven, marker_files(&["pom.xml"])));
    proof {
        let t = cmd_table(windows);
        let v = entries@.map_values(|e: (CommandType, Vec<&'static str>)| (e.0, str_views(e.1@)));
        assert forall|k: int| 0 <= k < 7 implies #[trigger] v[k] == t[k] by {
            assert(str_views(entries@[k].1@) =~= t[k].1);
        }
        assert(v =~= t);
        lemma_cmd_table_kinds_distinct(windows);
    }
    CmdMap { entries }
}

/// The separator of path components on the platform the library was built for,
/// `std::path::MAIN_SEPARATOR_STR`: `\` on Windows and `/` on Unix. It depends on the
/// platform, so the contract states nothing of it.
#[verifier::external_body]
pub(crate) fn main_separator() -> &'static str {
    std::path::MAIN_SEPARATOR_STR
}

/// The table of cleaners for a platform whose paths are separated by `sep`: Maven is
/// run as `mvn.cmd` where that is `\` (Windows), and as `mvn` elsewhere.
pub fn cmd_map_for_separator(sep: &str) -> (r: CmdMap)
    ensures
        r@ == cmd_table(sep@ == "\\"@),
{
    let windows = spells(&chars_of(sep), "\\");
    cmd_map_for(windows)
}

/// The table of cleaners for the platform the program runs on, as told by its path
/// separator (`cmd_map_for_separator`). Which platform that is depends on the build,
/// so the contract says only that it is one of the two tables.
pub fn get_cmd_map() -> (r: CmdMap)
    ensures
        r@ == cmd_table(false) || r@ == cmd_table(true),
{
    cmd_map_for_separator(main_separator())
}

} // verus!
