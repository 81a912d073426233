//! Availability of cleaning tools, and the safety checks on paths and names.
use vstd::prelude::*;

use crate::cmd::CommandType;
use crate::config::{invalid_config, refuses_with, yields, ConfigError};
use crate::text::{
    chars_of, forward_slashes, slash_char, has_char, has_char_pair, has_pair, has_prefix, lower_seq, lowered,
    spells, starts_with, str_views, with_forward_slashes,
};

verus! {

/// Whether the executable `cmd` is found on the search path, by `which::which`.
/// The answer depends on the environment (`PATH`) and on the file system, so the
/// contract states nothing of it.
#[verifier::external_body]
pub fn command_exists(cmd: &str) -> bool {
    which::which(cmd).is_ok()
}

/// The executable names under which the tool of a kind may be installed;
/// the tool counts as available when any of them is found.
pub open spec fn tool_names(t: CommandType) -> Seq<Seq<char>> {
    match t {
        CommandType::NodeJs => seq!["node"@, "nodejs"@],
        other => seq![other.name()],
    }
}

/// The executable names under which the tool of a kind may be installed.
/// Node.js is enabled when either `node` or `nodejs` exists.
pub fn tool_lookup_names(command_type: CommandType) -> (r: Vec<&'static str>)
    ensures
        str_views(r@) == tool_names(command_type),
{
    let mut r: Vec<&'static str> = Vec::new();
    match command_type {
        CommandType::NodeJs => {
            r.push("node");
            r.push("nodejs");
        },
        other => {
            r.push(other.as_str());
        },
    }
    proof {
        assert(str_views(r@) =~= tool_names(command_type));
    }
    r
}

/// A kind is available when the lookup of any of its tool names succeeded;
/// `found[i]` is the outcome of the lookup of the `i`-th name of `tool_names`.
pub fn available_from_lookups(found: &[bool]) -> (r: bool)
    ensures
        r == exists|i: int| 0 <= i < found@.len() && found@[i],
{
    let mut i: usize = 0;
    while i < found.len()
        invariant
            i <= found@.len(),
            forall|j: int| 0 <= j < i ==> !found@[j],
        decreases found@.len() - i,
    {
        if found[i] {
            return true;
        }
        i = i + 1;
    }
    false
}

/// Whether a cleaner type is available on PATH: each of its tool names is looked up
/// by `command_exists`, and the kind counts as available when any lookup succeeded.
/// Node.js is enabled when either `node` or `nodejs` exists.
/// What a lookup answers depends on the search path of the environment, so the
/// contract states which names were looked up and how their outcomes decide.
pub fn command_available(command_type: CommandType) -> (r: bool)
    ensures
        exists|names: Seq<&str>, found: Seq<bool>|
            {
                &&& str_views(names) == tool_names(command_type)
                &&& found.len() == names.len()
                &&& forall|i: int|
                    0 <= i < found.len() ==> call_ensures(
                        command_exists,
                        (names[i],),
                        #[trigger] found[i],
                    )
                &&& r == exists|i: int| 0 <= i < found.len() && found[i]
            },
{
    let names = tool_lookup_names(command_type);
    let mut found: Vec<bool> = Vec::new();
    let mut i: usize = 0;
    while i < names.len()
        invariant
            i <= names@.len(),
            found@.len() == i,
            forall|j: int| 0 <= j < i ==> call_ensures(command_exists, (names@[j],), #[trigger] found@[j]),
        decreases names@.len() - i,
    {
        let lookup = command_exists;
        let hit = lookup(names[i]);
        found.push(hit);
        i = i + 1;
    }
    let r = available_from_lookups(found.as_slice());
    proof {
        assert(found@.len() == names@.len());
        assert(str_views(names@) == tool_names(command_type));
    }
    r
}

/// The message with which a path that climbs out by `..` or starts at `~` is refused.
pub open spec fn traversal_message() -> Seq<char> {
    "Path traversal (../) or home directory (~) not allowed"@
}

/// `c` is an ASCII letter.
pub open spec fn is_ascii_letter(c: char) -> bool {
    ('a' <= c && c <= 'z') || ('A' <= c && c <= 'Z')
}

/// `p` starts like a Windows drive path: a letter, a colon and a separator.
pub open spec fn windows_absolute(p: Seq<char>) -> bool {
    p.len() >= 3 && is_ascii_letter(p[0]) && p[1] == ':' && (p[2] == '/' || p[2] == '\\')
}

/// `p` is rooted (starts at `/`).
pub open spec fn rooted(p: Seq<char>) -> bool {
    p.len() > 0 && p[0] == '/'
}

/// One of the `/`-separated components of `p` is `..`.
pub open spec fn has_parent_component(p: Seq<char>) -> bool {
    exists|i: int|
        0 <= i && i + 1 < p.len() && #[trigger] p[i] == '.' && p[i + 1] == '.' && (i == 0 || p[i
            - 1] == '/') && (i + 2 == p.len() || p[i + 2] == '/')
}

/// The well-known system directories that may not be cleaned, in the order in which
/// they are tried. `/home` and `/Users` are not among them.
pub open spec fn system_directory_patterns() -> Seq<Seq<char>> {
    seq![
        "/etc"@,
        "/usr"@,
        "/bin"@,
        "/sbin"@,
        "/lib"@,
        "/boot"@,
        "/dev"@,
        "/proc"@,
        "/sys"@,
        "/root"@,
        "c:/windows"@,
        "c:\\windows"@,
        "d:/windows"@,
        "d:\\windows"@,
        "c:/program files"@,
        "c:\\program files"@,
        "c:/program files (x86)"@,
        "c:\\program files (x86)"@,
        "c:/system32"@,
        "c:\\system32"@,
        "c:/winnt"@,
        "c:\\winnt"@,
        "/applications"@,
        "/library"@,
        "/system"@,
        "/windows"@,
        "/program files"@,
        "/system32"@,
        "/winnt"@,
    ]
}

pub const SYSTEM_DIRECTORY_PATTERNS: [&'static str; 29] = [
    "/etc",
    "/usr",
    "/bin",
    "/sbin",
    "/lib",
    "/boot",
    "/dev",
    "/proc",
    "/sys",
    "/root",
    "c:/windows",
    "c:\\windows",
    "d:/windows",
    "d:\\windows",
    "c:/program files",
    "c:\\program files",
    "c:/program files (x86)",
    "c:\\program files (x86)",
    "c:/system32",
    "c:\\system32",
    "c:/winnt",
    "c:\\winnt",
    "/applications",
    "/library",
    "/system",
    "/windows",
    "/program files",
    "/system32",
    "/winnt",
];

/// `path` is the directory `pattern` or lies below it.
pub open spec fn within(path: Seq<char>, pattern: Seq<char>) -> bool {
    has_prefix(path, pattern) && (path.len() == pattern.len() || path[pattern.len() as int] == '/'
        || path[pattern.len() as int] == '\\')
}

/// The first of `patterns` whose lowercase form contains `path`.
pub open spec fn first_containing(path: Seq<char>, patterns: Seq<Seq<char>>) -> Option<Seq<char>>
    decreases patterns.len(),
{
    if patterns.len() == 0 {
        None
    } else if within(path, lower_seq(patterns[0])) {
        Some(patterns[0])
    } else {
        first_containing(path, patterns.drop_first())
    }
}

/// Why `path` is refused as a system directory, if it is: only absolute paths are
/// checked, case-insensitively and with `\` read as `/`.
pub open spec fn system_directory_problem(path: Seq<char>) -> Option<Seq<char>> {
    let n = forward_slashes(path);
    if !(rooted(path) || windows_absolute(n)) {
        None
    } else {
        match first_containing(lower_seq(n), system_directory_patterns()) {
            Some(p) => Some("Access to system directory '"@ + p + "' not allowed"@),
            None => None,
        }
    }
}

/// Why `path` is refused as a home-relative path, if it is.
pub open spec fn home_prefix_problem(path: Seq<char>) -> Option<Seq<char>> {
    if forward_slashes(path).len() > 0 && forward_slashes(path)[0] == '~' {
        Some(traversal_message())
    } else {
        None
    }
}

/// Why `path` is refused for a `..` component, if it is.
pub open spec fn parent_component_problem(path: Seq<char>) -> Option<Seq<char>> {
    if has_parent_component(forward_slashes(path)) {
        Some(traversal_message())
    } else {
        None
    }
}

/// Why the raw path string is refused, if it is: the checks run in order, and the
/// first that fails gives the message.
pub open spec fn path_string_problem(path: Seq<char>) -> Option<Seq<char>> {
    if path.len() == 0 {
        Some("Path cannot be empty"@)
    } else if home_prefix_problem(path) is Some {
        home_prefix_problem(path)
    } else if parent_component_problem(path) is Some {
        parent_component_problem(path)
    } else {
        system_directory_problem(path)
    }
}

/// An empty path, a path that starts at `~`, and a path with a `..` component (with
/// `\` read as `/`) are refused, whatever else they hold.
pub proof fn lemma_traversal_refused(path: Seq<char>)
    requires
        path.len() == 0 || path[0] == '~' || has_parent_component(forward_slashes(path)),
    ensures
        path_string_problem(path) is Some,
{
    if path.len() > 0 {
        assert(forward_slashes(path)[0] == slash_char(path[0]));
    }
}

/// Whether `p` starts like a Windows drive path (`C:/` or `C:\`).
pub fn looks_windows_absolute(p: &Vec<char>) -> (r: bool)
    ensures
        r == windows_absolute(p@),
{
    p.len() >= 3 && (('a' <= p[0] && p[0] <= 'z') || ('A' <= p[0] && p[0] <= 'Z')) && p[1] == ':'
        && (p[2] == '/' || p[2] == '\\')
}

/// Whether `path` is `pattern` or lies below it.
fn is_within(path: &Vec<char>, pattern: &Vec<char>) -> (r: bool)
    ensures
        r == within(path@, pattern@),
{
    if !starts_with(path, pattern) {
        return false;
    }
    let k = pattern.len();
    k == path.len() || path[k] == '/' || path[k] == '\\'
}

/// Reject well-known system directories. `/home` and `/Users` are not treated as system dirs.
pub fn reject_system_directory(path_str: &str) -> (r: Result<(), ConfigError>)
    ensures
        refuses_with(r, system_directory_problem(path_str@)),
{
    let v = chars_of(path_str);
    let n = with_forward_slashes(&v);
    let rooted_path = v.len() > 0 && v[0] == '/';
    if !(rooted_path || looks_windows_absolute(&n)) {
        return Ok(());
    }
    let lower = lowered(&n);
    let patterns: &[&'static str] = &SYSTEM_DIRECTORY_PATTERNS;
    let ghost all = system_directory_patterns();
    proof {
        assert(str_views(patterns@) =~= all);
        assert(all.skip(0) =~= all);
    }
    let mut i: usize = 0;
    while i < patterns.len()
        invariant
            i <= patterns@.len(),
            str_views(patterns@) == all,
            all == system_directory_patterns(),
            lower@ == lower_seq(forward_slashes(path_str@)),
            rooted(path_str@) || windows_absolute(forward_slashes(path_str@)),
            first_containing(lower@, all) == first_containing(lower@, all.skip(i as int)),
        decreases patterns@.len() - i,
    {
        let pattern = patterns[i];
        let pattern_lower = lowered(&chars_of(pattern));
        proof {
            assert(all.skip(i as int)[0] == pattern@);
        }
        if is_within(&lower, &pattern_lower) {
            proof {
                assert(all.skip(i as int).len() > 0);
                assert(first_containing(lower@, all.skip(i as int)) == Some(pattern@));
            }
            let m = String::from_str("Access to system directory '").concat(pattern).concat(
                "' not allowed",
            );
            proof {
                assert(m@ == "Access to system directory '"@ + pattern@ + "' not allowed"@);
            }
            return Err(ConfigError::InvalidConfig(m));
        }
        proof {
            assert(all.skip(i as int).drop_first() =~= all.skip(i + 1));
        }
        i = i + 1;
    }
    proof {
        assert(all.skip(patterns@.len() as int).len() == 0);
    }
    Ok(())
}

/// Refuse a path that starts at the home directory (`~`).
pub fn reject_home_prefix(path_str: &str) -> (r: Result<(), ConfigError>)
    ensures
        refuses_with(r, home_prefix_problem(path_str@)),
{
    let n = with_forward_slashes(&chars_of(path_str));
    if n.len() > 0 && n[0] == '~' {
        return Err(invalid_config("Path traversal (../) or home directory (~) not allowed"));
    }
    Ok(())
}

/// Whether one of the `/`-separated components of `p` is `..`.
fn has_parent_dir_component(p: &Vec<char>) -> (r: bool)
    ensures
        r == has_parent_component(p@),
{
    let n = p.len();
    let mut i: usize = 0;
    while i < n
        invariant
            n == p@.len(),
            i <= n,
            forall|j: int|
                0 <= j < i ==> !(j + 1 < p@.len() && #[trigger] p@[j] == '.' && p@[j + 1] == '.'
                    && (j == 0 || p@[j - 1] == '/') && (j + 2 == p@.len() || p@[j + 2] == '/')),
        decreases n - i,
    {
        if i + 1 < n && p[i] == '.' && p[i + 1] == '.' && (i == 0 || p[i - 1] == '/') && (i + 2
            == n || p[i + 2] == '/') {
            return true;
        }
        i = i + 1;
    }
    false
}

/// Reject `..` as a component so `..`, `foo/..`, and `foo/../bar` are all blocked.
pub fn reject_parent_dir_components(path_str: &str) -> (r: Result<(), ConfigError>)
    ensures
        refuses_with(r, parent_component_problem(path_str@)),
{
    let n = with_forward_slashes(&chars_of(path_str));
    if has_parent_dir_component(&n) {
        return Err(invalid_config("Path traversal (../) or home directory (~) not allowed"));
    }
    Ok(())
}

/// Raw-string safety checks that do not require the path to exist.
/// Rejects empty paths, `..` traversal, `~` prefixes, and well-known system directories.
pub fn validate_path_string(path_str: &str) -> (r: Result<(), ConfigError>)
    ensures
        refuses_with(r, path_string_problem(path_str@)),
{
    if path_str.is_empty() {
        return Err(invalid_config("Path cannot be empty"));
    }
    reject_home_prefix(path_str)?;
    reject_parent_dir_components(path_str)?;
    reject_system_directory(path_str)?;
    Ok(())
}

/// What the file system says of a path once it is resolved (made absolute, with every
/// link and `.`/`..` step followed): the resolved path and what is found there.
/// `resolved` is `None` when the path does not exist or cannot be accessed.
pub struct PathProbe {
    pub resolved: Option<ResolvedPath>,
}

/// A path as the file system resolved it.
pub struct ResolvedPath {
    pub canonical: String,
    pub is_file: bool,
    pub is_dir: bool,
}

impl PathProbe {
    /// The probe of a path that does not exist or cannot be accessed.
    pub fn missing() -> (r: PathProbe)
        ensures
            r.resolved is None,
    {
        PathProbe { resolved: None }
    }

    /// The probe of a path that resolves to `canonical`.
    pub fn found(canonical: String, is_file: bool, is_dir: bool) -> (r: PathProbe)
        ensures
            r.resolved matches Some(p) && p.canonical@ == canonical@ && p.is_file == is_file
                && p.is_dir == is_dir,
    {
        PathProbe { resolved: Some(ResolvedPath { canonical, is_file, is_dir }) }
    }
}

/// What `validate_config_file_path` gives for the path `path`, probed as `probe`:
/// the resolved path, or the message of the first check that fails.
pub open spec fn config_file_path_outcome(path: Seq<char>, probe: PathProbe) -> Result<
    Seq<char>,
    Seq<char>,
> {
    if path.len() == 0 {
        Err("Config path cannot be empty"@)
    } else if has_parent_component(forward_slashes(path)) {
        Err("Path traversal (../) not allowed in config path"@)
    } else {
        match probe.resolved {
            None => Err("Config file does not exist or cannot be accessed"@),
            Some(p) => if !p.is_file {
                Err("Config path must be a file"@)
            } else {
                Ok(p.canonical@)
            },
        }
    }
}

/// Validate a config file path: no `..` in the raw string, and it must exist as a file.
/// `probe` is what the file system says of `path_str`.
pub fn validate_config_file_path(path_str: &str, probe: &PathProbe) -> (r: Result<
    String,
    ConfigError,
>)
    ensures
        yields(r, config_file_path_outcome(path_str@, *probe)),
{
    if path_str.is_empty() {
        return Err(invalid_config("Config path cannot be empty"));
    }
    if reject_parent_dir_components(path_str).is_err() {
        return Err(invalid_config("Path traversal (../) not allowed in config path"));
    }
    match &probe.resolved {
        None => Err(invalid_config("Config file does not exist or cannot be accessed")),
        Some(p) => {
            if !p.is_file {
                return Err(invalid_config("Config path must be a file"));
            }
            Ok(p.canonical.clone())
        },
    }
}

/// What `validate_and_sanitize_path` gives for the path `path`, probed as `probe`:
/// the resolved path, or the message of the first check that fails. The resolved
/// path is checked against the system directories again, so that a link with a safe
/// name cannot lead into one.
pub open spec fn clean_target_outcome(path: Seq<char>, probe: PathProbe) -> Result<
    Seq<char>,
    Seq<char>,
> {
    match path_string_problem(path) {
        Some(m) => Err(m),
        None => match probe.resolved {
            None => Err("Path does not exist or cannot be accessed"@),
            Some(p) => if !p.is_dir {
                Err("Path must be a directory"@)
            } else {
                match system_directory_problem(p.canonical@) {
                    Some(m) => Err(m),
                    None => Ok(p.canonical@),
                }
            },
        },
    }
}

/// Validate and sanitize a clean-target path.
/// The target must exist and be a directory. It does not need to live under cwd.
/// `probe` is what the file system says of `path_str`.
pub fn validate_and_sanitize_path(path_str: &str, probe: &PathProbe) -> (r: Result<
    String,
    ConfigError,
>)
    ensures
        yields(r, clean_target_outcome(path_str@, *probe)),
{
    validate_path_string(path_str)?;
    match &probe.resolved {
        None => Err(invalid_config("Path does not exist or cannot be accessed")),
        Some(p) => {
            if !p.is_dir {
                return Err(invalid_config("Path must be a directory"));
            }
            reject_system_directory(p.canonical.as_str())?;
            Ok(p.canonical.clone())
        },
    }
}

/// A clean target that passes validation is an existing directory whose resolved path
/// lies in no system directory, and its raw path passed the string checks: a link with
/// a safe name cannot lead into a system directory.
pub proof fn lemma_clean_target_safe(path: Seq<char>, probe: PathProbe)
    requires
        clean_target_outcome(path, probe) is Ok,
    ensures
        path_string_problem(path) is None,
        probe.resolved matches Some(p) && p.is_dir && clean_target_outcome(path, probe)
            == Ok::<Seq<char>, Seq<char>>(p.canonical@) && system_directory_problem(p.canonical@)
            is None,
{
}

/// The device names that Windows reserves.
pub open spec fn windows_reserved_names() -> Seq<Seq<char>> {
    seq![
        "con"@,
        "prn"@,
        "aux"@,
        "nul"@,
        "com1"@,
        "com2"@,
        "com3"@,
        "com4"@,
        "com5"@,
        "com6"@,
        "com7"@,
        "com8"@,
        "com9"@,
        "lpt1"@,
        "lpt2"@,
        "lpt3"@,
        "lpt4"@,
        "lpt5"@,
        "lpt6"@,
        "lpt7"@,
        "lpt8"@,
        "lpt9"@,
    ]
}

pub const WINDOWS_RESERVED_NAMES: [&'static str; 22] = [
    "con",
    "prn",
    "aux",
    "nul",
    "com1",
    "com2",
    "com3",
    "com4",
    "com5",
    "com6",
    "com7",
    "com8",
    "com9",
    "lpt1",
    "lpt2",
    "lpt3",
    "lpt4",
    "lpt5",
    "lpt6",
    "lpt7",
    "lpt8",
    "lpt9",
];

/// The length in bytes of the UTF-8 encoding of `s`, as `str::len` reports it.
pub open spec fn byte_len(s: Seq<char>) -> usize {
    vstd::utf8::encode_utf8(s).len() as usize
}

/// Why `name` is refused as a directory name to skip, if it is: the checks run in
/// order, and the first that fails gives the message. The length limit counts bytes.
pub open spec fn exclude_dir_name_problem(name: Seq<char>) -> Option<Seq<char>> {
    if name.len() == 0 {
        Some("Exclude directory name cannot be empty"@)
    } else if has_pair(name, '.', '.') || name.contains('/') || name.contains('\\') {
        Some("Invalid exclude directory name: '"@ + name + "'"@)
    } else if name == "."@ || name == ".."@ {
        Some("Reserved directory name cannot be excluded: '"@ + name + "'"@)
    } else if windows_reserved_names().contains(lower_seq(name)) {
        Some("Windows reserved name cannot be used as exclude directory: '"@ + name + "'"@)
    } else if byte_len(name) > 255 {
        Some("Exclude directory name too long (max 255 characters)"@)
    } else {
        None
    }
}

/// Refuse `dir_name` with the message `<prefix><dir_name>'`.
fn quoted_refusal(prefix: &str, dir_name: &str) -> (r: ConfigError)
    ensures
        r matches ConfigError::InvalidConfig(e) && e@ == prefix@ + dir_name@ + "'"@,
{
    ConfigError::InvalidConfig(String::from_str(prefix).concat(dir_name).concat("'"))
}

/// Validate exclude directory names to prevent injection attacks
pub fn validate_exclude_dir_name(dir_name: &str) -> (r: Result<(), ConfigError>)
    ensures
        refuses_with(r, exclude_dir_name_problem(dir_name@)),
{
    let v = chars_of(dir_name);
    if v.len() == 0 {
        return Err(invalid_config("Exclude directory name cannot be empty"));
    }
    if has_char_pair(&v, '.', '.') || has_char(&v, '/') || has_char(&v, '\\') {
        return Err(quoted_refusal("Invalid exclude directory name: '", dir_name));
    }
    if spells(&v, ".") || spells(&v, "..") {
        return Err(quoted_refusal("Reserved directory name cannot be excluded: '", dir_name));
    }
    let lower = lowered(&v);
    let reserved: &[&'static str] = &WINDOWS_RESERVED_NAMES;
    let ghost all = windows_reserved_names();
    proof {
        assert(str_views(reserved@) =~= all);
    }
    let mut i: usize = 0;
    while i < reserved.len()
        invariant
            i <= reserved@.len(),
            str_views(reserved@) == all,
            all == windows_reserved_names(),
            lower@ == lower_seq(dir_name@),
            forall|j: int| 0 <= j < i ==> all[j] != lower@,
            dir_name@.len() != 0,
            !(has_pair(dir_name@, '.', '.') || dir_name@.contains('/') || dir_name@.contains('\\')),
            !(dir_name@ == "."@ || dir_name@ == ".."@),
        decreases reserved@.len() - i,
    {
        if spells(&lower, reserved[i]) {
            proof {
                assert(all[i as int] == lower@);
                assert(windows_reserved_names().contains(lower_seq(dir_name@)));
            }
            return Err(
                quoted_refusal("Windows reserved name cannot be used as exclude directory: '", dir_name),
            );
        }
        i = i + 1;
    }
    proof {
        assert(!windows_reserved_names().contains(lower_seq(dir_name@)));
    }
    let n_bytes = dir_name.len();
    proof {
        assert(n_bytes == byte_len(dir_name@));
    }
    if n_bytes > 255 {
        return Err(invalid_config("Exclude directory name too long (max 255 characters)"));
    }
    Ok(())
}

} // verus!
