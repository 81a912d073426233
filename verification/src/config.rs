//! Configuration: the command line, the configuration file, and their merge.
use vstd::prelude::*;

use crate::cmd::{command_type_named, unknown_type_message, CommandType};
use crate::constant::{
    default_exclude_dir_names, default_exclude_dirs, main_separator, DEFAULT_MAX_DIRECTORY_DEPTH,
    DEFAULT_MAX_FILES_PER_PROJECT,
};
use crate::text::{chars_of, copy_strings, has_char, lower_seq, lowered, spells, string_views};
use crate::utils::{
    clean_target_outcome, config_file_path_outcome, exclude_dir_name_problem,
    validate_and_sanitize_path, validate_config_file_path, validate_exclude_dir_name, PathProbe,
};

verus! {

/// Errors that can occur during configuration loading or validation
#[derive(Debug)]
pub enum ConfigError {
    /// The configuration file could not be read.
    Io(String),
    /// The configuration file could not be parsed.
    Parse(String),
    /// A configuration value is not acceptable.
    InvalidConfig(String),
}

impl ConfigError {
    /// The text by which the error is reported.
    pub open spec fn text(&self) -> Seq<char> {
        match self {
            ConfigError::Io(m) => "Failed to read config file: "@ + m@,
            ConfigError::Parse(m) => "Failed to parse config file: "@ + m@,
            ConfigError::InvalidConfig(m) => "Invalid configuration: "@ + m@,
        }
    }

    /// The text by which the error is reported.
    pub fn message(&self) -> (r: String)
        ensures
            r@ == self.text(),
    {
        match self {
            ConfigError::Io(m) => String::from_str("Failed to read config file: ").concat(m.as_str()),
            ConfigError::Parse(m) => String::from_str("Failed to parse config file: ").concat(
                m.as_str(),
            ),
            ConfigError::InvalidConfig(m) => String::from_str("Invalid configuration: ").concat(
                m.as_str(),
            ),
        }
    }
}

/// `r` succeeds when `problem` is `None`, and otherwise is refused as an
/// invalid configuration with the message `problem`.
pub open spec fn refuses_with(r: Result<(), ConfigError>, problem: Option<Seq<char>>) -> bool {
    match problem {
        None => r is Ok,
        Some(m) => r matches Err(ConfigError::InvalidConfig(e)) && e@ == m,
    }
}

/// `r` gives the text `v` when `expected` is `Ok(v)`, and is refused as an invalid
/// configuration with the message `m` when `expected` is `Err(m)`.
pub open spec fn yields(r: Result<String, ConfigError>, expected: Result<Seq<char>, Seq<char>>) -> bool {
    match expected {
        Ok(v) => r matches Ok(s) && s@ == v,
        Err(m) => r matches Err(ConfigError::InvalidConfig(e)) && e@ == m,
    }
}

/// A refusal of an invalid configuration with the message `m`.
pub fn invalid_config(m: &str) -> (r: ConfigError)
    ensures
        r matches ConfigError::InvalidConfig(e) && e@ == m@,
{
    ConfigError::InvalidConfig(String::from_str(m))
}

/// CLI arguments as provided on the command line (including their defaults).
#[derive(Debug, Clone)]
pub struct CliArgs {
    /// Directory to scan (positional).
    pub path_arg: Option<String>,
    /// Path to the project directory to clean (`-p`, `--path`).
    pub path: Option<String>,
    /// Load configuration from this file (skips discovery).
    pub config: Option<String>,
    /// Skip directories whose name matches during scan (repeatable).
    pub exclude_dir: Vec<String>,
    /// Disable cleaners by type (repeatable).
    pub exclude_type: Vec<String>,
    /// Maximum depth to search for project directories.
    pub max_directory_depth: usize,
    /// Maximum number of files to process per project when sizing artifacts.
    pub max_files_per_project: usize,
    /// Enable verbose output.
    pub verbose: bool,
    /// Show what would be cleaned without actually deleting.
    pub dry_run: bool,
    /// Skip the confirmation prompt and proceed with cleaning.
    pub no_confirm: bool,
}

/// Which arguments the user gave on the command line; the others hold their defaults.
#[derive(Debug, Clone, Copy)]
pub struct CliSources {
    pub path_arg: bool,
    pub path: bool,
    pub exclude_dir: bool,
    pub exclude_type: bool,
    pub max_directory_depth: bool,
    pub max_files_per_project: bool,
    pub verbose: bool,
    pub dry_run: bool,
    pub no_confirm: bool,
}

/// Optional fields from a TOML/JSON config file. Missing keys stay unset
/// so overlay can keep CLI / built-in defaults.
#[derive(Debug, Clone)]
pub struct FileConfig {
    pub path: Option<String>,
    pub exclude_dir: Option<Vec<String>>,
    pub exclude_type: Option<Vec<String>>,
    pub max_directory_depth: Option<usize>,
    pub max_files_per_project: Option<usize>,
    pub verbose: Option<bool>,
    pub dry_run: Option<bool>,
    pub no_confirm: Option<bool>,
}

/// Merged runtime configuration.
#[derive(Debug, Clone)]
pub struct Config {
    pub path: String,
    pub exclude_dir: Vec<String>,
    pub exclude_type: Vec<String>,
    pub max_directory_depth: usize,
    pub max_files_per_project: usize,
    pub verbose: bool,
    pub dry_run: bool,
    pub no_confirm: bool,
}

/// The syntax of a configuration file.
#[derive(Debug, Clone, Copy, PartialEq, Eq, Structural)]
pub enum ConfigFormat {
    Toml,
    Json,
}

/// The view of an optional string.
pub open spec fn opt_view(o: Option<String>) -> Option<Seq<char>> {
    match o {
        Some(s) => Some(s@),
        None => None,
    }
}

/// The view of an optional list of strings.
pub open spec fn opt_views(o: Option<Vec<String>>) -> Option<Seq<Seq<char>>> {
    match o {
        Some(v) => Some(string_views(v@)),
        None => None,
    }
}

/// Overlay of one setting: an explicit command-line value wins, then the file's
/// value, then the built-in default.
pub open spec fn overlay<T>(cli_set: bool, cli: T, file: Option<T>, default: T) -> T {
    if cli_set {
        cli
    } else {
        match file {
            Some(v) => v,
            None => default,
        }
    }
}

/// The message of the first name in `names` that is no known cleaner type, if any.
pub open spec fn first_unknown_type(names: Seq<Seq<char>>) -> Option<Seq<char>>
    decreases names.len(),
{
    if names.len() == 0 {
        None
    } else if command_type_named(names[0]) is None {
        Some(unknown_type_message(names[0]))
    } else {
        first_unknown_type(names.drop_first())
    }
}

/// The canonical name of each cleaner type in `names` (all of them known).
pub open spec fn canonical_names(names: Seq<Seq<char>>) -> Seq<Seq<char>> {
    names.map_values(|n: Seq<char>| command_type_named(n).unwrap().canonical_name())
}

/// `r` is the canonical form of the type names `names`, or the refusal of the
/// first unknown one.
pub open spec fn normalizes(r: Result<Vec<String>, ConfigError>, names: Seq<Seq<char>>) -> bool {
    match first_unknown_type(names) {
        None => r matches Ok(v) && string_views(v@) == canonical_names(names),
        Some(m) => r matches Err(ConfigError::InvalidConfig(e)) && e@ == m,
    }
}

/// A list with no unknown name has only known names.
pub proof fn lemma_no_unknown_type(names: Seq<Seq<char>>)
    requires
        first_unknown_type(names) is None,
    ensures
        forall|i: int| 0 <= i < names.len() ==> command_type_named(#[trigger] names[i]) is Some,
    decreases names.len(),
{
    if names.len() > 0 {
        lemma_no_unknown_type(names.drop_first());
        assert forall|i: int| 0 <= i < names.len() implies command_type_named(
            #[trigger] names[i],
        ) is Some by {
            if i > 0 {
                assert(names[i] == names.drop_first()[i - 1]);
            }
        }
    }
}

/// A list of known names has no unknown name.
proof fn lemma_all_known(names: Seq<Seq<char>>)
    requires
        forall|i: int| 0 <= i < names.len() ==> command_type_named(#[trigger] names[i]) is Some,
    ensures
        first_unknown_type(names) is None,
    decreases names.len(),
{
    if names.len() > 0 {
        assert forall|i: int| 0 <= i < names.drop_first().len() implies command_type_named(
            #[trigger] names.drop_first()[i],
        ) is Some by {
            assert(names.drop_first()[i] == names[i + 1]);
        }
        lemma_all_known(names.drop_first());
    }
}

/// Normalizing exclude types is idempotent: the canonical names are all known, and
/// normalizing them again gives them back.
pub proof fn lemma_normalize_idempotent(names: Seq<Seq<char>>)
    requires
        first_unknown_type(names) is None,
    ensures
        first_unknown_type(canonical_names(names)) is None,
        canonical_names(canonical_names(names)) == canonical_names(names),
{
    lemma_no_unknown_type(names);
    let c = canonical_names(names);
    assert forall|i: int| 0 <= i < c.len() implies command_type_named(#[trigger] c[i]) is Some
        && command_type_named(c[i]).unwrap().canonical_name() == c[i] by {
        crate::cmd::lemma_canonical_round_trip(command_type_named(names[i]).unwrap());
    }
    lemma_all_known(c);
    assert(canonical_names(c) =~= c);
}

/// The path that the command line names, positional first.
pub open spec fn cli_path(cli: CliArgs) -> Option<Seq<char>> {
    match cli.path_arg {
        Some(p) => Some(p@),
        None => opt_view(cli.path),
    }
}

/// The path that the command line names: the positional argument, else `--path`.
pub fn path_from_cli(cli: &CliArgs) -> (r: Option<String>)
    ensures
        opt_view(r) == cli_path(*cli),
{
    match &cli.path_arg {
        Some(p) => Some(p.clone()),
        None => match &cli.path {
            Some(p) => Some(p.clone()),
            None => None,
        },
    }
}

/// Canonical exclude-type name. `node` → `nodejs`, `mvn.cmd` → `mvn`.
pub fn parse_exclude_type(s: &str) -> (r: Result<String, ConfigError>)
    ensures
        match command_type_named(s@) {
            Some(t) => r matches Ok(c) && c@ == t.canonical_name(),
            None => r matches Err(ConfigError::InvalidConfig(e)) && e@ == unknown_type_message(s@),
        },
{
    match CommandType::try_from(s) {
        Ok(t) => Ok(String::from_str(t.canonical_type_name())),
        Err(m) => Err(ConfigError::InvalidConfig(m)),
    }
}

/// The canonical name of each type in `types`; the first unknown name refuses them all.
pub fn normalize_exclude_types(types: Vec<String>) -> (r: Result<Vec<String>, ConfigError>)
    ensures
        normalizes(r, string_views(types@)),
{
    let ghost names = string_views(types@);
    let mut out: Vec<String> = Vec::new();
    let mut i: usize = 0;
    proof {
        assert(names.skip(0) =~= names);
    }
    while i < types.len()
        invariant
            i <= types@.len(),
            names == string_views(types@),
            first_unknown_type(names) == first_unknown_type(names.skip(i as int)),
            string_views(out@) == canonical_names(names.subrange(0, i as int)),
        decreases types@.len() - i,
    {
        proof {
            assert(names.skip(i as int)[0] == types@[i as int]@);
            assert(names.skip(i as int).drop_first() =~= names.skip(i + 1));
        }
        match parse_exclude_type(types[i].as_str()) {
            Ok(c) => {
                out.push(c);
                proof {
                    assert(names[i as int] == types@[i as int]@);
                    assert(canonical_names(names.subrange(0, i + 1)) =~= canonical_names(
                        names.subrange(0, i as int),
                    ).push(command_type_named(names[i as int]).unwrap().canonical_name()));
                    assert(string_views(out@) =~= canonical_names(names.subrange(0, i + 1)));
                }
            },
            Err(e) => {
                return Err(e);
            },
        }
        i = i + 1;
    }
    proof {
        assert(names.subrange(0, types@.len() as int) =~= names);
    }
    Ok(out)
}

impl Default for FileConfig {
    fn default() -> (r: FileConfig)
        ensures
            r.path is None,
            r.exclude_dir is None,
            r.exclude_type is None,
            r.max_directory_depth is None,
            r.max_files_per_project is None,
            r.verbose is None,
            r.dry_run is None,
            r.no_confirm is None,
    {
        FileConfig {
            path: None,
            exclude_dir: None,
            exclude_type: None,
            max_directory_depth: None,
            max_files_per_project: None,
            verbose: None,
            dry_run: None,
            no_confirm: None,
        }
    }
}

impl FileConfig {
    /// The message with which a configuration file of another kind is refused.
    pub open spec fn format_refusal() -> Seq<char> {
        "Config file must have a .toml or .json extension"@
    }

    /// The syntax of a configuration file whose name has the extension `extension`
    /// (compared ignoring ASCII case; empty when the name has none).
    pub fn format_for_extension(extension: &str) -> (r: Result<ConfigFormat, ConfigError>)
        ensures
            lower_seq(extension@) == "toml"@ ==> r == Ok::<ConfigFormat, ConfigError>(
                ConfigFormat::Toml,
            ),
            lower_seq(extension@) == "json"@ ==> r == Ok::<ConfigFormat, ConfigError>(
                ConfigFormat::Json,
            ),
            lower_seq(extension@) != "toml"@ && lower_seq(extension@) != "json"@ ==> (r matches Err(
                ConfigError::InvalidConfig(e),
            ) && e@ == Self::format_refusal()),
    {
        let lower = lowered(&chars_of(extension));
        proof {
            reveal_strlit("toml");
            reveal_strlit("json");
            assert("toml"@[0] != "json"@[0]);
        }
        if spells(&lower, "toml") {
            Ok(ConfigFormat::Toml)
        } else if spells(&lower, "json") {
            Ok(ConfigFormat::Json)
        } else {
            Err(invalid_config("Config file must have a .toml or .json extension"))
        }
    }
}

impl Default for Config {
    fn default() -> (r: Config)
        ensures
            r.path@ == "."@,
            string_views(r.exclude_dir@) == default_exclude_dir_names(),
            r.exclude_type@.len() == 0,
            r.max_directory_depth == DEFAULT_MAX_DIRECTORY_DEPTH,
            r.max_files_per_project == DEFAULT_MAX_FILES_PER_PROJECT,
            !r.verbose,
            !r.dry_run,
            !r.no_confirm,
    {
        Config {
            path: String::from_str("."),
            exclude_dir: default_exclude_dirs(),
            exclude_type: Vec::new(),
            max_directory_depth: DEFAULT_MAX_DIRECTORY_DEPTH,
            max_files_per_project: DEFAULT_MAX_FILES_PER_PROJECT,
            verbose: false,
            dry_run: false,
            no_confirm: false,
        }
    }
}

/// The setting that the configuration file gives, if there is a file and it sets it.
pub open spec fn in_file<T>(file: Option<&FileConfig>, get: spec_fn(FileConfig) -> Option<T>) -> Option<T> {
    match file {
        Some(f) => get(*f),
        None => None,
    }
}

/// The exclude types before normalization: from the command line when given there,
/// else from the file, else none.
pub open spec fn chosen_exclude_types(cli: CliArgs, sources: CliSources, file: Option<&FileConfig>) -> Seq<
    Seq<char>,
> {
    overlay(
        sources.exclude_type,
        string_views(cli.exclude_type@),
        in_file(file, |f: FileConfig| opt_views(f.exclude_type)),
        seq![],
    )
}

/// The path to clean: from the command line when given there (positional first,
/// `.` if neither value is present), else from the file, else `.`.
pub open spec fn chosen_path(cli: CliArgs, sources: CliSources, file: Option<&FileConfig>) -> Seq<char> {
    overlay(
        sources.path_arg || sources.path,
        match cli_path(cli) {
            Some(p) => p,
            None => "."@,
        },
        in_file(file, |f: FileConfig| opt_view(f.path)),
        "."@,
    )
}

/// `c` holds, for each setting, the command-line value when the user gave it,
/// else the file's value when the file sets it, else the built-in default
/// (`exclude_type` aside, which `from_cli_and_file` normalizes).
pub open spec fn overlaid(c: Config, cli: CliArgs, sources: CliSources, file: Option<&FileConfig>) -> bool {
    &&& c.path@ == chosen_path(cli, sources, file)
    &&& string_views(c.exclude_dir@) == overlay(
        sources.exclude_dir,
        string_views(cli.exclude_dir@),
        in_file(file, |f: FileConfig| opt_views(f.exclude_dir)),
        default_exclude_dir_names(),
    )
    &&& c.max_directory_depth == overlay(
        sources.max_directory_depth,
        cli.max_directory_depth,
        in_file(file, |f: FileConfig| f.max_directory_depth),
        DEFAULT_MAX_DIRECTORY_DEPTH,
    )
    &&& c.max_files_per_project == overlay(
        sources.max_files_per_project,
        cli.max_files_per_project,
        in_file(file, |f: FileConfig| f.max_files_per_project),
        DEFAULT_MAX_FILES_PER_PROJECT,
    )
    &&& c.verbose == overlay(
        sources.verbose,
        cli.verbose,
        in_file(file, |f: FileConfig| f.verbose),
        false,
    )
    &&& c.dry_run == overlay(
        sources.dry_run,
        cli.dry_run,
        in_file(file, |f: FileConfig| f.dry_run),
        false,
    )
    &&& c.no_confirm == overlay(
        sources.no_confirm,
        cli.no_confirm,
        in_file(file, |f: FileConfig| f.no_confirm),
        false,
    )
}

/// The merged settings: a setting given on the command line takes the command-line
/// value, even where the file sets it too; one not given there takes the file's
/// value where the file sets it, and the built-in default otherwise.
pub proof fn lemma_explicit_flags_win(c: Config, cli: CliArgs, sources: CliSources, file: Option<&FileConfig>)
    requires
        overlaid(c, cli, sources, file),
    ensures
        sources.no_confirm ==> c.no_confirm == cli.no_confirm,
        sources.dry_run ==> c.dry_run == cli.dry_run,
        sources.verbose ==> c.verbose == cli.verbose,
        sources.max_directory_depth ==> c.max_directory_depth == cli.max_directory_depth,
        sources.max_files_per_project ==> c.max_files_per_project == cli.max_files_per_project,
        sources.exclude_dir ==> string_views(c.exclude_dir@) == string_views(cli.exclude_dir@),
        sources.path_arg || sources.path ==> c.path@ == match cli_path(cli) {
            Some(p) => p,
            None => "."@,
        },
        !sources.no_confirm ==> c.no_confirm == match file {
            Some(f) => match f.no_confirm {
                Some(b) => b,
                None => false,
            },
            None => false,
        },
        !sources.dry_run ==> c.dry_run == match file {
            Some(f) => match f.dry_run {
                Some(b) => b,
                None => false,
            },
            None => false,
        },
        !sources.verbose ==> c.verbose == match file {
            Some(f) => match f.verbose {
                Some(b) => b,
                None => false,
            },
            None => false,
        },
        !sources.max_directory_depth ==> c.max_directory_depth == match file {
            Some(f) => match f.max_directory_depth {
                Some(d) => d,
                None => DEFAULT_MAX_DIRECTORY_DEPTH,
            },
            None => DEFAULT_MAX_DIRECTORY_DEPTH,
        },
        !sources.max_files_per_project ==> c.max_files_per_project == match file {
            Some(f) => match f.max_files_per_project {
                Some(m) => m,
                None => DEFAULT_MAX_FILES_PER_PROJECT,
            },
            None => DEFAULT_MAX_FILES_PER_PROJECT,
        },
        !sources.exclude_dir ==> string_views(c.exclude_dir@) == match file {
            Some(f) => match f.exclude_dir {
                Some(v) => string_views(v@),
                None => default_exclude_dir_names(),
            },
            None => default_exclude_dir_names(),
        },
        !(sources.path_arg || sources.path) ==> c.path@ == match file {
            Some(f) => match f.path {
                Some(p) => p@,
                None => "."@,
            },
            None => "."@,
        },
{
}

/// The message of the first directory name in `names` that may not be skipped, if any.
pub open spec fn first_dir_name_problem(names: Seq<Seq<char>>) -> Option<Seq<char>>
    decreases names.len(),
{
    if names.len() == 0 {
        None
    } else if exclude_dir_name_problem(names[0]) is Some {
        exclude_dir_name_problem(names[0])
    } else {
        first_dir_name_problem(names.drop_first())
    }
}

/// A list with no refused directory name has only acceptable names.
pub proof fn lemma_no_dir_name_problem(names: Seq<Seq<char>>)
    requires
        first_dir_name_problem(names) is None,
    ensures
        forall|i: int| 0 <= i < names.len() ==> exclude_dir_name_problem(#[trigger] names[i]) is None,
    decreases names.len(),
{
    if names.len() > 0 {
        lemma_no_dir_name_problem(names.drop_first());
        assert forall|i: int| 0 <= i < names.len() implies exclude_dir_name_problem(
            #[trigger] names[i],
        ) is None by {
            if i > 0 {
                assert(names[i] == names.drop_first()[i - 1]);
            }
        }
    }
}

/// Why the configuration `c` is refused, if it is, given what the file system says
/// of its path: the checks run in order, and the first that fails gives the message.
pub open spec fn config_problem(c: Config, probe: PathProbe) -> Option<Seq<char>> {
    match clean_target_outcome(c.path@, probe) {
        Err(m) => Some(m),
        Ok(_) => if first_dir_name_problem(string_views(c.exclude_dir@)) is Some {
            first_dir_name_problem(string_views(c.exclude_dir@))
        } else if first_unknown_type(string_views(c.exclude_type@)) is Some {
            first_unknown_type(string_views(c.exclude_type@))
        } else if c.max_directory_depth == 0 {
            Some("max_directory_depth cannot be 0"@)
        } else if c.max_files_per_project == 0 {
            Some("max_files_per_project cannot be 0"@)
        } else {
            None
        },
    }
}

/// A configuration that passes validation cleans an existing, non-system directory,
/// skips only acceptable directory names, excludes only known cleaner types, and has
/// positive limits.
pub proof fn lemma_valid_config(c: Config, probe: PathProbe)
    requires
        config_problem(c, probe) is None,
    ensures
        clean_target_outcome(c.path@, probe) is Ok,
        forall|i: int|
            0 <= i < c.exclude_dir@.len() ==> exclude_dir_name_problem(
                #[trigger] string_views(c.exclude_dir@)[i],
            ) is None,
        forall|i: int|
            0 <= i < c.exclude_type@.len() ==> command_type_named(
                #[trigger] string_views(c.exclude_type@)[i],
            ) is Some,
        c.max_directory_depth > 0,
        c.max_files_per_project > 0,
{
    lemma_no_dir_name_problem(string_views(c.exclude_dir@));
    lemma_no_unknown_type(string_views(c.exclude_type@));
}

/// An owned copy of an optional list of strings.
fn copy_optional_strings(o: &Option<Vec<String>>) -> (r: Option<Vec<String>>)
    ensures
        opt_views(r) == opt_views(*o),
{
    match o {
        Some(v) => Some(copy_strings(v.as_slice())),
        None => None,
    }
}

impl Config {
    /// Overlay: built-in defaults < file < explicit CLI flags.
    /// Default values of the command line do not override file values.
    /// `sources` tells which arguments the user gave on the command line.
    pub fn from_cli_and_file(cli: &CliArgs, sources: &CliSources, file: Option<&FileConfig>) -> (r:
        Result<Self, ConfigError>)
        ensures
            match first_unknown_type(chosen_exclude_types(*cli, *sources, file)) {
                Some(m) => r matches Err(ConfigError::InvalidConfig(e)) && e@ == m,
                None => r matches Ok(c) && overlaid(c, *cli, *sources, file) && string_views(
                    c.exclude_type@,
                ) == canonical_names(chosen_exclude_types(*cli, *sources, file)),
            },
    {
        let path = if sources.path_arg || sources.path {
            match path_from_cli(cli) {
                Some(p) => p,
                None => String::from_str("."),
            }
        } else {
            match file {
                Some(f) => match &f.path {
                    Some(p) => p.clone(),
                    None => String::from_str("."),
                },
                None => String::from_str("."),
            }
        };

        let exclude_dir = if sources.exclude_dir {
            copy_strings(cli.exclude_dir.as_slice())
        } else {
            match file {
                Some(f) => match copy_optional_strings(&f.exclude_dir) {
                    Some(d) => d,
                    None => default_exclude_dirs(),
                },
                None => default_exclude_dirs(),
            }
        };

        let exclude_type_raw = if sources.exclude_type {
            copy_strings(cli.exclude_type.as_slice())
        } else {
            match file {
                Some(f) => match copy_optional_strings(&f.exclude_type) {
                    Some(t) => t,
                    None => Vec::new(),
                },
                None => Vec::new(),
            }
        };
        proof {
            assert(string_views(exclude_type_raw@) =~= chosen_exclude_types(*cli, *sources, file));
        }
        let exclude_type = normalize_exclude_types(exclude_type_raw)?;

        let max_directory_depth = if sources.max_directory_depth {
            cli.max_directory_depth
        } else {
            match file {
                Some(f) => match f.max_directory_depth {
                    Some(d) => d,
                    None => DEFAULT_MAX_DIRECTORY_DEPTH,
                },
                None => DEFAULT_MAX_DIRECTORY_DEPTH,
            }
        };

        let max_files_per_project = if sources.max_files_per_project {
            cli.max_files_per_project
        } else {
            match file {
                Some(f) => match f.max_files_per_project {
                    Some(n) => n,
                    None => DEFAULT_MAX_FILES_PER_PROJECT,
                },
                None => DEFAULT_MAX_FILES_PER_PROJECT,
            }
        };

        let verbose = if sources.verbose {
            cli.verbose
        } else {
            match file {
                Some(f) => match f.verbose {
                    Some(b) => b,
                    None => false,
                },
                None => false,
            }
        };

        let dry_run = if sources.dry_run {
            cli.dry_run
        } else {
            match file {
                Some(f) => match f.dry_run {
                    Some(b) => b,
                    None => false,
                },
                None => false,
            }
        };

        let no_confirm = if sources.no_confirm {
            cli.no_confirm
        } else {
            match file {
                Some(f) => match f.no_confirm {
                    Some(b) => b,
                    None => false,
                },
                None => false,
            }
        };

        Ok(
            Self {
                path,
                exclude_dir,
                exclude_type,
                max_directory_depth,
                max_files_per_project,
                verbose,
                dry_run,
                no_confirm,
            },
        )
    }

    /// Validate and sanitize configuration values. `probe` is what the file system
    /// says of the configured path.
    pub fn validate(&self, probe: &PathProbe) -> (r: Result<(), ConfigError>)
        ensures
            refuses_with(r, config_problem(*self, *probe)),
    {
        validate_and_sanitize_path(self.path.as_str(), probe)?;

        let ghost dirs = string_views(self.exclude_dir@);
        proof {
            assert(dirs.skip(0) =~= dirs);
        }
        let mut i: usize = 0;
        while i < self.exclude_dir.len()
            invariant
                i <= self.exclude_dir@.len(),
                dirs == string_views(self.exclude_dir@),
                first_dir_name_problem(dirs) == first_dir_name_problem(dirs.skip(i as int)),
                clean_target_outcome(self.path@, *probe) is Ok,
            decreases self.exclude_dir@.len() - i,
        {
            proof {
                assert(dirs.skip(i as int)[0] == self.exclude_dir@[i as int]@);
                assert(dirs.skip(i as int).drop_first() =~= dirs.skip(i + 1));
            }
            validate_exclude_dir_name(self.exclude_dir[i].as_str())?;
            i = i + 1;
        }
        proof {
            assert(dirs.skip(self.exclude_dir@.len() as int).len() == 0);
        }

        let ghost types = string_views(self.exclude_type@);
        proof {
            assert(types.skip(0) =~= types);
        }
        let mut j: usize = 0;
        while j < self.exclude_type.len()
            invariant
                j <= self.exclude_type@.len(),
                types == string_views(self.exclude_type@),
                first_unknown_type(types) == first_unknown_type(types.skip(j as int)),
                clean_target_outcome(self.path@, *probe) is Ok,
                first_dir_name_problem(string_views(self.exclude_dir@)) is None,
            decreases self.exclude_type@.len() - j,
        {
            proof {
                assert(types.skip(j as int)[0] == self.exclude_type@[j as int]@);
                assert(types.skip(j as int).drop_first() =~= types.skip(j + 1));
            }
            match parse_exclude_type(self.exclude_type[j].as_str()) {
                Ok(_) => {},
                Err(e) => {
                    return Err(e);
                },
            }
            j = j + 1;
        }
        proof {
            assert(types.skip(self.exclude_type@.len() as int).len() == 0);
        }

        if self.max_directory_depth == 0 {
            return Err(invalid_config("max_directory_depth cannot be 0"));
        }
        if self.max_files_per_project == 0 {
            return Err(invalid_config("max_files_per_project cannot be 0"));
        }
        Ok(())
    }
}

/// Resolve which config file to load. `--config` skips discovery: an explicit
/// path is validated (`probe` is what the file system says of it) and the
/// discovered file is not looked at; without one, `discovered` (the first existing
/// discovery candidate, if any) is the answer.
pub fn resolve_config_file(
    cli_config: Option<&str>,
    probe: &PathProbe,
    discovered: Option<String>,
) -> (r: Result<Option<String>, ConfigError>)
    ensures
        match cli_config {
            Some(p) => match config_file_path_outcome(p@, *probe) {
                Ok(c) => r matches Ok(Some(s)) && s@ == c,
                Err(m) => r matches Err(ConfigError::InvalidConfig(e)) && e@ == m,
            },
            None => r matches Ok(o) && opt_view(o) == opt_view(discovered),
        },
{
    match cli_config {
        Some(path) => {
            let canonical = validate_config_file_path(path, probe)?;
            Ok(Some(canonical))
        },
        None => Ok(discovered),
    }
}

/// `base` ends in a separator of paths: `/`, or the platform's separator `sep`.
pub open spec fn ends_in_separator(base: Seq<char>, sep: Seq<char>) -> bool {
    base.len() > 0 && (base.last() == '/' || sep.contains(base.last()))
}

/// `base` and `name` joined by the separator `sep`, as a path is extended by a
/// relative name: no separator is added after an empty base or one that ends in one.
pub open spec fn joined(base: Seq<char>, name: Seq<char>, sep: Seq<char>) -> Seq<char> {
    if base.len() == 0 || ends_in_separator(base, sep) {
        base + name
    } else {
        base + sep + name
    }
}

/// `base` extended by the relative name `name`, on a platform whose paths are
/// separated by `sep`.
pub fn join_path(base: &str, name: &str, sep: &str) -> (r: String)
    ensures
        r@ == joined(base@, name@, sep@),
{
    let v = chars_of(base);
    if v.len() == 0 {
        return String::from_str(base).concat(name);
    }
    let last = v[v.len() - 1];
    let s = chars_of(sep);
    proof {
        assert(base@.last() == last);
    }
    if last == '/' || has_char(&s, last) {
        String::from_str(base).concat(name)
    } else {
        String::from_str(base).concat(sep).concat(name)
    }
}

/// The places where a configuration file is looked for, in order: four names in the
/// working directory, then `rs_clean/rs_clean.toml` and `rs_clean/rs_clean.json` in the
/// user's configuration directory, then `.rs_clean/rs_clean.toml` in the home directory;
/// `sep` separates the components of a path.
pub open spec fn config_candidates(
    config_dir: Option<Seq<char>>,
    home_dir: Option<Seq<char>>,
    sep: Seq<char>,
) -> Seq<Seq<char>> {
    seq!["rs_clean.toml"@, ".rs_clean.toml"@, "rs_clean.json"@, ".rs_clean.json"@] + match config_dir {
        Some(d) => seq![
            joined(joined(d, "rs_clean"@, sep), "rs_clean.toml"@, sep),
            joined(joined(d, "rs_clean"@, sep), "rs_clean.json"@, sep),
        ],
        None => seq![],
    } + match home_dir {
        Some(h) => seq![joined(joined(h, ".rs_clean"@, sep), "rs_clean.toml"@, sep)],
        None => seq![],
    }
}

/// The view of an optional string.
pub open spec fn opt_str_view(s: Option<&str>) -> Option<Seq<char>> {
    match s {
        Some(d) => Some(d@),
        None => None,
    }
}

/// The places where a configuration file is looked for, in the order of preference,
/// on a platform whose paths are separated by `sep`; the first that is an existing
/// file is used.
pub fn config_file_candidates_with(config_dir: Option<&str>, home_dir: Option<&str>, sep: &str) -> (r:
    Vec<String>)
    ensures
        string_views(r@) == config_candidates(opt_str_view(config_dir), opt_str_view(home_dir), sep@),
{
    let mut r: Vec<String> = Vec::new();
    r.push(String::from_str("rs_clean.toml"));
    r.push(String::from_str(".rs_clean.toml"));
    r.push(String::from_str("rs_clean.json"));
    r.push(String::from_str(".rs_clean.json"));
    if let Some(d) = config_dir {
        let base = join_path(d, "rs_clean", sep);
        r.push(join_path(base.as_str(), "rs_clean.toml", sep));
        r.push(join_path(base.as_str(), "rs_clean.json", sep));
    }
    if let Some(h) = home_dir {
        let base = join_path(h, ".rs_clean", sep);
        r.push(join_path(base.as_str(), "rs_clean.toml", sep));
    }
    proof {
        assert(string_views(r@) =~= config_candidates(
            opt_str_view(config_dir),
            opt_str_view(home_dir),
            sep@,
        ));
    }
    r
}

/// The places where a configuration file is looked for, with the path separator of
/// the platform the program runs on (`config_file_candidates_with`). The separator
/// depends on the build, so the contract leaves it open.
pub fn config_file_candidates(config_dir: Option<&str>, home_dir: Option<&str>) -> (r: Vec<String>)
    ensures
        exists|sep: Seq<char>|
            string_views(r@) == config_candidates(opt_str_view(config_dir), opt_str_view(home_dir), sep),
{
    config_file_candidates_with(config_dir, home_dir, main_separator())
}

} // verus!
