//! The kinds of project cleaner and what each of them removes.
use vstd::prelude::*;

use crate::constant::{
    nodejs_artifact_dir_names, python_artifact_dir_names, python_artifact_glob_names,
    NODEJS_ARTIFACT_DIRS, PYTHON_ARTIFACT_DIRS, PYTHON_ARTIFACT_GLOBS,
};
use crate::text::{chars_of, spells, str_views};

verus! {

/// An error met while a cleaner ran.
#[derive(Debug)]
pub enum CleanError {
    /// The cleaning tool could not be started.
    CommandExecutionFailed { command: String, path: String, source: String },
    /// An artifact directory could not be removed.
    DirectoryRemovalFailed { path: String, source: String },
    /// Any other failure.
    Unknown(String),
}

impl CleanError {
    /// The text by which the error is reported.
    pub open spec fn text(&self) -> Seq<char> {
        match self {
            CleanError::CommandExecutionFailed { command, path, source } => "Failed to execute command '"@
                + command@ + "' in '"@ + path@ + "': "@ + source@,
            CleanError::DirectoryRemovalFailed { path, source } => "Failed to remove directory '"@
                + path@ + "': "@ + source@,
            CleanError::Unknown(source) => "Unknown error: "@ + source@,
        }
    }

    /// The text by which the error is reported.
    pub fn message(&self) -> (r: String)
        ensures
            r@ == self.text(),
    {
        match self {
            CleanError::CommandExecutionFailed { command, path, source } => String::from_str(
                "Failed to execute command '",
            ).concat(command.as_str()).concat("' in '").concat(path.as_str()).concat("': ").concat(
                source.as_str(),
            ),
            CleanError::DirectoryRemovalFailed { path, source } => String::from_str(
                "Failed to remove directory '",
            ).concat(path.as_str()).concat("': ").concat(source.as_str()),
            CleanError::Unknown(source) => String::from_str("Unknown error: ").concat(
                source.as_str(),
            ),
        }
    }
}

/// How a cleaner cleans a project directory.
pub enum CleanAction {
    /// Run `program` with the arguments `args` in the project directory.
    RunTool { program: &'static str, args: Vec<&'static str> },
    /// Remove each directory named in `dirs` that exists in the project directory, then
    /// every directory there whose name matches one of the glob patterns `globs`.
    RemoveArtifacts { dirs: &'static [&'static str], globs: &'static [&'static str] },
}

/// The kinds of project that can be cleaned.
#[derive(Debug, Clone, Copy, PartialEq, Eq, Hash, Structural)]
pub enum CommandType {
    Cargo,
    Go,
    Gradle,
    NodeJs,
    Flutter,
    Python,
    Maven,
    /// Maven as it is invoked on Windows (`mvn.cmd`).
    MavenCmd,
}

impl CommandType {
    /// The name of the tool of this kind.
    pub open spec fn name(self) -> Seq<char> {
        match self {
            CommandType::Cargo => "cargo"@,
            CommandType::Go => "go"@,
            CommandType::Gradle => "gradle"@,
            CommandType::NodeJs => "nodejs"@,
            CommandType::Flutter => "flutter"@,
            CommandType::Python => "python"@,
            CommandType::Maven => "mvn"@,
            CommandType::MavenCmd => "mvn.cmd"@,
        }
    }

    /// The name under which this kind is excluded and configured:
    /// `mvn.cmd` shares the name `mvn`.
    pub open spec fn canonical_name(self) -> Seq<char> {
        match self {
            CommandType::NodeJs => "nodejs"@,
            CommandType::Maven | CommandType::MavenCmd => "mvn"@,
            other => other.name(),
        }
    }

    pub fn as_str(&self) -> (r: &'static str)
        ensures
            r@ == self.name(),
    {
        match self {
            CommandType::Cargo => "cargo",
            CommandType::Go => "go",
            CommandType::Gradle => "gradle",
            CommandType::NodeJs => "nodejs",
            CommandType::Flutter => "flutter",
            CommandType::Python => "python",
            CommandType::Maven => "mvn",
            CommandType::MavenCmd => "mvn.cmd",
        }
    }

    /// Canonical cleaner type used by `--exclude-type` and config files.
    /// `node` aliases to `nodejs`; `mvn.cmd` aliases to `mvn`.
    pub fn canonical_type_name(&self) -> (r: &'static str)
        ensures
            r@ == self.canonical_name(),
    {
        match self {
            CommandType::NodeJs => "nodejs",
            CommandType::Maven | CommandType::MavenCmd => "mvn",
            other => other.as_str(),
        }
    }

    /// The kind named `s`; `node` is accepted for Node.js.
    /// Any other name is refused with the message `Unknown command type: <s>`.
    pub fn try_from(s: &str) -> (r: Result<CommandType, String>)
        ensures
            match command_type_named(s@) {
                Some(t) => r == Ok::<CommandType, String>(t),
                None => r matches Err(m) && m@ == unknown_type_message(s@),
            },
    {
        let v = chars_of(s);
        if spells(&v, "cargo") {
            Ok(CommandType::Cargo)
        } else if spells(&v, "go") {
            Ok(CommandType::Go)
        } else if spells(&v, "gradle") {
            Ok(CommandType::Gradle)
        } else if spells(&v, "nodejs") || spells(&v, "node") {
            Ok(CommandType::NodeJs)
        } else if spells(&v, "flutter") {
            Ok(CommandType::Flutter)
        } else if spells(&v, "python") {
            Ok(CommandType::Python)
        } else if spells(&v, "mvn") {
            Ok(CommandType::Maven)
        } else if spells(&v, "mvn.cmd") {
            Ok(CommandType::MavenCmd)
        } else {
            let m = String::from_str("Unknown command type: ").concat(s);
            Err(m)
        }
    }

    /// Whether two kinds share their canonical name.
    pub fn same_cleaner(&self, other: &CommandType) -> (r: bool)
        ensures
            r == (self.canonical_name() == other.canonical_name()),
    {
        proof {
            lemma_canonical_names_distinct();
        }
        match (self, other) {
            (CommandType::Cargo, CommandType::Cargo) => true,
            (CommandType::Go, CommandType::Go) => true,
            (CommandType::Gradle, CommandType::Gradle) => true,
            (CommandType::NodeJs, CommandType::NodeJs) => true,
            (CommandType::Flutter, CommandType::Flutter) => true,
            (CommandType::Python, CommandType::Python) => true,
            (CommandType::Maven, CommandType::Maven) => true,
            (CommandType::Maven, CommandType::MavenCmd) => true,
            (CommandType::MavenCmd, CommandType::Maven) => true,
            (CommandType::MavenCmd, CommandType::MavenCmd) => true,
            _ => false,
        }
    }
}

/// The message with which an unknown kind name is refused.
pub open spec fn unknown_type_message(s: Seq<char>) -> Seq<char> {
    "Unknown command type: "@ + s
}

/// The kind that the name `n` denotes, if any.
pub open spec fn command_type_named(n: Seq<char>) -> Option<CommandType> {
    if n == "cargo"@ {
        Some(CommandType::Cargo)
    } else if n == "go"@ {
        Some(CommandType::Go)
    } else if n == "gradle"@ {
        Some(CommandType::Gradle)
    } else if n == "nodejs"@ || n == "node"@ {
        Some(CommandType::NodeJs)
    } else if n == "flutter"@ {
        Some(CommandType::Flutter)
    } else if n == "python"@ {
        Some(CommandType::Python)
    } else if n == "mvn"@ {
        Some(CommandType::Maven)
    } else if n == "mvn.cmd"@ {
        Some(CommandType::MavenCmd)
    } else {
        None
    }
}

proof fn lemma_canonical_names_distinct()
    ensures
        forall|a: CommandType, b: CommandType|
            (a.canonical_name() == b.canonical_name()) <==> (a == b || (a is Maven && b is MavenCmd)
                || (a is MavenCmd && b is Maven)),
{
    reveal_strlit("cargo");
    reveal_strlit("go");
    reveal_strlit("gradle");
    reveal_strlit("nodejs");
    reveal_strlit("flutter");
    reveal_strlit("python");
    reveal_strlit("mvn");
    assert forall|a: CommandType, b: CommandType|
        (a.canonical_name() == b.canonical_name()) implies (a == b || (a is Maven && b is MavenCmd)
            || (a is MavenCmd && b is Maven)) by {
        if a.canonical_name() == b.canonical_name() && !(a == b) {
            let x = a.canonical_name();
            let y = b.canonical_name();
            assert(x.len() == y.len());
            assert(x[0] == y[0]);
            if x.len() > 1 {
                assert(x[1] == y[1]);
            }
        }
    }
}

/// Naming a kind by its own name gives the kind back.
pub proof fn lemma_name_round_trip(t: CommandType)
    ensures
        command_type_named(t.name()) == Some(t),
{
    reveal_strlit("cargo");
    reveal_strlit("go");
    reveal_strlit("gradle");
    reveal_strlit("nodejs");
    reveal_strlit("node");
    reveal_strlit("flutter");
    reveal_strlit("python");
    reveal_strlit("mvn");
    reveal_strlit("mvn.cmd");
    assert("cargo"@[0] == 'c');
    assert("gradle"@[0] == 'g');
    assert("nodejs"@[0] == 'n');
    assert("flutter"@[0] == 'f');
    assert("python"@[0] == 'p');
    assert("mvn.cmd"@[0] == 'm');
    assert("go"@.len() == 2);
    assert("gradle"@.len() == 6);
    assert("mvn"@.len() == 3);
    assert("mvn.cmd"@.len() == 7);
    match t {
        CommandType::Cargo => {},
        CommandType::Go => {},
        CommandType::Gradle => {},
        CommandType::NodeJs => {},
        CommandType::Flutter => {},
        CommandType::Python => {},
        CommandType::Maven => {},
        CommandType::MavenCmd => {},
    }
}

/// A canonical name names a kind with that same canonical name, so normalizing an
/// exclude type twice gives what normalizing it once gave.
pub proof fn lemma_canonical_round_trip(t: CommandType)
    ensures
        command_type_named(t.canonical_name()) matches Some(p) && p.canonical_name()
            == t.canonical_name(),
{
    match t {
        CommandType::NodeJs => lemma_name_round_trip(CommandType::NodeJs),
        CommandType::Maven | CommandType::MavenCmd => lemma_name_round_trip(CommandType::Maven),
        other => lemma_name_round_trip(other),
    }
}

/// A cleaner: the kind of project it serves and the files that mark such a project.
pub struct Cmd {
    pub command_type: CommandType,
    pub related_files: Vec<&'static str>,
}

impl Cmd {
    pub fn new(command_type: CommandType, related_files: Vec<&'static str>) -> (r: Self)
        ensures
            r.command_type == command_type,
            r.related_files@ == related_files@,
    {
        Self { command_type, related_files }
    }

    /// The names of the artifact directories of each kind.
    pub open spec fn artifact_dir_names(t: CommandType) -> Seq<Seq<char>> {
        match t {
            CommandType::Cargo | CommandType::Maven | CommandType::MavenCmd => seq!["target"@],
            CommandType::Gradle | CommandType::Flutter => seq!["build"@],
            CommandType::Go => seq![],
            CommandType::NodeJs => nodejs_artifact_dir_names(),
            CommandType::Python => python_artifact_dir_names(),
        }
    }

    /// The glob patterns of the artifact directories of each kind.
    pub open spec fn artifact_glob_names(t: CommandType) -> Seq<Seq<char>> {
        match t {
            CommandType::Python => python_artifact_glob_names(),
            _ => seq![],
        }
    }

    /// Build-artifact directory names this cleaner removes (non-glob).
    /// Go has no stable artifact directory, so this is empty.
    pub fn artifact_dirs(&self) -> (r: &'static [&'static str])
        ensures
            str_views(r@) == Self::artifact_dir_names(self.command_type),
    {
        let r: &'static [&'static str] = match self.command_type {
            CommandType::Cargo => &["target"],
            CommandType::Gradle | CommandType::Flutter => &["build"],
            CommandType::Maven | CommandType::MavenCmd => &["target"],
            CommandType::Go => &[],
            CommandType::NodeJs => &NODEJS_ARTIFACT_DIRS,
            CommandType::Python => &PYTHON_ARTIFACT_DIRS,
        };
        proof {
            assert(str_views(r@) =~= Self::artifact_dir_names(self.command_type));
        }
        r
    }

    /// Glob patterns for artifact directories (Python `*.egg-info`).
    pub fn artifact_globs(&self) -> (r: &'static [&'static str])
        ensures
            str_views(r@) == Self::artifact_glob_names(self.command_type),
    {
        let r: &'static [&'static str] = match self.command_type {
            CommandType::Python => &PYTHON_ARTIFACT_GLOBS,
            _ => &[],
        };
        proof {
            assert(str_views(r@) =~= Self::artifact_glob_names(self.command_type));
        }
        r
    }
    /// The program that cleans a project of kind `t`; Flutter is run through
    /// `flutter.bat` on Windows.
    pub open spec fn tool_program(t: CommandType, on_windows: bool) -> Seq<char> {
        if on_windows && t is Flutter {
            "flutter.bat"@
        } else {
            t.name()
        }
    }

    /// The arguments of the cleaning program: `clean`, and `--offline` for the tools
    /// that would otherwise reach the network (Maven and Gradle).
    pub open spec fn tool_args(t: CommandType) -> Seq<Seq<char>> {
        match t {
            CommandType::Maven | CommandType::MavenCmd | CommandType::Gradle => seq![
                "clean"@,
                "--offline"@,
            ],
            _ => seq!["clean"@],
        }
    }

    /// How this cleaner cleans a project: Node.js and Python projects by removing
    /// exactly the artifact directories that `artifact_dirs` and `artifact_globs` name,
    /// every other kind by running its tool's `clean`.
    pub fn clean_action(&self, on_windows: bool) -> (r: CleanAction)
        ensures
            match self.command_type {
                CommandType::NodeJs | CommandType::Python => r matches CleanAction::RemoveArtifacts {
                    dirs,
                    globs,
                } && str_views(dirs@) == Self::artifact_dir_names(self.command_type) && str_views(
                    globs@,
                ) == Self::artifact_glob_names(self.command_type),
                _ => r matches CleanAction::RunTool { program, args } && program@
                    == Self::tool_program(self.command_type, on_windows) && str_views(args@)
                    == Self::tool_args(self.command_type),
            },
    {
        match self.command_type {
            CommandType::NodeJs | CommandType::Python => CleanAction::RemoveArtifacts {
                dirs: self.artifact_dirs(),
                globs: self.artifact_globs(),
            },
            t => {
                let program = if on_windows && t == CommandType::Flutter {
                    "flutter.bat"
                } else {
                    t.as_str()
                };
                let mut args: Vec<&'static str> = Vec::new();
                args.push("clean");
                match t {
                    CommandType::Maven | CommandType::MavenCmd | CommandType::Gradle => {
                        args.push("--offline");
                    },
                    _ => {},
                }
                proof {
                    assert(str_views(args@) =~= Self::tool_args(self.command_type));
                }
                CleanAction::RunTool { program, args }
            },
        }
    }

    /// The error of a cleaning program that could not be started in `path`; the
    /// command is reported as `<tool> clean`.
    pub fn launch_failure(&self, path: &str, source: &str) -> (r: CleanError)
        ensures
            r matches CleanError::CommandExecutionFailed { command, path: p, source: s } && command@
                == self.command_type.name() + " clean"@ && p@ == path@ && s@ == source@,
    {
        CleanError::CommandExecutionFailed {
            command: String::from_str(self.command_type.as_str()).concat(" clean"),
            path: String::from_str(path),
            source: String::from_str(source),
        }
    }
}

/// Every kind whose tool is run cleans with `clean`; only Maven (as `mvn` or
/// `mvn.cmd`) and Gradle add `--offline`, every other kind runs exactly `clean`.
pub proof fn lemma_offline_only_for_maven_and_gradle(t: CommandType)
    ensures
        Cmd::tool_args(t).len() >= 1,
        Cmd::tool_args(t)[0] == "clean"@,
        Cmd::tool_args(t).contains("--offline"@) <==> (t is Maven || t is MavenCmd || t is Gradle),
        (t is Maven || t is MavenCmd || t is Gradle) ==> Cmd::tool_args(t) == seq![
            "clean"@,
            "--offline"@,
        ],
        !(t is Maven || t is MavenCmd || t is Gradle) ==> Cmd::tool_args(t) == seq!["clean"@],
{
    reveal_strlit("clean");
    reveal_strlit("--offline");
    assert("clean"@ != "--offline"@) by {
        assert("clean"@[0] != "--offline"@[0]);
    }
    if t is Maven || t is MavenCmd || t is Gradle {
        assert(Cmd::tool_args(t)[1] == "--offline"@);
    } else {
        if Cmd::tool_args(t).contains("--offline"@) {
            let i = choose|i: int| 0 <= i < Cmd::tool_args(t).len() && Cmd::tool_args(t)[i] == "--offline"@;
            assert(i == 0);
        }
    }
}

} // verus!
