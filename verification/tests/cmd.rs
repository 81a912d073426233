use rs_clean::cmd::{CleanAction, CleanError, Cmd, CommandType};
use rs_clean::scan::select_enabled_commands;
use rs_clean::constant::{get_cmd_map, NODEJS_ARTIFACT_DIRS, PYTHON_ARTIFACT_DIRS, PYTHON_ARTIFACT_GLOBS};
use rs_clean::utils::{command_available, command_exists};

#[test]
fn test_cmd_creation() {
    let cmd = Cmd::new(CommandType::Cargo, vec!["Cargo.toml"]);
    assert_eq!(cmd.command_type, CommandType::Cargo);
    assert_eq!(cmd.related_files, vec!["Cargo.toml"]);
}

#[test]
fn test_cmd_list_initialization() {
    let map = get_cmd_map();
    let mut cmd_list: Vec<Cmd> = Vec::new();
    for i in 0..map.len() {
        let (key, value) = map.entry(i);
        if command_available(key) {
            cmd_list.push(Cmd::new(key, value.clone()));
        }
    }

    // The Cargo cleaner is listed exactly when `cargo` is on the search path; the
    // list is then not empty.
    if command_exists("cargo") {
        assert!(!cmd_list.is_empty());
        assert!(cmd_list.iter().any(|cmd| cmd.command_type == CommandType::Cargo));
    } else {
        assert!(!cmd_list.iter().any(|cmd| cmd.command_type == CommandType::Cargo));
    }
    let kinds: Vec<CommandType> = cmd_list.iter().map(|c| c.command_type).collect();
    let selected: Vec<CommandType> = select_enabled_commands(&[]).iter().map(|c| c.command_type).collect();
    assert_eq!(kinds, selected);
}

#[test]
fn try_from_supports_aliases_and_rejects_unknown() {
    assert_eq!(CommandType::try_from("node").unwrap(), CommandType::NodeJs);
    assert_eq!(CommandType::try_from("nodejs").unwrap(), CommandType::NodeJs);
    assert_eq!(CommandType::try_from("mvn").unwrap(), CommandType::Maven);
    assert_eq!(CommandType::try_from("mvn.cmd").unwrap(), CommandType::MavenCmd);
    assert!(CommandType::try_from("cmake").is_err());
    assert_eq!(CommandType::Maven.canonical_type_name(), "mvn");
    assert_eq!(CommandType::MavenCmd.canonical_type_name(), "mvn");
    assert_eq!(CommandType::NodeJs.canonical_type_name(), "nodejs");
}

#[test]
fn artifact_dirs_match_cleaner_lists() {
    let node = Cmd::new(CommandType::NodeJs, vec!["package.json"]);
    assert_eq!(node.artifact_dirs(), NODEJS_ARTIFACT_DIRS);
    assert!(node.artifact_globs().is_empty());

    let python = Cmd::new(CommandType::Python, vec!["requirements.txt"]);
    assert_eq!(python.artifact_dirs(), PYTHON_ARTIFACT_DIRS);
    assert_eq!(python.artifact_globs(), PYTHON_ARTIFACT_GLOBS);

    let cargo = Cmd::new(CommandType::Cargo, vec!["Cargo.toml"]);
    assert_eq!(cargo.artifact_dirs(), &["target"]);

    let go = Cmd::new(CommandType::Go, vec!["go.mod"]);
    assert!(go.artifact_dirs().is_empty());
    assert!(go.artifact_globs().is_empty());

    let gradle = Cmd::new(CommandType::Gradle, vec!["build.gradle"]);
    assert_eq!(gradle.artifact_dirs(), &["build"]);

    let flutter = Cmd::new(CommandType::Flutter, vec!["pubspec.yaml"]);
    assert_eq!(flutter.artifact_dirs(), &["build"]);

    let maven = Cmd::new(CommandType::Maven, vec!["pom.xml"]);
    assert_eq!(maven.artifact_dirs(), &["target"]);
}

#[test]
fn every_kind_name_parses_back_to_its_kind() {
    let all = [
        CommandType::Cargo,
        CommandType::Go,
        CommandType::Gradle,
        CommandType::NodeJs,
        CommandType::Flutter,
        CommandType::Python,
        CommandType::Maven,
        CommandType::MavenCmd,
    ];
    for t in all {
        assert_eq!(CommandType::try_from(t.as_str()).unwrap(), t);
        let canonical = CommandType::try_from(t.canonical_type_name()).unwrap();
        assert_eq!(canonical.canonical_type_name(), t.canonical_type_name());
    }
}

#[test]
fn unknown_kind_message_names_the_input() {
    assert_eq!(CommandType::try_from("cmake").unwrap_err(), "Unknown command type: cmake");
    assert!(CommandType::try_from("Cargo").is_err());
    assert!(CommandType::try_from("").is_err());
}

#[test]
fn as_str_gives_the_tool_names() {
    assert_eq!(CommandType::Cargo.as_str(), "cargo");
    assert_eq!(CommandType::Go.as_str(), "go");
    assert_eq!(CommandType::Gradle.as_str(), "gradle");
    assert_eq!(CommandType::NodeJs.as_str(), "nodejs");
    assert_eq!(CommandType::Flutter.as_str(), "flutter");
    assert_eq!(CommandType::Python.as_str(), "python");
    assert_eq!(CommandType::Maven.as_str(), "mvn");
    assert_eq!(CommandType::MavenCmd.as_str(), "mvn.cmd");
    assert_eq!(CommandType::Cargo.canonical_type_name(), "cargo");
}

#[test]
fn same_cleaner_groups_maven_variants() {
    assert!(CommandType::Maven.same_cleaner(&CommandType::MavenCmd));
    assert!(CommandType::Cargo.same_cleaner(&CommandType::Cargo));
    assert!(!CommandType::Cargo.same_cleaner(&CommandType::Go));
}

#[test]
fn clean_action_removes_artifacts_or_runs_the_tool() {
    let node = Cmd::new(CommandType::NodeJs, vec!["package.json"]);
    match node.clean_action(false) {
        CleanAction::RemoveArtifacts { dirs, globs } => {
            assert_eq!(dirs, NODEJS_ARTIFACT_DIRS);
            assert!(globs.is_empty());
        }
        CleanAction::RunTool { .. } => panic!("Node.js projects are cleaned by removal"),
    }
    let python = Cmd::new(CommandType::Python, vec!["pyproject.toml"]);
    match python.clean_action(false) {
        CleanAction::RemoveArtifacts { dirs, globs } => {
            assert_eq!(dirs, PYTHON_ARTIFACT_DIRS);
            assert_eq!(globs, PYTHON_ARTIFACT_GLOBS);
        }
        CleanAction::RunTool { .. } => panic!("Python projects are cleaned by removal"),
    }
    let maven = Cmd::new(CommandType::Maven, vec!["pom.xml"]);
    match maven.clean_action(false) {
        CleanAction::RunTool { program, args } => {
            assert_eq!(program, "mvn");
            assert_eq!(args, vec!["clean", "--offline"]);
        }
        CleanAction::RemoveArtifacts { .. } => panic!("Maven runs its own clean"),
    }
    let cargo = Cmd::new(CommandType::Cargo, vec!["Cargo.toml"]);
    match cargo.clean_action(false) {
        CleanAction::RunTool { program, args } => {
            assert_eq!(program, "cargo");
            assert_eq!(args, vec!["clean"]);
        }
        CleanAction::RemoveArtifacts { .. } => panic!("cargo runs its own clean"),
    }
    let flutter = Cmd::new(CommandType::Flutter, vec!["pubspec.yaml"]);
    match flutter.clean_action(true) {
        CleanAction::RunTool { program, args } => {
            assert_eq!(program, "flutter.bat");
            assert_eq!(args, vec!["clean"]);
        }
        CleanAction::RemoveArtifacts { .. } => panic!("flutter runs its own clean"),
    }
    match flutter.clean_action(false) {
        CleanAction::RunTool { program, .. } => assert_eq!(program, "flutter"),
        CleanAction::RemoveArtifacts { .. } => panic!("flutter runs its own clean"),
    }
}

#[test]
fn clean_errors_read_as_messages() {
    let gradle = Cmd::new(CommandType::Gradle, vec!["build.gradle"]);
    let e = gradle.launch_failure("/work/app", "not found");
    assert_eq!(
        e.message(),
        "Failed to execute command 'gradle clean' in '/work/app': not found"
    );
    let e = CleanError::DirectoryRemovalFailed { path: "/work/app/dist".to_string(), source: "busy".to_string() };
    assert_eq!(e.message(), "Failed to remove directory '/work/app/dist': busy");
    let e = CleanError::Unknown("boom".to_string());
    assert_eq!(e.message(), "Unknown error: boom");
}
