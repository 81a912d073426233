use rs_clean::cmd::CommandType;
use rs_clean::config::ConfigError;
use rs_clean::utils::{
    available_from_lookups, command_available, command_exists, tool_lookup_names,
    validate_and_sanitize_path, validate_config_file_path, validate_exclude_dir_name,
    validate_path_string, PathProbe,
};

/// What the file system says of `path`, as the command-line program asks it.
fn probe(path: &str) -> PathProbe {
    match std::path::Path::new(path).canonicalize() {
        Ok(canonical) => PathProbe::found(
            canonical.to_string_lossy().into_owned(),
            canonical.is_file(),
            canonical.is_dir(),
        ),
        Err(_) => PathProbe::missing(),
    }
}

fn sanitize(path: &str) -> Result<String, ConfigError> {
    validate_and_sanitize_path(path, &probe(path))
}

fn invalid_message(r: Result<(), ConfigError>) -> String {
    match r {
        Err(ConfigError::InvalidConfig(m)) => m,
        other => panic!("expected an invalid configuration, got {other:?}"),
    }
}

#[test]
fn test_command_exists() {
    // Whether `cargo` is installed varies from machine to machine; `sh` is on the
    // search path of every POSIX system.
    assert!(command_exists("sh"));
    assert!(!command_exists("a-command-that-does-not-exist"));
}

#[test]
fn command_available_nodejs_accepts_node_or_nodejs() {
    let node = command_exists("node");
    let nodejs = command_exists("nodejs");
    assert_eq!(command_available(CommandType::NodeJs), node || nodejs);
    assert_eq!(command_available(CommandType::Cargo), command_exists("cargo"));
    assert_eq!(command_available(CommandType::Python), command_exists("python"));
}

#[test]
fn nodejs_is_looked_up_under_both_names() {
    assert_eq!(tool_lookup_names(CommandType::NodeJs), vec!["node", "nodejs"]);
    assert_eq!(tool_lookup_names(CommandType::MavenCmd), vec!["mvn.cmd"]);
    assert!(available_from_lookups(&[false, true]));
    assert!(available_from_lookups(&[true, false]));
    assert!(!available_from_lookups(&[false, false]));
    assert!(!available_from_lookups(&[]));
}

#[test]
fn test_validate_and_sanitize_path_reject_traversal() {
    assert!(sanitize("../etc/passwd").is_err());
    assert!(sanitize("../../etc").is_err());
    assert!(sanitize("../../../usr/bin").is_err());
    assert!(sanitize("file/../etc/passwd").is_err());
    assert!(sanitize("dir/../../etc").is_err());
    assert!(validate_path_string("../etc/passwd").is_err());
    assert!(validate_path_string("..").is_err());
    assert!(validate_path_string("foo/..").is_err());
    assert!(validate_path_string("foo/../bar").is_err());
    assert!(sanitize("..").is_err());
}

#[test]
fn test_validate_and_sanitize_path_reject_home_directory() {
    assert!(sanitize("~/etc/passwd").is_err());
    assert!(sanitize("~/").is_err());
    assert!(sanitize("~/Documents").is_err());
    assert!(validate_path_string("~/Documents").is_err());
    assert!(validate_path_string("~").is_err());
    assert!(sanitize("~").is_err());
}

#[test]
fn test_validate_and_sanitize_path_reject_system_directories() {
    assert!(validate_path_string("/etc/passwd").is_err());
    assert!(validate_path_string("/usr/bin").is_err());
    assert!(validate_path_string("/bin/sh").is_err());
    assert!(validate_path_string("/etc/").is_err());
    assert!(validate_path_string("/root").is_err());
    assert!(sanitize("/etc").is_err());

    assert!(validate_path_string("C:\\Windows\\System32").is_err());
    assert!(validate_path_string("C:/Windows/System32").is_err());
    assert!(validate_path_string("C:\\Program Files").is_err());

    assert!(validate_path_string("/Applications").is_err());
    assert!(validate_path_string("/System/Library").is_err());
    assert!(validate_path_string("/Library").is_err());
}

#[test]
fn home_and_users_are_not_system_prefixes() {
    assert!(validate_path_string("/home/someone/proj").is_ok());
    assert!(validate_path_string("/Users/someone/proj").is_ok());
    assert!(validate_path_string("/users/someone/proj").is_ok());
}

#[test]
fn test_validate_and_sanitize_path_reject_windows_traversal() {
    assert!(sanitize("..\\..\\Windows").is_err());
    assert!(sanitize("file\\..\\etc").is_err());
    assert!(sanitize("dir\\..\\..\\etc").is_err());
}

#[test]
fn test_validate_and_sanitize_path_allow_valid_paths() {
    let here = PathProbe::found("/home/dev/workspace".to_string(), false, true);
    assert!(validate_and_sanitize_path(".", &here).is_ok());

    let tmp = PathProbe::found("/home/dev/workspace/.tmpAbC123".to_string(), false, true);
    assert_eq!(
        validate_and_sanitize_path(".tmpAbC123", &tmp).unwrap(),
        "/home/dev/workspace/.tmpAbC123"
    );
}

#[test]
fn validate_allows_absolute_path_outside_cwd() {
    let outside = PathProbe::found("/tmp/.tmpXyZ789".to_string(), false, true);
    assert!(validate_and_sanitize_path("/tmp/.tmpXyZ789", &outside).is_ok());
}

#[test]
fn validate_rejects_file_that_is_not_a_directory() {
    let file = PathProbe::found("/tmp/.tmpFile42".to_string(), true, false);
    let result = validate_and_sanitize_path("/tmp/.tmpFile42", &file);
    assert!(result.is_err());
    let msg = result.unwrap_err().message();
    assert!(msg.contains("directory"), "expected directory error, got: {msg}");
}

#[test]
fn test_validate_and_sanitize_path_reject_nonexistent() {
    assert!(sanitize("/nonexistent/path").is_err());
    assert!(sanitize("nonexistent_dir").is_err());
    assert!(sanitize("../nonexistent").is_err());
}

#[test]
fn test_validate_and_sanitize_path_empty_path() {
    assert!(sanitize("").is_err());
    assert!(validate_path_string("").is_err());
}

#[test]
fn config_file_path_rejects_parent_dir_but_allows_existing_file() {
    assert!(validate_config_file_path("../rs_clean.toml", &probe("../rs_clean.toml")).is_err());
    assert!(validate_config_file_path("..", &probe("..")).is_err());

    let file = PathProbe::found("/tmp/.tmpConf77".to_string(), true, false);
    assert!(validate_config_file_path("/tmp/.tmpConf77", &file).is_ok());
}

#[test]
fn test_validate_exclude_dir_name_valid() {
    assert!(validate_exclude_dir_name("node_modules").is_ok());
    assert!(validate_exclude_dir_name("target").is_ok());
    assert!(validate_exclude_dir_name("build").is_ok());
    assert!(validate_exclude_dir_name("dist").is_ok());
    assert!(validate_exclude_dir_name("vendor").is_ok());
    assert!(validate_exclude_dir_name("custom_dir").is_ok());
}

#[test]
fn test_validate_exclude_dir_name_invalid() {
    assert!(validate_exclude_dir_name("").is_err());
    assert!(validate_exclude_dir_name(".").is_err());
    assert!(validate_exclude_dir_name("..").is_err());
    assert!(validate_exclude_dir_name("../malicious").is_err());
    assert!(validate_exclude_dir_name("../../etc").is_err());
    assert!(validate_exclude_dir_name("dir/../etc").is_err());
    assert!(validate_exclude_dir_name("path/with/slashes").is_err());
    assert!(validate_exclude_dir_name("path\\with\\backslashes").is_err());
}

#[test]
fn test_validate_exclude_dir_name_reserved_names() {
    assert!(validate_exclude_dir_name("con").is_err());
    assert!(validate_exclude_dir_name("prn").is_err());
    assert!(validate_exclude_dir_name("aux").is_err());
    assert!(validate_exclude_dir_name("nul").is_err());
    assert!(validate_exclude_dir_name("com1").is_err());
    assert!(validate_exclude_dir_name("lpt1").is_err());
}

#[test]
fn test_validate_exclude_dir_name_too_long() {
    let long_name = "a".repeat(256);
    assert!(validate_exclude_dir_name(&long_name).is_err());

    let max_name = "a".repeat(255);
    assert!(validate_exclude_dir_name(&max_name).is_ok());
}

#[test]
fn exclude_dir_name_messages_follow_the_order_of_the_checks() {
    assert_eq!(
        invalid_message(validate_exclude_dir_name("")),
        "Exclude directory name cannot be empty"
    );
    assert_eq!(
        invalid_message(validate_exclude_dir_name("a/b")),
        "Invalid exclude directory name: 'a/b'"
    );
    assert_eq!(
        invalid_message(validate_exclude_dir_name(".")),
        "Reserved directory name cannot be excluded: '.'"
    );
    assert_eq!(
        invalid_message(validate_exclude_dir_name("COM3")),
        "Windows reserved name cannot be used as exclude directory: 'COM3'"
    );
    assert_eq!(
        invalid_message(validate_exclude_dir_name(&"é".repeat(128))),
        "Exclude directory name too long (max 255 characters)"
    );
    assert!(validate_exclude_dir_name(&"é".repeat(127)).is_ok());
    assert!(validate_exclude_dir_name("com10").is_ok());
    assert!(validate_exclude_dir_name(".cache").is_ok());
}

#[test]
fn path_messages_name_the_rule_that_refused() {
    assert_eq!(invalid_message(validate_path_string("")), "Path cannot be empty");
    assert_eq!(
        invalid_message(validate_path_string("~user")),
        "Path traversal (../) or home directory (~) not allowed"
    );
    assert_eq!(
        invalid_message(validate_path_string("a\\..")),
        "Path traversal (../) or home directory (~) not allowed"
    );
    assert_eq!(
        invalid_message(validate_path_string("/ETC/hosts")),
        "Access to system directory '/etc' not allowed"
    );
    assert_eq!(
        invalid_message(validate_path_string("C:\\Program Files (x86)\\App")),
        "Access to system directory 'c:/program files (x86)' not allowed"
    );
    assert_eq!(
        invalid_message(validate_path_string("d:/windows")),
        "Access to system directory 'd:/windows' not allowed"
    );
}

#[test]
fn system_prefixes_match_whole_components_only() {
    assert!(validate_path_string("/etcetera/x").is_ok());
    assert!(validate_path_string("/library2").is_ok());
    assert!(validate_path_string("etc/passwd").is_ok());
    assert!(validate_path_string("..foo/bar").is_ok());
    assert!(validate_path_string("foo/bar..").is_ok());
    assert!(validate_path_string("\\etc").is_ok());
}

#[test]
fn resolved_path_is_checked_against_system_directories() {
    let link = PathProbe::found("/etc/nginx".to_string(), false, true);
    let r = validate_and_sanitize_path("safe-looking-link", &link);
    assert_eq!(
        r.unwrap_err().message(),
        "Invalid configuration: Access to system directory '/etc' not allowed"
    );
    let missing = PathProbe::missing();
    assert_eq!(
        validate_and_sanitize_path("nowhere", &missing).unwrap_err().message(),
        "Invalid configuration: Path does not exist or cannot be accessed"
    );
}

#[test]
fn config_file_path_messages() {
    let dir = PathProbe::found("/home/dev/conf".to_string(), false, true);
    let msg = |r: Result<String, ConfigError>| r.unwrap_err().message();
    assert_eq!(
        msg(validate_config_file_path("", &dir)),
        "Invalid configuration: Config path cannot be empty"
    );
    assert_eq!(
        msg(validate_config_file_path("a/../b.toml", &dir)),
        "Invalid configuration: Path traversal (../) not allowed in config path"
    );
    assert_eq!(
        msg(validate_config_file_path("conf", &dir)),
        "Invalid configuration: Config path must be a file"
    );
    assert_eq!(
        msg(validate_config_file_path("gone.toml", &PathProbe::missing())),
        "Invalid configuration: Config file does not exist or cannot be accessed"
    );
}
