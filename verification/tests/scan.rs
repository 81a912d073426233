use rs_clean::cmd::{Cmd, CommandType};
use rs_clean::constant::get_cmd_map;
use rs_clean::report::{freed_bytes, summarize, CleanOutcome};
use rs_clean::scan::{
    claiming_command, enabled_commands, exclude_type_matches, find_command, first_set,
    select_enabled_commands, should_descend, total_size, DirSizeScan, ScanStep,
};
use rs_clean::select::{preview_start, Answer, PreviewStart, Selection};
use rs_clean::utils::{command_available, command_exists};

fn strings(v: &[&str]) -> Vec<String> {
    v.iter().map(|s| s.to_string()).collect()
}

#[test]
fn exclude_type_disables_cleaner_exclude_dir_does_not() {
    // Whether cargo is enabled at all depends on the search path where the test runs.
    let cargo_found = command_exists("cargo");
    let enabled = select_enabled_commands(&[]);
    assert_eq!(enabled.iter().any(|c| c.command_type == CommandType::Cargo), cargo_found);

    let without_cargo = select_enabled_commands(&["cargo".to_string()]);
    assert!(!without_cargo.iter().any(|c| c.command_type == CommandType::Cargo));
    assert!(!without_cargo.iter().any(|c| c.command_type.canonical_type_name() == "cargo"));

    // `--exclude-dir cargo` is a scan-name skip, not a cleaner disable.
    let still_cargo = select_enabled_commands(&[]);
    assert_eq!(still_cargo.iter().any(|c| c.command_type == CommandType::Cargo), cargo_found);

    // The same holds of a cleaner whose tool is present: Node.js, when node is installed.
    if command_exists("node") || command_exists("nodejs") {
        assert!(enabled.iter().any(|c| c.command_type == CommandType::NodeJs));
        let without_node = select_enabled_commands(&["nodejs".to_string()]);
        assert!(!without_node.iter().any(|c| c.command_type == CommandType::NodeJs));
        assert_eq!(without_node.len() + 1, enabled.len());
    }
}

#[test]
fn exclude_type_node_alias_disables_nodejs() {
    let enabled = select_enabled_commands(&[]);
    if !enabled.iter().any(|c| c.command_type == CommandType::NodeJs) {
        return;
    }
    let without_node = select_enabled_commands(&["node".to_string()]);
    assert!(!without_node.iter().any(|c| c.command_type == CommandType::NodeJs));
}

#[test]
fn node_cleaner_enabled_when_node_or_nodejs_exists() {
    let node = command_exists("node");
    let nodejs = command_exists("nodejs");
    let enabled = select_enabled_commands(&[]);
    let has_node = enabled.iter().any(|c| c.command_type == CommandType::NodeJs);
    assert_eq!(has_node, node || nodejs);

    if node && !nodejs {
        assert!(has_node, "node without nodejs must still enable the Node.js cleaner");
    }
}

#[test]
fn each_available_kind_is_enabled_once() {
    let map = get_cmd_map();
    for exclude in [strings(&[]), strings(&["python", "maven"])] {
        let enabled = select_enabled_commands(&exclude);
        for i in 0..map.len() {
            let (t, _) = map.entry(i);
            let expected = command_available(t) && !exclude_type_matches(t, &exclude);
            let count = enabled.iter().filter(|c| c.command_type == t).count();
            assert_eq!(count, if expected { 1 } else { 0 });
        }
        for (i, a) in enabled.iter().enumerate() {
            for b in &enabled[i + 1..] {
                assert_ne!(a.command_type, b.command_type);
            }
        }
    }
}

#[test]
fn enabled_commands_follow_availability_and_exclusions() {
    let map = get_cmd_map();
    let all = [true; 7];
    let enabled = enabled_commands(&map, &all, &[]);
    assert_eq!(enabled.len(), 7);
    assert_eq!(enabled[0].command_type, CommandType::Cargo);
    assert_eq!(enabled[2].related_files, vec!["build.gradle", "build.gradle.kts"]);

    let enabled = enabled_commands(&map, &all, &strings(&["mvn.cmd", "node", "bogus"]));
    assert_eq!(enabled.len(), 5);
    assert!(!enabled.iter().any(|c| c.command_type == CommandType::Maven));
    assert!(!enabled.iter().any(|c| c.command_type == CommandType::NodeJs));

    let some = [false, true, false, false, false, true, false];
    let enabled = enabled_commands(&map, &some, &[]);
    let kinds: Vec<CommandType> = enabled.iter().map(|c| c.command_type).collect();
    assert_eq!(kinds, vec![CommandType::Go, CommandType::Python]);
}

#[test]
fn exclude_type_matches_by_canonical_name() {
    assert!(exclude_type_matches(CommandType::Maven, &strings(&["mvn.cmd"])));
    assert!(exclude_type_matches(CommandType::MavenCmd, &strings(&["mvn"])));
    assert!(exclude_type_matches(CommandType::NodeJs, &strings(&["node"])));
    assert!(!exclude_type_matches(CommandType::Cargo, &strings(&["Cargo", "go"])));
    assert!(!exclude_type_matches(CommandType::Go, &[]));
}

#[test]
fn start_directory_is_always_entered() {
    let exclude = strings(&["target"]);
    assert!(should_descend(Some("target"), 0, &exclude));
    assert!(should_descend(Some(".hidden"), 0, &exclude));
    assert!(!should_descend(Some("target"), 1, &exclude));
    assert!(!should_descend(Some(".git"), 2, &exclude));
    assert!(should_descend(Some("app"), 1, &exclude));
    assert!(should_descend(None, 3, &exclude));
    assert!(should_descend(Some("targets"), 1, &exclude));
}

#[test]
fn the_first_matching_cleaner_claims_a_directory() {
    assert_eq!(first_set(&[false, true, true]), Some(1));
    assert_eq!(first_set(&[]), None);
    let markers = vec![vec![false], vec![false, true], vec![true]];
    assert_eq!(claiming_command(&markers), Some(1));
    let markers = vec![vec![false], vec![false, false]];
    assert_eq!(claiming_command(&markers), None);
}

#[test]
fn commands_are_found_by_tool_name() {
    let commands = vec![
        Cmd::new(CommandType::Go, vec!["go.mod"]),
        Cmd::new(CommandType::NodeJs, vec!["package.json"]),
    ];
    assert_eq!(find_command(&commands, "nodejs"), Some(1));
    assert_eq!(find_command(&commands, "node"), None);
    assert_eq!(find_command(&commands, "go"), Some(0));
}

#[test]
fn size_scan_counts_files_breadth_first_within_limits() {
    let mut scan = DirSizeScan::new("/p/target".to_string(), true, 1, 10);
    match scan.next_step() {
        ScanStep::Visit { dir, depth } => {
            assert_eq!(dir, "/p/target");
            assert_eq!(depth, 0);
            assert!(scan.may_count_file());
            scan.add_file(1000);
            scan.add_dir("/p/target/debug".to_string(), depth);
            scan.add_file(24);
        }
        _ => panic!("the root is listed first"),
    }
    match scan.next_step() {
        ScanStep::Visit { dir, depth } => {
            assert_eq!(dir, "/p/target/debug");
            assert_eq!(depth, 1);
            scan.add_dir("/p/target/debug/deps".to_string(), depth);
        }
        _ => panic!("depth 1 is within the limit"),
    }
    match scan.next_step() {
        ScanStep::TooDeep { dir } => assert_eq!(dir, "/p/target/debug/deps"),
        _ => panic!("depth 2 is beyond the limit"),
    }
    match scan.next_step() {
        ScanStep::Finished { total } => assert_eq!(total, 1024),
        _ => panic!("nothing is left"),
    }
    assert_eq!(scan.total(), 1024);
}

#[test]
fn size_scan_stops_after_the_file_limit_and_skips_missing_roots() {
    let mut scan = DirSizeScan::new("/p/dist".to_string(), true, 5, 2);
    assert!(matches!(scan.next_step(), ScanStep::Visit { .. }));
    assert!(scan.may_count_file());
    scan.add_file(5);
    assert!(scan.may_count_file());
    scan.add_file(7);
    assert!(!scan.may_count_file());
    assert_eq!(scan.total(), 12);

    let mut single = DirSizeScan::new("/p/out".to_string(), true, 5, 1);
    assert!(matches!(single.next_step(), ScanStep::Visit { .. }));
    assert!(single.may_count_file());
    single.add_file(9);
    assert!(!single.may_count_file());
    assert_eq!(single.total(), 9);

    let none = DirSizeScan::new("/p/zero".to_string(), true, 5, 0);
    assert!(!none.may_count_file());

    let mut missing = DirSizeScan::new("/p/none".to_string(), false, 5, 10);
    assert!(matches!(missing.next_step(), ScanStep::Finished { total: 0 }));

    let mut big = DirSizeScan::new("/p".to_string(), true, 5, 10);
    big.add_file(u64::MAX);
    big.add_file(1);
    assert_eq!(big.total(), u64::MAX);
}

#[test]
fn totals_saturate() {
    assert_eq!(total_size(&[1, 2, 3]), 6);
    assert_eq!(total_size(&[]), 0);
    assert_eq!(total_size(&[u64::MAX, 1]), u64::MAX);
    assert_eq!(freed_bytes(1000, 200), 800);
    assert_eq!(freed_bytes(100, 200), 0);
}

#[test]
fn summary_counts_successes_and_freed_space() {
    let outcomes = vec![
        CleanOutcome::cleaned(1000, 0),
        CleanOutcome::cleaned(500, 500),
        CleanOutcome::failed(300),
    ];
    let s = summarize(&outcomes);
    assert_eq!(s.cleaned, 2);
    assert_eq!(s.total_before, 1800);
    assert_eq!(s.total_after, 500);
    assert_eq!(s.freed, 1300);
    let empty = summarize(&[]);
    assert_eq!(empty.cleaned, 0);
    assert_eq!(empty.freed, 0);
}

#[test]
fn preview_decides_before_asking() {
    assert_eq!(preview_start(0, false, true, true), PreviewStart::NothingFound);
    assert_eq!(preview_start(3, true, true, true), PreviewStart::DryRun);
    assert_eq!(preview_start(3, false, true, false), PreviewStart::CleanAll);
    assert_eq!(preview_start(3, false, false, false), PreviewStart::NotInteractive);
    assert_eq!(preview_start(3, false, false, true), PreviewStart::AskMode);
}

fn done(s: &Selection) -> Vec<usize> {
    s.finished().expect("the selection is over").clone()
}

#[test]
fn selection_modes() {
    let s = Selection::AskMode.advance(Answer::Choice(0), 3);
    let s = s.advance(Answer::Choice(0), 3);
    assert_eq!(done(&s), vec![0, 1, 2]);

    let s = Selection::AskMode.advance(Answer::Choice(0), 3).advance(Answer::Choice(1), 3);
    assert!(done(&s).is_empty());

    let s = Selection::AskMode.advance(Answer::Choice(1), 3);
    let s = s.advance(Answer::Picked(vec![0, 2]), 3);
    assert!(s.finished().is_none());
    assert_eq!(done(&s.advance(Answer::Choice(0), 3)), vec![0, 2]);

    let s = Selection::PickProjects.advance(Answer::Picked(vec![]), 3);
    assert!(done(&s).is_empty());

    let s = Selection::AskMode.advance(Answer::Choice(3), 3);
    assert!(done(&s).is_empty());
}

#[test]
fn review_goes_through_each_project() {
    let s = Selection::AskMode.advance(Answer::Choice(2), 3);
    let s = s.advance(Answer::Choice(0), 3);
    let s = s.advance(Answer::Choice(1), 3);
    let s = s.advance(Answer::Choice(0), 3);
    assert!(s.finished().is_none());
    assert_eq!(done(&s.advance(Answer::Choice(0), 3)), vec![0, 2]);

    let s = Selection::AskMode.advance(Answer::Choice(2), 2);
    let s = s.advance(Answer::Choice(0), 2).advance(Answer::Choice(2), 2);
    assert!(done(&s).is_empty());

    let s = Selection::AskMode.advance(Answer::Choice(2), 1).advance(Answer::Choice(1), 1);
    assert!(done(&s).is_empty());
}
