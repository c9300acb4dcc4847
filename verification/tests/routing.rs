use paperbot::commands::{Action, General};
use paperbot::router::{route, ParsedCommand, RouteOutcome};

fn lookup_of(line: &str) -> ParsedCommand {
    match General::plan_message(false, line) {
        Action::Lookup(c) => c,
        _ => panic!("expected a lookup for {}", line),
    }
}

fn usage_of(line: &str) -> String {
    match route(line) {
        RouteOutcome::Usage(m) => m,
        _ => panic!("expected a usage message for {}", line),
    }
}

#[test]
fn projects_takes_no_arguments() {
    assert!(matches!(lookup_of(">projects"), ParsedCommand::ListProjects));
    // Trailing tokens are ignored, not an error.
    assert!(matches!(lookup_of(">projects extra junk"), ParsedCommand::ListProjects));
}

#[test]
fn project_with_name_parses() {
    match lookup_of(">project paper") {
        ParsedCommand::ProjectInfo { name } => assert_eq!(name, "paper"),
        _ => panic!("wrong command"),
    }
}

#[test]
fn group_and_build_commands_parse() {
    match lookup_of(">project groups paper 1.18") {
        ParsedCommand::GroupInfo { project, group } => {
            assert_eq!(project, "paper");
            assert_eq!(group, "1.18");
        },
        _ => panic!("wrong command"),
    }
    match lookup_of(">project builds paper 1.18") {
        ParsedCommand::GroupBuilds { project, group } => {
            assert_eq!(project, "paper");
            assert_eq!(group, "1.18");
        },
        _ => panic!("wrong command"),
    }
    match lookup_of(">project version paper 1.18.2") {
        ParsedCommand::VersionInfo { project, version } => {
            assert_eq!(project, "paper");
            assert_eq!(version, "1.18.2");
        },
        _ => panic!("wrong command"),
    }
    match lookup_of(">project build paper 1.18 42") {
        ParsedCommand::BuildInfo { project, version, build } => {
            assert_eq!(project, "paper");
            assert_eq!(version, "1.18");
            assert_eq!(build, 42);
        },
        _ => panic!("wrong command"),
    }
}

#[test]
fn missing_arguments_give_the_verbs_fixed_usage_string() {
    let project_usage = "Did not understand request. Please use `>project <project name>`";
    let groups_usage =
        "Did not understand request. Please use `>project groups <project name> <version group>`";
    let builds_usage =
        "Did not understand request. Please use `>project builds <project name> <version group>`";
    let version_usage =
        "Did not understand request. Please use `>project version <project name> <version>`";
    let build_usage =
        "Did not understand request. Please use `>project build <project name> <version> <build>`";

    assert_eq!(usage_of(">project"), project_usage);
    // The same message whichever required argument is missing.
    assert_eq!(usage_of(">project groups"), groups_usage);
    assert_eq!(usage_of(">project groups paper"), groups_usage);
    assert_eq!(usage_of(">project builds"), builds_usage);
    assert_eq!(usage_of(">project builds paper"), builds_usage);
    assert_eq!(usage_of(">project version"), version_usage);
    assert_eq!(usage_of(">project version paper"), version_usage);
    assert_eq!(usage_of(">project build"), build_usage);
    assert_eq!(usage_of(">project build paper"), build_usage);
    assert_eq!(usage_of(">project build paper 1.18"), build_usage);
    // A build number that does not parse counts as missing.
    assert_eq!(usage_of(">project build paper 1.18 forty"), build_usage);
    assert_eq!(usage_of(">project build paper 1.18 2147483648"), build_usage);
}

#[test]
fn build_number_parses_only_as_32_bit() {
    match lookup_of(">project build paper 1.18 -2147483648") {
        ParsedCommand::BuildInfo { build, .. } => assert_eq!(build, i32::MIN),
        _ => panic!("wrong command"),
    }
    match lookup_of(">project build paper 1.18 +2147483647") {
        ParsedCommand::BuildInfo { build, .. } => assert_eq!(build, i32::MAX),
        _ => panic!("wrong command"),
    }
}

#[test]
fn tokens_split_on_whitespace_runs() {
    match lookup_of(">project   groups\tpaper \t 1.18") {
        ParsedCommand::GroupInfo { project, group } => {
            assert_eq!(project, "paper");
            assert_eq!(group, "1.18");
        },
        _ => panic!("wrong command"),
    }
}

#[test]
fn non_commands_are_ignored() {
    assert!(matches!(General::plan_message(false, "hello there"), Action::Ignore));
    assert!(matches!(General::plan_message(false, ""), Action::Ignore));
    assert!(matches!(General::plan_message(false, ">"), Action::Ignore));
    assert!(matches!(General::plan_message(false, ">unknown verb"), Action::Ignore));
    // The verb must follow the prefix immediately.
    assert!(matches!(General::plan_message(false, "> project paper"), Action::Ignore));
}

#[test]
fn bot_senders_get_only_the_fixed_rejection() {
    match General::plan_message(true, ">project build paper 1.18 42") {
        Action::Reply(m) => assert_eq!(m, "Cannot respond to bots."),
        _ => panic!("a bot sender must get the rejection reply and no lookup"),
    }
}
