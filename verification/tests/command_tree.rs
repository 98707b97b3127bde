use std::collections::HashSet;

use sctr::tree::{app_operations, find_child, find_root_command, root_commands, root_groups, Availability, Behavior, CommandId};

fn assert_unique(commands: &[CommandId]) {
    let mut names = HashSet::new();
    for command in commands {
        assert!(names.insert(command.name()), "duplicate command {}", command.name());
        assert_unique(&command.children());
    }
}

#[test]
fn command_tree_has_unique_sibling_names() {
    let root_commands: Vec<CommandId> = root_groups()
        .iter()
        .flat_map(|group| group.commands.iter().copied())
        .collect();
    assert_unique(&root_commands);
}

fn assert_metadata(command: CommandId) {
    assert!(!command.summary().is_empty(), "{} summary", command.name());
    assert!(!command.usage().is_empty(), "{} usage", command.name());
    assert!(!command.role().is_empty(), "{} role", command.name());
    assert!(!command.effects().is_empty(), "{} effects", command.name());
    assert!(!command.examples().is_empty(), "{} examples", command.name());
    assert!(!command.next_action().is_empty(), "{} next action", command.name());
    for child in command.children() {
        assert_metadata(child);
    }
}

#[test]
fn every_command_has_operational_help_metadata() {
    for group in root_groups() {
        for command in group.commands {
            assert_metadata(command);
        }
    }
}

#[test]
fn lifecycle_commands_are_fail_closed() {
    for operation in app_operations() {
        assert_eq!(operation.availability(), Availability::ContractOnly);
        assert_eq!(operation.behavior(), Behavior::Lifecycle);
    }
}

#[test]
fn root_commands_follow_the_groups() {
    assert_eq!(root_commands(), vec![CommandId::App, CommandId::Help]);
    let groups = root_groups();
    assert_eq!(groups.len(), 2);
    assert_eq!(groups[0].name, "manage tenant applications");
    assert_eq!(groups[1].name, "inspect the command contract");
}

#[test]
fn app_operations_are_in_contract_order() {
    let names: Vec<&str> = app_operations().iter().map(|c| c.name()).collect();
    assert_eq!(names, vec!["list", "status", "start", "stop", "restart", "logs"]);
    assert_eq!(CommandId::App.children(), app_operations());
    assert!(CommandId::Help.children().is_empty());
    assert!(CommandId::AppStart.children().is_empty());
}

#[test]
fn lookups_find_commands_by_exact_name() {
    assert_eq!(find_root_command("app"), Some(CommandId::App));
    assert_eq!(find_root_command("help"), Some(CommandId::Help));
    assert_eq!(find_root_command("App"), None);
    assert_eq!(find_root_command("list"), None);
    assert_eq!(find_root_command(""), None);
    assert_eq!(find_child(CommandId::App, "restart"), Some(CommandId::AppRestart));
    assert_eq!(find_child(CommandId::App, "logs"), Some(CommandId::AppLogs));
    assert_eq!(find_child(CommandId::App, "deploy"), None);
    assert_eq!(find_child(CommandId::Help, "app"), None);
}

#[test]
fn command_paths_walk_the_tree() {
    let path = |words: &[&str]| words.iter().map(|w| w.to_string()).collect::<Vec<String>>();
    assert_eq!(sctr::tree::find_command(&path(&[])), None);
    assert_eq!(sctr::tree::find_command(&path(&["app"])), Some(CommandId::App));
    assert_eq!(sctr::tree::find_command(&path(&["app", "stop"])), Some(CommandId::AppStop));
    assert_eq!(sctr::tree::find_command(&path(&["help"])), Some(CommandId::Help));
    assert_eq!(sctr::tree::find_command(&path(&["app", "stop", "now"])), None);
    assert_eq!(sctr::tree::find_command(&path(&["help", "app"])), None);
    assert_eq!(sctr::tree::find_command(&path(&["stop"])), None);
}

#[test]
fn help_metadata_matches_the_contract() {
    assert_eq!(CommandId::Help.prerequisites().len(), 0);
    assert_eq!(CommandId::App.availability(), Availability::Available);
    assert_eq!(CommandId::App.behavior(), Behavior::Group);
    assert_eq!(CommandId::Help.behavior(), Behavior::Help);
    assert_eq!(CommandId::AppStop.examples(), vec!["sctr app stop worker"]);
    assert_eq!(CommandId::Help.examples(), vec!["sctr help", "sctr help app", "sctr help app start"]);
    assert_eq!(CommandId::AppLogs.usage(), "sctr app logs <app>");
}
