use sctr::run::{execute, Outcome};

fn sctr(args: &[&str]) -> Outcome {
    let args: Vec<Option<String>> = args.iter().map(|a| Some(a.to_string())).collect();
    execute(&args, "0.1.0")
}

#[test]
fn empty_help_command_and_help_flag_match_exactly() {
    let empty = sctr(&[]);
    let command = sctr(&["help"]);
    let flag = sctr(&["--help"]);

    assert!(empty.exit_code == 0, "{}", empty.stderr);
    assert!(command.exit_code == 0, "{}", command.stderr);
    assert!(flag.exit_code == 0, "{}", flag.stderr);
    assert_eq!(empty.stdout, command.stdout);
    assert_eq!(command.stdout, flag.stdout);
}

#[test]
fn root_help_is_an_operational_briefing() {
    let output = sctr(&["help"]).stdout;

    for section in [
        "ROLE",
        "CONTROL FLOW",
        "SECURITY BOUNDARY",
        "COMMANDS",
        "AGENT RULES",
        "NEXT",
        "GLOBAL OPTIONS",
    ] {
        assert!(output.contains(section), "missing {section}: {output}");
    }
    assert_eq!(output.matches("  app          ").count(), 1);
    assert_eq!(output.matches("  help         ").count(), 1);
}

#[test]
fn nested_help_uses_the_same_command_tree() {
    let explicit = sctr(&["help", "app", "start"]);
    let flag = sctr(&["app", "start", "--help"]);

    assert!(explicit.exit_code == 0, "{}", explicit.stderr);
    assert!(flag.exit_code == 0, "{}", flag.stderr);
    assert_eq!(explicit.stdout, flag.stdout);

    let help = explicit.stdout;
    for section in [
        "USAGE",
        "ROLE",
        "AVAILABILITY",
        "PREREQUISITES",
        "SIDE EFFECTS AND OUTPUT",
        "EXAMPLES",
        "NEXT ACTION",
    ] {
        assert!(help.contains(section), "missing {section}: {help}");
    }
}

#[test]
fn planned_lifecycle_operations_fail_without_side_effects() {
    let output = sctr(&["app", "start", "api"]);

    assert_eq!(output.exit_code, 1);
    assert!(output.stdout.is_empty());
    let error = output.stderr;
    assert!(error.contains("ERROR:"), "{error}");
    assert!(error.contains("ACTION:"), "{error}");
    assert!(error.contains("not implemented"), "{error}");
}

#[test]
fn unknown_commands_return_actionable_usage_errors() {
    let output = sctr(&["systemctl", "restart", "anything"]);

    assert_eq!(output.exit_code, 2);
    assert!(output.stdout.is_empty());
    let error = output.stderr;
    assert!(error.contains("unknown command"), "{error}");
    assert!(error.contains("ACTION: Run 'sctr help'"), "{error}");
}
