use sctr::dispatch::{dispatch, render_help, CliError};
use sctr::help::{render_command_help, render_root_help};
use sctr::run::{execute, render_error};
use sctr::tree::{app_operations, CommandId};
use sctr::{EXIT_FAILURE, EXIT_SUCCESS, EXIT_USAGE};

const ROOT_HELP: &str = "sctr — policy-controlled tenant application lifecycle

ROLE
  Resolve registered applications and expose a narrow lifecycle boundary over systemd.
  The bootstrap command tree is available; lifecycle execution remains disabled until its policy and adapter exist.

CONTROL FLOW
  authenticate actor → resolve tenant/app → authorize action → exact systemd unit → await result

SECURITY BOUNDARY
  Clients identify an application; they never provide a unit, UID, command, path, or D-Bus method.

COMMANDS
manage tenant applications
  app          Inspect and control registered tenant applications

inspect the command contract
  help         Show the SCTR operational command briefing

AGENT RULES
  Treat ERROR and ACTION lines as operational guidance. Never substitute a raw systemd target.
  Use 'sctr help <command> [operation]' for prerequisites, effects, and the next action.

NEXT
  Run 'sctr help app' to inspect the application lifecycle contract.

GLOBAL OPTIONS
  -V, --version        Show version
  -h, --help           Show this help message
";

const START_HELP: &str = "sctr app start — Start one registered application

USAGE
  sctr app start <app>

ROLE
  Authorize a tenant application and start its exact registered systemd unit.

AVAILABILITY
  Contract defined; execution is disabled until the policy and systemd adapter are implemented.

PREREQUISITES
  - The application must belong to the authenticated tenant and allow start.
  - The registry must map it to one exact root-owned unit.

SIDE EFFECTS AND OUTPUT
  - Queues StartUnit for the exact registered unit and awaits the matching job result.
  - Reports failure when the job or resulting service state fails.

EXAMPLES
  - sctr app start api

NEXT ACTION
  Run 'sctr app status <app>' after a successful start.
";

const HELP_HELP: &str = "sctr help — Show the SCTR operational command briefing

USAGE
  sctr help [command [operation]]

ROLE
  Explain the command contract, security boundary, side effects, and next valid action before execution.

AVAILABILITY
  Available in the current executable.

SIDE EFFECTS AND OUTPUT
  - Reads static command metadata and never changes application or system state.

EXAMPLES
  - sctr help
  - sctr help app
  - sctr help app start

NEXT ACTION
  Run 'sctr help app' to inspect the tenant application surface.
";

fn words(args: &[&str]) -> Vec<String> {
    args.iter().map(|a| a.to_string()).collect()
}

fn route(args: &[&str]) -> Result<String, CliError> {
    dispatch(&words(args), "0.1.0")
}

fn refusal(args: &[&str]) -> (u8, String, String) {
    match route(args) {
        Ok(text) => panic!("expected a refusal, got {text}"),
        Err(e) => (e.exit_code, e.message, e.action),
    }
}

#[test]
fn root_help_text_is_exact() {
    assert_eq!(render_root_help(), ROOT_HELP);
}

#[test]
fn command_help_text_is_exact() {
    assert_eq!(render_command_help(&words(&["app", "start"]), CommandId::AppStart), START_HELP);
    assert_eq!(render_command_help(&words(&["help"]), CommandId::Help), HELP_HELP);
}

#[test]
fn group_help_lists_operations_with_markers() {
    let help = route(&["help", "app"]).unwrap();
    assert!(help.starts_with("sctr app — Inspect and control registered tenant applications\n"));
    assert!(help.contains("\nOPERATIONS\n  list         List applications visible to the authenticated tenant (contract only)\n  status       Show status for one registered application (contract only)\n  start        Start one registered application (contract only)\n  stop         Stop one registered application (contract only)\n  restart      Restart one registered application (contract only)\n  logs         Read bounded logs for one registered application (contract only)\n\nEXAMPLES\n"));
    assert!(help.contains("AVAILABILITY\n  Available in the current executable.\n"));
    assert!(help.ends_with("NEXT ACTION\n  Run 'sctr help app <operation>' before invoking a lifecycle operation.\n"));
}

#[test]
fn every_root_help_alias_gives_the_root_briefing() {
    for args in [&[][..], &["help"][..], &["--help"][..], &["-h"][..]] {
        assert_eq!(route(args).unwrap(), ROOT_HELP);
    }
    assert_eq!(render_help(&words(&[])).unwrap(), ROOT_HELP);
}

#[test]
fn help_flag_and_help_command_agree() {
    for path in [&["app"][..], &["app", "start"][..], &["app", "logs"][..], &["help"][..], &["nope"][..], &["app", "deploy"][..]] {
        let mut by_command = vec!["help"];
        by_command.extend_from_slice(path);
        let mut by_long = path.to_vec();
        by_long.push("--help");
        let mut by_short = path.to_vec();
        by_short.push("-h");
        let expected = match route(&by_command) {
            Ok(text) => Ok(text),
            Err(e) => Err((e.exit_code, e.message, e.action)),
        };
        for other in [by_long, by_short] {
            let got = match route(&other) {
                Ok(text) => Ok(text),
                Err(e) => Err((e.exit_code, e.message, e.action)),
            };
            assert_eq!(got, expected, "{path:?}");
        }
    }
}

#[test]
fn version_flags_print_the_release() {
    assert_eq!(route(&["--version"]).unwrap(), "sctr 0.1.0\n");
    assert_eq!(route(&["-V"]).unwrap(), "sctr 0.1.0\n");
    assert_eq!(dispatch(&words(&["-V"]), "2.3.4").unwrap(), "sctr 2.3.4\n");
}

#[test]
fn unknown_global_options_are_usage_errors() {
    let (code, message, action) = refusal(&["--verbose"]);
    assert_eq!(code, EXIT_USAGE);
    assert_eq!(message, "unknown global option \"--verbose\"");
    assert_eq!(action, "Run 'sctr help' to inspect supported global options.");
    let (_, message, _) = refusal(&["-V", "extra"]);
    assert_eq!(message, "unknown global option \"-V\"");
    let (_, message, _) = refusal(&["--help", "app"]);
    assert_eq!(message, "unknown global option \"--help\"");
}

#[test]
fn unknown_command_message_quotes_the_word() {
    let (code, message, action) = refusal(&["systemctl", "restart", "anything"]);
    assert_eq!(code, EXIT_USAGE);
    assert_eq!(message, "unknown command \"systemctl\"");
    assert_eq!(action, "Run 'sctr help' to inspect the application-oriented command surface.");
    let (_, message, _) = refusal(&["a\"b"]);
    assert_eq!(message, "unknown command \"a\\\"b\"");
    let (_, message, _) = refusal(&["tab\there"]);
    assert_eq!(message, "unknown command \"tab\\there\"");
}

#[test]
fn group_without_operation_is_a_usage_error() {
    let (code, message, action) = refusal(&["app"]);
    assert_eq!(code, EXIT_USAGE);
    assert_eq!(message, "app requires an operation");
    assert_eq!(action, "Run 'sctr help app' to inspect valid operations.");
}

#[test]
fn unknown_operation_is_a_usage_error() {
    let (code, message, action) = refusal(&["app", "deploy", "api"]);
    assert_eq!(code, EXIT_USAGE);
    assert_eq!(message, "unknown app operation \"deploy\"");
    assert_eq!(action, "Run 'sctr help app' to inspect valid operations.");
}

#[test]
fn unknown_help_topics_point_one_level_up() {
    let (code, message, action) = refusal(&["help", "app", "deploy"]);
    assert_eq!(code, EXIT_USAGE);
    assert_eq!(message, "unknown help topic \"app deploy\"");
    assert_eq!(action, "Run 'sctr help app' to inspect valid commands.");
    let (_, message, action) = refusal(&["help", "nope"]);
    assert_eq!(message, "unknown help topic \"nope\"");
    assert_eq!(action, "Run 'sctr help' to inspect valid commands.");
    let (_, message, action) = refusal(&["nope", "deeper", "--help"]);
    assert_eq!(message, "unknown help topic \"nope deeper\"");
    assert_eq!(action, "Run 'sctr help nope' to inspect valid commands.");
}

#[test]
fn every_lifecycle_operation_fails_closed() {
    for op in app_operations() {
        for rest in [&[][..], &["api"][..], &["api", "--force"][..]] {
            let mut args = vec!["app", op.name()];
            args.extend_from_slice(rest);
            let (code, message, action) = refusal(&args);
            assert_eq!(code, EXIT_FAILURE);
            assert_eq!(message, format!("'sctr app {}' is not implemented in this bootstrap slice", op.name()));
            assert_eq!(action, format!("Run 'sctr help app {}' to inspect its contract; implement the registry policy and typed systemd boundary before enabling it.", op.name()));
        }
    }
}

#[test]
fn errors_are_usage_or_unavailable() {
    for args in [&["x"][..], &["app"][..], &["-x"][..], &["help", "x"][..], &["app", "y"][..]] {
        let (code, _, _) = refusal(args);
        assert_eq!(code, EXIT_USAGE, "{args:?}");
    }
    for args in [&["app", "stop"][..], &["app", "list", "x", "y"][..], &["app", "stop", "-h", "x"][..]] {
        let (code, _, _) = refusal(args);
        assert_eq!(code, EXIT_FAILURE, "{args:?}");
    }
}

#[test]
fn runs_report_on_the_right_stream() {
    let run = |args: &[&str]| {
        let args: Vec<Option<String>> = args.iter().map(|a| Some(a.to_string())).collect();
        execute(&args, "0.1.0")
    };
    let ok = run(&["help", "app", "start"]);
    assert_eq!(ok.exit_code, EXIT_SUCCESS);
    assert_eq!(ok.stdout, START_HELP);
    assert_eq!(ok.stderr, "");
    let refused = run(&["app", "stop", "worker"]);
    assert_eq!(refused.exit_code, EXIT_FAILURE);
    assert_eq!(refused.stdout, "");
    assert_eq!(refused.stderr, "ERROR: 'sctr app stop' is not implemented in this bootstrap slice\nACTION: Run 'sctr help app stop' to inspect its contract; implement the registry policy and typed systemd boundary before enabling it.\n");
}

#[test]
fn arguments_that_are_not_text_are_usage_errors() {
    let args = vec![Some("app".to_string()), None, Some("list".to_string())];
    let outcome = execute(&args, "0.1.0");
    assert_eq!(outcome.exit_code, EXIT_USAGE);
    assert_eq!(outcome.stdout, "");
    assert_eq!(
        outcome.stderr,
        "ERROR: command arguments must be valid UTF-8\nACTION: Use ASCII command names and a valid registered application identifier.\n"
    );
}

#[test]
fn error_reports_have_two_lines() {
    assert_eq!(render_error("boom", "retry"), "ERROR: boom\nACTION: retry\n");
    assert_eq!(render_error("", ""), "ERROR: \nACTION: \n");
}
