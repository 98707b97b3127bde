//! Routing of a command line to its help text or to its refusal.
use vstd::prelude::*;

use crate::help::{command_help, render_command_help, render_root_help, root_help};
use crate::text::{
    debug_quote, debug_quoted, has_dash_prefix, join_with_spaces, join_words, starts_with_dash,
    str_eq, words,
};
use crate::tree::{
    find_child, find_command, find_root_command, spec_find_child, spec_find_command,
    spec_find_root, Availability, Behavior, CommandId,
};
use crate::{EXIT_FAILURE, EXIT_USAGE};

verus! {

/// A refused command line: the exit status, what failed and the next valid action.
#[derive(Debug)]
pub struct CliError {
    pub exit_code: u8,
    pub message: String,
    pub action: String,
}

/// The view of a `CliError`.
pub struct ErrorView {
    pub exit_code: u8,
    pub message: Seq<char>,
    pub action: Seq<char>,
}

impl View for CliError {
    type V = ErrorView;

    open spec fn view(&self) -> ErrorView {
        ErrorView { exit_code: self.exit_code, message: self.message@, action: self.action@ }
    }
}

/// An error for syntax that the command tree does not accept.
pub open spec fn usage_error(message: Seq<char>, action: Seq<char>) -> ErrorView {
    ErrorView { exit_code: EXIT_USAGE, message, action }
}

/// An error for a known operation that cannot run.
pub open spec fn unavailable_error(message: Seq<char>, action: Seq<char>) -> ErrorView {
    ErrorView { exit_code: EXIT_FAILURE, message, action }
}

impl CliError {
    /// A usage error (exit status 2).
    pub fn usage(message: String, action: String) -> (r: Self)
        ensures
            r@ == usage_error(message@, action@),
    {
        CliError { exit_code: EXIT_USAGE, message, action }
    }

    /// An error for an operation that is not available (exit status 1).
    pub fn unavailable(message: String, action: String) -> (r: Self)
        ensures
            r@ == unavailable_error(message@, action@),
    {
        CliError { exit_code: EXIT_FAILURE, message, action }
    }
}

/// The view of a routing result.
pub open spec fn result_view(r: Result<String, CliError>) -> Result<Seq<char>, ErrorView> {
    match r {
        Ok(s) => Ok(s@),
        Err(e) => Err(e@),
    }
}

pub const GLOBAL_OPTION_ACTION: &'static str = "Run 'sctr help' to inspect supported global options.";
pub const UNKNOWN_COMMAND_ACTION: &'static str =
    "Run 'sctr help' to inspect the application-oriented command surface.";
pub const LIFECYCLE_ACTION_TAIL: &'static str =
    "' to inspect its contract; implement the registry policy and typed systemd boundary before enabling it.";

/// The refusal of an option that the command line does not know; `quoted`
/// is the option as `Debug` prints it.
pub open spec fn unknown_option(quoted: Seq<char>) -> ErrorView {
    usage_error("unknown global option "@ + quoted, GLOBAL_OPTION_ACTION@)
}

/// The refusal of a help topic outside the tree; `quoted` is the topic as
/// `Debug` prints it and `parent` the help command one level up.
pub open spec fn unknown_topic(quoted: Seq<char>, parent: Seq<char>) -> ErrorView {
    usage_error("unknown help topic "@ + quoted, "Run '"@ + parent + "' to inspect valid commands."@)
}

/// The refusal of a command word outside the tree; `quoted` is the word as
/// `Debug` prints it.
pub open spec fn unknown_command(quoted: Seq<char>) -> ErrorView {
    usage_error("unknown command "@ + quoted, UNKNOWN_COMMAND_ACTION@)
}

/// The refusal of an operation that group `c` does not have; `quoted` is the
/// operation as `Debug` prints it.
pub open spec fn unknown_operation(c: CommandId, quoted: Seq<char>) -> ErrorView {
    usage_error("unknown "@ + c.spec_name() + " operation "@ + quoted, group_action(c))
}

/// Whether a word asks for help.
pub open spec fn is_help_flag(w: Seq<char>) -> bool {
    w == "-h"@ || w == "--help"@
}

/// Whether a word asks for the version.
pub open spec fn is_version_flag(w: Seq<char>) -> bool {
    w == "-V"@ || w == "--version"@
}

/// Where to look one level up from an unknown help topic.
pub open spec fn help_parent(path: Seq<Seq<char>>) -> Seq<char> {
    if path.len() > 1 {
        "sctr help "@ + join_words(path.drop_last())
    } else {
        "sctr help"@
    }
}

/// The answer to `sctr help <path>`: the root briefing for an empty path,
/// the briefing of the command the path names, or a usage error.
pub open spec fn help_response(path: Seq<Seq<char>>) -> Result<Seq<char>, ErrorView> {
    if path.len() == 0 {
        Ok(root_help())
    } else {
        match spec_find_command(path) {
            Some(c) => Ok(command_help(path, c)),
            None => Err(unknown_topic(debug_quoted(join_words(path)), help_parent(path))),
        }
    }
}

/// The refusal of lifecycle command `c`, reached through `path`.
pub open spec fn lifecycle_refusal(c: CommandId, path: Seq<Seq<char>>) -> ErrorView {
    let command_path = join_words(path);
    let message = match c.spec_availability() {
        Availability::Available => "'sctr "@ + command_path + "' has no lifecycle handler"@,
        Availability::ContractOnly => "'sctr "@ + command_path
            + "' is not implemented in this bootstrap slice"@,
    };
    unavailable_error(message, "Run 'sctr help "@ + command_path + LIFECYCLE_ACTION_TAIL@)
}

/// The action of a usage error inside group `c`.
pub open spec fn group_action(c: CommandId) -> Seq<char> {
    "Run 'sctr help "@ + c.spec_name() + "' to inspect valid operations."@
}

/// The answer to group command `c` invoked as `args`: its operation is refused
/// as lifecycle work, or a missing or unknown operation is a usage error.
pub open spec fn group_response(c: CommandId, args: Seq<Seq<char>>) -> Result<Seq<char>, ErrorView> {
    if args.len() < 2 {
        Err(usage_error(c.spec_name() + " requires an operation"@, group_action(c)))
    } else {
        match spec_find_child(c, args[1]) {
            None => Err(unknown_operation(c, debug_quoted(args[1]))),
            Some(op) => Err(lifecycle_refusal(op, seq![c.spec_name(), op.spec_name()])),
        }
    }
}

/// The answer to a command line that starts with a command word.
pub open spec fn command_response(args: Seq<Seq<char>>) -> Result<Seq<char>, ErrorView>
    recommends
        args.len() > 0,
{
    if is_help_flag(args.last()) {
        help_response(args.drop_last())
    } else {
        match spec_find_root(args[0]) {
            None => Err(unknown_command(debug_quoted(args[0]))),
            Some(c) => match c.spec_behavior() {
                Behavior::Help => help_response(args.drop_first()),
                Behavior::Group => group_response(c, args),
                Behavior::Lifecycle => Err(lifecycle_refusal(c, seq![c.spec_name()])),
            },
        }
    }
}

/// The answer to the command line `args`: help text to print, or an error.
pub open spec fn response(args: Seq<Seq<char>>, version: Seq<char>) -> Result<Seq<char>, ErrorView> {
    if args.len() == 0 {
        Ok(root_help())
    } else if args.len() == 1 && is_help_flag(args[0]) {
        Ok(root_help())
    } else if args.len() == 1 && is_version_flag(args[0]) {
        Ok("sctr "@ + version + "\n"@)
    } else if starts_with_dash(args[0]) {
        Err(unknown_option(debug_quoted(args[0])))
    } else {
        command_response(args)
    }
}

/// The refusal of an unknown option, given as `Debug` prints it.
pub fn unknown_option_error(quoted: &str) -> (r: CliError)
    ensures
        r@ == unknown_option(quoted@),
{
    let mut message = String::from_str("unknown global option ");
    message.append(quoted);
    CliError::usage(message, String::from_str(GLOBAL_OPTION_ACTION))
}

/// The refusal of an unknown help topic, given as `Debug` prints it, with the
/// help command one level up.
pub fn unknown_topic_error(quoted: &str, parent: &str) -> (r: CliError)
    ensures
        r@ == unknown_topic(quoted@, parent@),
{
    let mut message = String::from_str("unknown help topic ");
    message.append(quoted);
    let mut action = String::from_str("Run '");
    action.append(parent);
    action.append("' to inspect valid commands.");
    CliError::usage(message, action)
}

/// The refusal of an unknown command word, given as `Debug` prints it.
pub fn unknown_command_error(quoted: &str) -> (r: CliError)
    ensures
        r@ == unknown_command(quoted@),
{
    let mut message = String::from_str("unknown command ");
    message.append(quoted);
    CliError::usage(message, String::from_str(UNKNOWN_COMMAND_ACTION))
}

/// The refusal of an operation that group `command` lacks, given as `Debug` prints it.
pub fn unknown_operation_error(command: CommandId, quoted: &str) -> (r: CliError)
    ensures
        r@ == unknown_operation(command, quoted@),
{
    let mut message = String::from_str("unknown ");
    message.append(command.name());
    message.append(" operation ");
    message.append(quoted);
    CliError::usage(message, group_action_text(command))
}

/// The action of a usage error inside group `command`.
fn group_action_text(command: CommandId) -> (r: String)
    ensures
        r@ == group_action(command),
{
    let mut action = String::from_str("Run 'sctr help ");
    action.append(command.name());
    action.append("' to inspect valid operations.");
    action
}

/// Whether `w` is `-h` or `--help`.
fn help_flag(w: &str) -> (r: bool)
    ensures
        r == is_help_flag(w@),
{
    str_eq(w, "-h") || str_eq(w, "--help")
}

/// Routes the command line `args`; `version` is the release shown by `--version`.
pub fn dispatch(args: &[String], version: &str) -> (r: Result<String, CliError>)
    ensures
        result_view(r) == response(words(args@), version@),
{
    if args.len() == 0 {
        return Ok(render_root_help());
    }
    let first = args[0].as_str();
    if args.len() == 1 && help_flag(first) {
        return Ok(render_root_help());
    }
    if args.len() == 1 && (str_eq(first, "-V") || str_eq(first, "--version")) {
        let mut out = String::from_str("sctr ");
        out.append(version);
        out.append("\n");
        return Ok(out);
    }
    if has_dash_prefix(first) {
        return Err(unknown_option_error(debug_quote(first).as_str()));
    }
    dispatch_command(args)
}

/// The answer to `sctr help <path>`.
pub fn render_help(path: &[String]) -> (r: Result<String, CliError>)
    ensures
        result_view(r) == help_response(words(path@)),
{
    if path.len() == 0 {
        return Ok(render_root_help());
    }
    match find_command(path) {
        Some(command) => Ok(render_command_help(path, command)),
        None => {
            let topic = join_with_spaces(path);
            let quoted = debug_quote(topic.as_str());
            let parent = if path.len() > 1 {
                let mut p = String::from_str("sctr help ");
                let upper = join_with_spaces(&path[0..path.len() - 1]);
                assert(words(path@.subrange(0, path@.len() - 1)) =~= words(path@).drop_last());
                p.append(upper.as_str());
                p
            } else {
                String::from_str("sctr help")
            };
            Err(unknown_topic_error(quoted.as_str(), parent.as_str()))
        },
    }
}

/// The answer to a command line that starts with a command word.
pub fn dispatch_command(args: &[String]) -> (r: Result<String, CliError>)
    requires
        args@.len() > 0,
    ensures
        result_view(r) == command_response(words(args@)),
{
    let ghost a = words(args@);
    let n = args.len();
    if help_flag(args[n - 1].as_str()) {
        assert(words(args@.subrange(0, n - 1)) =~= a.drop_last());
        return render_help(&args[0..n - 1]);
    }
    match find_root_command(args[0].as_str()) {
        None => Err(unknown_command_error(debug_quote(args[0].as_str()).as_str())),
        Some(command) => match command.behavior() {
            Behavior::Help => {
                assert(words(args@.subrange(1, n as int)) =~= a.drop_first());
                render_help(&args[1..n])
            },
            Behavior::Group => dispatch_group(command, args),
            Behavior::Lifecycle => {
                let path = vec![String::from_str(command.name())];
                assert(words(path@) =~= seq![command.spec_name()]);
                dispatch_lifecycle(command, &args[1..n], &path)
            },
        },
    }
}

/// The answer to group command `command` invoked as `args`.
pub fn dispatch_group(command: CommandId, args: &[String]) -> (r: Result<String, CliError>)
    ensures
        result_view(r) == group_response(command, words(args@)),
{
    let name = command.name();
    if args.len() < 2 {
        let mut message = String::from_str(name);
        message.append(" requires an operation");
        return Err(CliError::usage(message, group_action_text(command)));
    }
    let operation_name = args[1].as_str();
    match find_child(command, operation_name) {
        None => Err(unknown_operation_error(command, debug_quote(operation_name).as_str())),
        Some(operation) => {
            let path = vec![String::from_str(name), String::from_str(operation.name())];
            assert(words(path@) =~= seq![command.spec_name(), operation.spec_name()]);
            dispatch_lifecycle(operation, &args[2..args.len()], &path)
        },
    }
}

/// The refusal of lifecycle command `command` reached through `path`; the
/// operation's own arguments are not read.
pub fn dispatch_lifecycle(command: CommandId, _args: &[String], path: &[String]) -> (r: Result<
    String,
    CliError,
>)
    ensures
        result_view(r) == Err::<Seq<char>, ErrorView>(lifecycle_refusal(command, words(path@))),
{
    let command_path = join_with_spaces(path);
    let mut message = String::from_str("'sctr ");
    message.append(command_path.as_str());
    match command.availability() {
        Availability::Available => message.append("' has no lifecycle handler"),
        Availability::ContractOnly => message.append("' is not implemented in this bootstrap slice"),
    }
    let mut action = String::from_str("Run 'sctr help ");
    action.append(command_path.as_str());
    action.append(LIFECYCLE_ACTION_TAIL);
    Err(CliError::unavailable(message, action))
}

} // verus!
