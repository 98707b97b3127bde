//! The command tree: every command, its help metadata and its children.
//!
//! The tree is a fixed table. Each command is named by a `CommandId`; the
//! spec functions give its metadata as text, and the executable accessors
//! hand out the same text.
use vstd::prelude::*;

use crate::text::str_eq;

verus! {

/// Whether a command can run in the current executable.
#[derive(Clone, Copy, Debug, PartialEq, Eq, Structural)]
pub enum Availability {
    Available,
    ContractOnly,
}

/// How the router treats a command.
#[derive(Clone, Copy, Debug, PartialEq, Eq, Structural)]
pub enum Behavior {
    Help,
    Group,
    Lifecycle,
}

/// A command of the tree.
#[derive(Clone, Copy, Debug, PartialEq, Eq, Structural)]
pub enum CommandId {
    App,
    AppList,
    AppStatus,
    AppStart,
    AppStop,
    AppRestart,
    AppLogs,
    Help,
}

/// A heading of the root briefing and the commands listed under it.
pub struct CommandGroup {
    pub name: &'static str,
    pub commands: Vec<CommandId>,
}

/// The view of a `CommandGroup`.
pub struct GroupView {
    pub name: Seq<char>,
    pub commands: Seq<CommandId>,
}

impl View for CommandGroup {
    type V = GroupView;

    open spec fn view(&self) -> GroupView {
        GroupView { name: self.name@, commands: self.commands@ }
    }
}

/// The views of a sequence of string slices.
pub open spec fn texts(v: Seq<&'static str>) -> Seq<Seq<char>> {
    v.map_values(|s: &'static str| s@)
}

pub const APPLICATION_GROUP_NAME: &'static str = "manage tenant applications";
pub const REFERENCE_GROUP_NAME: &'static str = "inspect the command contract";

// `app`
pub const APP_NAME: &'static str = "app";
pub const APP_SUMMARY: &'static str = "Inspect and control registered tenant applications";
pub const APP_USAGE: &'static str = "sctr app <list|status|start|stop|restart|logs> [<app>]";
pub const APP_ROLE: &'static str = "Expose the narrow application lifecycle contract without becoming a generic systemd proxy.";
pub const APP_NEXT_ACTION: &'static str = "Run 'sctr help app <operation>' before invoking a lifecycle operation.";
pub const APP_PREREQUISITES_FIRST: &'static str = "The caller identity must be established outside untrusted request fields.";
pub const APP_PREREQUISITES_SECOND: &'static str = "Lifecycle operations require a root-owned registry and an independently validated unit mapping.";
pub const APP_EFFECTS_FIRST: &'static str = "Accepts application identifiers only; internal units and runtime identities remain server-owned.";
pub const APP_EFFECTS_SECOND: &'static str = "Delegates only typed, authorized operations after the lifecycle implementation is available.";
pub const APP_EXAMPLES_FIRST: &'static str = "sctr app list";
pub const APP_EXAMPLES_SECOND: &'static str = "sctr help app restart";

// `list`
pub const LIST_NAME: &'static str = "list";
pub const LIST_SUMMARY: &'static str = "List applications visible to the authenticated tenant";
pub const LIST_USAGE: &'static str = "sctr app list";
pub const LIST_ROLE: &'static str = "Resolve the authenticated tenant and list only applications owned by that tenant.";
pub const LIST_NEXT_ACTION: &'static str = "Choose a returned application identifier and run 'sctr app status <app>'.";
pub const LIST_PREREQUISITES_FIRST: &'static str = "An authenticated local or service identity must resolve to one tenant.";
pub const LIST_PREREQUISITES_SECOND: &'static str = "The root-owned application registry must be available.";
pub const LIST_EFFECTS_FIRST: &'static str = "Reads tenant-scoped registry entries without contacting arbitrary systemd units.";
pub const LIST_EFFECTS_SECOND: &'static str = "Prints application identifiers rather than internal unit names.";
pub const LIST_EXAMPLES_FIRST: &'static str = "sctr app list";

// `status`
pub const STATUS_NAME: &'static str = "status";
pub const STATUS_SUMMARY: &'static str = "Show status for one registered application";
pub const STATUS_USAGE: &'static str = "sctr app status <app>";
pub const STATUS_ROLE: &'static str = "Resolve one tenant-owned application to its exact unit and return scoped service state.";
pub const STATUS_NEXT_ACTION: &'static str = "Use start, stop, or restart only when the returned state requires it.";
pub const STATUS_PREREQUISITES_FIRST: &'static str = "The application identifier must be registered to the authenticated tenant.";
pub const STATUS_PREREQUISITES_SECOND: &'static str = "The systemd adapter must be available with a bounded deadline.";
pub const STATUS_EFFECTS_FIRST: &'static str = "Reads approved unit and service properties for the resolved application.";
pub const STATUS_EFFECTS_SECOND: &'static str = "Does not accept a unit name, PID, UID, path, or D-Bus method from the client.";
pub const STATUS_EXAMPLES_FIRST: &'static str = "sctr app status api";

// `start`
pub const START_NAME: &'static str = "start";
pub const START_SUMMARY: &'static str = "Start one registered application";
pub const START_USAGE: &'static str = "sctr app start <app>";
pub const START_ROLE: &'static str = "Authorize a tenant application and start its exact registered systemd unit.";
pub const START_NEXT_ACTION: &'static str = "Run 'sctr app status <app>' after a successful start.";
pub const START_PREREQUISITES_FIRST: &'static str = "The application must belong to the authenticated tenant and allow start.";
pub const START_PREREQUISITES_SECOND: &'static str = "The registry must map it to one exact root-owned unit.";
pub const START_EFFECTS_FIRST: &'static str = "Queues StartUnit for the exact registered unit and awaits the matching job result.";
pub const START_EFFECTS_SECOND: &'static str = "Reports failure when the job or resulting service state fails.";
pub const START_EXAMPLES_FIRST: &'static str = "sctr app start api";

// `stop`
pub const STOP_NAME: &'static str = "stop";
pub const STOP_SUMMARY: &'static str = "Stop one registered application";
pub const STOP_USAGE: &'static str = "sctr app stop <app>";
pub const STOP_ROLE: &'static str = "Authorize a tenant application and stop its complete systemd service cgroup.";
pub const STOP_NEXT_ACTION: &'static str = "Run 'sctr app status <app>' to verify the stopped state.";
pub const STOP_PREREQUISITES_FIRST: &'static str = "The application must belong to the authenticated tenant and allow stop.";
pub const STOP_PREREQUISITES_SECOND: &'static str = "The registry must map it to one exact root-owned unit.";
pub const STOP_EFFECTS_FIRST: &'static str = "Queues StopUnit for the exact registered unit and awaits the matching job result.";
pub const STOP_EFFECTS_SECOND: &'static str = "Does not signal an arbitrary PID or accept an arbitrary unit name.";
pub const STOP_EXAMPLES_FIRST: &'static str = "sctr app stop worker";

// `restart`
pub const RESTART_NAME: &'static str = "restart";
pub const RESTART_SUMMARY: &'static str = "Restart one registered application";
pub const RESTART_USAGE: &'static str = "sctr app restart <app>";
pub const RESTART_ROLE: &'static str = "Authorize a tenant application and restart its exact registered systemd unit.";
pub const RESTART_NEXT_ACTION: &'static str = "Run 'sctr app status <app>' and the application health check.";
pub const RESTART_PREREQUISITES_FIRST: &'static str = "The application must belong to the authenticated tenant and allow restart.";
pub const RESTART_PREREQUISITES_SECOND: &'static str = "The registry must map it to one exact root-owned unit.";
pub const RESTART_EFFECTS_FIRST: &'static str = "Queues RestartUnit for the exact registered unit and awaits the matching job result.";
pub const RESTART_EFFECTS_SECOND: &'static str = "Does not perform daemon-reload or mutate the root-owned unit contract.";
pub const RESTART_EXAMPLES_FIRST: &'static str = "sctr app restart api";

// `logs`
pub const LOGS_NAME: &'static str = "logs";
pub const LOGS_SUMMARY: &'static str = "Read bounded logs for one registered application";
pub const LOGS_USAGE: &'static str = "sctr app logs <app>";
pub const LOGS_ROLE: &'static str = "Resolve one tenant-owned application and read logs scoped to its exact unit.";
pub const LOGS_NEXT_ACTION: &'static str = "Use the scoped records to diagnose the application, then re-check status.";
pub const LOGS_PREREQUISITES_FIRST: &'static str = "The application identifier must be registered to the authenticated tenant.";
pub const LOGS_PREREQUISITES_SECOND: &'static str = "The logging adapter must enforce time and size bounds.";
pub const LOGS_EFFECTS_FIRST: &'static str = "Reads journal records selected by the resolved unit identity.";
pub const LOGS_EFFECTS_SECOND: &'static str = "Does not accept an arbitrary journal query or filesystem path.";
pub const LOGS_EXAMPLES_FIRST: &'static str = "sctr app logs api";

// `help`
pub const HELP_NAME: &'static str = "help";
pub const HELP_SUMMARY: &'static str = "Show the SCTR operational command briefing";
pub const HELP_USAGE: &'static str = "sctr help [command [operation]]";
pub const HELP_ROLE: &'static str = "Explain the command contract, security boundary, side effects, and next valid action before execution.";
pub const HELP_NEXT_ACTION: &'static str = "Run 'sctr help app' to inspect the tenant application surface.";
pub const HELP_EFFECTS_FIRST: &'static str = "Reads static command metadata and never changes application or system state.";
pub const HELP_EXAMPLES_FIRST: &'static str = "sctr help";
pub const HELP_EXAMPLES_SECOND: &'static str = "sctr help app";
pub const HELP_EXAMPLES_THIRD: &'static str = "sctr help app start";

/// The groups of the root briefing, in order.
pub open spec fn spec_root_groups() -> Seq<GroupView> {
    seq![
        GroupView { name: APPLICATION_GROUP_NAME@, commands: seq![CommandId::App] },
        GroupView { name: REFERENCE_GROUP_NAME@, commands: seq![CommandId::Help] },
    ]
}

/// The commands of `groups`, group after group.
pub open spec fn group_commands(groups: Seq<GroupView>) -> Seq<CommandId>
    decreases groups.len(),
{
    if groups.len() == 0 {
        Seq::empty()
    } else {
        group_commands(groups.drop_last()) + groups.last().commands
    }
}

/// The top-level commands, in the order the root briefing lists them.
pub open spec fn spec_root_commands() -> Seq<CommandId> {
    group_commands(spec_root_groups())
}

/// The operations of the `app` command, in order.
pub open spec fn spec_app_operations() -> Seq<CommandId> {
    seq![
        CommandId::AppList,
        CommandId::AppStatus,
        CommandId::AppStart,
        CommandId::AppStop,
        CommandId::AppRestart,
        CommandId::AppLogs,
    ]
}

/// The first command of `cmds` whose name is `name`, as `Iterator::find` picks it.
pub open spec fn find_by_name(cmds: Seq<CommandId>, name: Seq<char>) -> Option<CommandId>
    decreases cmds.len(),
{
    if cmds.len() == 0 {
        None
    } else if cmds[0].spec_name() == name {
        Some(cmds[0])
    } else {
        find_by_name(cmds.drop_first(), name)
    }
}

/// The top-level command called `name`.
pub open spec fn spec_find_root(name: Seq<char>) -> Option<CommandId> {
    find_by_name(spec_root_commands(), name)
}

/// The child of `command` called `name`.
pub open spec fn spec_find_child(command: CommandId, name: Seq<char>) -> Option<CommandId> {
    find_by_name(command.spec_children(), name)
}

/// The command reached from `start` by following the child names in `segments`.
pub open spec fn walk(start: CommandId, segments: Seq<Seq<char>>) -> Option<CommandId>
    decreases segments.len(),
{
    if segments.len() == 0 {
        Some(start)
    } else {
        match walk(start, segments.drop_last()) {
            Some(c) => spec_find_child(c, segments.last()),
            None => None,
        }
    }
}

/// The command that a help path names: its first word is a top-level
/// command and each later word a child of the one before.
pub open spec fn spec_find_command(path: Seq<Seq<char>>) -> Option<CommandId> {
    if path.len() == 0 {
        None
    } else {
        match spec_find_root(path[0]) {
            Some(root) => walk(root, path.subrange(1, path.len() as int)),
            None => None,
        }
    }
}

impl CommandId {
    /// The word that selects the command.
    pub open spec fn spec_name(self) -> Seq<char> {
        match self {
            CommandId::App => APP_NAME@,
            CommandId::AppList => LIST_NAME@,
            CommandId::AppStatus => STATUS_NAME@,
            CommandId::AppStart => START_NAME@,
            CommandId::AppStop => STOP_NAME@,
            CommandId::AppRestart => RESTART_NAME@,
            CommandId::AppLogs => LOGS_NAME@,
            CommandId::Help => HELP_NAME@,
        }
    }

    /// One line on what the command does.
    pub open spec fn spec_summary(self) -> Seq<char> {
        match self {
            CommandId::App => APP_SUMMARY@,
            CommandId::AppList => LIST_SUMMARY@,
            CommandId::AppStatus => STATUS_SUMMARY@,
            CommandId::AppStart => START_SUMMARY@,
            CommandId::AppStop => STOP_SUMMARY@,
            CommandId::AppRestart => RESTART_SUMMARY@,
            CommandId::AppLogs => LOGS_SUMMARY@,
            CommandId::Help => HELP_SUMMARY@,
        }
    }

    /// How the command is invoked.
    pub open spec fn spec_usage(self) -> Seq<char> {
        match self {
            CommandId::App => APP_USAGE@,
            CommandId::AppList => LIST_USAGE@,
            CommandId::AppStatus => STATUS_USAGE@,
            CommandId::AppStart => START_USAGE@,
            CommandId::AppStop => STOP_USAGE@,
            CommandId::AppRestart => RESTART_USAGE@,
            CommandId::AppLogs => LOGS_USAGE@,
            CommandId::Help => HELP_USAGE@,
        }
    }

    /// What the command is for.
    pub open spec fn spec_role(self) -> Seq<char> {
        match self {
            CommandId::App => APP_ROLE@,
            CommandId::AppList => LIST_ROLE@,
            CommandId::AppStatus => STATUS_ROLE@,
            CommandId::AppStart => START_ROLE@,
            CommandId::AppStop => STOP_ROLE@,
            CommandId::AppRestart => RESTART_ROLE@,
            CommandId::AppLogs => LOGS_ROLE@,
            CommandId::Help => HELP_ROLE@,
        }
    }

    /// What must hold before the command can act.
    pub open spec fn spec_prerequisites(self) -> Seq<Seq<char>> {
        match self {
            CommandId::App => seq![APP_PREREQUISITES_FIRST@, APP_PREREQUISITES_SECOND@],
            CommandId::AppList => seq![LIST_PREREQUISITES_FIRST@, LIST_PREREQUISITES_SECOND@],
            CommandId::AppStatus => seq![STATUS_PREREQUISITES_FIRST@, STATUS_PREREQUISITES_SECOND@],
            CommandId::AppStart => seq![START_PREREQUISITES_FIRST@, START_PREREQUISITES_SECOND@],
            CommandId::AppStop => seq![STOP_PREREQUISITES_FIRST@, STOP_PREREQUISITES_SECOND@],
            CommandId::AppRestart => seq![RESTART_PREREQUISITES_FIRST@, RESTART_PREREQUISITES_SECOND@],
            CommandId::AppLogs => seq![LOGS_PREREQUISITES_FIRST@, LOGS_PREREQUISITES_SECOND@],
            CommandId::Help => seq![],
        }
    }

    /// What the command reads, changes and prints.
    pub open spec fn spec_effects(self) -> Seq<Seq<char>> {
        match self {
            CommandId::App => seq![APP_EFFECTS_FIRST@, APP_EFFECTS_SECOND@],
            CommandId::AppList => seq![LIST_EFFECTS_FIRST@, LIST_EFFECTS_SECOND@],
            CommandId::AppStatus => seq![STATUS_EFFECTS_FIRST@, STATUS_EFFECTS_SECOND@],
            CommandId::AppStart => seq![START_EFFECTS_FIRST@, START_EFFECTS_SECOND@],
            CommandId::AppStop => seq![STOP_EFFECTS_FIRST@, STOP_EFFECTS_SECOND@],
            CommandId::AppRestart => seq![RESTART_EFFECTS_FIRST@, RESTART_EFFECTS_SECOND@],
            CommandId::AppLogs => seq![LOGS_EFFECTS_FIRST@, LOGS_EFFECTS_SECOND@],
            CommandId::Help => seq![HELP_EFFECTS_FIRST@],
        }
    }

    /// Sample invocations.
    pub open spec fn spec_examples(self) -> Seq<Seq<char>> {
        match self {
            CommandId::App => seq![APP_EXAMPLES_FIRST@, APP_EXAMPLES_SECOND@],
            CommandId::AppList => seq![LIST_EXAMPLES_FIRST@],
            CommandId::AppStatus => seq![STATUS_EXAMPLES_FIRST@],
            CommandId::AppStart => seq![START_EXAMPLES_FIRST@],
            CommandId::AppStop => seq![STOP_EXAMPLES_FIRST@],
            CommandId::AppRestart => seq![RESTART_EXAMPLES_FIRST@],
            CommandId::AppLogs => seq![LOGS_EXAMPLES_FIRST@],
            CommandId::Help => seq![HELP_EXAMPLES_FIRST@, HELP_EXAMPLES_SECOND@, HELP_EXAMPLES_THIRD@],
        }
    }

    /// What to do after the command.
    pub open spec fn spec_next_action(self) -> Seq<char> {
        match self {
            CommandId::App => APP_NEXT_ACTION@,
            CommandId::AppList => LIST_NEXT_ACTION@,
            CommandId::AppStatus => STATUS_NEXT_ACTION@,
            CommandId::AppStart => START_NEXT_ACTION@,
            CommandId::AppStop => STOP_NEXT_ACTION@,
            CommandId::AppRestart => RESTART_NEXT_ACTION@,
            CommandId::AppLogs => LOGS_NEXT_ACTION@,
            CommandId::Help => HELP_NEXT_ACTION@,
        }
    }
    /// Whether the command can run in the current executable.
    pub open spec fn spec_availability(self) -> Availability {
        match self {
            CommandId::App => Availability::Available,
            CommandId::Help => Availability::Available,
            _ => Availability::ContractOnly,
        }
    }

    /// How the router treats the command.
    pub open spec fn spec_behavior(self) -> Behavior {
        match self {
            CommandId::App => Behavior::Group,
            CommandId::Help => Behavior::Help,
            _ => Behavior::Lifecycle,
        }
    }

    /// The operations below the command.
    pub open spec fn spec_children(self) -> Seq<CommandId> {
        match self {
            CommandId::App => spec_app_operations(),
            _ => seq![],
        }
    }

}

impl CommandId {
    /// The word that selects the command.
    pub fn name(self) -> (r: &'static str)
        ensures
            r@ == self.spec_name(),
    {
        match self {
            CommandId::App => APP_NAME,
            CommandId::AppList => LIST_NAME,
            CommandId::AppStatus => STATUS_NAME,
            CommandId::AppStart => START_NAME,
            CommandId::AppStop => STOP_NAME,
            CommandId::AppRestart => RESTART_NAME,
            CommandId::AppLogs => LOGS_NAME,
            CommandId::Help => HELP_NAME,
        }
    }

    /// One line on what the command does.
    pub fn summary(self) -> (r: &'static str)
        ensures
            r@ == self.spec_summary(),
    {
        match self {
            CommandId::App => APP_SUMMARY,
            CommandId::AppList => LIST_SUMMARY,
            CommandId::AppStatus => STATUS_SUMMARY,
            CommandId::AppStart => START_SUMMARY,
            CommandId::AppStop => STOP_SUMMARY,
            CommandId::AppRestart => RESTART_SUMMARY,
            CommandId::AppLogs => LOGS_SUMMARY,
            CommandId::Help => HELP_SUMMARY,
        }
    }

    /// How the command is invoked.
    pub fn usage(self) -> (r: &'static str)
        ensures
            r@ == self.spec_usage(),
    {
        match self {
            CommandId::App => APP_USAGE,
            CommandId::AppList => LIST_USAGE,
            CommandId::AppStatus => STATUS_USAGE,
            CommandId::AppStart => START_USAGE,
            CommandId::AppStop => STOP_USAGE,
            CommandId::AppRestart => RESTART_USAGE,
            CommandId::AppLogs => LOGS_USAGE,
            CommandId::Help => HELP_USAGE,
        }
    }

    /// What the command is for.
    pub fn role(self) -> (r: &'static str)
        ensures
            r@ == self.spec_role(),
    {
        match self {
            CommandId::App => APP_ROLE,
            CommandId::AppList => LIST_ROLE,
            CommandId::AppStatus => STATUS_ROLE,
            CommandId::AppStart => START_ROLE,
            CommandId::AppStop => STOP_ROLE,
            CommandId::AppRestart => RESTART_ROLE,
            CommandId::AppLogs => LOGS_ROLE,
            CommandId::Help => HELP_ROLE,
        }
    }

    /// What must hold before the command can act.
    pub fn prerequisites(self) -> (r: Vec<&'static str>)
        ensures
            texts(r@) == self.spec_prerequisites(),
    {
        let r = match self {
            CommandId::App => vec![APP_PREREQUISITES_FIRST, APP_PREREQUISITES_SECOND],
            CommandId::AppList => vec![LIST_PREREQUISITES_FIRST, LIST_PREREQUISITES_SECOND],
            CommandId::AppStatus => vec![STATUS_PREREQUISITES_FIRST, STATUS_PREREQUISITES_SECOND],
            CommandId::AppStart => vec![START_PREREQUISITES_FIRST, START_PREREQUISITES_SECOND],
            CommandId::AppStop => vec![STOP_PREREQUISITES_FIRST, STOP_PREREQUISITES_SECOND],
            CommandId::AppRestart => vec![RESTART_PREREQUISITES_FIRST, RESTART_PREREQUISITES_SECOND],
            CommandId::AppLogs => vec![LOGS_PREREQUISITES_FIRST, LOGS_PREREQUISITES_SECOND],
            CommandId::Help => vec![],
        };
        assert(texts(r@) =~= self.spec_prerequisites());
        r
    }

    /// What the command reads, changes and prints.
    pub fn effects(self) -> (r: Vec<&'static str>)
        ensures
            texts(r@) == self.spec_effects(),
    {
        let r = match self {
            CommandId::App => vec![APP_EFFECTS_FIRST, APP_EFFECTS_SECOND],
            CommandId::AppList => vec![LIST_EFFECTS_FIRST, LIST_EFFECTS_SECOND],
            CommandId::AppStatus => vec![STATUS_EFFECTS_FIRST, STATUS_EFFECTS_SECOND],
            CommandId::AppStart => vec![START_EFFECTS_FIRST, START_EFFECTS_SECOND],
            CommandId::AppStop => vec![STOP_EFFECTS_FIRST, STOP_EFFECTS_SECOND],
            CommandId::AppRestart => vec![RESTART_EFFECTS_FIRST, RESTART_EFFECTS_SECOND],
            CommandId::AppLogs => vec![LOGS_EFFECTS_FIRST, LOGS_EFFECTS_SECOND],
            CommandId::Help => vec![HELP_EFFECTS_FIRST],
        };
        assert(texts(r@) =~= self.spec_effects());
        r
    }

    /// Sample invocations.
    pub fn examples(self) -> (r: Vec<&'static str>)
        ensures
            texts(r@) == self.spec_examples(),
    {
        let r = match self {
            CommandId::App => vec![APP_EXAMPLES_FIRST, APP_EXAMPLES_SECOND],
            CommandId::AppList => vec![LIST_EXAMPLES_FIRST],
            CommandId::AppStatus => vec![STATUS_EXAMPLES_FIRST],
            CommandId::AppStart => vec![START_EXAMPLES_FIRST],
            CommandId::AppStop => vec![STOP_EXAMPLES_FIRST],
            CommandId::AppRestart => vec![RESTART_EXAMPLES_FIRST],
            CommandId::AppLogs => vec![LOGS_EXAMPLES_FIRST],
            CommandId::Help => vec![HELP_EXAMPLES_FIRST, HELP_EXAMPLES_SECOND, HELP_EXAMPLES_THIRD],
        };
        assert(texts(r@) =~= self.spec_examples());
        r
    }

    /// What to do after the command.
    pub fn next_action(self) -> (r: &'static str)
        ensures
            r@ == self.spec_next_action(),
    {
        match self {
            CommandId::App => APP_NEXT_ACTION,
            CommandId::AppList => LIST_NEXT_ACTION,
            CommandId::AppStatus => STATUS_NEXT_ACTION,
            CommandId::AppStart => START_NEXT_ACTION,
            CommandId::AppStop => STOP_NEXT_ACTION,
            CommandId::AppRestart => RESTART_NEXT_ACTION,
            CommandId::AppLogs => LOGS_NEXT_ACTION,
            CommandId::Help => HELP_NEXT_ACTION,
        }
    }
    /// Whether the command can run in the current executable.
    pub fn availability(self) -> (r: Availability)
        ensures
            r == self.spec_availability(),
    {
        match self {
            CommandId::App => Availability::Available,
            CommandId::Help => Availability::Available,
            _ => Availability::ContractOnly,
        }
    }

    /// How the router treats the command.
    pub fn behavior(self) -> (r: Behavior)
        ensures
            r == self.spec_behavior(),
    {
        match self {
            CommandId::App => Behavior::Group,
            CommandId::Help => Behavior::Help,
            _ => Behavior::Lifecycle,
        }
    }

    /// The operations below the command.
    pub fn children(self) -> (r: Vec<CommandId>)
        ensures
            r@ == self.spec_children(),
    {
        match self {
            CommandId::App => app_operations(),
            _ => Vec::new(),
        }
    }
}

/// The operations of the `app` command, in order.
pub fn app_operations() -> (r: Vec<CommandId>)
    ensures
        r@ == spec_app_operations(),
{
    let r = vec![
        CommandId::AppList,
        CommandId::AppStatus,
        CommandId::AppStart,
        CommandId::AppStop,
        CommandId::AppRestart,
        CommandId::AppLogs,
    ];
    assert(r@ =~= spec_app_operations());
    r
}

/// The groups of the root briefing, in order.
pub fn root_groups() -> (r: Vec<CommandGroup>)
    ensures
        r@.map_values(|g: CommandGroup| g@) == spec_root_groups(),
{
    let r = vec![
        CommandGroup { name: APPLICATION_GROUP_NAME, commands: vec![CommandId::App] },
        CommandGroup { name: REFERENCE_GROUP_NAME, commands: vec![CommandId::Help] },
    ];
    assert(r@[0].commands@ =~= seq![CommandId::App]);
    assert(r@[1].commands@ =~= seq![CommandId::Help]);
    assert(r@.map_values(|g: CommandGroup| g@) =~= spec_root_groups());
    r
}

/// The top-level commands, group after group.
pub fn root_commands() -> (r: Vec<CommandId>)
    ensures
        r@ == spec_root_commands(),
{
    let groups = root_groups();
    let ghost views = groups@.map_values(|g: CommandGroup| g@);
    let mut r: Vec<CommandId> = Vec::new();
    let mut i: usize = 0;
    while i < groups.len()
        invariant
            views == groups@.map_values(|g: CommandGroup| g@),
            views == spec_root_groups(),
            i <= groups@.len(),
            r@ == group_commands(views.subrange(0, i as int)),
        decreases groups@.len() - i,
    {
        let group = &groups[i];
        let mut j: usize = 0;
        let ghost start = r@;
        while j < group.commands.len()
            invariant
                j <= group.commands@.len(),
                r@ == start + group.commands@.subrange(0, j as int),
            decreases group.commands@.len() - j,
        {
            r.push(group.commands[j]);
            j = j + 1;
            assert(r@ =~= start + group.commands@.subrange(0, j as int));
        }
        assert(group.commands@.subrange(0, j as int) =~= group.commands@);
        assert(views.subrange(0, i + 1).drop_last() =~= views.subrange(0, i as int));
        i = i + 1;
    }
    assert(views.subrange(0, i as int) =~= views);
    r
}

/// The first command of `cmds` called `name`.
pub fn find_named(cmds: &Vec<CommandId>, name: &str) -> (r: Option<CommandId>)
    ensures
        r == find_by_name(cmds@, name@),
{
    let mut i: usize = 0;
    assert(cmds@.subrange(0, cmds@.len() as int) =~= cmds@);
    while i < cmds.len()
        invariant
            i <= cmds@.len(),
            find_by_name(cmds@, name@) == find_by_name(cmds@.subrange(i as int, cmds@.len() as int), name@),
        decreases cmds@.len() - i,
    {
        let ghost rest = cmds@.subrange(i as int, cmds@.len() as int);
        assert(rest.drop_first() =~= cmds@.subrange(i + 1, cmds@.len() as int));
        if str_eq(cmds[i].name(), name) {
            return Some(cmds[i]);
        }
        i = i + 1;
    }
    None
}

/// The top-level command called `name`.
pub fn find_root_command(name: &str) -> (r: Option<CommandId>)
    ensures
        r == spec_find_root(name@),
{
    let cmds = root_commands();
    find_named(&cmds, name)
}

/// The child of `command` called `name`.
pub fn find_child(command: CommandId, name: &str) -> (r: Option<CommandId>)
    ensures
        r == spec_find_child(command, name@),
{
    let children = command.children();
    find_named(&children, name)
}

/// The command that `path` names: a top-level command followed by child names.
pub fn find_command(path: &[String]) -> (r: Option<CommandId>)
    ensures
        r == spec_find_command(crate::text::words(path@)),
{
    let ghost p = crate::text::words(path@);
    if path.len() == 0 {
        return None;
    }
    let root = find_root_command(path[0].as_str());
    match root {
        None => None,
        Some(start) => {
            let mut command = start;
            let mut i: usize = 1;
            assert(p.subrange(1, 1) =~= Seq::<Seq<char>>::empty());
            while i < path.len()
                invariant
                    p == crate::text::words(path@),
                    1 <= i <= path@.len(),
                    root == Some(start),
                    spec_find_root(p[0]) == Some(start),
                    walk(start, p.subrange(1, i as int)) == Some(command),
                decreases path@.len() - i,
            {
                assert(p.subrange(1, i + 1).drop_last() =~= p.subrange(1, i as int));
                match find_child(command, path[i].as_str()) {
                    None => {
                        proof {
                            assert(p.subrange(1, i + 1) =~= p.subrange(1, p.len() as int).subrange(0, i as int));
                            lemma_walk_stays_lost(start, p.subrange(1, i + 1), p.subrange(1, p.len() as int));
                        }
                        return None;
                    },
                    Some(next) => {
                        command = next;
                    },
                }
                i = i + 1;
            }
            assert(p.subrange(1, i as int) =~= p.subrange(1, p.len() as int));
            Some(command)
        },
    }
}

/// Once a walk finds no child, no longer walk finds one either.
proof fn lemma_walk_stays_lost(start: CommandId, prefix: Seq<Seq<char>>, full: Seq<Seq<char>>)
    requires
        prefix.len() <= full.len(),
        prefix == full.subrange(0, prefix.len() as int),
        walk(start, prefix) is None,
    ensures
        walk(start, full) is None,
    decreases full.len() - prefix.len(),
{
    if prefix.len() < full.len() {
        let longer = full.subrange(0, prefix.len() + 1 as int);
        assert(longer.drop_last() =~= prefix);
        lemma_walk_stays_lost(start, longer, full);
    } else {
        assert(prefix =~= full);
    }
}

/// Whether no two commands of `cmds` share a name.
pub open spec fn names_distinct(cmds: Seq<CommandId>) -> bool {
    forall|i: int, j: int|
        0 <= i < j < cmds.len() ==> (#[trigger] cmds[i]).spec_name() != (#[trigger] cmds[j]).spec_name()
}

/// The top level holds `app` and then `help`.
pub proof fn lemma_root_commands()
    ensures
        spec_root_commands() == seq![CommandId::App, CommandId::Help],
{
    let groups = spec_root_groups();
    assert(groups.drop_last().drop_last() =~= Seq::<GroupView>::empty());
    assert(group_commands(groups.drop_last().drop_last()) == Seq::<CommandId>::empty());
    assert(groups.drop_last().last() == groups[0]);
    assert(group_commands(groups.drop_last()) =~= seq![CommandId::App]);
    assert(group_commands(groups) =~= seq![CommandId::App, CommandId::Help]);
}

/// Every name in the command tree is distinct from its siblings', so a
/// lookup by name never has two candidates.
pub proof fn lemma_sibling_names_unique()
    ensures
        names_distinct(spec_root_commands()),
        forall|c: CommandId| names_distinct(#[trigger] c.spec_children()),
{
    lemma_root_commands();
    reveal_strlit("app");
    reveal_strlit("help");
    assert("app"@.len() != "help"@.len());
    reveal_strlit("list");
    reveal_strlit("status");
    reveal_strlit("start");
    reveal_strlit("stop");
    reveal_strlit("restart");
    reveal_strlit("logs");
    assert("list"@.len() != "status"@.len());
    assert("list"@.len() != "start"@.len());
    assert("list"@[0] != "stop"@[0]);
    assert("list"@.len() != "restart"@.len());
    assert("list"@[1] != "logs"@[1]);
    assert("status"@.len() != "start"@.len());
    assert("status"@.len() != "stop"@.len());
    assert("status"@.len() != "restart"@.len());
    assert("status"@.len() != "logs"@.len());
    assert("start"@.len() != "stop"@.len());
    assert("start"@.len() != "restart"@.len());
    assert("start"@.len() != "logs"@.len());
    assert("stop"@.len() != "restart"@.len());
    assert("stop"@[0] != "logs"@[0]);
    assert("restart"@.len() != "logs"@.len());
    assert forall|c: CommandId| names_distinct(#[trigger] c.spec_children()) by {
        let ch = c.spec_children();
        assert forall|i: int, j: int| 0 <= i < j < ch.len() implies (#[trigger] ch[i]).spec_name()
            != (#[trigger] ch[j]).spec_name() by {
            if c == CommandId::App {
                assert(ch == spec_app_operations());
            }
        }
    }
}

/// Every command carries the help metadata an operator needs: a summary,
/// usage, role, at least one effect, at least one example and a next action,
/// none of them empty.
pub proof fn lemma_help_metadata_complete(c: CommandId)
    ensures
        c.spec_summary().len() > 0,
        c.spec_usage().len() > 0,
        c.spec_role().len() > 0,
        c.spec_effects().len() > 0,
        c.spec_examples().len() > 0,
        c.spec_next_action().len() > 0,
        forall|i: int| 0 <= i < c.spec_effects().len() ==> (#[trigger] c.spec_effects()[i]).len() > 0,
        forall|i: int| 0 <= i < c.spec_examples().len() ==> (#[trigger] c.spec_examples()[i]).len() > 0,
        forall|i: int|
            0 <= i < c.spec_prerequisites().len() ==> (#[trigger] c.spec_prerequisites()[i]).len() > 0,
{
    match c {
        CommandId::App => {
            reveal_strlit("Inspect and control registered tenant applications");
            reveal_strlit("sctr app <list|status|start|stop|restart|logs> [<app>]");
            reveal_strlit("Expose the narrow application lifecycle contract without becoming a generic systemd proxy.");
            reveal_strlit("Run 'sctr help app <operation>' before invoking a lifecycle operation.");
            reveal_strlit("The caller identity must be established outside untrusted request fields.");
            reveal_strlit("Lifecycle operations require a root-owned registry and an independently validated unit mapping.");
            reveal_strlit("Accepts application identifiers only; internal units and runtime identities remain server-owned.");
            reveal_strlit("Delegates only typed, authorized operations after the lifecycle implementation is available.");
            reveal_strlit("sctr app list");
            reveal_strlit("sctr help app restart");
        },
        CommandId::AppList => {
            reveal_strlit("List applications visible to the authenticated tenant");
            reveal_strlit("sctr app list");
            reveal_strlit("Resolve the authenticated tenant and list only applications owned by that tenant.");
            reveal_strlit("Choose a returned application identifier and run 'sctr app status <app>'.");
            reveal_strlit("An authenticated local or service identity must resolve to one tenant.");
            reveal_strlit("The root-owned application registry must be available.");
            reveal_strlit("Reads tenant-scoped registry entries without contacting arbitrary systemd units.");
            reveal_strlit("Prints application identifiers rather than internal unit names.");
            reveal_strlit("sctr app list");
        },
        CommandId::AppStatus => {
            reveal_strlit("Show status for one registered application");
            reveal_strlit("sctr app status <app>");
            reveal_strlit("Resolve one tenant-owned application to its exact unit and return scoped service state.");
            reveal_strlit("Use start, stop, or restart only when the returned state requires it.");
            reveal_strlit("The application identifier must be registered to the authenticated tenant.");
            reveal_strlit("The systemd adapter must be available with a bounded deadline.");
            reveal_strlit("Reads approved unit and service properties for the resolved application.");
            reveal_strlit("Does not accept a unit name, PID, UID, path, or D-Bus method from the client.");
            reveal_strlit("sctr app status api");
        },
        CommandId::AppStart => {
            reveal_strlit("Start one registered application");
            reveal_strlit("sctr app start <app>");
            reveal_strlit("Authorize a tenant application and start its exact registered systemd unit.");
            reveal_strlit("Run 'sctr app status <app>' after a successful start.");
            reveal_strlit("The application must belong to the authenticated tenant and allow start.");
            reveal_strlit("The registry must map it to one exact root-owned unit.");
            reveal_strlit("Queues StartUnit for the exact registered unit and awaits the matching job result.");
            reveal_strlit("Reports failure when the job or resulting service state fails.");
            reveal_strlit("sctr app start api");
        },
        CommandId::AppStop => {
            reveal_strlit("Stop one registered application");
            reveal_strlit("sctr app stop <app>");
            reveal_strlit("Authorize a tenant application and stop its complete systemd service cgroup.");
            reveal_strlit("Run 'sctr app status <app>' to verify the stopped state.");
            reveal_strlit("The application must belong to the authenticated tenant and allow stop.");
            reveal_strlit("The registry must map it to one exact root-owned unit.");
            reveal_strlit("Queues StopUnit for the exact registered unit and awaits the matching job result.");
            reveal_strlit("Does not signal an arbitrary PID or accept an arbitrary unit name.");
            reveal_strlit("sctr app stop worker");
        },
        CommandId::AppRestart => {
            reveal_strlit("Restart one registered application");
            reveal_strlit("sctr app restart <app>");
            reveal_strlit("Authorize a tenant application and restart its exact registered systemd unit.");
            reveal_strlit("Run 'sctr app status <app>' and the application health check.");
            reveal_strlit("The application must belong to the authenticated tenant and allow restart.");
            reveal_strlit("The registry must map it to one exact root-owned unit.");
            reveal_strlit("Queues RestartUnit for the exact registered unit and awaits the matching job result.");
            reveal_strlit("Does not perform daemon-reload or mutate the root-owned unit contract.");
            reveal_strlit("sctr app restart api");
        },
        CommandId::AppLogs => {
            reveal_strlit("Read bounded logs for one registered application");
            reveal_strlit("sctr app logs <app>");
            reveal_strlit("Resolve one tenant-owned application and read logs scoped to its exact unit.");
            reveal_strlit("Use the scoped records to diagnose the application, then re-check status.");
            reveal_strlit("The application identifier must be registered to the authenticated tenant.");
            reveal_strlit("The logging adapter must enforce time and size bounds.");
            reveal_strlit("Reads journal records selected by the resolved unit identity.");
            reveal_strlit("Does not accept an arbitrary journal query or filesystem path.");
            reveal_strlit("sctr app logs api");
        },
        CommandId::Help => {
            reveal_strlit("Show the SCTR operational command briefing");
            reveal_strlit("sctr help [command [operation]]");
            reveal_strlit("Explain the command contract, security boundary, side effects, and next valid action before execution.");
            reveal_strlit("Run 'sctr help app' to inspect the tenant application surface.");
            reveal_strlit("Reads static command metadata and never changes application or system state.");
            reveal_strlit("sctr help");
            reveal_strlit("sctr help app");
            reveal_strlit("sctr help app start");
        },
    }
}

/// Every operation of `app` is a lifecycle command whose contract is defined
/// but whose execution is disabled.
pub proof fn lemma_operations_fail_closed(op: CommandId)
    requires
        spec_app_operations().contains(op),
    ensures
        op.spec_availability() == Availability::ContractOnly,
        op.spec_behavior() == Behavior::Lifecycle,
{
}

/// What a lookup by name finds: `None` exactly when no command carries the
/// name; otherwise a command of `cmds` with that name, which among commands
/// with distinct names is the one carrying it.
pub proof fn lemma_find_by_name(cmds: Seq<CommandId>, name: Seq<char>)
    ensures
        find_by_name(cmds, name) is None <==> (forall|i: int|
            0 <= i < cmds.len() ==> (#[trigger] cmds[i]).spec_name() != name),
        find_by_name(cmds, name) matches Some(c) ==> c.spec_name() == name && cmds.contains(c),
        names_distinct(cmds) ==> forall|i: int|
            0 <= i < cmds.len() && (#[trigger] cmds[i]).spec_name() == name ==> find_by_name(
                cmds,
                name,
            ) == Some(cmds[i]),
    decreases cmds.len(),
{
    if cmds.len() > 0 {
        let rest = cmds.drop_first();
        lemma_find_by_name(rest, name);
        assert forall|i: int| 0 < i < cmds.len() implies cmds[i] == #[trigger] rest[i - 1] by {}
        if cmds[0].spec_name() != name {
            if find_by_name(rest, name) is None {
                assert forall|i: int| 0 <= i < cmds.len() implies (#[trigger] cmds[i]).spec_name()
                    != name by {
                    if i > 0 {
                        assert(rest[i - 1].spec_name() != name);
                    }
                }
            } else {
                let c = find_by_name(rest, name)->0;
                let k = choose|k: int| 0 <= k < rest.len() && rest[k] == c;
                assert(cmds[k + 1] == c);
            }
            if names_distinct(cmds) {
                assert(names_distinct(rest)) by {
                    assert forall|i: int, j: int| 0 <= i < j < rest.len() implies (#[trigger] rest[i]).spec_name()
                        != (#[trigger] rest[j]).spec_name() by {
                        assert(cmds[i + 1] == rest[i]);
                        assert(cmds[j + 1] == rest[j]);
                    }
                }
                assert forall|i: int|
                    0 <= i < cmds.len() && (#[trigger] cmds[i]).spec_name() == name implies find_by_name(
                    cmds,
                    name,
                ) == Some(cmds[i]) by {
                    assert(i > 0);
                    assert(rest[i - 1] == cmds[i]);
                }
            }
        } else {
            assert(cmds.contains(cmds[0]));
            if names_distinct(cmds) {
                assert forall|i: int|
                    0 <= i < cmds.len() && (#[trigger] cmds[i]).spec_name() == name implies find_by_name(
                    cmds,
                    name,
                ) == Some(cmds[i]) by {
                    if i > 0 {
                        assert(cmds[0].spec_name() != cmds[i].spec_name());
                    }
                }
            }
        }
    }
}

} // verus!
