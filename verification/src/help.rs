//! The operational help: the root briefing and the briefing of one command.
use vstd::prelude::*;

use crate::text::{append_line, join_with_spaces, join_words, line, pad_right, padded, words};
use crate::tree::{
    root_groups, spec_root_groups, texts, Availability, CommandGroup, CommandId, GroupView,
};

verus! {

/// Width of the name column in command listings.
pub const NAME_COLUMN: usize = 12;

pub const ROOT_TITLE: &'static str = "sctr — policy-controlled tenant application lifecycle";
pub const ROOT_ROLE_SCOPE: &'static str =
    "  Resolve registered applications and expose a narrow lifecycle boundary over systemd.";
pub const ROOT_ROLE_STATUS: &'static str =
    "  The bootstrap command tree is available; lifecycle execution remains disabled until its policy and adapter exist.";
pub const ROOT_CONTROL_FLOW: &'static str =
    "  authenticate actor → resolve tenant/app → authorize action → exact systemd unit → await result";
pub const ROOT_SECURITY_BOUNDARY: &'static str =
    "  Clients identify an application; they never provide a unit, UID, command, path, or D-Bus method.";
pub const ROOT_RULE_GUIDANCE: &'static str =
    "  Treat ERROR and ACTION lines as operational guidance. Never substitute a raw systemd target.";
pub const ROOT_RULE_HELP: &'static str =
    "  Use 'sctr help <command> [operation]' for prerequisites, effects, and the next action.";
pub const ROOT_NEXT: &'static str = "  Run 'sctr help app' to inspect the application lifecycle contract.";
pub const ROOT_OPTION_VERSION: &'static str = "  -V, --version        Show version";
pub const ROOT_OPTION_HELP: &'static str = "  -h, --help           Show this help message";
pub const AVAILABLE_NOTE: &'static str = "  Available in the current executable.";
pub const CONTRACT_ONLY_NOTE: &'static str =
    "  Contract defined; execution is disabled until the policy and systemd adapter are implemented.";

/// `acc` followed by one line for each text of `ls`.
pub open spec fn lines(acc: Seq<char>, ls: Seq<Seq<char>>) -> Seq<char>
    decreases ls.len(),
{
    if ls.len() == 0 {
        acc
    } else {
        lines(acc, ls.drop_last()) + line(ls.last())
    }
}

/// The listing line of a command: its name in a padded column, then its summary.
pub open spec fn command_entry(c: CommandId) -> Seq<char> {
    "  "@ + pad_right(c.spec_name(), NAME_COLUMN as nat) + " "@ + c.spec_summary()
}

/// `acc` followed, for each group, by its name, one listing line per command and a blank line.
pub open spec fn with_groups(acc: Seq<char>, groups: Seq<GroupView>) -> Seq<char>
    decreases groups.len(),
{
    if groups.len() == 0 {
        acc
    } else {
        let g = groups.last();
        let before = with_groups(acc, groups.drop_last()) + line(g.name);
        lines(before, g.commands.map_values(|c: CommandId| command_entry(c))) + line(""@)
    }
}

/// The root briefing up to and including the `COMMANDS` heading.
pub open spec fn root_opening() -> Seq<char> {
    Seq::empty() + line(ROOT_TITLE@) + line(""@) + line("ROLE"@) + line(ROOT_ROLE_SCOPE@) + line(
        ROOT_ROLE_STATUS@,
    ) + line(""@) + line("CONTROL FLOW"@) + line(ROOT_CONTROL_FLOW@) + line(""@) + line(
        "SECURITY BOUNDARY"@,
    ) + line(ROOT_SECURITY_BOUNDARY@) + line(""@) + line("COMMANDS"@)
}

/// `acc` followed by the agent rules, the next step and the global options.
pub open spec fn root_closing(acc: Seq<char>) -> Seq<char> {
    acc + line("AGENT RULES"@) + line(ROOT_RULE_GUIDANCE@) + line(ROOT_RULE_HELP@) + line(""@)
        + line("NEXT"@) + line(ROOT_NEXT@) + line(""@) + line("GLOBAL OPTIONS"@) + line(
        ROOT_OPTION_VERSION@,
    ) + line(ROOT_OPTION_HELP@)
}

/// The root briefing: role, control flow, security boundary, the commands by
/// group, agent rules, next step and global options.
pub open spec fn root_help() -> Seq<char> {
    root_closing(with_groups(root_opening(), spec_root_groups()))
}

/// `acc` followed by a heading, one `  - ` line per value and a blank line;
/// `acc` itself when there are no values.
pub open spec fn with_list(acc: Seq<char>, heading: Seq<char>, values: Seq<Seq<char>>) -> Seq<char> {
    if values.len() == 0 {
        acc
    } else {
        lines(acc + line(heading), values.map_values(|v: Seq<char>| "  - "@ + v)) + line(""@)
    }
}

/// The note on whether a command can run.
pub open spec fn availability_note(a: Availability) -> Seq<char> {
    match a {
        Availability::Available => AVAILABLE_NOTE@,
        Availability::ContractOnly => CONTRACT_ONLY_NOTE@,
    }
}

/// The marker after an operation's summary.
pub open spec fn availability_marker(a: Availability) -> Seq<char> {
    match a {
        Availability::Available => "available"@,
        Availability::ContractOnly => "contract only"@,
    }
}

/// The listing line of an operation: name column, summary and availability marker.
pub open spec fn operation_entry(c: CommandId) -> Seq<char> {
    "  "@ + pad_right(c.spec_name(), NAME_COLUMN as nat) + " "@ + c.spec_summary() + " ("@
        + availability_marker(c.spec_availability()) + ")"@
}

/// `acc` followed by the operations section of `c`, which is empty for a command without children.
pub open spec fn with_operations(acc: Seq<char>, c: CommandId) -> Seq<char> {
    if c.spec_children().len() == 0 {
        acc
    } else {
        lines(acc + line("OPERATIONS"@), c.spec_children().map_values(|o: CommandId| operation_entry(o)))
            + line(""@)
    }
}

/// The briefing of command `c` reached through `path`: title, usage, role,
/// availability, prerequisites, effects, operations, examples and next action.
pub open spec fn command_help(path: Seq<Seq<char>>, c: CommandId) -> Seq<char> {
    let head = Seq::empty() + line("sctr "@ + join_words(path) + " — "@ + c.spec_summary()) + line(""@)
        + line("USAGE"@) + line("  "@ + c.spec_usage()) + line(""@) + line("ROLE"@) + line(
        "  "@ + c.spec_role(),
    ) + line(""@) + line("AVAILABILITY"@) + line(availability_note(c.spec_availability())) + line(
        ""@,
    );
    let body = with_list(
        with_operations(
            with_list(
                with_list(head, "PREREQUISITES"@, c.spec_prerequisites()),
                "SIDE EFFECTS AND OUTPUT"@,
                c.spec_effects(),
            ),
            c,
        ),
        "EXAMPLES"@,
        c.spec_examples(),
    );
    body + line("NEXT ACTION"@) + line("  "@ + c.spec_next_action())
}

/// Appends the listing line of each command of `cmds` to `out`: the
/// operation form when `operations` holds, the root-briefing form otherwise.
fn append_entries(out: &mut String, cmds: &Vec<CommandId>, operations: bool)
    ensures
        operations ==> final(out)@ == lines(
            old(out)@,
            cmds@.map_values(|o: CommandId| operation_entry(o)),
        ),
        !operations ==> final(out)@ == lines(
            old(out)@,
            cmds@.map_values(|c: CommandId| command_entry(c)),
        ),
{
    let ghost start = old(out)@;
    let ghost entries = if operations {
        cmds@.map_values(|o: CommandId| operation_entry(o))
    } else {
        cmds@.map_values(|c: CommandId| command_entry(c))
    };
    let mut i: usize = 0;
    assert(entries.subrange(0, 0) =~= Seq::<Seq<char>>::empty());
    while i < cmds.len()
        invariant
            i <= cmds@.len(),
            entries.len() == cmds@.len(),
            entries == (if operations {
                cmds@.map_values(|o: CommandId| operation_entry(o))
            } else {
                cmds@.map_values(|c: CommandId| command_entry(c))
            }),
            out@ == lines(start, entries.subrange(0, i as int)),
        decreases cmds@.len() - i,
    {
        let c = cmds[i];
        let mut entry = String::from_str("  ");
        let name = padded(c.name(), NAME_COLUMN);
        entry.append(name.as_str());
        entry.append(" ");
        entry.append(c.summary());
        if operations {
            entry.append(" (");
            let marker = match c.availability() {
                Availability::Available => "available",
                Availability::ContractOnly => "contract only",
            };
            entry.append(marker);
            entry.append(")");
        }
        assert(entry@ == entries[i as int]);
        append_line(out, entry.as_str());
        assert(entries.subrange(0, i + 1).drop_last() =~= entries.subrange(0, i as int));
        i = i + 1;
    }
    assert(entries.subrange(0, i as int) =~= entries);
}

/// Appends a heading, one `  - value` line per value and a blank line to
/// `out`; appends nothing when there are no values.
pub fn write_list(out: &mut String, heading: &str, values: &Vec<&'static str>)
    ensures
        final(out)@ == with_list(old(out)@, heading@, texts(values@)),
{
    if values.len() == 0 {
        assert(texts(values@).len() == 0);
        return;
    }
    let ghost items = texts(values@).map_values(|v: Seq<char>| "  - "@ + v);
    append_line(out, heading);
    let ghost start = out@;
    let mut i: usize = 0;
    assert(items.subrange(0, 0) =~= Seq::<Seq<char>>::empty());
    while i < values.len()
        invariant
            i <= values@.len(),
            items == texts(values@).map_values(|v: Seq<char>| "  - "@ + v),
            out@ == lines(start, items.subrange(0, i as int)),
        decreases values@.len() - i,
    {
        let mut item = String::from_str("  - ");
        item.append(values[i]);
        assert(item@ == items[i as int]);
        append_line(out, item.as_str());
        assert(items.subrange(0, i + 1).drop_last() =~= items.subrange(0, i as int));
        i = i + 1;
    }
    assert(items.subrange(0, i as int) =~= items);
    append_line(out, "");
}

/// The root briefing.
pub fn render_root_help() -> (r: String)
    ensures
        r@ == root_help(),
{
    let mut out = String::new();
    append_line(&mut out, ROOT_TITLE);
    append_line(&mut out, "");
    append_line(&mut out, "ROLE");
    append_line(&mut out, ROOT_ROLE_SCOPE);
    append_line(&mut out, ROOT_ROLE_STATUS);
    append_line(&mut out, "");
    append_line(&mut out, "CONTROL FLOW");
    append_line(&mut out, ROOT_CONTROL_FLOW);
    append_line(&mut out, "");
    append_line(&mut out, "SECURITY BOUNDARY");
    append_line(&mut out, ROOT_SECURITY_BOUNDARY);
    append_line(&mut out, "");
    append_line(&mut out, "COMMANDS");
    assert(out@ == root_opening());
    let groups = root_groups();
    let ghost views = groups@.map_values(|g: CommandGroup| g@);
    let mut i: usize = 0;
    assert(views.subrange(0, 0) =~= Seq::<GroupView>::empty());
    while i < groups.len()
        invariant
            views == groups@.map_values(|g: CommandGroup| g@),
            i <= groups@.len(),
            out@ == with_groups(root_opening(), views.subrange(0, i as int)),
        decreases groups@.len() - i,
    {
        let group = &groups[i];
        assert(views.subrange(0, i + 1).drop_last() =~= views.subrange(0, i as int));
        assert(views.subrange(0, i + 1).last() == group@);
        append_line(&mut out, group.name);
        append_entries(&mut out, &group.commands, false);
        append_line(&mut out, "");
        i = i + 1;
    }
    assert(views.subrange(0, i as int) =~= spec_root_groups());
    append_line(&mut out, "AGENT RULES");
    append_line(&mut out, ROOT_RULE_GUIDANCE);
    append_line(&mut out, ROOT_RULE_HELP);
    append_line(&mut out, "");
    append_line(&mut out, "NEXT");
    append_line(&mut out, ROOT_NEXT);
    append_line(&mut out, "");
    append_line(&mut out, "GLOBAL OPTIONS");
    append_line(&mut out, ROOT_OPTION_VERSION);
    append_line(&mut out, ROOT_OPTION_HELP);
    out
}

/// The briefing of `command`, titled with the words of `path`.
pub fn render_command_help(path: &[String], command: CommandId) -> (r: String)
    ensures
        r@ == command_help(words(path@), command),
{
    let command_path = join_with_spaces(path);
    let mut out = String::new();
    let mut title = String::from_str("sctr ");
    title.append(command_path.as_str());
    title.append(" — ");
    title.append(command.summary());
    append_line(&mut out, title.as_str());
    append_line(&mut out, "");
    append_line(&mut out, "USAGE");
    let mut usage = String::from_str("  ");
    usage.append(command.usage());
    append_line(&mut out, usage.as_str());
    append_line(&mut out, "");
    append_line(&mut out, "ROLE");
    let mut role = String::from_str("  ");
    role.append(command.role());
    append_line(&mut out, role.as_str());
    append_line(&mut out, "");
    append_line(&mut out, "AVAILABILITY");
    match command.availability() {
        Availability::Available => append_line(&mut out, AVAILABLE_NOTE),
        Availability::ContractOnly => append_line(&mut out, CONTRACT_ONLY_NOTE),
    }
    append_line(&mut out, "");
    write_list(&mut out, "PREREQUISITES", &command.prerequisites());
    write_list(&mut out, "SIDE EFFECTS AND OUTPUT", &command.effects());
    let children = command.children();
    if children.len() > 0 {
        append_line(&mut out, "OPERATIONS");
        append_entries(&mut out, &children, true);
        append_line(&mut out, "");
    }
    write_list(&mut out, "EXAMPLES", &command.examples());
    append_line(&mut out, "NEXT ACTION");
    let mut next = String::from_str("  ");
    next.append(command.next_action());
    append_line(&mut out, next.as_str());
    out
}

} // verus!
