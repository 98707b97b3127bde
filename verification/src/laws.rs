//! Properties of the router as a whole: which command lines share an
//! answer, which are refused and how a run reports its result.
use vstd::prelude::*;

use crate::dispatch::{
    command_response, group_response, help_response, is_help_flag, is_version_flag,
    lifecycle_refusal, response, unknown_command, ErrorView,
};
use crate::help::{
    availability_note, command_help, lines, operation_entry, root_help, with_list, with_operations,
};
use crate::run::{all_text, arg_words, error_text, outcome, NOT_UTF8_ACTION, NOT_UTF8_MESSAGE};
use crate::text::{debug_quoted, join_words, line, starts_with_dash};
use crate::tree::{
    lemma_find_by_name, lemma_root_commands, lemma_sibling_names_unique, spec_app_operations,
    spec_find_child, spec_find_root, Availability, CommandId,
};
use crate::{EXIT_FAILURE, EXIT_SUCCESS, EXIT_USAGE};

verus! {

/// The help and version flags are options: they begin with a dash.
pub proof fn lemma_flags_are_options(w: Seq<char>)
    ensures
        is_help_flag(w) ==> starts_with_dash(w),
        is_version_flag(w) ==> starts_with_dash(w),
{
    reveal_strlit("-h");
    reveal_strlit("--help");
    reveal_strlit("-V");
    reveal_strlit("--version");
}

/// Facts about the words of the tree: the command names are not options,
/// and `app` is not `help`.
pub proof fn lemma_command_words(c: CommandId)
    ensures
        !starts_with_dash(c.spec_name()),
        !is_help_flag(c.spec_name()),
        !is_version_flag(c.spec_name()),
        "app"@ != "help"@,
{
    reveal_strlit("app");
    reveal_strlit("help");
    reveal_strlit("list");
    reveal_strlit("status");
    reveal_strlit("start");
    reveal_strlit("stop");
    reveal_strlit("restart");
    reveal_strlit("logs");
    reveal_strlit("-h");
    reveal_strlit("--help");
    reveal_strlit("-V");
    reveal_strlit("--version");
    assert("app"@.len() != "help"@.len());
    let w = c.spec_name();
    assert(w.len() > 0 && w[0] != '-');
    assert("-h"@[0] == '-' && "--help"@[0] == '-' && "-V"@[0] == '-' && "--version"@[0] == '-');
}

/// The top-level lookup finds `app` and `help` and nothing else.
pub proof fn lemma_find_root(name: Seq<char>)
    ensures
        spec_find_root(name) == (if name == "app"@ {
            Some(CommandId::App)
        } else if name == "help"@ {
            Some(CommandId::Help)
        } else {
            None::<CommandId>
        }),
{
    lemma_root_commands();
    lemma_sibling_names_unique();
    lemma_command_words(CommandId::App);
    let cmds = seq![CommandId::App, CommandId::Help];
    lemma_find_by_name(cmds, name);
    assert(cmds[0].spec_name() == "app"@);
    assert(cmds[1].spec_name() == "help"@);
}

/// Looking up an operation of `app` by its name finds that operation.
pub proof fn lemma_find_operation(op: CommandId)
    requires
        spec_app_operations().contains(op),
    ensures
        spec_find_child(CommandId::App, op.spec_name()) == Some(op),
{
    lemma_sibling_names_unique();
    let ops = spec_app_operations();
    assert(CommandId::App.spec_children() == ops);
    lemma_find_by_name(ops, op.spec_name());
    let k = choose|k: int| 0 <= k < ops.len() && ops[k] == op;
    assert(ops[k].spec_name() == op.spec_name());
}

/// `sctr`, `sctr help`, `sctr --help` and `sctr -h` print the same root briefing.
pub proof fn lemma_root_help_aliases(version: Seq<char>)
    ensures
        response(Seq::empty(), version) == Ok::<Seq<char>, ErrorView>(root_help()),
        response(seq!["help"@], version) == Ok::<Seq<char>, ErrorView>(root_help()),
        response(seq!["--help"@], version) == Ok::<Seq<char>, ErrorView>(root_help()),
        response(seq!["-h"@], version) == Ok::<Seq<char>, ErrorView>(root_help()),
{
    lemma_command_words(CommandId::Help);
    let args = seq!["help"@];
    lemma_find_root("help"@);
    assert(args.drop_first() =~= Seq::<Seq<char>>::empty());
}

/// Help reached through the `help` command and through a trailing help flag
/// is the same: `sctr help <path>` answers as `sctr <path> --help` and
/// `sctr <path> -h` do, for every path that does not begin with an option
/// and does not itself end in a help flag.
pub proof fn lemma_help_flag_matches_help_command(path: Seq<Seq<char>>, version: Seq<char>)
    requires
        path.len() > 0 ==> !starts_with_dash(path[0]) && !is_help_flag(path.last()),
    ensures
        response(seq!["help"@] + path, version) == response(path + seq!["--help"@], version),
        response(seq!["help"@] + path, version) == response(path + seq!["-h"@], version),
{
    lemma_command_words(CommandId::Help);
    lemma_flags_are_options(path.last());
    if path.len() == 0 {
        lemma_root_help_aliases(version);
        assert(seq!["help"@] + path =~= seq!["help"@]);
        assert(path + seq!["--help"@] =~= seq!["--help"@]);
        assert(path + seq!["-h"@] =~= seq!["-h"@]);
    } else {
        let by_command = seq!["help"@] + path;
        let by_long = path + seq!["--help"@];
        let by_short = path + seq!["-h"@];
        lemma_find_root("help"@);
        assert(by_command[0] == "help"@);
        assert(!starts_with_dash(by_command[0]));
        assert(by_command.last() == path.last());
        assert(by_command.drop_first() =~= path);
        assert(command_response(by_command) == help_response(path));
        assert(by_long[0] == path[0]);
        assert(by_long.drop_last() =~= path);
        assert(by_short[0] == path[0]);
        assert(by_short.drop_last() =~= path);
    }
}

/// A lifecycle operation of `app` fails closed: whatever its arguments, short
/// of a trailing help flag, the answer is the refusal with exit status 1 and a
/// message saying that the operation is not implemented.
pub proof fn lemma_lifecycle_operations_fail_closed(
    op: CommandId,
    rest: Seq<Seq<char>>,
    version: Seq<char>,
)
    requires
        spec_app_operations().contains(op),
        rest.len() > 0 ==> !is_help_flag(rest.last()),
    ensures
        response(seq!["app"@, op.spec_name()] + rest, version) == Err::<Seq<char>, ErrorView>(
            lifecycle_refusal(op, seq!["app"@, op.spec_name()]),
        ),
        lifecycle_refusal(op, seq!["app"@, op.spec_name()]).exit_code == EXIT_FAILURE,
        lifecycle_refusal(op, seq!["app"@, op.spec_name()]).message == "'sctr app "@
            + op.spec_name() + "' is not implemented in this bootstrap slice"@,
{
    lemma_command_words(CommandId::App);
    lemma_command_words(op);
    reveal_strlit("app");
    reveal_strlit("'sctr ");
    reveal_strlit("'sctr app ");
    reveal_strlit(" ");
    let args = seq!["app"@, op.spec_name()] + rest;
    assert(args[0] == "app"@);
    assert(args[1] == op.spec_name());
    assert(!starts_with_dash(args[0]));
    lemma_find_root("app"@);
    lemma_find_operation(op);
    if rest.len() == 0 {
        assert(args.last() == op.spec_name());
    } else {
        assert(args.last() == rest.last());
    }
    assert(!is_help_flag(args.last()));
    assert(command_response(args) == group_response(CommandId::App, args));
    let path = seq!["app"@, op.spec_name()];
    assert(path.drop_last() =~= seq!["app"@]);
    assert(join_words(path.drop_last()) == "app"@);
    assert(join_words(path) == "app"@ + " "@ + op.spec_name());
    assert(op.spec_availability() == Availability::ContractOnly);
    assert("'sctr "@ + ("app"@ + " "@ + op.spec_name()) =~= "'sctr app "@ + op.spec_name());
}

/// A command word outside the tree is a usage error that points to `sctr help`.
pub proof fn lemma_unknown_command_is_usage_error(args: Seq<Seq<char>>, version: Seq<char>)
    requires
        args.len() > 0,
        !starts_with_dash(args[0]),
        args[0] != "app"@,
        args[0] != "help"@,
        !is_help_flag(args.last()),
    ensures
        response(args, version) == Err::<Seq<char>, ErrorView>(unknown_command(debug_quoted(args[0]))),
        unknown_command(debug_quoted(args[0])).exit_code == EXIT_USAGE,
{
    lemma_flags_are_options(args[0]);
    lemma_find_root(args[0]);
}

/// Every refusal is a usage error (status 2) or an unavailable operation (status 1).
pub proof fn lemma_error_statuses(args: Seq<Seq<char>>, version: Seq<char>)
    ensures
        response(args, version) is Err ==> response(args, version)->Err_0.exit_code == EXIT_USAGE
            || response(args, version)->Err_0.exit_code == EXIT_FAILURE,
{
}

/// A run either succeeds with status 0 and prints only on standard output,
/// or fails with status 1 or 2, prints nothing on standard output and reports
/// an `ERROR:` line and an `ACTION:` line on standard error.
pub proof fn lemma_outcome_streams(args: Seq<Option<String>>, version: Seq<char>)
    ensures
        ({
            let o = outcome(args, version);
            ||| o.exit_code == EXIT_SUCCESS && o.stderr.len() == 0
            ||| {
                &&& o.exit_code == EXIT_USAGE || o.exit_code == EXIT_FAILURE
                &&& o.stdout.len() == 0
                &&& exists|message: Seq<char>, action: Seq<char>|
                    o.stderr == #[trigger] error_text(message, action)
            }
        }),
{
    let o = outcome(args, version);
    if o.exit_code != EXIT_SUCCESS {
        if all_text(args) {
            let r = response(arg_words(args), version);
            lemma_error_statuses(arg_words(args), version);
            assert(r is Err);
            assert(o.stderr == error_text(r->Err_0.message, r->Err_0.action));
        } else {
            assert(o.stderr == error_text(NOT_UTF8_MESSAGE@, NOT_UTF8_ACTION@));
        }
    }
}

/// Status 1 is kept for known operations: a refusal with status 1 answers a
/// command line that names `app` and one of its operations and does not end
/// in a help flag; every other refusal is a usage error with status 2.
pub proof fn lemma_status_one_only_for_known_operations(args: Seq<Seq<char>>, version: Seq<char>)
    ensures
        response(args, version) is Err && response(args, version)->Err_0.exit_code == EXIT_FAILURE
            ==> {
            &&& args.len() >= 2
            &&& args[0] == "app"@
            &&& spec_find_child(CommandId::App, args[1]) is Some
            &&& !is_help_flag(args.last())
        },
{
    if args.len() > 0 {
        lemma_find_root(args[0]);
    }
}

/// Whether `block` occurs in `text` as a contiguous stretch.
pub open spec fn contains_block(text: Seq<char>, block: Seq<char>) -> bool {
    exists|i: int|
        0 <= i && i + block.len() <= text.len() && #[trigger] text.subrange(i, i + block.len())
            == block
}

/// One `  - item` line per item.
pub open spec fn bullets(items: Seq<Seq<char>>) -> Seq<char>
    decreases items.len(),
{
    if items.len() == 0 {
        Seq::empty()
    } else {
        bullets(items.drop_last()) + line("  - "@ + items.last())
    }
}

/// A titled list of a briefing: the heading line, one bullet line per item
/// and a blank line; nothing at all when there are no items.
pub open spec fn bullet_section(heading: Seq<char>, items: Seq<Seq<char>>) -> Seq<char> {
    if items.len() == 0 {
        Seq::empty()
    } else {
        line(heading) + bullets(items) + line(""@)
    }
}

/// Appending lines to a text keeps the text as it was in front.
proof fn lemma_lines_append(acc: Seq<char>, ls: Seq<Seq<char>>)
    ensures
        lines(acc, ls) == acc + lines(Seq::empty(), ls),
    decreases ls.len(),
{
    if ls.len() > 0 {
        lemma_lines_append(acc, ls.drop_last());
        assert(lines(acc, ls) =~= acc + lines(Seq::empty(), ls));
    } else {
        assert(acc =~= acc + Seq::<char>::empty());
    }
}

/// The bullet lines of `items` are the lines of `  - item` for each item.
proof fn lemma_bullets(items: Seq<Seq<char>>)
    ensures
        lines(Seq::empty(), items.map_values(|v: Seq<char>| "  - "@ + v)) == bullets(items),
    decreases items.len(),
{
    if items.len() > 0 {
        lemma_bullets(items.drop_last());
        assert(items.map_values(|v: Seq<char>| "  - "@ + v).drop_last() =~= items.drop_last().map_values(
            |v: Seq<char>| "  - "@ + v,
        ));
    }
}

/// A titled list is appended behind what came before.
proof fn lemma_with_list(acc: Seq<char>, heading: Seq<char>, items: Seq<Seq<char>>)
    ensures
        with_list(acc, heading, items) == acc + bullet_section(heading, items),
{
    if items.len() > 0 {
        let mapped = items.map_values(|v: Seq<char>| "  - "@ + v);
        lemma_lines_append(acc + line(heading), mapped);
        lemma_bullets(items);
        assert(with_list(acc, heading, items) =~= acc + bullet_section(heading, items));
    } else {
        assert(acc =~= acc + Seq::<char>::empty());
    }
}

/// The operations section is appended behind what came before.
proof fn lemma_with_operations(acc: Seq<char>, c: CommandId)
    ensures
        with_operations(acc, c) == acc + with_operations(Seq::empty(), c),
{
    if c.spec_children().len() > 0 {
        let mapped = c.spec_children().map_values(|o: CommandId| operation_entry(o));
        lemma_lines_append(acc + line("OPERATIONS"@), mapped);
        lemma_lines_append(Seq::empty() + line("OPERATIONS"@), mapped);
        assert(with_operations(acc, c) =~= acc + with_operations(Seq::empty(), c));
    } else {
        assert(acc =~= acc + Seq::<char>::empty());
    }
}

/// Whatever stands around `m`, `m` occurs in the whole.
proof fn lemma_contains_middle(a: Seq<char>, m: Seq<char>, b: Seq<char>)
    ensures
        contains_block(a + m + b, m),
{
    let t = a + m + b;
    assert(t.subrange(a.len() as int, a.len() + m.len() as int) =~= m);
}

/// The briefing of every command, with or without operations, lists the
/// command's prerequisites under `PREREQUISITES` (when it has any) and,
/// right after them, its effects under `SIDE EFFECTS AND OUTPUT`, one
/// `  - ` line per entry.
pub proof fn lemma_briefing_lists_prerequisites_and_effects(path: Seq<Seq<char>>, c: CommandId)
    ensures
        contains_block(
            command_help(path, c),
            bullet_section("PREREQUISITES"@, c.spec_prerequisites()) + bullet_section(
                "SIDE EFFECTS AND OUTPUT"@,
                c.spec_effects(),
            ),
        ),
{
    let head = Seq::empty() + line("sctr "@ + join_words(path) + " — "@ + c.spec_summary()) + line(
        ""@,
    ) + line("USAGE"@) + line("  "@ + c.spec_usage()) + line(""@) + line("ROLE"@) + line(
        "  "@ + c.spec_role(),
    ) + line(""@) + line("AVAILABILITY"@) + line(availability_note(c.spec_availability())) + line(
        ""@,
    );
    let pre = bullet_section("PREREQUISITES"@, c.spec_prerequisites());
    let eff = bullet_section("SIDE EFFECTS AND OUTPUT"@, c.spec_effects());
    let with_pre = with_list(head, "PREREQUISITES"@, c.spec_prerequisites());
    let with_eff = with_list(with_pre, "SIDE EFFECTS AND OUTPUT"@, c.spec_effects());
    lemma_with_list(head, "PREREQUISITES"@, c.spec_prerequisites());
    lemma_with_list(with_pre, "SIDE EFFECTS AND OUTPUT"@, c.spec_effects());
    let with_ops = with_operations(with_eff, c);
    lemma_with_operations(with_eff, c);
    let body = with_list(with_ops, "EXAMPLES"@, c.spec_examples());
    lemma_with_list(with_ops, "EXAMPLES"@, c.spec_examples());
    let rest = with_operations(Seq::empty(), c) + bullet_section("EXAMPLES"@, c.spec_examples())
        + line("NEXT ACTION"@) + line("  "@ + c.spec_next_action());
    assert(command_help(path, c) =~= head + (pre + eff) + rest);
    lemma_contains_middle(head, pre + eff, rest);
}

} // verus!
