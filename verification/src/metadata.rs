//! What the help metadata of the command table says of each command, stated
//! against the words that reach the command rather than against the table.
use vstd::prelude::*;

use crate::laws::{contains_block, lemma_find_operation, lemma_find_root};
use crate::text::join_words;
use crate::tree::{
    lemma_find_by_name, spec_app_operations, spec_find_child, spec_find_command, walk, CommandId,
};

verus! {

/// The words that reach `c`: its name for a top-level command, `app` and its
/// name for an operation of `app`.
pub open spec fn command_path(c: CommandId) -> Seq<Seq<char>> {
    match c {
        CommandId::App => seq![c.spec_name()],
        CommandId::Help => seq![c.spec_name()],
        _ => seq![CommandId::App.spec_name(), c.spec_name()],
    }
}

/// `s` starts with the words `prefix`, followed by the end of `s` or a space.
pub open spec fn begins_with_words(s: Seq<char>, prefix: Seq<char>) -> bool {
    &&& prefix.len() <= s.len()
    &&& s.subrange(0, prefix.len() as int) == prefix
    &&& (s.len() == prefix.len() || s[prefix.len() as int] == ' ')
}

/// The capital of an ASCII lower-case letter; other characters stay.
pub open spec fn ascii_upper(c: char) -> char {
    if 'a' <= c && c <= 'z' {
        ((c as int) - 32) as char
    } else {
        c
    }
}

/// A word with its first letter in capitals.
pub open spec fn capitalized(word: Seq<char>) -> Seq<char> {
    if word.len() == 0 {
        word
    } else {
        seq![ascii_upper(word[0])] + word.drop_first()
    }
}

/// The systemd job named after an operation: the name with a capital and
/// `Unit` behind it, as in `StartUnit`.
pub open spec fn systemd_job(name: Seq<char>) -> Seq<char> {
    capitalized(name) + "Unit"@
}

/// A walk from a command ends at the command itself, or one step below it
/// at an operation of `app` carrying the word of that step.
proof fn lemma_walk(start: CommandId, segments: Seq<Seq<char>>)
    ensures
        walk(start, segments) matches Some(c) ==> (segments.len() == 0 && c == start) || (
        segments.len() == 1 && start == CommandId::App && spec_app_operations().contains(c)
            && c.spec_name() == segments[0]),
    decreases segments.len(),
{
    if segments.len() > 0 {
        let before = segments.drop_last();
        lemma_walk(start, before);
        if let Some(d) = walk(start, before) {
            lemma_find_by_name(d.spec_children(), segments.last());
            if let Some(c) = spec_find_child(d, segments.last()) {
                assert(d.spec_children().contains(c));
                assert(d == CommandId::App);
                assert(before.len() == 0);
            }
        }
    }
}

/// The help paths name commands by their own words: the command a path
/// reaches is reached by exactly the words of `command_path`, and every
/// command is reached by its `command_path`.
pub proof fn lemma_paths_name_commands(path: Seq<Seq<char>>, c: CommandId)
    ensures
        spec_find_command(path) == Some(c) ==> path == command_path(c),
        spec_find_command(command_path(c)) == Some(c),
{
    if path.len() > 0 {
        lemma_find_root(path[0]);
        let segments = path.subrange(1, path.len() as int);
        if let Some(root) = crate::tree::spec_find_root(path[0]) {
            lemma_walk(root, segments);
            if spec_find_command(path) == Some(c) {
                if segments.len() == 0 {
                    assert(path =~= command_path(c));
                } else {
                    assert(path =~= command_path(c));
                }
            }
        }
    }
    let p = command_path(c);
    lemma_find_root(p[0]);
    crate::laws::lemma_command_words(c);
    let segments = p.subrange(1, p.len() as int);
    if c == CommandId::App || c == CommandId::Help {
        assert(segments =~= Seq::<Seq<char>>::empty());
        assert(crate::tree::spec_find_root(p[0]) == Some(c));
        assert(walk(c, segments) == Some(c));
    } else {
        assert(spec_app_operations().contains(c)) by {
            assert(spec_app_operations().index(0) == CommandId::AppList);
            assert(spec_app_operations().index(1) == CommandId::AppStatus);
            assert(spec_app_operations().index(2) == CommandId::AppStart);
            assert(spec_app_operations().index(3) == CommandId::AppStop);
            assert(spec_app_operations().index(4) == CommandId::AppRestart);
            assert(spec_app_operations().index(5) == CommandId::AppLogs);
        }
        lemma_find_operation(c);
        assert(segments =~= seq![c.spec_name()]);
        assert(segments.drop_last() =~= Seq::<Seq<char>>::empty());
        assert(p[0] == "app"@);
        assert(crate::tree::spec_find_root(p[0]) == Some(CommandId::App));
        assert(walk(CommandId::App, segments.drop_last()) == Some(CommandId::App));
        assert(walk(CommandId::App, segments) == Some(c));
    }
}

/// A path of one word reads as that word.
proof fn lemma_join_one(a: Seq<char>)
    ensures
        join_words(seq![a]) == a,
{
}

/// A path of two words reads as the words with a space between.
proof fn lemma_join_two(a: Seq<char>, b: Seq<char>)
    ensures
        join_words(seq![a, b]) == a + " "@ + b,
{
    assert(seq![a, b].drop_last() =~= seq![a]);
    lemma_join_one(a);
}

proof fn lemma_usage_of(c: CommandId)
    ensures
        begins_with_words(c.spec_usage(), "sctr "@ + join_words(command_path(c))),
{
    match c {
        CommandId::App => {
            assert(join_words(command_path(CommandId::App)) == "app"@) by {
                lemma_join_one("app"@);
            }
            assert("sctr "@ + ("app"@) == "sctr app"@) by {
                reveal_strlit(" ");
                reveal_strlit("sctr app");
                reveal_strlit("app");
                reveal_strlit("sctr ");
                assert("sctr "@ + ("app"@) =~= "sctr app"@);
            }
            assert("sctr help "@ + ("app"@) == "sctr help app"@) by {
                reveal_strlit(" ");
                reveal_strlit("app");
                reveal_strlit("sctr help app");
                reveal_strlit("sctr help ");
                assert("sctr help "@ + ("app"@) =~= "sctr help app"@);
            }
            assert(begins_with_words("sctr app <list|status|start|stop|restart|logs> [<app>]"@, "sctr app"@)) by {
                reveal_strlit("sctr app <list|status|start|stop|restart|logs> [<app>]");
                reveal_strlit("sctr app");
                assert("sctr app <list|status|start|stop|restart|logs> [<app>]"@.subrange(0, 8) =~= "sctr app"@);
                assert("sctr app <list|status|start|stop|restart|logs> [<app>]"@[8] == ' ');
            }
        },
        CommandId::AppList => {
            assert(join_words(command_path(CommandId::AppList)) == "app"@ + " "@ + "list"@) by {
                lemma_join_two("app"@, "list"@);
            }
            assert("sctr "@ + ("app"@ + " "@ + "list"@) == "sctr app list"@) by {
                reveal_strlit("sctr app list");
                reveal_strlit("list");
                reveal_strlit("app");
                reveal_strlit("sctr ");
                reveal_strlit(" ");
                assert("sctr "@ + ("app"@ + " "@ + "list"@) =~= "sctr app list"@);
            }
            assert("sctr help "@ + ("app"@ + " "@ + "list"@) == "sctr help app list"@) by {
                reveal_strlit("list");
                reveal_strlit("app");
                reveal_strlit("sctr help app list");
                reveal_strlit("sctr help ");
                reveal_strlit(" ");
                assert("sctr help "@ + ("app"@ + " "@ + "list"@) =~= "sctr help app list"@);
            }
            assert(begins_with_words("sctr app list"@, "sctr app list"@)) by {
                reveal_strlit("sctr app list");
                reveal_strlit("sctr app list");
                assert("sctr app list"@.subrange(0, 13) =~= "sctr app list"@);
            }
        },
        CommandId::AppStatus => {
            assert(join_words(command_path(CommandId::AppStatus)) == "app"@ + " "@ + "status"@) by {
                lemma_join_two("app"@, "status"@);
            }
            assert("sctr "@ + ("app"@ + " "@ + "status"@) == "sctr app status"@) by {
                reveal_strlit("app");
                reveal_strlit("sctr app status");
                reveal_strlit("sctr ");
                reveal_strlit(" ");
                reveal_strlit("status");
                assert("sctr "@ + ("app"@ + " "@ + "status"@) =~= "sctr app status"@);
            }
            assert("sctr help "@ + ("app"@ + " "@ + "status"@) == "sctr help app status"@) by {
                reveal_strlit("sctr help app status");
                reveal_strlit("app");
                reveal_strlit("sctr help ");
                reveal_strlit(" ");
                reveal_strlit("status");
                assert("sctr help "@ + ("app"@ + " "@ + "status"@) =~= "sctr help app status"@);
            }
            assert(begins_with_words("sctr app status <app>"@, "sctr app status"@)) by {
                reveal_strlit("sctr app status <app>");
                reveal_strlit("sctr app status");
                assert("sctr app status <app>"@.subrange(0, 15) =~= "sctr app status"@);
                assert("sctr app status <app>"@[15] == ' ');
            }
        },
        CommandId::AppStart => {
            assert(join_words(command_path(CommandId::AppStart)) == "app"@ + " "@ + "start"@) by {
                lemma_join_two("app"@, "start"@);
            }
            assert("sctr "@ + ("app"@ + " "@ + "start"@) == "sctr app start"@) by {
                reveal_strlit("start");
                reveal_strlit("app");
                reveal_strlit("sctr ");
                reveal_strlit(" ");
                reveal_strlit("sctr app start");
                assert("sctr "@ + ("app"@ + " "@ + "start"@) =~= "sctr app start"@);
            }
            assert("sctr help "@ + ("app"@ + " "@ + "start"@) == "sctr help app start"@) by {
                reveal_strlit("start");
                reveal_strlit("sctr help app start");
                reveal_strlit("app");
                reveal_strlit("sctr help ");
                reveal_strlit(" ");
                assert("sctr help "@ + ("app"@ + " "@ + "start"@) =~= "sctr help app start"@);
            }
            assert(begins_with_words("sctr app start <app>"@, "sctr app start"@)) by {
                reveal_strlit("sctr app start <app>");
                reveal_strlit("sctr app start");
                assert("sctr app start <app>"@.subrange(0, 14) =~= "sctr app start"@);
                assert("sctr app start <app>"@[14] == ' ');
            }
        },
        CommandId::AppStop => {
            assert(join_words(command_path(CommandId::AppStop)) == "app"@ + " "@ + "stop"@) by {
                lemma_join_two("app"@, "stop"@);
            }
            assert("sctr "@ + ("app"@ + " "@ + "stop"@) == "sctr app stop"@) by {
                reveal_strlit("app");
                reveal_strlit("sctr app stop");
                reveal_strlit("sctr ");
                reveal_strlit(" ");
                reveal_strlit("stop");
                assert("sctr "@ + ("app"@ + " "@ + "stop"@) =~= "sctr app stop"@);
            }
            assert("sctr help "@ + ("app"@ + " "@ + "stop"@) == "sctr help app stop"@) by {
                reveal_strlit("sctr help app stop");
                reveal_strlit("app");
                reveal_strlit("sctr help ");
                reveal_strlit(" ");
                reveal_strlit("stop");
                assert("sctr help "@ + ("app"@ + " "@ + "stop"@) =~= "sctr help app stop"@);
            }
            assert(begins_with_words("sctr app stop <app>"@, "sctr app stop"@)) by {
                reveal_strlit("sctr app stop <app>");
                reveal_strlit("sctr app stop");
                assert("sctr app stop <app>"@.subrange(0, 13) =~= "sctr app stop"@);
                assert("sctr app stop <app>"@[13] == ' ');
            }
        },
        CommandId::AppRestart => {
            assert(join_words(command_path(CommandId::AppRestart)) == "app"@ + " "@ + "restart"@) by {
                lemma_join_two("app"@, "restart"@);
            }
            assert("sctr "@ + ("app"@ + " "@ + "restart"@) == "sctr app restart"@) by {
                reveal_strlit("sctr app restart");
                reveal_strlit("app");
                reveal_strlit("sctr ");
                reveal_strlit(" ");
                reveal_strlit("restart");
                assert("sctr "@ + ("app"@ + " "@ + "restart"@) =~= "sctr app restart"@);
            }
            assert("sctr help "@ + ("app"@ + " "@ + "restart"@) == "sctr help app restart"@) by {
                reveal_strlit("app");
                reveal_strlit("sctr help ");
                reveal_strlit(" ");
                reveal_strlit("sctr help app restart");
                reveal_strlit("restart");
                assert("sctr help "@ + ("app"@ + " "@ + "restart"@) =~= "sctr help app restart"@);
            }
            assert(begins_with_words("sctr app restart <app>"@, "sctr app restart"@)) by {
                reveal_strlit("sctr app restart <app>");
                reveal_strlit("sctr app restart");
                assert("sctr app restart <app>"@.subrange(0, 16) =~= "sctr app restart"@);
                assert("sctr app restart <app>"@[16] == ' ');
            }
        },
        CommandId::AppLogs => {
            assert(join_words(command_path(CommandId::AppLogs)) == "app"@ + " "@ + "logs"@) by {
                lemma_join_two("app"@, "logs"@);
            }
            assert("sctr "@ + ("app"@ + " "@ + "logs"@) == "sctr app logs"@) by {
                reveal_strlit("logs");
                reveal_strlit("app");
                reveal_strlit("sctr app logs");
                reveal_strlit("sctr ");
                reveal_strlit(" ");
                assert("sctr "@ + ("app"@ + " "@ + "logs"@) =~= "sctr app logs"@);
            }
            assert("sctr help "@ + ("app"@ + " "@ + "logs"@) == "sctr help app logs"@) by {
                reveal_strlit("logs");
                reveal_strlit("sctr help app logs");
                reveal_strlit("app");
                reveal_strlit("sctr help ");
                reveal_strlit(" ");
                assert("sctr help "@ + ("app"@ + " "@ + "logs"@) =~= "sctr help app logs"@);
            }
            assert(begins_with_words("sctr app logs <app>"@, "sctr app logs"@)) by {
                reveal_strlit("sctr app logs <app>");
                reveal_strlit("sctr app logs");
                assert("sctr app logs <app>"@.subrange(0, 13) =~= "sctr app logs"@);
                assert("sctr app logs <app>"@[13] == ' ');
            }
        },
        CommandId::Help => {
            assert(join_words(command_path(CommandId::Help)) == "help"@) by {
                lemma_join_one("help"@);
            }
            assert("sctr "@ + ("help"@) == "sctr help"@) by {
                reveal_strlit(" ");
                reveal_strlit("help");
                reveal_strlit("sctr help");
                reveal_strlit("sctr ");
                assert("sctr "@ + ("help"@) =~= "sctr help"@);
            }
            assert("sctr help "@ + ("help"@) == "sctr help help"@) by {
                reveal_strlit(" ");
                reveal_strlit("sctr help help");
                reveal_strlit("help");
                reveal_strlit("sctr help ");
                assert("sctr help "@ + ("help"@) =~= "sctr help help"@);
            }
            assert(begins_with_words("sctr help [command [operation]]"@, "sctr help"@)) by {
                reveal_strlit("sctr help [command [operation]]");
                reveal_strlit("sctr help");
                assert("sctr help [command [operation]]"@.subrange(0, 9) =~= "sctr help"@);
                assert("sctr help [command [operation]]"@[9] == ' ');
            }
        },
    }
}

/// The usage of every command starts with `sctr` and the words that reach the
/// command in the help tree.
pub proof fn lemma_usage_names_the_command(path: Seq<Seq<char>>, c: CommandId)
    requires
        spec_find_command(path) == Some(c),
    ensures
        begins_with_words(c.spec_usage(), "sctr "@ + join_words(path)),
{
    lemma_paths_name_commands(path, c);
    lemma_usage_of(c);
}

/// The usage of an operation of `app` is `sctr app`, the operation's own
/// name and, for every operation but `list`, the application it acts on.
pub proof fn lemma_operation_usage(op: CommandId)
    requires
        spec_app_operations().contains(op),
    ensures
        op == CommandId::AppList ==> op.spec_usage() == "sctr app "@ + op.spec_name(),
        op != CommandId::AppList ==> op.spec_usage() == "sctr app "@ + op.spec_name() + " <app>"@,
{
    match op {
        CommandId::AppList => {
            reveal_strlit("sctr app ");
            reveal_strlit(" <app>");
            reveal_strlit("list");
            reveal_strlit("sctr app list");
            assert("sctr app "@ + "list"@ =~= "sctr app list"@);
        },
        CommandId::AppStatus => {
            reveal_strlit("sctr app ");
            reveal_strlit(" <app>");
            reveal_strlit("status");
            reveal_strlit("sctr app status <app>");
            assert("sctr app "@ + "status"@ + " <app>"@ =~= "sctr app status <app>"@);
        },
        CommandId::AppStart => {
            reveal_strlit("sctr app ");
            reveal_strlit(" <app>");
            reveal_strlit("start");
            reveal_strlit("sctr app start <app>");
            assert("sctr app "@ + "start"@ + " <app>"@ =~= "sctr app start <app>"@);
        },
        CommandId::AppStop => {
            reveal_strlit("sctr app ");
            reveal_strlit(" <app>");
            reveal_strlit("stop");
            reveal_strlit("sctr app stop <app>");
            assert("sctr app "@ + "stop"@ + " <app>"@ =~= "sctr app stop <app>"@);
        },
        CommandId::AppRestart => {
            reveal_strlit("sctr app ");
            reveal_strlit(" <app>");
            reveal_strlit("restart");
            reveal_strlit("sctr app restart <app>");
            assert("sctr app "@ + "restart"@ + " <app>"@ =~= "sctr app restart <app>"@);
        },
        CommandId::AppLogs => {
            reveal_strlit("sctr app ");
            reveal_strlit(" <app>");
            reveal_strlit("logs");
            reveal_strlit("sctr app logs <app>");
            assert("sctr app "@ + "logs"@ + " <app>"@ =~= "sctr app logs <app>"@);
        },
        _ => {},
    }
}

proof fn lemma_examples_of(c: CommandId)
    ensures
        forall|i: int|
            0 <= i < c.spec_examples().len() ==> begins_with_words(
                #[trigger] c.spec_examples()[i],
                "sctr "@ + join_words(command_path(c)),
            ) || begins_with_words(
                c.spec_examples()[i],
                "sctr help "@ + join_words(command_path(c)),
            ),
{
    match c {
        CommandId::App => {
            assert(join_words(command_path(CommandId::App)) == "app"@) by {
                lemma_join_one("app"@);
            }
            assert("sctr "@ + ("app"@) == "sctr app"@) by {
                reveal_strlit(" ");
                reveal_strlit("sctr app");
                reveal_strlit("app");
                reveal_strlit("sctr ");
                assert("sctr "@ + ("app"@) =~= "sctr app"@);
            }
            assert("sctr help "@ + ("app"@) == "sctr help app"@) by {
                reveal_strlit(" ");
                reveal_strlit("app");
                reveal_strlit("sctr help app");
                reveal_strlit("sctr help ");
                assert("sctr help "@ + ("app"@) =~= "sctr help app"@);
            }
            assert(begins_with_words("sctr app list"@, "sctr app"@)) by {
                reveal_strlit("sctr app list");
                reveal_strlit("sctr app");
                assert("sctr app list"@.subrange(0, 8) =~= "sctr app"@);
                assert("sctr app list"@[8] == ' ');
            }
            assert(begins_with_words("sctr help app restart"@, "sctr help app"@)) by {
                reveal_strlit("sctr help app restart");
                reveal_strlit("sctr help app");
                assert("sctr help app restart"@.subrange(0, 13) =~= "sctr help app"@);
                assert("sctr help app restart"@[13] == ' ');
            }
        },
        CommandId::AppList => {
            assert(join_words(command_path(CommandId::AppList)) == "app"@ + " "@ + "list"@) by {
                lemma_join_two("app"@, "list"@);
            }
            assert("sctr "@ + ("app"@ + " "@ + "list"@) == "sctr app list"@) by {
                reveal_strlit("sctr app list");
                reveal_strlit("list");
                reveal_strlit("app");
                reveal_strlit("sctr ");
                reveal_strlit(" ");
                assert("sctr "@ + ("app"@ + " "@ + "list"@) =~= "sctr app list"@);
            }
            assert("sctr help "@ + ("app"@ + " "@ + "list"@) == "sctr help app list"@) by {
                reveal_strlit("list");
                reveal_strlit("app");
                reveal_strlit("sctr help app list");
                reveal_strlit("sctr help ");
                reveal_strlit(" ");
                assert("sctr help "@ + ("app"@ + " "@ + "list"@) =~= "sctr help app list"@);
            }
            assert(begins_with_words("sctr app list"@, "sctr app list"@)) by {
                reveal_strlit("sctr app list");
                reveal_strlit("sctr app list");
                assert("sctr app list"@.subrange(0, 13) =~= "sctr app list"@);
            }
        },
        CommandId::AppStatus => {
            assert(join_words(command_path(CommandId::AppStatus)) == "app"@ + " "@ + "status"@) by {
                lemma_join_two("app"@, "status"@);
            }
            assert("sctr "@ + ("app"@ + " "@ + "status"@) == "sctr app status"@) by {
                reveal_strlit("app");
                reveal_strlit("sctr app status");
                reveal_strlit("sctr ");
                reveal_strlit(" ");
                reveal_strlit("status");
                assert("sctr "@ + ("app"@ + " "@ + "status"@) =~= "sctr app status"@);
            }
            assert("sctr help "@ + ("app"@ + " "@ + "status"@) == "sctr help app status"@) by {
                reveal_strlit("sctr help app status");
                reveal_strlit("app");
                reveal_strlit("sctr help ");
                reveal_strlit(" ");
                reveal_strlit("status");
                assert("sctr help "@ + ("app"@ + " "@ + "status"@) =~= "sctr help app status"@);
            }
            assert(begins_with_words("sctr app status api"@, "sctr app status"@)) by {
                reveal_strlit("sctr app status api");
                reveal_strlit("sctr app status");
                assert("sctr app status api"@.subrange(0, 15) =~= "sctr app status"@);
                assert("sctr app status api"@[15] == ' ');
            }
        },
        CommandId::AppStart => {
            assert(join_words(command_path(CommandId::AppStart)) == "app"@ + " "@ + "start"@) by {
                lemma_join_two("app"@, "start"@);
            }
            assert("sctr "@ + ("app"@ + " "@ + "start"@) == "sctr app start"@) by {
                reveal_strlit("start");
                reveal_strlit("app");
                reveal_strlit("sctr ");
                reveal_strlit(" ");
                reveal_strlit("sctr app start");
                assert("sctr "@ + ("app"@ + " "@ + "start"@) =~= "sctr app start"@);
            }
            assert("sctr help "@ + ("app"@ + " "@ + "start"@) == "sctr help app start"@) by {
                reveal_strlit("start");
                reveal_strlit("sctr help app start");
                reveal_strlit("app");
                reveal_strlit("sctr help ");
                reveal_strlit(" ");
                assert("sctr help "@ + ("app"@ + " "@ + "start"@) =~= "sctr help app start"@);
            }
            assert(begins_with_words("sctr app start api"@, "sctr app start"@)) by {
                reveal_strlit("sctr app start api");
                reveal_strlit("sctr app start");
                assert("sctr app start api"@.subrange(0, 14) =~= "sctr app start"@);
                assert("sctr app start api"@[14] == ' ');
            }
        },
        CommandId::AppStop => {
            assert(join_words(command_path(CommandId::AppStop)) == "app"@ + " "@ + "stop"@) by {
                lemma_join_two("app"@, "stop"@);
            }
            assert("sctr "@ + ("app"@ + " "@ + "stop"@) == "sctr app stop"@) by {
                reveal_strlit("app");
                reveal_strlit("sctr app stop");
                reveal_strlit("sctr ");
                reveal_strlit(" ");
                reveal_strlit("stop");
                assert("sctr "@ + ("app"@ + " "@ + "stop"@) =~= "sctr app stop"@);
            }
            assert("sctr help "@ + ("app"@ + " "@ + "stop"@) == "sctr help app stop"@) by {
                reveal_strlit("sctr help app stop");
                reveal_strlit("app");
                reveal_strlit("sctr help ");
                reveal_strlit(" ");
                reveal_strlit("stop");
                assert("sctr help "@ + ("app"@ + " "@ + "stop"@) =~= "sctr help app stop"@);
            }
            assert(begins_with_words("sctr app stop worker"@, "sctr app stop"@)) by {
                reveal_strlit("sctr app stop worker");
                reveal_strlit("sctr app stop");
                assert("sctr app stop worker"@.subrange(0, 13) =~= "sctr app stop"@);
                assert("sctr app stop worker"@[13] == ' ');
            }
        },
        CommandId::AppRestart => {
            assert(join_words(command_path(CommandId::AppRestart)) == "app"@ + " "@ + "restart"@) by {
                lemma_join_two("app"@, "restart"@);
            }
            assert("sctr "@ + ("app"@ + " "@ + "restart"@) == "sctr app restart"@) by {
                reveal_strlit("sctr app restart");
                reveal_strlit("app");
                reveal_strlit("sctr ");
                reveal_strlit(" ");
                reveal_strlit("restart");
                assert("sctr "@ + ("app"@ + " "@ + "restart"@) =~= "sctr app restart"@);
            }
            assert("sctr help "@ + ("app"@ + " "@ + "restart"@) == "sctr help app restart"@) by {
                reveal_strlit("app");
                reveal_strlit("sctr help ");
                reveal_strlit(" ");
                reveal_strlit("sctr help app restart");
                reveal_strlit("restart");
                assert("sctr help "@ + ("app"@ + " "@ + "restart"@) =~= "sctr help app restart"@);
            }
            assert(begins_with_words("sctr app restart api"@, "sctr app restart"@)) by {
                reveal_strlit("sctr app restart api");
                reveal_strlit("sctr app restart");
                assert("sctr app restart api"@.subrange(0, 16) =~= "sctr app restart"@);
                assert("sctr app restart api"@[16] == ' ');
            }
        },
        CommandId::AppLogs => {
            assert(join_words(command_path(CommandId::AppLogs)) == "app"@ + " "@ + "logs"@) by {
                lemma_join_two("app"@, "logs"@);
            }
            assert("sctr "@ + ("app"@ + " "@ + "logs"@) == "sctr app logs"@) by {
                reveal_strlit("logs");
                reveal_strlit("app");
                reveal_strlit("sctr app logs");
                reveal_strlit("sctr ");
                reveal_strlit(" ");
                assert("sctr "@ + ("app"@ + " "@ + "logs"@) =~= "sctr app logs"@);
            }
            assert("sctr help "@ + ("app"@ + " "@ + "logs"@) == "sctr help app logs"@) by {
                reveal_strlit("logs");
                reveal_strlit("sctr help app logs");
                reveal_strlit("app");
                reveal_strlit("sctr help ");
                reveal_strlit(" ");
                assert("sctr help "@ + ("app"@ + " "@ + "logs"@) =~= "sctr help app logs"@);
            }
            assert(begins_with_words("sctr app logs api"@, "sctr app logs"@)) by {
                reveal_strlit("sctr app logs api");
                reveal_strlit("sctr app logs");
                assert("sctr app logs api"@.subrange(0, 13) =~= "sctr app logs"@);
                assert("sctr app logs api"@[13] == ' ');
            }
        },
        CommandId::Help => {
            assert(join_words(command_path(CommandId::Help)) == "help"@) by {
                lemma_join_one("help"@);
            }
            assert("sctr "@ + ("help"@) == "sctr help"@) by {
                reveal_strlit(" ");
                reveal_strlit("help");
                reveal_strlit("sctr help");
                reveal_strlit("sctr ");
                assert("sctr "@ + ("help"@) =~= "sctr help"@);
            }
            assert("sctr help "@ + ("help"@) == "sctr help help"@) by {
                reveal_strlit(" ");
                reveal_strlit("sctr help help");
                reveal_strlit("help");
                reveal_strlit("sctr help ");
                assert("sctr help "@ + ("help"@) =~= "sctr help help"@);
            }
            assert(begins_with_words("sctr help"@, "sctr help"@)) by {
                reveal_strlit("sctr help");
                reveal_strlit("sctr help");
                assert("sctr help"@.subrange(0, 9) =~= "sctr help"@);
            }
            assert(begins_with_words("sctr help app"@, "sctr help"@)) by {
                reveal_strlit("sctr help app");
                reveal_strlit("sctr help");
                assert("sctr help app"@.subrange(0, 9) =~= "sctr help"@);
                assert("sctr help app"@[9] == ' ');
            }
            assert(begins_with_words("sctr help app start"@, "sctr help"@)) by {
                reveal_strlit("sctr help app start");
                reveal_strlit("sctr help");
                assert("sctr help app start"@.subrange(0, 9) =~= "sctr help"@);
                assert("sctr help app start"@[9] == ' ');
            }
        },
    }
}

/// Every example in a command's briefing invokes that command: it starts
/// with `sctr` and the words that reach the command, or asks `sctr help`
/// about those words.
pub proof fn lemma_examples_invoke_the_command(path: Seq<Seq<char>>, c: CommandId)
    requires
        spec_find_command(path) == Some(c),
    ensures
        forall|i: int|
            0 <= i < c.spec_examples().len() ==> begins_with_words(
                #[trigger] c.spec_examples()[i],
                "sctr "@ + join_words(path),
            ) || begins_with_words(c.spec_examples()[i], "sctr help "@ + join_words(path)),
{
    lemma_paths_name_commands(path, c);
    lemma_examples_of(c);
}

/// `start`, `stop` and `restart` queue the systemd job of their own name
/// (`StartUnit`, `StopUnit`, `RestartUnit`) and require that the application
/// allow that same operation.
pub proof fn lemma_job_operations_name_their_job(op: CommandId)
    requires
        op == CommandId::AppStart || op == CommandId::AppStop || op == CommandId::AppRestart,
    ensures
        op.spec_effects().len() > 0,
        op.spec_effects()[0] == "Queues "@ + systemd_job(op.spec_name())
            + " for the exact registered unit and awaits the matching job result."@,
        op.spec_prerequisites().len() > 0,
        op.spec_prerequisites()[0] == "The application must belong to the authenticated tenant and allow "@
            + op.spec_name() + "."@,
{
    match op {
        CommandId::AppStart => {
            assert(systemd_job("start"@) == "StartUnit"@) by {
                reveal_strlit("start");
                reveal_strlit("Start");
                reveal_strlit("tart");
                reveal_strlit("Unit");
                reveal_strlit("StartUnit");
                assert("start"@.drop_first() =~= "tart"@);
                assert(ascii_upper("start"@[0]) == 'S');
                assert(capitalized("start"@) =~= "Start"@);
                assert("Start"@ + "Unit"@ =~= "StartUnit"@);
            }
            assert("Queues "@ + "StartUnit"@ + " for the exact registered unit and awaits the matching job result."@ == "Queues StartUnit for the exact registered unit and awaits the matching job result."@) by {
                reveal_strlit("Queues ");
                reveal_strlit("StartUnit");
                reveal_strlit(" for the exact registered unit and awaits the matching job result.");
                reveal_strlit("Queues StartUnit for the exact registered unit and awaits the matching job result.");
                assert("Queues "@ + "StartUnit"@ + " for the exact registered unit and awaits the matching job result."@ =~= "Queues StartUnit for the exact registered unit and awaits the matching job result."@);
            }
            assert("The application must belong to the authenticated tenant and allow "@ + "start"@ + "."@ == "The application must belong to the authenticated tenant and allow start."@) by {
                reveal_strlit("The application must belong to the authenticated tenant and allow ");
                reveal_strlit("start");
                reveal_strlit(".");
                reveal_strlit("The application must belong to the authenticated tenant and allow start.");
                assert("The application must belong to the authenticated tenant and allow "@ + "start"@ + "."@ =~= "The application must belong to the authenticated tenant and allow start."@);
            }
        },
        CommandId::AppStop => {
            assert(systemd_job("stop"@) == "StopUnit"@) by {
                reveal_strlit("stop");
                reveal_strlit("Stop");
                reveal_strlit("top");
                reveal_strlit("Unit");
                reveal_strlit("StopUnit");
                assert("stop"@.drop_first() =~= "top"@);
                assert(ascii_upper("stop"@[0]) == 'S');
                assert(capitalized("stop"@) =~= "Stop"@);
                assert("Stop"@ + "Unit"@ =~= "StopUnit"@);
            }
            assert("Queues "@ + "StopUnit"@ + " for the exact registered unit and awaits the matching job result."@ == "Queues StopUnit for the exact registered unit and awaits the matching job result."@) by {
                reveal_strlit("Queues ");
                reveal_strlit("StopUnit");
                reveal_strlit(" for the exact registered unit and awaits the matching job result.");
                reveal_strlit("Queues StopUnit for the exact registered unit and awaits the matching job result.");
                assert("Queues "@ + "StopUnit"@ + " for the exact registered unit and awaits the matching job result."@ =~= "Queues StopUnit for the exact registered unit and awaits the matching job result."@);
            }
            assert("The application must belong to the authenticated tenant and allow "@ + "stop"@ + "."@ == "The application must belong to the authenticated tenant and allow stop."@) by {
                reveal_strlit("The application must belong to the authenticated tenant and allow ");
                reveal_strlit("stop");
                reveal_strlit(".");
                reveal_strlit("The application must belong to the authenticated tenant and allow stop.");
                assert("The application must belong to the authenticated tenant and allow "@ + "stop"@ + "."@ =~= "The application must belong to the authenticated tenant and allow stop."@);
            }
        },
        CommandId::AppRestart => {
            assert(systemd_job("restart"@) == "RestartUnit"@) by {
                reveal_strlit("restart");
                reveal_strlit("Restart");
                reveal_strlit("estart");
                reveal_strlit("Unit");
                reveal_strlit("RestartUnit");
                assert("restart"@.drop_first() =~= "estart"@);
                assert(ascii_upper("restart"@[0]) == 'R');
                assert(capitalized("restart"@) =~= "Restart"@);
                assert("Restart"@ + "Unit"@ =~= "RestartUnit"@);
            }
            assert("Queues "@ + "RestartUnit"@ + " for the exact registered unit and awaits the matching job result."@ == "Queues RestartUnit for the exact registered unit and awaits the matching job result."@) by {
                reveal_strlit("Queues ");
                reveal_strlit("RestartUnit");
                reveal_strlit(" for the exact registered unit and awaits the matching job result.");
                reveal_strlit("Queues RestartUnit for the exact registered unit and awaits the matching job result.");
                assert("Queues "@ + "RestartUnit"@ + " for the exact registered unit and awaits the matching job result."@ =~= "Queues RestartUnit for the exact registered unit and awaits the matching job result."@);
            }
            assert("The application must belong to the authenticated tenant and allow "@ + "restart"@ + "."@ == "The application must belong to the authenticated tenant and allow restart."@) by {
                reveal_strlit("The application must belong to the authenticated tenant and allow ");
                reveal_strlit("restart");
                reveal_strlit(".");
                reveal_strlit("The application must belong to the authenticated tenant and allow restart.");
                assert("The application must belong to the authenticated tenant and allow "@ + "restart"@ + "."@ =~= "The application must belong to the authenticated tenant and allow restart."@);
            }
        },
        _ => {},
    }
}

/// Each operation of `app` tells of itself: its summary opens with its name
/// in capitals (`List applications ...`) or mentions its name as a word, and
/// its role names the operation as a word, except for `status`, whose role
/// speaks of service state.
pub proof fn lemma_operations_describe_themselves(op: CommandId)
    requires
        spec_app_operations().contains(op),
    ensures
        begins_with_words(op.spec_summary(), capitalized(op.spec_name())) || contains_block(
            op.spec_summary(),
            " "@ + op.spec_name() + " "@,
        ),
        op != CommandId::AppStatus ==> contains_block(op.spec_role(), " "@ + op.spec_name() + " "@),
{
    match op {
        CommandId::AppList => {
            assert(capitalized("list"@) == "List"@) by {
                reveal_strlit("list");
                reveal_strlit("List");
                reveal_strlit("ist");
                assert("list"@.drop_first() =~= "ist"@);
                assert(ascii_upper("list"@[0]) == 'L');
                assert(seq![ascii_upper("list"@[0])] + "ist"@ =~= "List"@);
            }
            assert(begins_with_words("List applications visible to the authenticated tenant"@, "List"@)) by {
                reveal_strlit("List applications visible to the authenticated tenant");
                reveal_strlit("List");
                assert("List applications visible to the authenticated tenant"@.subrange(0, 4) =~= "List"@);
                assert("List applications visible to the authenticated tenant"@[4] == ' ');
            }
            assert(contains_block("Resolve the authenticated tenant and list only applications owned by that tenant."@, " "@ + "list"@ + " "@)) by {
                reveal_strlit("Resolve the authenticated tenant and list only applications owned by that tenant.");
                reveal_strlit(" ");
                reveal_strlit("list");
                assert("Resolve the authenticated tenant and list only applications owned by that tenant."@.subrange(36, 36 + (" "@ + "list"@ + " "@).len() as int) =~= " "@ + "list"@ + " "@);
            }
        },
        CommandId::AppStatus => {
            assert(capitalized("status"@) == "Status"@) by {
                reveal_strlit("status");
                reveal_strlit("Status");
                reveal_strlit("tatus");
                assert("status"@.drop_first() =~= "tatus"@);
                assert(ascii_upper("status"@[0]) == 'S');
                assert(seq![ascii_upper("status"@[0])] + "tatus"@ =~= "Status"@);
            }
            assert(contains_block("Show status for one registered application"@, " "@ + "status"@ + " "@)) by {
                reveal_strlit("Show status for one registered application");
                reveal_strlit(" ");
                reveal_strlit("status");
                assert("Show status for one registered application"@.subrange(4, 4 + (" "@ + "status"@ + " "@).len() as int) =~= " "@ + "status"@ + " "@);
            }
        },
        CommandId::AppStart => {
            assert(capitalized("start"@) == "Start"@) by {
                reveal_strlit("start");
                reveal_strlit("Start");
                reveal_strlit("tart");
                assert("start"@.drop_first() =~= "tart"@);
                assert(ascii_upper("start"@[0]) == 'S');
                assert(seq![ascii_upper("start"@[0])] + "tart"@ =~= "Start"@);
            }
            assert(begins_with_words("Start one registered application"@, "Start"@)) by {
                reveal_strlit("Start one registered application");
                reveal_strlit("Start");
                assert("Start one registered application"@.subrange(0, 5) =~= "Start"@);
                assert("Start one registered application"@[5] == ' ');
            }
            assert(contains_block("Authorize a tenant application and start its exact registered systemd unit."@, " "@ + "start"@ + " "@)) by {
                reveal_strlit("Authorize a tenant application and start its exact registered systemd unit.");
                reveal_strlit(" ");
                reveal_strlit("start");
                assert("Authorize a tenant application and start its exact registered systemd unit."@.subrange(34, 34 + (" "@ + "start"@ + " "@).len() as int) =~= " "@ + "start"@ + " "@);
            }
        },
        CommandId::AppStop => {
            assert(capitalized("stop"@) == "Stop"@) by {
                reveal_strlit("stop");
                reveal_strlit("Stop");
                reveal_strlit("top");
                assert("stop"@.drop_first() =~= "top"@);
                assert(ascii_upper("stop"@[0]) == 'S');
                assert(seq![ascii_upper("stop"@[0])] + "top"@ =~= "Stop"@);
            }
            assert(begins_with_words("Stop one registered application"@, "Stop"@)) by {
                reveal_strlit("Stop one registered application");
                reveal_strlit("Stop");
                assert("Stop one registered application"@.subrange(0, 4) =~= "Stop"@);
                assert("Stop one registered application"@[4] == ' ');
            }
            assert(contains_block("Authorize a tenant application and stop its complete systemd service cgroup."@, " "@ + "stop"@ + " "@)) by {
                reveal_strlit("Authorize a tenant application and stop its complete systemd service cgroup.");
                reveal_strlit(" ");
                reveal_strlit("stop");
                assert("Authorize a tenant application and stop its complete systemd service cgroup."@.subrange(34, 34 + (" "@ + "stop"@ + " "@).len() as int) =~= " "@ + "stop"@ + " "@);
            }
        },
        CommandId::AppRestart => {
            assert(capitalized("restart"@) == "Restart"@) by {
                reveal_strlit("restart");
                reveal_strlit("Restart");
                reveal_strlit("estart");
                assert("restart"@.drop_first() =~= "estart"@);
                assert(ascii_upper("restart"@[0]) == 'R');
                assert(seq![ascii_upper("restart"@[0])] + "estart"@ =~= "Restart"@);
            }
            assert(begins_with_words("Restart one registered application"@, "Restart"@)) by {
                reveal_strlit("Restart one registered application");
                reveal_strlit("Restart");
                assert("Restart one registered application"@.subrange(0, 7) =~= "Restart"@);
                assert("Restart one registered application"@[7] == ' ');
            }
            assert(contains_block("Authorize a tenant application and restart its exact registered systemd unit."@, " "@ + "restart"@ + " "@)) by {
                reveal_strlit("Authorize a tenant application and restart its exact registered systemd unit.");
                reveal_strlit(" ");
                reveal_strlit("restart");
                assert("Authorize a tenant application and restart its exact registered systemd unit."@.subrange(34, 34 + (" "@ + "restart"@ + " "@).len() as int) =~= " "@ + "restart"@ + " "@);
            }
        },
        CommandId::AppLogs => {
            assert(capitalized("logs"@) == "Logs"@) by {
                reveal_strlit("logs");
                reveal_strlit("Logs");
                reveal_strlit("ogs");
                assert("logs"@.drop_first() =~= "ogs"@);
                assert(ascii_upper("logs"@[0]) == 'L');
                assert(seq![ascii_upper("logs"@[0])] + "ogs"@ =~= "Logs"@);
            }
            assert(contains_block("Read bounded logs for one registered application"@, " "@ + "logs"@ + " "@)) by {
                reveal_strlit("Read bounded logs for one registered application");
                reveal_strlit(" ");
                reveal_strlit("logs");
                assert("Read bounded logs for one registered application"@.subrange(12, 12 + (" "@ + "logs"@ + " "@).len() as int) =~= " "@ + "logs"@ + " "@);
            }
            assert(contains_block("Resolve one tenant-owned application and read logs scoped to its exact unit."@, " "@ + "logs"@ + " "@)) by {
                reveal_strlit("Resolve one tenant-owned application and read logs scoped to its exact unit.");
                reveal_strlit(" ");
                reveal_strlit("logs");
                assert("Resolve one tenant-owned application and read logs scoped to its exact unit."@.subrange(45, 45 + (" "@ + "logs"@ + " "@).len() as int) =~= " "@ + "logs"@ + " "@);
            }
        },
        _ => {},
    }
}

/// No two commands share a summary, a usage, a role, a next action or a
/// first effect: each briefing tells of its own command.
pub proof fn lemma_commands_are_told_apart(c1: CommandId, c2: CommandId)
    requires
        c1 != c2,
    ensures
        c1.spec_summary() != c2.spec_summary(),
        c1.spec_usage() != c2.spec_usage(),
        c1.spec_role() != c2.spec_role(),
        c1.spec_next_action() != c2.spec_next_action(),
        c1.spec_effects()[0] != c2.spec_effects()[0],
{
    reveal_strlit("Inspect and control registered tenant applications");
    reveal_strlit("List applications visible to the authenticated tenant");
    reveal_strlit("Show status for one registered application");
    reveal_strlit("Start one registered application");
    reveal_strlit("Stop one registered application");
    reveal_strlit("Restart one registered application");
    reveal_strlit("Read bounded logs for one registered application");
    reveal_strlit("Show the SCTR operational command briefing");
    assert("Inspect and control registered tenant applications"@.len() != "List applications visible to the authenticated tenant"@.len());
    assert("Inspect and control registered tenant applications"@.len() != "Show status for one registered application"@.len());
    assert("Inspect and control registered tenant applications"@.len() != "Start one registered application"@.len());
    assert("Inspect and control registered tenant applications"@.len() != "Stop one registered application"@.len());
    assert("Inspect and control registered tenant applications"@.len() != "Restart one registered application"@.len());
    assert("Inspect and control registered tenant applications"@.len() != "Read bounded logs for one registered application"@.len());
    assert("Inspect and control registered tenant applications"@.len() != "Show the SCTR operational command briefing"@.len());
    assert("List applications visible to the authenticated tenant"@.len() != "Show status for one registered application"@.len());
    assert("List applications visible to the authenticated tenant"@.len() != "Start one registered application"@.len());
    assert("List applications visible to the authenticated tenant"@.len() != "Stop one registered application"@.len());
    assert("List applications visible to the authenticated tenant"@.len() != "Restart one registered application"@.len());
    assert("List applications visible to the authenticated tenant"@.len() != "Read bounded logs for one registered application"@.len());
    assert("List applications visible to the authenticated tenant"@.len() != "Show the SCTR operational command briefing"@.len());
    assert("Show status for one registered application"@.len() != "Start one registered application"@.len());
    assert("Show status for one registered application"@.len() != "Stop one registered application"@.len());
    assert("Show status for one registered application"@.len() != "Restart one registered application"@.len());
    assert("Show status for one registered application"@.len() != "Read bounded logs for one registered application"@.len());
    assert("Show status for one registered application"@[5] != "Show the SCTR operational command briefing"@[5]);
    assert("Start one registered application"@.len() != "Stop one registered application"@.len());
    assert("Start one registered application"@.len() != "Restart one registered application"@.len());
    assert("Start one registered application"@.len() != "Read bounded logs for one registered application"@.len());
    assert("Start one registered application"@.len() != "Show the SCTR operational command briefing"@.len());
    assert("Stop one registered application"@.len() != "Restart one registered application"@.len());
    assert("Stop one registered application"@.len() != "Read bounded logs for one registered application"@.len());
    assert("Stop one registered application"@.len() != "Show the SCTR operational command briefing"@.len());
    assert("Restart one registered application"@.len() != "Read bounded logs for one registered application"@.len());
    assert("Restart one registered application"@.len() != "Show the SCTR operational command briefing"@.len());
    assert("Read bounded logs for one registered application"@.len() != "Show the SCTR operational command briefing"@.len());
    reveal_strlit("sctr app <list|status|start|stop|restart|logs> [<app>]");
    reveal_strlit("sctr app list");
    reveal_strlit("sctr app status <app>");
    reveal_strlit("sctr app start <app>");
    reveal_strlit("sctr app stop <app>");
    reveal_strlit("sctr app restart <app>");
    reveal_strlit("sctr app logs <app>");
    reveal_strlit("sctr help [command [operation]]");
    assert("sctr app <list|status|start|stop|restart|logs> [<app>]"@.len() != "sctr app list"@.len());
    assert("sctr app <list|status|start|stop|restart|logs> [<app>]"@.len() != "sctr app status <app>"@.len());
    assert("sctr app <list|status|start|stop|restart|logs> [<app>]"@.len() != "sctr app start <app>"@.len());
    assert("sctr app <list|status|start|stop|restart|logs> [<app>]"@.len() != "sctr app stop <app>"@.len());
    assert("sctr app <list|status|start|stop|restart|logs> [<app>]"@.len() != "sctr app restart <app>"@.len());
    assert("sctr app <list|status|start|stop|restart|logs> [<app>]"@.len() != "sctr app logs <app>"@.len());
    assert("sctr app <list|status|start|stop|restart|logs> [<app>]"@.len() != "sctr help [command [operation]]"@.len());
    assert("sctr app list"@.len() != "sctr app status <app>"@.len());
    assert("sctr app list"@.len() != "sctr app start <app>"@.len());
    assert("sctr app list"@.len() != "sctr app stop <app>"@.len());
    assert("sctr app list"@.len() != "sctr app restart <app>"@.len());
    assert("sctr app list"@.len() != "sctr app logs <app>"@.len());
    assert("sctr app list"@.len() != "sctr help [command [operation]]"@.len());
    assert("sctr app status <app>"@.len() != "sctr app start <app>"@.len());
    assert("sctr app status <app>"@.len() != "sctr app stop <app>"@.len());
    assert("sctr app status <app>"@.len() != "sctr app restart <app>"@.len());
    assert("sctr app status <app>"@.len() != "sctr app logs <app>"@.len());
    assert("sctr app status <app>"@.len() != "sctr help [command [operation]]"@.len());
    assert("sctr app start <app>"@.len() != "sctr app stop <app>"@.len());
    assert("sctr app start <app>"@.len() != "sctr app restart <app>"@.len());
    assert("sctr app start <app>"@.len() != "sctr app logs <app>"@.len());
    assert("sctr app start <app>"@.len() != "sctr help [command [operation]]"@.len());
    assert("sctr app stop <app>"@.len() != "sctr app restart <app>"@.len());
    assert("sctr app stop <app>"@[9] != "sctr app logs <app>"@[9]);
    assert("sctr app stop <app>"@.len() != "sctr help [command [operation]]"@.len());
    assert("sctr app restart <app>"@.len() != "sctr app logs <app>"@.len());
    assert("sctr app restart <app>"@.len() != "sctr help [command [operation]]"@.len());
    assert("sctr app logs <app>"@.len() != "sctr help [command [operation]]"@.len());
    reveal_strlit("Expose the narrow application lifecycle contract without becoming a generic systemd proxy.");
    reveal_strlit("Resolve the authenticated tenant and list only applications owned by that tenant.");
    reveal_strlit("Resolve one tenant-owned application to its exact unit and return scoped service state.");
    reveal_strlit("Authorize a tenant application and start its exact registered systemd unit.");
    reveal_strlit("Authorize a tenant application and stop its complete systemd service cgroup.");
    reveal_strlit("Authorize a tenant application and restart its exact registered systemd unit.");
    reveal_strlit("Resolve one tenant-owned application and read logs scoped to its exact unit.");
    reveal_strlit("Explain the command contract, security boundary, side effects, and next valid action before execution.");
    assert("Expose the narrow application lifecycle contract without becoming a generic systemd proxy."@.len() != "Resolve the authenticated tenant and list only applications owned by that tenant."@.len());
    assert("Expose the narrow application lifecycle contract without becoming a generic systemd proxy."@.len() != "Resolve one tenant-owned application to its exact unit and return scoped service state."@.len());
    assert("Expose the narrow application lifecycle contract without becoming a generic systemd proxy."@.len() != "Authorize a tenant application and start its exact registered systemd unit."@.len());
    assert("Expose the narrow application lifecycle contract without becoming a generic systemd proxy."@.len() != "Authorize a tenant application and stop its complete systemd service cgroup."@.len());
    assert("Expose the narrow application lifecycle contract without becoming a generic systemd proxy."@.len() != "Authorize a tenant application and restart its exact registered systemd unit."@.len());
    assert("Expose the narrow application lifecycle contract without becoming a generic systemd proxy."@.len() != "Resolve one tenant-owned application and read logs scoped to its exact unit."@.len());
    assert("Expose the narrow application lifecycle contract without becoming a generic systemd proxy."@.len() != "Explain the command contract, security boundary, side effects, and next valid action before execution."@.len());
    assert("Resolve the authenticated tenant and list only applications owned by that tenant."@.len() != "Resolve one tenant-owned application to its exact unit and return scoped service state."@.len());
    assert("Resolve the authenticated tenant and list only applications owned by that tenant."@.len() != "Authorize a tenant application and start its exact registered systemd unit."@.len());
    assert("Resolve the authenticated tenant and list only applications owned by that tenant."@.len() != "Authorize a tenant application and stop its complete systemd service cgroup."@.len());
    assert("Resolve the authenticated tenant and list only applications owned by that tenant."@.len() != "Authorize a tenant application and restart its exact registered systemd unit."@.len());
    assert("Resolve the authenticated tenant and list only applications owned by that tenant."@.len() != "Resolve one tenant-owned application and read logs scoped to its exact unit."@.len());
    assert("Resolve the authenticated tenant and list only applications owned by that tenant."@.len() != "Explain the command contract, security boundary, side effects, and next valid action before execution."@.len());
    assert("Resolve one tenant-owned application to its exact unit and return scoped service state."@.len() != "Authorize a tenant application and start its exact registered systemd unit."@.len());
    assert("Resolve one tenant-owned application to its exact unit and return scoped service state."@.len() != "Authorize a tenant application and stop its complete systemd service cgroup."@.len());
    assert("Resolve one tenant-owned application to its exact unit and return scoped service state."@.len() != "Authorize a tenant application and restart its exact registered systemd unit."@.len());
    assert("Resolve one tenant-owned application to its exact unit and return scoped service state."@.len() != "Resolve one tenant-owned application and read logs scoped to its exact unit."@.len());
    assert("Resolve one tenant-owned application to its exact unit and return scoped service state."@.len() != "Explain the command contract, security boundary, side effects, and next valid action before execution."@.len());
    assert("Authorize a tenant application and start its exact registered systemd unit."@.len() != "Authorize a tenant application and stop its complete systemd service cgroup."@.len());
    assert("Authorize a tenant application and start its exact registered systemd unit."@.len() != "Authorize a tenant application and restart its exact registered systemd unit."@.len());
    assert("Authorize a tenant application and start its exact registered systemd unit."@.len() != "Resolve one tenant-owned application and read logs scoped to its exact unit."@.len());
    assert("Authorize a tenant application and start its exact registered systemd unit."@.len() != "Explain the command contract, security boundary, side effects, and next valid action before execution."@.len());
    assert("Authorize a tenant application and stop its complete systemd service cgroup."@.len() != "Authorize a tenant application and restart its exact registered systemd unit."@.len());
    assert("Authorize a tenant application and stop its complete systemd service cgroup."@[0] != "Resolve one tenant-owned application and read logs scoped to its exact unit."@[0]);
    assert("Authorize a tenant application and stop its complete systemd service cgroup."@.len() != "Explain the command contract, security boundary, side effects, and next valid action before execution."@.len());
    assert("Authorize a tenant application and restart its exact registered systemd unit."@.len() != "Resolve one tenant-owned application and read logs scoped to its exact unit."@.len());
    assert("Authorize a tenant application and restart its exact registered systemd unit."@.len() != "Explain the command contract, security boundary, side effects, and next valid action before execution."@.len());
    assert("Resolve one tenant-owned application and read logs scoped to its exact unit."@.len() != "Explain the command contract, security boundary, side effects, and next valid action before execution."@.len());
    reveal_strlit("Run 'sctr help app <operation>' before invoking a lifecycle operation.");
    reveal_strlit("Choose a returned application identifier and run 'sctr app status <app>'.");
    reveal_strlit("Use start, stop, or restart only when the returned state requires it.");
    reveal_strlit("Run 'sctr app status <app>' after a successful start.");
    reveal_strlit("Run 'sctr app status <app>' to verify the stopped state.");
    reveal_strlit("Run 'sctr app status <app>' and the application health check.");
    reveal_strlit("Use the scoped records to diagnose the application, then re-check status.");
    reveal_strlit("Run 'sctr help app' to inspect the tenant application surface.");
    assert("Run 'sctr help app <operation>' before invoking a lifecycle operation."@.len() != "Choose a returned application identifier and run 'sctr app status <app>'."@.len());
    assert("Run 'sctr help app <operation>' before invoking a lifecycle operation."@.len() != "Use start, stop, or restart only when the returned state requires it."@.len());
    assert("Run 'sctr help app <operation>' before invoking a lifecycle operation."@.len() != "Run 'sctr app status <app>' after a successful start."@.len());
    assert("Run 'sctr help app <operation>' before invoking a lifecycle operation."@.len() != "Run 'sctr app status <app>' to verify the stopped state."@.len());
    assert("Run 'sctr help app <operation>' before invoking a lifecycle operation."@.len() != "Run 'sctr app status <app>' and the application health check."@.len());
    assert("Run 'sctr help app <operation>' before invoking a lifecycle operation."@.len() != "Use the scoped records to diagnose the application, then re-check status."@.len());
    assert("Run 'sctr help app <operation>' before invoking a lifecycle operation."@.len() != "Run 'sctr help app' to inspect the tenant application surface."@.len());
    assert("Choose a returned application identifier and run 'sctr app status <app>'."@.len() != "Use start, stop, or restart only when the returned state requires it."@.len());
    assert("Choose a returned application identifier and run 'sctr app status <app>'."@.len() != "Run 'sctr app status <app>' after a successful start."@.len());
    assert("Choose a returned application identifier and run 'sctr app status <app>'."@.len() != "Run 'sctr app status <app>' to verify the stopped state."@.len());
    assert("Choose a returned application identifier and run 'sctr app status <app>'."@.len() != "Run 'sctr app status <app>' and the application health check."@.len());
    assert("Choose a returned application identifier and run 'sctr app status <app>'."@[0] != "Use the scoped records to diagnose the application, then re-check status."@[0]);
    assert("Choose a returned application identifier and run 'sctr app status <app>'."@.len() != "Run 'sctr help app' to inspect the tenant application surface."@.len());
    assert("Use start, stop, or restart only when the returned state requires it."@.len() != "Run 'sctr app status <app>' after a successful start."@.len());
    assert("Use start, stop, or restart only when the returned state requires it."@.len() != "Run 'sctr app status <app>' to verify the stopped state."@.len());
    assert("Use start, stop, or restart only when the returned state requires it."@.len() != "Run 'sctr app status <app>' and the application health check."@.len());
    assert("Use start, stop, or restart only when the returned state requires it."@.len() != "Use the scoped records to diagnose the application, then re-check status."@.len());
    assert("Use start, stop, or restart only when the returned state requires it."@.len() != "Run 'sctr help app' to inspect the tenant application surface."@.len());
    assert("Run 'sctr app status <app>' after a successful start."@.len() != "Run 'sctr app status <app>' to verify the stopped state."@.len());
    assert("Run 'sctr app status <app>' after a successful start."@.len() != "Run 'sctr app status <app>' and the application health check."@.len());
    assert("Run 'sctr app status <app>' after a successful start."@.len() != "Use the scoped records to diagnose the application, then re-check status."@.len());
    assert("Run 'sctr app status <app>' after a successful start."@.len() != "Run 'sctr help app' to inspect the tenant application surface."@.len());
    assert("Run 'sctr app status <app>' to verify the stopped state."@.len() != "Run 'sctr app status <app>' and the application health check."@.len());
    assert("Run 'sctr app status <app>' to verify the stopped state."@.len() != "Use the scoped records to diagnose the application, then re-check status."@.len());
    assert("Run 'sctr app status <app>' to verify the stopped state."@.len() != "Run 'sctr help app' to inspect the tenant application surface."@.len());
    assert("Run 'sctr app status <app>' and the application health check."@.len() != "Use the scoped records to diagnose the application, then re-check status."@.len());
    assert("Run 'sctr app status <app>' and the application health check."@.len() != "Run 'sctr help app' to inspect the tenant application surface."@.len());
    assert("Use the scoped records to diagnose the application, then re-check status."@.len() != "Run 'sctr help app' to inspect the tenant application surface."@.len());
    reveal_strlit("Accepts application identifiers only; internal units and runtime identities remain server-owned.");
    reveal_strlit("Reads tenant-scoped registry entries without contacting arbitrary systemd units.");
    reveal_strlit("Reads approved unit and service properties for the resolved application.");
    reveal_strlit("Queues StartUnit for the exact registered unit and awaits the matching job result.");
    reveal_strlit("Queues StopUnit for the exact registered unit and awaits the matching job result.");
    reveal_strlit("Queues RestartUnit for the exact registered unit and awaits the matching job result.");
    reveal_strlit("Reads journal records selected by the resolved unit identity.");
    reveal_strlit("Reads static command metadata and never changes application or system state.");
    assert("Accepts application identifiers only; internal units and runtime identities remain server-owned."@.len() != "Reads tenant-scoped registry entries without contacting arbitrary systemd units."@.len());
    assert("Accepts application identifiers only; internal units and runtime identities remain server-owned."@.len() != "Reads approved unit and service properties for the resolved application."@.len());
    assert("Accepts application identifiers only; internal units and runtime identities remain server-owned."@.len() != "Queues StartUnit for the exact registered unit and awaits the matching job result."@.len());
    assert("Accepts application identifiers only; internal units and runtime identities remain server-owned."@.len() != "Queues StopUnit for the exact registered unit and awaits the matching job result."@.len());
    assert("Accepts application identifiers only; internal units and runtime identities remain server-owned."@.len() != "Queues RestartUnit for the exact registered unit and awaits the matching job result."@.len());
    assert("Accepts application identifiers only; internal units and runtime identities remain server-owned."@.len() != "Reads journal records selected by the resolved unit identity."@.len());
    assert("Accepts application identifiers only; internal units and runtime identities remain server-owned."@.len() != "Reads static command metadata and never changes application or system state."@.len());
    assert("Reads tenant-scoped registry entries without contacting arbitrary systemd units."@.len() != "Reads approved unit and service properties for the resolved application."@.len());
    assert("Reads tenant-scoped registry entries without contacting arbitrary systemd units."@.len() != "Queues StartUnit for the exact registered unit and awaits the matching job result."@.len());
    assert("Reads tenant-scoped registry entries without contacting arbitrary systemd units."@.len() != "Queues StopUnit for the exact registered unit and awaits the matching job result."@.len());
    assert("Reads tenant-scoped registry entries without contacting arbitrary systemd units."@.len() != "Queues RestartUnit for the exact registered unit and awaits the matching job result."@.len());
    assert("Reads tenant-scoped registry entries without contacting arbitrary systemd units."@.len() != "Reads journal records selected by the resolved unit identity."@.len());
    assert("Reads tenant-scoped registry entries without contacting arbitrary systemd units."@.len() != "Reads static command metadata and never changes application or system state."@.len());
    assert("Reads approved unit and service properties for the resolved application."@.len() != "Queues StartUnit for the exact registered unit and awaits the matching job result."@.len());
    assert("Reads approved unit and service properties for the resolved application."@.len() != "Queues StopUnit for the exact registered unit and awaits the matching job result."@.len());
    assert("Reads approved unit and service properties for the resolved application."@.len() != "Queues RestartUnit for the exact registered unit and awaits the matching job result."@.len());
    assert("Reads approved unit and service properties for the resolved application."@.len() != "Reads journal records selected by the resolved unit identity."@.len());
    assert("Reads approved unit and service properties for the resolved application."@.len() != "Reads static command metadata and never changes application or system state."@.len());
    assert("Queues StartUnit for the exact registered unit and awaits the matching job result."@.len() != "Queues StopUnit for the exact registered unit and awaits the matching job result."@.len());
    assert("Queues StartUnit for the exact registered unit and awaits the matching job result."@.len() != "Queues RestartUnit for the exact registered unit and awaits the matching job result."@.len());
    assert("Queues StartUnit for the exact registered unit and awaits the matching job result."@.len() != "Reads journal records selected by the resolved unit identity."@.len());
    assert("Queues StartUnit for the exact registered unit and awaits the matching job result."@.len() != "Reads static command metadata and never changes application or system state."@.len());
    assert("Queues StopUnit for the exact registered unit and awaits the matching job result."@.len() != "Queues RestartUnit for the exact registered unit and awaits the matching job result."@.len());
    assert("Queues StopUnit for the exact registered unit and awaits the matching job result."@.len() != "Reads journal records selected by the resolved unit identity."@.len());
    assert("Queues StopUnit for the exact registered unit and awaits the matching job result."@.len() != "Reads static command metadata and never changes application or system state."@.len());
    assert("Queues RestartUnit for the exact registered unit and awaits the matching job result."@.len() != "Reads journal records selected by the resolved unit identity."@.len());
    assert("Queues RestartUnit for the exact registered unit and awaits the matching job result."@.len() != "Reads static command metadata and never changes application or system state."@.len());
    assert("Reads journal records selected by the resolved unit identity."@.len() != "Reads static command metadata and never changes application or system state."@.len());
}

} // verus!
