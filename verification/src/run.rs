//! One command run, from the words of the command line to the exit status
//! and the text for standard output and standard error.
use vstd::prelude::*;

use crate::dispatch::{dispatch, response};
use crate::text::words;
use crate::{EXIT_SUCCESS, EXIT_USAGE};

verus! {

pub const NOT_UTF8_MESSAGE: &'static str = "command arguments must be valid UTF-8";
pub const NOT_UTF8_ACTION: &'static str =
    "Use ASCII command names and a valid registered application identifier.";

/// What a run prints and how it exits.
pub struct Outcome {
    pub exit_code: u8,
    pub stdout: String,
    pub stderr: String,
}

/// The view of an `Outcome`.
pub struct OutcomeView {
    pub exit_code: u8,
    pub stdout: Seq<char>,
    pub stderr: Seq<char>,
}

impl View for Outcome {
    type V = OutcomeView;

    open spec fn view(&self) -> OutcomeView {
        OutcomeView { exit_code: self.exit_code, stdout: self.stdout@, stderr: self.stderr@ }
    }
}

/// The two lines of a failure on standard error.
pub open spec fn error_text(message: Seq<char>, action: Seq<char>) -> Seq<char> {
    "ERROR: "@ + message + "\n"@ + "ACTION: "@ + action + "\n"@
}

/// Whether every argument was valid UTF-8 (stands as `Some`).
pub open spec fn all_text(args: Seq<Option<String>>) -> bool {
    forall|i: int| 0 <= i < args.len() ==> (#[trigger] args[i]) is Some
}

/// The arguments' text, when every argument is text.
pub open spec fn arg_words(args: Seq<Option<String>>) -> Seq<Seq<char>> {
    args.map_values(|a: Option<String>| a->0@)
}

/// A failed run: nothing on standard output, the error on standard error.
pub open spec fn failure(exit_code: u8, message: Seq<char>, action: Seq<char>) -> OutcomeView {
    OutcomeView { exit_code, stdout: Seq::empty(), stderr: error_text(message, action) }
}

/// The run of the command line `args`, where `None` stands for an argument
/// that is not valid UTF-8: a usage error if one is not; otherwise the
/// response printed on standard output with status 0, or the error reported
/// on standard error with its status.
pub open spec fn outcome(args: Seq<Option<String>>, version: Seq<char>) -> OutcomeView {
    if !all_text(args) {
        failure(EXIT_USAGE, NOT_UTF8_MESSAGE@, NOT_UTF8_ACTION@)
    } else {
        match response(arg_words(args), version) {
            Ok(text) => OutcomeView { exit_code: EXIT_SUCCESS, stdout: text, stderr: Seq::empty() },
            Err(e) => failure(e.exit_code, e.message, e.action),
        }
    }
}

/// The error report written to standard error: an `ERROR:` line and an `ACTION:` line.
pub fn render_error(message: &str, action: &str) -> (r: String)
    ensures
        r@ == error_text(message@, action@),
{
    let mut r = String::from_str("ERROR: ");
    r.append(message);
    r.append("\n");
    r.append("ACTION: ");
    r.append(action);
    r.append("\n");
    r
}

/// Runs one command line; `version` is the release shown by `--version`.
pub fn execute(args: &Vec<Option<String>>, version: &str) -> (r: Outcome)
    ensures
        r@ == outcome(args@, version@),
{
    let mut parsed: Vec<String> = Vec::new();
    let mut i: usize = 0;
    while i < args.len()
        invariant
            i <= args@.len(),
            all_text(args@.subrange(0, i as int)),
            parsed@.len() == i,
            words(parsed@) =~= arg_words(args@.subrange(0, i as int)),
        decreases args@.len() - i,
    {
        let ghost before = parsed@;
        match &args[i] {
            None => {
                assert(!all_text(args@));
                return Outcome {
                    exit_code: EXIT_USAGE,
                    stdout: String::new(),
                    stderr: render_error(NOT_UTF8_MESSAGE, NOT_UTF8_ACTION),
                };
            },
            Some(argument) => {
                parsed.push(argument.clone());
            },
        }
        assert(all_text(args@.subrange(0, i + 1)));
        assert(parsed@ == before.push(parsed@.last()));
        assert(parsed@.last()@ == args@[i as int]->0@);
        assert forall|j: int| 0 <= j <= i implies #[trigger] words(parsed@)[j] == arg_words(
            args@.subrange(0, i + 1),
        )[j] by {
            if j < i {
                assert(words(before)[j] == arg_words(args@.subrange(0, i as int))[j]);
            }
        }
        i = i + 1;
        assert(words(parsed@) =~= arg_words(args@.subrange(0, i as int)));
    }
    assert(args@.subrange(0, i as int) =~= args@);
    match dispatch(parsed.as_slice(), version) {
        Ok(output) => Outcome { exit_code: EXIT_SUCCESS, stdout: output, stderr: String::new() },
        Err(error) => {
            let stderr = render_error(error.message.as_str(), error.action.as_str());
            Outcome { exit_code: error.exit_code, stdout: String::new(), stderr }
        },
    }
}

} // verus!
