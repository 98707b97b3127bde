use vstd::prelude::*;

pub mod text;
pub mod tree;
pub mod help;
pub mod dispatch;
pub mod run;
pub mod laws;
pub mod metadata;

verus! {

/// Exit status of a command that succeeded.
pub const EXIT_SUCCESS: u8 = 0;

/// Exit status of a known operation that could not run.
pub const EXIT_FAILURE: u8 = 1;

/// Exit status of a command line the command tree does not accept.
pub const EXIT_USAGE: u8 = 2;

} // verus!
