use crate::process::{classify, CommandError};
use vstd::prelude::*;

verus! {

/// A unit that can say why a command failed.
pub trait ErrorHandler {
    /// The kind of failure that the error text of a command speaks of. It
    /// serves diagnostics only: no status depends on it.
    fn handle_command_error(stderr: &str) -> (error: CommandError)
        ensures
            error == classify(stderr@),
    ;
}

} // verus!
