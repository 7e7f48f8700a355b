use crate::command::command_struct::{CommandStruct, CommandView};
use vstd::prelude::*;

verus! {

/// Makes command units out of bare shell lines.
pub struct CommandFactory;

impl CommandFactory {
    /// The unit that runs `command` with the baseline shell on every
    /// distribution, without an idempotency check, its output captured.
    pub fn new(command: &str) -> (unit: CommandStruct)
        ensures
            unit@ == (CommandView {
                command: command@,
                shell: None,
                distribution: None,
                check: None,
                run_spawn: None,
            }),
    {
        CommandStruct::new(command, None, None, None, None)
    }
}

} // verus!
