//! The `play` subcommand.

use vstd::prelude::*;

verus! {

/// Starts the interactive music player.
pub struct PlayCommand;

impl PlayCommand {
    /// The command.
    pub fn new() -> Self {
        PlayCommand
    }

    /// What the command does, in a few words.
    pub fn description(&self) -> (text: &'static str)
        ensures
            text@ == "Start the interactive music player interface"@,
    {
        "Start the interactive music player interface"
    }
}

} // verus!
