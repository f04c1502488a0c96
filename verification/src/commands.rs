//! The commands that the bot understands.

use vstd::prelude::*;

verus! {

/// A command sent to the bot.
#[derive(Debug, Clone)]
pub enum Command {
    /// Search the messages of the group for the given query.
    Search(String),
    /// Show the list of commands.
    Help,
}

} // verus!
