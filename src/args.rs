//! Subcommands of the program.

use vstd::prelude::*;

verus! {

/// Arguments of the history subcommand; it takes none.
#[derive(Clone, Copy, Debug, PartialEq, Eq, Structural)]
pub struct HistorySubcommandArgs {}

/// The subcommands besides running a test.
#[derive(Clone, Copy, Debug, PartialEq, Eq, Structural)]
pub enum SubCommand {
    /// Show previous results in a bar chart.
    History(HistorySubcommandArgs),
}

} // verus!
