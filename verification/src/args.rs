use vstd::prelude::*;

use crate::cli_app::CliCommand;

verus! {

/// Everything the process was asked to do, as plain values. The
/// command-line grammar that fills it lives outside the library.
#[derive(Clone, Debug)]
pub struct CalaArgs {
    /// The selected front end.
    pub execution: Interface,
}

/// Which front end runs.
#[derive(Clone, Debug)]
pub enum Interface {
    /// The non-interactive command-line path.
    Cli(CliCommand),
    /// The interactive terminal path.
    Tui,
}

} // verus!
