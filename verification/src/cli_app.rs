use vstd::prelude::*;

verus! {

/// One non-interactive invocation: which exchange to talk to.
#[derive(Clone, Debug)]
pub struct CliCommand {
    /// The selected exchange.
    pub exchange: Exchange,
}

/// The exchanges the command line can select.
#[derive(Clone, Debug)]
pub enum Exchange {
    /// The Binance exchange.
    Binance(BinanceCommand),
    /// Any other exchange; nothing is implemented for it.
    Other,
}

/// What to do against the Binance exchange.
#[derive(Clone, Debug)]
pub struct BinanceCommand {
    /// The selected operation.
    pub command: BinanceSubCommand,
}

/// The Binance operations the command line offers.
#[derive(Clone, Debug)]
pub enum BinanceSubCommand {
    /// Listen to the live stream of one symbol.
    Stream(Symbol),
    /// Show every available symbol.
    Symbols,
}

/// The symbol an operation works on.
#[derive(Clone, Debug)]
pub struct Symbol {
    /// The instrument name.
    pub symbol: String,
}

/// The collaborator work one command asks for, decided without
/// performing any of it.
#[derive(Clone, Debug, PartialEq, Eq)]
pub enum CliPlan {
    /// Open the live stream of this symbol.
    StreamSymbol(String),
    /// Fetch the symbol-list snapshot.
    FetchSymbols,
    /// The selection has no implementation.
    Unsupported,
}

/// The non-interactive front: it decides, per command, which exchange
/// operation to run; the driver around it performs the operation.
pub struct AppCli {}

impl AppCli {
    /// A fresh command-line front.
    pub fn new() -> (r: AppCli) {
        AppCli {}
    }

    /// Decide which exchange operation the command asks for.
    pub fn plan(&self, subcommand: CliCommand) -> (r: CliPlan)
        ensures
            match subcommand.exchange {
                Exchange::Binance(bc) => match bc.command {
                    BinanceSubCommand::Stream(sym) => (r matches CliPlan::StreamSymbol(s) && s
                        == sym.symbol),
                    BinanceSubCommand::Symbols => r == CliPlan::FetchSymbols,
                },
                Exchange::Other => r == CliPlan::Unsupported,
            },
    {
        match subcommand.exchange {
            Exchange::Binance(bnc_subcommand) => match bnc_subcommand.command {
                BinanceSubCommand::Stream(the_symbol) => CliPlan::StreamSymbol(the_symbol.symbol),
                BinanceSubCommand::Symbols => CliPlan::FetchSymbols,
            },
            Exchange::Other => CliPlan::Unsupported,
        }
    }
}

} // verus!
