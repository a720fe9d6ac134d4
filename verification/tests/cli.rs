use crypto_feed::args::{CalaArgs, Interface};
use crypto_feed::cli_app::{
    AppCli, BinanceCommand, BinanceSubCommand, CliCommand, CliPlan, Exchange, Symbol,
};

#[test]
fn stream_command_plans_a_stream() {
    let cli = AppCli::new();
    let cmd = CliCommand {
        exchange: Exchange::Binance(BinanceCommand {
            command: BinanceSubCommand::Stream(Symbol { symbol: "btcusdt".to_string() }),
        }),
    };
    assert_eq!(cli.plan(cmd), CliPlan::StreamSymbol("btcusdt".to_string()));
}

#[test]
fn symbols_command_plans_a_fetch() {
    let cli = AppCli::new();
    let cmd = CliCommand {
        exchange: Exchange::Binance(BinanceCommand { command: BinanceSubCommand::Symbols }),
    };
    assert_eq!(cli.plan(cmd), CliPlan::FetchSymbols);
}

#[test]
fn other_exchange_is_unsupported() {
    let cli = AppCli::new();
    let cmd = CliCommand { exchange: Exchange::Other };
    assert_eq!(cli.plan(cmd), CliPlan::Unsupported);
}

#[test]
fn args_select_the_front_end() {
    let args = CalaArgs { execution: Interface::Tui };
    assert!(matches!(args.execution, Interface::Tui));
    let args = CalaArgs {
        execution: Interface::Cli(CliCommand { exchange: Exchange::Other }),
    };
    assert!(matches!(args.execution, Interface::Cli(_)));
}
