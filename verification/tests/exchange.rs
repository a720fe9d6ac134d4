use crypto_feed::binance::{symbols_of, ApiError, Binance, Ticker};

#[test]
fn endpoint_urls_are_exact() {
    let b = Binance::new(
        "https://api.example.com/api/v3".to_string(),
        "wss://stream.example.com/ws".to_string(),
    );
    assert_eq!(b.ticker_price_url(), "https://api.example.com/api/v3/ticker/price");
    assert_eq!(b.stream_url_for("btcusdt"), "wss://stream.example.com/ws/btcusdt");
}

#[test]
fn well_formed_endpoints_parse() {
    let b = Binance::new(
        "https://api.example.com/api/v3".to_string(),
        "wss://stream.example.com/ws".to_string(),
    );
    let api = b.ticker_price_target().expect("a well-formed API base must parse");
    assert_eq!(api.as_str(), "https://api.example.com/api/v3/ticker/price");
    let stream = b.stream_target("btcusdt").expect("a well-formed stream base must parse");
    assert_eq!(stream.as_str(), "wss://stream.example.com/ws/btcusdt");
}

#[test]
fn malformed_endpoints_are_rejected() {
    let b = Binance::new("not a url".to_string(), "also not a url".to_string());
    assert_eq!(b.ticker_price_target(), Err(ApiError::InvalidUrl));
    assert_eq!(b.stream_target("btcusdt"), Err(ApiError::InvalidUrl));
}

#[test]
fn symbols_are_lowercased_in_order() {
    let tickers = vec![
        Ticker { symbol: "BTCUSDT".to_string(), price: "97000.10".to_string() },
        Ticker { symbol: "EthUsdt".to_string(), price: "3500.42".to_string() },
        Ticker { symbol: "bnbusdt".to_string(), price: "600.00".to_string() },
    ];
    let symbols = symbols_of(&tickers);
    assert_eq!(symbols, vec!["btcusdt", "ethusdt", "bnbusdt"]);
}

#[test]
fn symbols_of_empty_snapshot() {
    assert_eq!(symbols_of(&Vec::new()), Vec::<String>::new());
}
