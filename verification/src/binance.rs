use vstd::prelude::*;
use vstd::string::StringExecFns;

verus! {

/// One instrument as the exchange reports it: a symbol name and its
/// latest price, both as plain text. The transport that fills it lives
/// outside the library.
#[derive(Clone, Debug)]
pub struct Ticker {
    /// The instrument name, as received.
    pub symbol: String,
    /// The latest price, as received.
    pub price: String,
}

/// The exchange endpoints the application talks to: the base of the
/// request/response API and the base of the streaming subscription.
#[derive(Clone, Debug)]
pub struct Binance {
    /// Base of the snapshot API.
    pub api_base_url: String,
    /// Base of the streaming subscription.
    pub stream_url: String,
}

/// Whether `url::Url::parse` accepts `s` as an absolute URL. Parsing is
/// a function of the string alone.
pub uninterp spec fn url_well_formed(s: Seq<char>) -> bool;

/// Relies on url::Url::parse: it returns `Ok` exactly on the strings it
/// accepts as absolute URLs, and acceptance depends on the string alone.
#[verifier::external_body]
fn parse_url(s: &str) -> (r: Result<url::Url, url::ParseError>)
    ensures
        r is Ok <==> url_well_formed(s@),
{
    url::Url::parse(s)
}

/// Declares url::Url, carried opaquely between the parser and the
/// transport.
#[verifier::external_type_specification]
#[verifier::external_body]
pub struct ExUrl(url::Url);

/// Declares url::ParseError, mapped at once to this library's own error.
#[verifier::external_type_specification]
#[verifier::external_body]
pub struct ExParseError(url::ParseError);

/// The lowercase form of a string, as `str::to_lowercase` computes it;
/// a function of the characters alone.
pub uninterp spec fn lower_of(s: Seq<char>) -> Seq<char>;

/// Relies on str::to_lowercase: the result depends on the characters
/// alone.
#[verifier::external_body]
fn lowercase(s: &str) -> (r: String)
    ensures
        r@ == lower_of(s@),
{
    s.to_lowercase()
}

/// An endpoint the library cannot hand to a transport.
#[derive(Clone, Copy, Debug, PartialEq, Eq, Structural)]
pub enum ApiError {
    /// The configured base and the path do not form a well-formed URL.
    InvalidUrl,
}

impl Binance {
    /// An exchange client over the two configured base endpoints.
    pub fn new(api_base_url: String, stream_url: String) -> (r: Binance)
        ensures
            r.api_base_url == api_base_url,
            r.stream_url == stream_url,
    {
        Binance { api_base_url, stream_url }
    }

    /// The full address of the price-snapshot endpoint.
    pub fn ticker_price_url(&self) -> (r: String)
        ensures
            r@ == self.api_base_url@ + "/ticker/price"@,
    {
        self.api_base_url.clone().concat("/ticker/price")
    }

    /// The full address of the stream subscription for one symbol.
    pub fn stream_url_for(&self, symbol: &str) -> (r: String)
        ensures
            r@ == self.stream_url@ + "/"@ + symbol@,
    {
        self.stream_url.clone().concat("/").concat(symbol)
    }

    /// The parsed price-snapshot endpoint, ready for a transport;
    /// rejected exactly when the configured base does not yield a
    /// well-formed URL.
    pub fn ticker_price_target(&self) -> (r: Result<url::Url, ApiError>)
        ensures
            r is Ok <==> url_well_formed(self.api_base_url@ + "/ticker/price"@),
            r is Err ==> r == Err::<url::Url, ApiError>(ApiError::InvalidUrl),
    {
        let u = self.ticker_price_url();
        match parse_url(u.as_str()) {
            Ok(url) => Ok(url),
            Err(_) => Err(ApiError::InvalidUrl),
        }
    }

    /// The parsed stream endpoint for one symbol, ready for a transport;
    /// rejected exactly when base and symbol do not yield a well-formed
    /// URL.
    pub fn stream_target(&self, symbol: &str) -> (r: Result<url::Url, ApiError>)
        ensures
            r is Ok <==> url_well_formed(self.stream_url@ + "/"@ + symbol@),
            r is Err ==> r == Err::<url::Url, ApiError>(ApiError::InvalidUrl),
    {
        let u = self.stream_url_for(symbol);
        match parse_url(u.as_str()) {
            Ok(url) => Ok(url),
            Err(_) => Err(ApiError::InvalidUrl),
        }
    }
}

/// The symbol names of a snapshot, lowercased, in snapshot order: the
/// computing half of the symbol-list command, applied to whatever the
/// transport returned.
pub fn symbols_of(tickers: &Vec<Ticker>) -> (r: Vec<String>)
    ensures
        r@.len() == tickers@.len(),
        forall|i: int| 0 <= i < r@.len() ==> (#[trigger] r@[i])@ == lower_of(tickers@[i].symbol@),
{
    let mut r: Vec<String> = Vec::new();
    let mut i: usize = 0;
    while i < tickers.len()
        invariant
            i <= tickers@.len(),
            r@.len() == i,
            forall|m: int| 0 <= m < i ==> (#[trigger] r@[m])@ == lower_of(tickers@[m].symbol@),
        decreases tickers@.len() - i,
    {
        r.push(lowercase(tickers[i].symbol.as_str()));
        i += 1;
    }
    r
}

} // verus!
