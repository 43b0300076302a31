//! Instruments, bar intervals and the exchange listing configuration.

use vstd::prelude::*;
use tradingview::Interval as ProviderInterval;

verus! {

/// A tradable instrument, identified by its symbol and its exchange; the rest
/// is optional metadata.
#[derive(Clone, Debug, Default, PartialEq, Eq)]
pub struct Ticker {
    pub symbol: String,
    pub exchange: String,
    pub description: Option<String>,
    pub currency: Option<String>,
    pub country: Option<String>,
    pub market_type: Option<String>,
    pub industry: Option<String>,
    pub sector: Option<String>,
    pub founded: Option<i64>,
}

/// The market families that a listing query can be narrowed to.
#[derive(Clone, Copy, Debug, PartialEq, Eq, Structural)]
pub enum MarketKind {
    Stocks,
    Forex,
    Crypto,
    Futures,
    All,
}

/// The market family named by a stored market type.
pub open spec fn market_kind_of(market_type: Option<Seq<char>>) -> MarketKind {
    match market_type {
        Some(m) => if m == "stock"@ {
            MarketKind::Stocks
        } else if m == "forex"@ {
            MarketKind::Forex
        } else if m == "crypto"@ {
            MarketKind::Crypto
        } else if m == "futures"@ {
            MarketKind::Futures
        } else {
            MarketKind::All
        },
        None => MarketKind::All,
    }
}

/// The view of an optional string.
pub open spec fn opt_view(o: Option<String>) -> Option<Seq<char>> {
    match o {
        Some(s) => Some(s@),
        None => None,
    }
}

/// `s@ == lit@`.
pub fn text_is(s: &String, lit: &str) -> (r: bool)
    ensures
        r == (s@ == lit@),
{
    let l = lit.to_owned();
    *s == l
}

impl Ticker {
    #[allow(clippy::too_many_arguments)]
    pub fn new(
        symbol: String,
        exchange: String,
        description: Option<String>,
        currency: Option<String>,
        country: Option<String>,
        market_type: Option<String>,
        industry: Option<String>,
        sector: Option<String>,
        founded: Option<i64>,
    ) -> (r: Ticker)
        ensures
            r == (Ticker {
                symbol,
                exchange,
                description,
                currency,
                country,
                market_type,
                industry,
                sector,
                founded,
            }),
    {
        Ticker { symbol, exchange, description, currency, country, market_type, industry, sector, founded }
    }

    /// An instrument as the provider's symbol listing describes it; industry,
    /// sector and founding year are not part of a listing.
    pub fn listed(
        symbol: String,
        exchange: String,
        description: String,
        currency_code: String,
        country_code: String,
        market_type: String,
    ) -> (r: Ticker)
        ensures
            r == (Ticker {
                symbol,
                exchange,
                description: Some(description),
                currency: Some(currency_code),
                country: Some(country_code),
                market_type: Some(market_type),
                industry: None,
                sector: None,
                founded: None,
            }),
    {
        Ticker {
            symbol,
            exchange,
            description: Some(description),
            currency: Some(currency_code),
            country: Some(country_code),
            market_type: Some(market_type),
            industry: None,
            sector: None,
            founded: None,
        }
    }

    /// An instrument as a chart session describes it; the country is not
    /// part of that description.
    #[allow(clippy::too_many_arguments)]
    pub fn from_symbol_info(
        symbol: String,
        exchange: String,
        description: String,
        currency_code: String,
        market_type: String,
        industry: String,
        sector: String,
        founded: u16,
    ) -> (r: Ticker)
        ensures
            r == (Ticker {
                symbol,
                exchange,
                description: Some(description),
                currency: Some(currency_code),
                country: None,
                market_type: Some(market_type),
                industry: Some(industry),
                sector: Some(sector),
                founded: Some(founded as i64),
            }),
    {
        Ticker {
            symbol,
            exchange,
            description: Some(description),
            currency: Some(currency_code),
            country: None,
            market_type: Some(market_type),
            industry: Some(industry),
            sector: Some(sector),
            founded: Some(founded as i64),
        }
    }

    /// An instrument usable as a fetch target: symbol and exchange non-empty.
    pub open spec fn is_identified(&self) -> bool {
        self.symbol@.len() > 0 && self.exchange@.len() > 0
    }

    pub fn has_identity(&self) -> (r: bool)
        ensures
            r == self.is_identified(),
    {
        !self.symbol.as_str().is_empty() && !self.exchange.as_str().is_empty()
    }

    pub fn symbol(&self) -> (r: &str)
        ensures
            r@ == self.symbol@,
    {
        self.symbol.as_str()
    }

    pub fn exchange(&self) -> (r: &str)
        ensures
            r@ == self.exchange@,
    {
        self.exchange.as_str()
    }

    /// The currency, or `N/A` where it is unknown.
    pub fn currency(&self) -> (r: &str)
        ensures
            r@ == match self.currency {
                Some(c) => c@,
                None => "N/A"@,
            },
    {
        match &self.currency {
            Some(c) => c.as_str(),
            None => "N/A",
        }
    }

    /// The market family of this instrument.
    pub fn market_kind(&self) -> (r: MarketKind)
        ensures
            r == market_kind_of(opt_view(self.market_type)),
    {
        match &self.market_type {
            Some(m) => if text_is(m, "stock") {
                MarketKind::Stocks
            } else if text_is(m, "forex") {
                MarketKind::Forex
            } else if text_is(m, "crypto") {
                MarketKind::Crypto
            } else if text_is(m, "futures") {
                MarketKind::Futures
            } else {
                MarketKind::All
            },
            None => MarketKind::All,
        }
    }
}

/// The bar widths that the engine fetches.
#[derive(Clone, Copy, Debug, PartialEq, Eq, Structural)]
pub enum Interval {
    OneMinute,
    FiveMinutes,
    FifteenMinutes,
    ThirtyMinutes,
    OneHour,
    TwoHours,
    FourHours,
    OneDay,
    OneWeek,
    OneMonth,
}

/// The provider's code for an interval, which is also how the interval is
/// stored beside each bar.
pub open spec fn interval_code_spec(i: Interval) -> Seq<char> {
    match i {
        Interval::OneMinute => "1"@,
        Interval::FiveMinutes => "5"@,
        Interval::FifteenMinutes => "15"@,
        Interval::ThirtyMinutes => "30"@,
        Interval::OneHour => "1H"@,
        Interval::TwoHours => "2H"@,
        Interval::FourHours => "4H"@,
        Interval::OneDay => "1D"@,
        Interval::OneWeek => "1W"@,
        Interval::OneMonth => "1M"@,
    }
}

/// Relies on the `Display` of `tradingview::Interval`, which writes the
/// provider's code of each variant ("1", "5", ..., "1H", "1D", "1W", "1M").
#[verifier::external_body]
fn provider_code(interval: Interval) -> (r: String)
    ensures
        r@ == interval_code_spec(interval),
{
    match interval {
        Interval::OneMinute => ProviderInterval::OneMinute,
        Interval::FiveMinutes => ProviderInterval::FiveMinutes,
        Interval::FifteenMinutes => ProviderInterval::FifteenMinutes,
        Interval::ThirtyMinutes => ProviderInterval::ThirtyMinutes,
        Interval::OneHour => ProviderInterval::OneHour,
        Interval::TwoHours => ProviderInterval::TwoHours,
        Interval::FourHours => ProviderInterval::FourHours,
        Interval::OneDay => ProviderInterval::OneDay,
        Interval::OneWeek => ProviderInterval::OneWeek,
        Interval::OneMonth => ProviderInterval::OneMonth,
    }.to_string()
}

impl Interval {
    /// The code under which bars of this interval are requested and stored.
    pub fn code(&self) -> (r: String)
        ensures
            r@ == interval_code_spec(*self),
    {
        provider_code(*self)
    }
}

/// One exchange to list symbols from, optionally narrowed to a country.
#[derive(Clone, Debug, PartialEq, Eq)]
pub struct ExchangeConfig {
    pub exchange: String,
    pub country: Option<String>,
}

/// The exchanges whose symbols are discovered.
#[derive(Clone, Debug, PartialEq, Eq)]
pub struct TVConfigMap {
    pub exchanges: Vec<ExchangeConfig>,
}

} // verus!
