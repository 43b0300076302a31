use vnquant_dataset::error::FetchError;
use vnquant_dataset::fetch::{batch_outcome, check_batch, count_failures, plan_single_fetch};
use vnquant_dataset::models::{MarketKind, Ticker};
use vnquant_dataset::summary::{progress_step, summarize, InstrumentResult};

fn ticker(symbol: &str, exchange: &str) -> Ticker {
    Ticker::new(symbol.to_string(), exchange.to_string(), None, None, None, None, None, None, None)
}

fn ok(symbol: &str) -> InstrumentResult {
    InstrumentResult { symbol: symbol.to_string(), exchange: "HOSE".to_string(), error: None }
}

fn err(symbol: &str, e: &str) -> InstrumentResult {
    InstrumentResult { symbol: symbol.to_string(), exchange: "HOSE".to_string(), error: Some(e.to_string()) }
}

#[test]
fn partial_failures_are_all_listed() {
    let results = vec![ok("A"), err("B", "timeout"), ok("C"), err("D", "no data"), ok("E")];
    let s = summarize(&results);
    assert_eq!(s.total, 5);
    assert_eq!(s.successful, 3);
    assert_eq!(s.failures, vec!["B:HOSE - timeout".to_string(), "D:HOSE - no data".to_string()]);
    assert_eq!(s.hidden_failures(), 0);
    assert_eq!(s.shown_failures(), s.failures);
}

#[test]
fn only_first_ten_failures_are_shown() {
    let results: Vec<InstrumentResult> = (0..13).map(|i| err(&format!("S{i}"), "down")).collect();
    let s = summarize(&results);
    assert_eq!(s.successful, 0);
    assert_eq!(s.failures.len(), 13);
    let shown = s.shown_failures();
    assert_eq!(shown.len(), 10);
    assert_eq!(shown[0], "S0:HOSE - down");
    assert_eq!(shown[9], "S9:HOSE - down");
    assert_eq!(s.hidden_failures(), 3);
}

#[test]
fn progress_is_marked_every_five_percent() {
    assert_eq!(progress_step(0), 1);
    assert_eq!(progress_step(19), 1);
    assert_eq!(progress_step(40), 2);
    assert_eq!(progress_step(100), 5);
    let mut results: Vec<InstrumentResult> = (0..10).map(|i| ok(&format!("S{i}"))).collect();
    results[1] = err("S1", "x");
    let s = summarize(&results);
    assert_eq!(s.milestones, (1..=10).filter(|&i| i != 2).map(|i| (i, if i < 2 { i } else { i - 1 })).collect::<Vec<_>>());
    let results: Vec<InstrumentResult> = (0..41).map(|i| ok(&format!("S{i}"))).collect();
    let s = summarize(&results);
    let expected: Vec<(usize, usize)> = (1..=41).filter(|i| i % 2 == 0 || *i == 41).map(|i| (i, i)).collect();
    assert_eq!(s.milestones, expected);
}

#[test]
fn empty_run_summary() {
    let s = summarize(&Vec::new());
    assert_eq!((s.total, s.successful), (0, 0));
    assert!(s.failures.is_empty());
    assert!(s.milestones.is_empty());
}

#[test]
fn batch_input_is_checked() {
    assert_eq!(check_batch(&Vec::new()), Err(FetchError::NoInstruments));
    assert_eq!(check_batch(&vec![ticker("VCB", "HOSE"), ticker("FPT", "HOSE")]), Ok(()));
    assert_eq!(
        check_batch(&vec![ticker("VCB", "HOSE"), ticker("", "HOSE"), ticker("FPT", "")]),
        Err(FetchError::MissingIdentifier { index: 1 })
    );
    assert_eq!(check_batch(&vec![ticker("FPT", "")]), Err(FetchError::MissingIdentifier { index: 0 }));
}

#[test]
fn batch_fails_if_any_write_failed() {
    assert_eq!(batch_outcome(&vec![ok("A"), ok("B")]), Ok(()));
    assert_eq!(batch_outcome(&Vec::new()), Ok(()));
    let results = vec![ok("A"), err("B", "locked"), err("C", "locked")];
    assert_eq!(count_failures(&results), 2);
    assert_eq!(batch_outcome(&results), Err(FetchError::InstrumentsFailed { failed: 2, total: 3 }));
}

#[test]
fn single_fetch_registers_unknown_instruments() {
    assert_eq!(plan_single_fetch(&ticker("VCB", "HOSE"), false), Ok(true));
    assert_eq!(plan_single_fetch(&ticker("VCB", "HOSE"), true), Ok(false));
    assert_eq!(plan_single_fetch(&ticker("", "HOSE"), true), Err(FetchError::Unidentified));
    assert_eq!(plan_single_fetch(&ticker("VCB", ""), false), Err(FetchError::Unidentified));
}

#[test]
fn ticker_accessors() {
    let t = Ticker::new(
        "VCB".to_string(),
        "HOSE".to_string(),
        Some("Vietcombank".to_string()),
        Some("VND".to_string()),
        Some("VN".to_string()),
        Some("stock".to_string()),
        Some("Banking".to_string()),
        Some("Finance".to_string()),
        Some(1963),
    );
    assert_eq!(t.symbol(), "VCB");
    assert_eq!(t.exchange(), "HOSE");
    assert_eq!(t.currency(), "VND");
    assert_eq!(t.market_kind(), MarketKind::Stocks);
    assert!(t.has_identity());
    let bare = ticker("EURUSD", "FX");
    assert_eq!(bare.currency(), "N/A");
    assert_eq!(bare.market_kind(), MarketKind::All);
    assert!(!ticker("", "").has_identity());
}

#[test]
fn listed_instrument_carries_listing_fields() {
    let t = Ticker::listed(
        "BTCUSDT".to_string(),
        "BINANCE".to_string(),
        "Bitcoin".to_string(),
        "USDT".to_string(),
        "".to_string(),
        "crypto".to_string(),
    );
    assert_eq!(t.description.as_deref(), Some("Bitcoin"));
    assert_eq!(t.currency.as_deref(), Some("USDT"));
    assert_eq!(t.country.as_deref(), Some(""));
    assert_eq!(t.market_kind(), MarketKind::Crypto);
    assert_eq!((t.industry, t.sector, t.founded), (None, None, None));
    let fx = Ticker::listed("EURUSD".into(), "FX".into(), "".into(), "USD".into(), "".into(), "forex".into());
    assert_eq!(fx.market_kind(), MarketKind::Forex);
    let fut = Ticker::listed("ES".into(), "CME".into(), "".into(), "USD".into(), "US".into(), "futures".into());
    assert_eq!(fut.market_kind(), MarketKind::Futures);
    let idx = Ticker::listed("VNINDEX".into(), "HOSE".into(), "".into(), "VND".into(), "VN".into(), "index".into());
    assert_eq!(idx.market_kind(), MarketKind::All);
}

#[test]
fn chart_info_instrument_has_no_country() {
    let t = Ticker::from_symbol_info(
        "VCB".to_string(),
        "HOSE".to_string(),
        "Vietcombank".to_string(),
        "VND".to_string(),
        "stock".to_string(),
        "Banking".to_string(),
        "Finance".to_string(),
        1963,
    );
    assert_eq!(t.country, None);
    assert_eq!(t.founded, Some(1963));
    assert_eq!(t.industry.as_deref(), Some("Banking"));
    assert_eq!(t.sector.as_deref(), Some("Finance"));
    assert_eq!(t.market_kind(), MarketKind::Stocks);
}
