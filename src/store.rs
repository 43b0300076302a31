//! The store's write and search planning: what is written, in which atomic
//! sub-batches, and which search requests reach the backend.
//!
//! Bars are written with "insert or replace" semantics keyed by (symbol,
//! exchange, interval, timestamp); `store_bars` models the effect of such a
//! write on the stored table.

use vstd::prelude::*;
use crate::chunking::{Span, chunk_count, chunk_span_spec, lemma_chunk_count, partition};
use crate::error::StoreError;
use crate::models::{Interval, Ticker, text_is};
use crate::price::Candle;

verus! {

/// Rows per atomic sub-batch of a store write.
pub const BATCH_SIZE: usize = 1000;

/// Results per search when the caller names no limit.
pub const DEFAULT_SEARCH_LIMIT: i64 = 50;

/// The candles of `candles` that the validator admits, in order.
pub open spec fn admitted(candles: Seq<Candle>) -> Seq<Candle>
    decreases candles.len(),
{
    if candles.len() == 0 {
        Seq::empty()
    } else {
        let rest = admitted(candles.drop_last());
        if candles.last().spec_is_admissible() {
            rest.push(candles.last())
        } else {
            rest
        }
    }
}

/// The sub-batch spans of a write of `n` rows.
pub open spec fn batches_of(spans: Seq<Span>, n: int) -> bool {
    &&& spans.len() == chunk_count(n, BATCH_SIZE as int)
    &&& forall|i: int| 0 <= i < spans.len() ==> spans[i] == chunk_span_spec(n, BATCH_SIZE as int, i)
}

/// The sub-batches in which `tickers` are upserted, each committed on its
/// own; none for an empty list.
pub fn plan_ticker_upsert(tickers: &Vec<Ticker>) -> (r: Vec<Span>)
    ensures
        batches_of(r@, tickers@.len() as int),
        tickers@.len() == 0 ==> r@.len() == 0,
{
    proof {
        lemma_chunk_count(tickers@.len() as int, BATCH_SIZE as int);
    }
    partition(tickers.len(), BATCH_SIZE)
}

/// A bar write: the admitted candles and the sub-batches over them.
pub struct PriceUpsertPlan {
    pub admitted: Vec<Candle>,
    pub batches: Vec<Span>,
}

impl PriceUpsertPlan {
    /// Candles that the validator dropped.
    pub fn rejected(&self, offered: usize) -> (r: usize)
        requires
            self.admitted@.len() <= offered,
        ensures
            r == offered - self.admitted@.len(),
    {
        offered - self.admitted.len()
    }
}

/// The candles of `candles` that the validator admits, in order.
pub fn filter_admissible(candles: &Vec<Candle>) -> (r: Vec<Candle>)
    ensures
        r@ == admitted(candles@),
{
    let mut kept: Vec<Candle> = Vec::new();
    let mut i: usize = 0;
    while i < candles.len()
        invariant
            i <= candles@.len(),
            kept@ == admitted(candles@.subrange(0, i as int)),
        decreases candles@.len() - i,
    {
        let c = candles[i];
        proof {
            let s = candles@.subrange(0, i as int + 1);
            assert(s.drop_last() =~= candles@.subrange(0, i as int));
            assert(s.last() == c);
        }
        if crate::price::validate(&c) {
            kept.push(c);
        }
        i = i + 1;
    }
    assert(candles@.subrange(0, candles@.len() as int) =~= candles@);
    kept
}

/// Plans a bar write: invalid candles are dropped, and the rest is cut into
/// sub-batches of `BATCH_SIZE` rows. All-rejected input plans no write.
pub fn plan_price_upsert(candles: &Vec<Candle>) -> (r: PriceUpsertPlan)
    ensures
        r.admitted@ == admitted(candles@),
        batches_of(r.batches@, r.admitted@.len() as int),
        r.admitted@.len() == 0 ==> r.batches@.len() == 0,
{
    let kept = filter_admissible(candles);
    proof {
        lemma_chunk_count(kept@.len() as int, BATCH_SIZE as int);
    }
    let batches = partition(kept.len(), BATCH_SIZE);
    PriceUpsertPlan { admitted: kept, batches }
}

/// The key of a stored bar.
pub type BarKey = (Seq<char>, Seq<char>, Interval, i64);

/// The table after writing `rows` of one instrument and interval, in order,
/// each replacing whatever was stored under its key.
pub open spec fn store_bars(
    table: Map<BarKey, Candle>,
    symbol: Seq<char>,
    exchange: Seq<char>,
    interval: Interval,
    rows: Seq<Candle>,
) -> Map<BarKey, Candle>
    decreases rows.len(),
{
    if rows.len() == 0 {
        table
    } else {
        store_bars(table, symbol, exchange, interval, rows.drop_last()).insert(
            (symbol, exchange, interval, rows.last().timestamp),
            rows.last(),
        )
    }
}

proof fn lemma_store_bars_overlay(
    table: Map<BarKey, Candle>,
    symbol: Seq<char>,
    exchange: Seq<char>,
    interval: Interval,
    rows: Seq<Candle>,
)
    ensures
        store_bars(table, symbol, exchange, interval, rows) =~= table.union_prefer_right(
            store_bars(Map::empty(), symbol, exchange, interval, rows),
        ),
    decreases rows.len(),
{
    if rows.len() > 0 {
        lemma_store_bars_overlay(table, symbol, exchange, interval, rows.drop_last());
    }
}

/// Idempotence of bar writes: writing the admitted candles of a list a
/// second time leaves the table exactly as the first write left it; a
/// repeated write replaces rows and never adds any.
pub proof fn lemma_upsert_idempotent(
    table: Map<BarKey, Candle>,
    symbol: Seq<char>,
    exchange: Seq<char>,
    interval: Interval,
    candles: Seq<Candle>,
)
    ensures
        ({
            let rows = admitted(candles);
            let once = store_bars(table, symbol, exchange, interval, rows);
            store_bars(once, symbol, exchange, interval, rows) == once
        }),
{
    let rows = admitted(candles);
    let fresh = store_bars(Map::empty(), symbol, exchange, interval, rows);
    let once = store_bars(table, symbol, exchange, interval, rows);
    lemma_store_bars_overlay(table, symbol, exchange, interval, rows);
    lemma_store_bars_overlay(once, symbol, exchange, interval, rows);
    assert(once.union_prefer_right(fresh) =~= once);
}

/// The limit of a search: the one given, else `DEFAULT_SEARCH_LIMIT`.
pub fn search_limit(limit: Option<i64>) -> (r: i64)
    ensures
        r == match limit {
            Some(l) => l,
            None => DEFAULT_SEARCH_LIMIT,
        },
{
    match limit {
        Some(l) => l,
        None => DEFAULT_SEARCH_LIMIT,
    }
}

/// The columns that a search may be narrowed to.
pub open spec fn is_searchable_field(field: Seq<char>) -> bool {
    field == "symbol"@ || field == "description"@ || field == "industry"@ || field == "sector"@
}

/// The full-text match expression `field: query` for a search narrowed to
/// one column; a column outside the searchable ones is refused.
pub fn field_match_expression(field: &str, query: &str) -> (r: Result<String, StoreError>)
    ensures
        is_searchable_field(field@) ==> (r matches Ok(e) && e@ == field@ + ": "@ + query@),
        !is_searchable_field(field@) ==> r == Err::<String, StoreError>(StoreError::InvalidField),
{
    let f = field.to_owned();
    if text_is(&f, "symbol") || text_is(&f, "description") || text_is(&f, "industry") || text_is(&f, "sector") {
        let mut e = f;
        e.append(": ");
        e.append(query);
        Ok(e)
    } else {
        Err(StoreError::InvalidField)
    }
}

} // verus!
