//! Decisions of the batch fetch unit and of the single-instrument fetch:
//! which inputs are refused before any write, and how the outcomes of a
//! batch's per-instrument writes combine.

use vstd::prelude::*;
use crate::error::FetchError;
use crate::models::Ticker;
use crate::summary::{InstrumentResult, failed_count};

verus! {

/// Bounded fan-out of the per-instrument writes inside one batch.
pub const BATCH_WRITE_CONCURRENCY: usize = 10;

/// Checks a batch before anything is written: it must hold at least one
/// instrument, and each must have a symbol and an exchange. The first
/// offending instrument is named.
pub fn check_batch(tickers: &Vec<Ticker>) -> (r: Result<(), FetchError>)
    ensures
        tickers@.len() == 0 ==> r == Err::<(), FetchError>(FetchError::NoInstruments),
        tickers@.len() > 0 && (forall|i: int| 0 <= i < tickers@.len() ==> #[trigger] tickers@[i].is_identified())
            ==> r == Ok::<(), FetchError>(()),
        tickers@.len() > 0 && !(forall|i: int| 0 <= i < tickers@.len() ==> #[trigger] tickers@[i].is_identified())
            ==> (r matches Err(FetchError::MissingIdentifier { index }) && index < tickers@.len()
                && !tickers@[index as int].is_identified()
                && forall|j: int| 0 <= j < index ==> #[trigger] tickers@[j].is_identified()),
{
    if tickers.len() == 0 {
        return Err(FetchError::NoInstruments);
    }
    let mut i: usize = 0;
    while i < tickers.len()
        invariant
            i <= tickers@.len(),
            forall|j: int| 0 <= j < i ==> #[trigger] tickers@[j].is_identified(),
        decreases tickers@.len() - i,
    {
        if !tickers[i].has_identity() {
            return Err(FetchError::MissingIdentifier { index: i });
        }
        i = i + 1;
    }
    Ok(())
}

/// Number of failed results.
pub fn count_failures(results: &Vec<InstrumentResult>) -> (r: usize)
    ensures
        r == failed_count(results@),
{
    let mut failed: usize = 0;
    let mut i: usize = 0;
    while i < results.len()
        invariant
            i <= results@.len(),
            failed == failed_count(results@.subrange(0, i as int)),
            failed <= i,
        decreases results@.len() - i,
    {
        proof {
            let s = results@.subrange(0, i as int + 1);
            assert(s.drop_last() =~= results@.subrange(0, i as int));
        }
        if results[i].error.is_some() {
            failed = failed + 1;
        }
        i = i + 1;
    }
    assert(results@.subrange(0, results@.len() as int) =~= results@);
    failed
}

/// A batch succeeds only when every per-instrument write did; otherwise it
/// fails as a whole, naming how many failed.
pub fn batch_outcome(results: &Vec<InstrumentResult>) -> (r: Result<(), FetchError>)
    ensures
        failed_count(results@) == 0 ==> r == Ok::<(), FetchError>(()),
        failed_count(results@) > 0 ==> r == Err::<(), FetchError>(FetchError::InstrumentsFailed {
            failed: failed_count(results@) as usize,
            total: results@.len() as usize,
        }),
{
    let failed = count_failures(results);
    if failed == 0 {
        Ok(())
    } else {
        Err(FetchError::InstrumentsFailed { failed, total: results.len() })
    }
}

/// Decides a single-instrument fetch: a target without symbol or exchange
/// is refused; otherwise `Ok(register)` says whether the instrument must be
/// registered in the store before its bars are fetched, which is so exactly
/// when it is not stored yet.
pub fn plan_single_fetch(ticker: &Ticker, already_stored: bool) -> (r: Result<bool, FetchError>)
    ensures
        !ticker.is_identified() ==> r == Err::<bool, FetchError>(FetchError::Unidentified),
        ticker.is_identified() ==> r == Ok::<bool, FetchError>(!already_stored),
{
    if !ticker.has_identity() {
        Err(FetchError::Unidentified)
    } else {
        Ok(!already_stored)
    }
}

} // verus!
