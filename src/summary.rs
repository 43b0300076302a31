//! Outcomes of per-instrument fetches and their aggregation: counts, the
//! failure list, and the progress milestones of a run.

use vstd::prelude::*;

verus! {

/// Failure descriptions that a report shows verbatim.
pub const SHOWN_FAILURES: usize = 10;

/// The outcome of fetching one instrument.
#[derive(Clone, Debug, PartialEq, Eq)]
pub struct InstrumentResult {
    pub symbol: String,
    pub exchange: String,
    /// The error text of a failed fetch.
    pub error: Option<String>,
}

/// How many of `results` failed.
pub open spec fn failed_count(results: Seq<InstrumentResult>) -> nat
    decreases results.len(),
{
    if results.len() == 0 {
        0
    } else {
        failed_count(results.drop_last()) + if results.last().error is Some { 1nat } else { 0nat }
    }
}

/// `symbol:exchange - error`.
pub open spec fn describe(r: InstrumentResult, error: Seq<char>) -> Seq<char> {
    r.symbol@ + ":"@ + r.exchange@ + " - "@ + error
}

/// The descriptions of the failed results, in order.
pub open spec fn failure_lines(results: Seq<InstrumentResult>) -> Seq<Seq<char>>
    decreases results.len(),
{
    if results.len() == 0 {
        Seq::empty()
    } else {
        let rest = failure_lines(results.drop_last());
        match results.last().error {
            Some(e) => rest.push(describe(results.last(), e@)),
            None => rest,
        }
    }
}

/// `max(total / 20, 1)`: a progress milestone every five percent.
pub open spec fn progress_every(total: int) -> int {
    if total / 20 > 1 {
        total / 20
    } else {
        1
    }
}

/// The milestones `(processed, successful)` logged while going through the
/// results: after each success whose running count is a multiple of the
/// progress step, or is the last one.
pub open spec fn milestones(results: Seq<InstrumentResult>, total: int) -> Seq<(usize, usize)>
    decreases results.len(),
{
    if results.len() == 0 {
        Seq::empty()
    } else {
        let rest = milestones(results.drop_last(), total);
        let processed = results.len() as int;
        let successful = processed - failed_count(results);
        if results.last().error is None && (processed % progress_every(total) == 0 || processed == total) {
            rest.push((processed as usize, successful as usize))
        } else {
            rest
        }
    }
}

pub fn progress_step(total: usize) -> (r: usize)
    ensures
        r == progress_every(total as int),
{
    let step = total / 20;
    if step > 1 {
        step
    } else {
        1
    }
}

/// The aggregate of a per-instrument run; the success rate is
/// `successful / total`.
pub struct RunSummary {
    pub total: usize,
    pub successful: usize,
    pub failures: Vec<String>,
    pub milestones: Vec<(usize, usize)>,
}

/// The text of each string.
pub open spec fn views(v: Seq<String>) -> Seq<Seq<char>> {
    v.map_values(|s: String| s@)
}

fn describe_failure(r: &InstrumentResult, error: &String) -> (d: String)
    ensures
        d@ == describe(*r, error@),
{
    let mut d = r.symbol.clone();
    d.append(":");
    d.append(r.exchange.as_str());
    d.append(" - ");
    d.append(error.as_str());
    d
}

proof fn lemma_failed_count_bound(results: Seq<InstrumentResult>)
    ensures
        failed_count(results) <= results.len(),
        failure_lines(results).len() == failed_count(results),
    decreases results.len(),
{
    if results.len() > 0 {
        lemma_failed_count_bound(results.drop_last());
    }
}

/// Aggregates the outcomes of a run. No failure stops the aggregation: every
/// failed instrument has its line in the failure list, and the success rate
/// is `successful / total`.
pub fn summarize(results: &Vec<InstrumentResult>) -> (r: RunSummary)
    ensures
        r.total == results@.len(),
        r.failures@.len() == failed_count(results@),
        r.successful == results@.len() - failed_count(results@),
        views(r.failures@) == failure_lines(results@),
        r.milestones@ == milestones(results@, results@.len() as int),
{
    let total = results.len();
    let step = progress_step(total);
    let mut successful: usize = 0;
    let mut failures: Vec<String> = Vec::new();
    let mut marks: Vec<(usize, usize)> = Vec::new();
    let mut i: usize = 0;
    while i < total
        invariant
            total == results@.len(),
            step == progress_every(total as int),
            i <= total,
            failures@.len() == failed_count(results@.subrange(0, i as int)),
            successful == i - failed_count(results@.subrange(0, i as int)),
            views(failures@) == failure_lines(results@.subrange(0, i as int)),
            marks@ == milestones(results@.subrange(0, i as int), total as int),
        decreases total - i,
    {
        let r = &results[i];
        proof {
            let s = results@.subrange(0, i as int + 1);
            assert(s.drop_last() =~= results@.subrange(0, i as int));
            assert(s.last() == *r);
            lemma_failed_count_bound(results@.subrange(0, i as int));
        }
        match &r.error {
            Some(e) => {
                let line = describe_failure(r, e);
                proof {
                    assert(views(failures@.push(line)) =~= views(failures@).push(line@));
                }
                failures.push(line);
            },
            None => {
                successful = successful + 1;
                let processed = i + 1;
                if processed % step == 0 || processed == total {
                    marks.push((processed, successful));
                }
            },
        }
        i = i + 1;
    }
    assert(results@.subrange(0, total as int) =~= results@);
    RunSummary { total, successful, failures, milestones: marks }
}

impl RunSummary {
    /// The failure descriptions a report shows verbatim: the first ten.
    pub fn shown_failures(&self) -> (r: Vec<String>)
        ensures
            views(r@) == views(self.failures@).take(
                if self.failures@.len() < SHOWN_FAILURES { self.failures@.len() as int } else { SHOWN_FAILURES as int },
            ),
    {
        let n = if self.failures.len() < SHOWN_FAILURES {
            self.failures.len()
        } else {
            SHOWN_FAILURES
        };
        let mut shown: Vec<String> = Vec::new();
        let mut i: usize = 0;
        while i < n
            invariant
                n <= self.failures@.len(),
                n == if self.failures@.len() < SHOWN_FAILURES { self.failures@.len() as int } else { SHOWN_FAILURES as int },
                i <= n,
                shown@.len() == i,
                views(shown@) == views(self.failures@).take(i as int),
            decreases n - i,
        {
            let line = self.failures[i].clone();
            proof {
                assert(line@ == self.failures@[i as int]@);
                let a = views(shown@.push(line));
                let b = views(self.failures@).take(i as int + 1);
                assert(a.len() == b.len());
                assert forall|j: int| 0 <= j < a.len() implies a[j] == b[j] by {
                    if j < i {
                        assert(a[j] == views(shown@)[j]);
                    }
                }
                assert(a =~= b);
            }
            shown.push(line);
            i = i + 1;
        }
        shown
    }

    /// Failures left out of the verbatim list.
    pub fn hidden_failures(&self) -> (r: usize)
        ensures
            r == if self.failures@.len() > SHOWN_FAILURES { self.failures@.len() - SHOWN_FAILURES } else { 0 },
    {
        if self.failures.len() > SHOWN_FAILURES {
            self.failures.len() - SHOWN_FAILURES
        } else {
            0
        }
    }
}

} // verus!
