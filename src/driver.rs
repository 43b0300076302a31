//! The chunked retry driver: the instrument universe is cut into contiguous
//! chunks that are fetched one after another, each with a bounded number of
//! attempts separated by exponential backoff, and a fixed pause after every
//! chunk.
//!
//! The driver only decides. Each `Step` names a wait and the next thing to
//! do; the caller performs it and reports back whether the attempt succeeded.

use vstd::prelude::*;
use crate::chunking::{Span, chunk_count, chunk_count_of, chunk_span, chunk_span_spec, lemma_chunk_count};
use crate::error::FetchError;

verus! {

pub const DEFAULT_CHUNK_SIZE: usize = 100;

pub const DEFAULT_MAX_RETRIES: usize = 2;

pub const DEFAULT_INTER_CHUNK_DELAY_MS: u64 = 200;

/// Settings of one driver run.
#[derive(Clone, Copy, Debug, PartialEq, Eq, Structural)]
pub struct DriverConfig {
    /// Instruments per chunk; positive.
    pub chunk_size: usize,
    /// Attempts after the first one that a failing chunk gets.
    pub max_retries: usize,
    /// Pause after every chunk, in milliseconds.
    pub inter_chunk_delay_ms: u64,
}

impl DriverConfig {
    pub fn new(chunk_size: usize, max_retries: usize) -> (r: DriverConfig)
        ensures
            r == (DriverConfig {
                chunk_size,
                max_retries,
                inter_chunk_delay_ms: DEFAULT_INTER_CHUNK_DELAY_MS,
            }),
    {
        DriverConfig { chunk_size, max_retries, inter_chunk_delay_ms: DEFAULT_INTER_CHUNK_DELAY_MS }
    }

    pub fn with_inter_chunk_delay(self, millis: u64) -> (r: DriverConfig)
        ensures
            r == (DriverConfig { inter_chunk_delay_ms: millis, ..self }),
    {
        DriverConfig { inter_chunk_delay_ms: millis, ..self }
    }
}

/// `2^k`.
pub open spec fn pow2(k: nat) -> nat
    decreases k,
{
    if k == 0 {
        1
    } else {
        2 * pow2((k - 1) as nat)
    }
}

/// `2^k` seconds, or `u64::MAX` where that does not fit.
pub open spec fn backoff_spec(k: nat) -> u64 {
    if pow2(k) <= u64::MAX {
        pow2(k) as u64
    } else {
        u64::MAX
    }
}

/// The wait before retry number `attempt` (counting from one): `2^attempt`
/// seconds, saturated at `u64::MAX`.
pub fn backoff_secs(attempt: usize) -> (r: u64)
    ensures
        r == backoff_spec(attempt as nat),
{
    let mut secs: u64 = 1;
    let mut k: usize = 0;
    while k < attempt
        invariant
            k <= attempt,
            secs == backoff_spec(k as nat),
        decreases attempt - k,
    {
        assert(pow2((k + 1) as nat) == 2 * pow2(k as nat));
        if secs > u64::MAX / 2 {
            secs = u64::MAX;
        } else {
            secs = secs * 2;
        }
        k = k + 1;
    }
    secs
}

/// What to wait for before the next action.
#[derive(Clone, Copy, Debug, PartialEq, Eq, Structural)]
pub enum Wait {
    Nothing,
    /// Exponential backoff before a retry.
    Backoff { secs: u64 },
    /// The fixed pause after a chunk.
    Pause { millis: u64 },
}

/// The action after the wait.
#[derive(Clone, Copy, Debug, PartialEq, Eq, Structural)]
pub enum Next {
    /// Fetch the instruments of `span` as chunk `chunk` (counting from zero);
    /// `attempt` counts from one.
    Attempt { chunk: usize, span: Span, attempt: usize },
    /// Every chunk is resolved.
    Finish { successful: usize, failed: usize },
}

#[derive(Clone, Copy, Debug, PartialEq, Eq, Structural)]
pub struct Step {
    pub wait: Wait,
    pub next: Next,
}

/// The transient state of one run over `items` instruments.
#[derive(Clone, Copy, Debug, PartialEq, Eq, Structural)]
pub struct ChunkedRun {
    pub items: usize,
    pub config: DriverConfig,
    pub total_chunks: usize,
    /// The chunk being attempted; `total_chunks` once the run is over.
    pub chunk: usize,
    /// Failed attempts of the current chunk so far.
    pub attempts: usize,
    pub successful: usize,
    pub failed: usize,
}

impl ChunkedRun {
    pub open spec fn wf(self) -> bool {
        &&& self.config.chunk_size > 0
        &&& self.config.max_retries < usize::MAX
        &&& self.total_chunks == chunk_count(self.items as int, self.config.chunk_size as int)
        &&& self.chunk <= self.total_chunks
        &&& self.successful + self.failed == self.chunk
        &&& self.attempts <= self.config.max_retries
        &&& self.chunk == self.total_chunks ==> self.attempts == 0
    }

    pub open spec fn is_finished(self) -> bool {
        self.chunk >= self.total_chunks
    }

    /// What the run asks for next.
    pub open spec fn next_spec(self) -> Next {
        if self.chunk < self.total_chunks {
            Next::Attempt {
                chunk: self.chunk,
                span: chunk_span_spec(self.items as int, self.config.chunk_size as int, self.chunk as int),
                attempt: (self.attempts + 1) as usize,
            }
        } else {
            Next::Finish { successful: self.successful, failed: self.failed }
        }
    }

    /// The state and the step after the current attempt succeeded or failed.
    pub open spec fn after(self, succeeded: bool) -> (ChunkedRun, Step) {
        let pause = Wait::Pause { millis: self.config.inter_chunk_delay_ms };
        if succeeded {
            let s = ChunkedRun {
                chunk: (self.chunk + 1) as usize,
                attempts: 0,
                successful: (self.successful + 1) as usize,
                ..self
            };
            (s, Step { wait: pause, next: s.next_spec() })
        } else if self.attempts < self.config.max_retries {
            let s = ChunkedRun { attempts: (self.attempts + 1) as usize, ..self };
            (s, Step { wait: Wait::Backoff { secs: backoff_spec(s.attempts as nat) }, next: s.next_spec() })
        } else {
            let s = ChunkedRun {
                chunk: (self.chunk + 1) as usize,
                attempts: 0,
                failed: (self.failed + 1) as usize,
                ..self
            };
            (s, Step { wait: pause, next: s.next_spec() })
        }
    }

    /// The state after the attempts whose outcomes are `outcomes`, in order.
    pub open spec fn feed(self, outcomes: Seq<bool>) -> ChunkedRun
        decreases outcomes.len(),
    {
        if outcomes.len() == 0 {
            self
        } else {
            self.feed(outcomes.drop_last()).after(outcomes.last()).0
        }
    }

    fn next_action(&self) -> (r: Next)
        requires
            self.wf(),
        ensures
            r == self.next_spec(),
    {
        if self.chunk < self.total_chunks {
            proof {
                lemma_chunk_count(self.items as int, self.config.chunk_size as int);
            }
            Next::Attempt {
                chunk: self.chunk,
                span: chunk_span(self.items, self.config.chunk_size, self.chunk),
                attempt: self.attempts + 1,
            }
        } else {
            Next::Finish { successful: self.successful, failed: self.failed }
        }
    }

    /// Begins a run over `items` instruments. An empty universe finishes at once.
    pub fn start(items: usize, config: DriverConfig) -> (r: (ChunkedRun, Step))
        requires
            config.chunk_size > 0,
            // the attempt count of a chunk, `max_retries + 1`, fits in `usize`
            config.max_retries < usize::MAX,
        ensures
            r.0.wf(),
            r.0 == (ChunkedRun {
                items,
                config,
                total_chunks: chunk_count(items as int, config.chunk_size as int) as usize,
                chunk: 0,
                attempts: 0,
                successful: 0,
                failed: 0,
            }),
            r.1 == (Step { wait: Wait::Nothing, next: r.0.next_spec() }),
    {
        let run = ChunkedRun {
            items,
            config,
            total_chunks: chunk_count_of(items, config.chunk_size),
            chunk: 0,
            attempts: 0,
            successful: 0,
            failed: 0,
        };
        let next = run.next_action();
        (run, Step { wait: Wait::Nothing, next })
    }

    /// Takes the outcome of the attempt that the last step asked for.
    pub fn record_attempt(&mut self, succeeded: bool) -> (r: Step)
        requires
            old(self).wf(),
            !old(self).is_finished(),
        ensures
            final(self).wf(),
            (*final(self), r) == old(self).after(succeeded),
    {
        let pause = Wait::Pause { millis: self.config.inter_chunk_delay_ms };
        if succeeded {
            self.chunk = self.chunk + 1;
            self.attempts = 0;
            self.successful = self.successful + 1;
            Step { wait: pause, next: self.next_action() }
        } else if self.attempts < self.config.max_retries {
            self.attempts = self.attempts + 1;
            let secs = backoff_secs(self.attempts);
            Step { wait: Wait::Backoff { secs }, next: self.next_action() }
        } else {
            self.chunk = self.chunk + 1;
            self.attempts = 0;
            self.failed = self.failed + 1;
            Step { wait: pause, next: self.next_action() }
        }
    }

    /// The result of a finished run: an error naming the failed chunks if
    /// there are any.
    pub fn outcome(&self) -> (r: Result<(), FetchError>)
        requires
            self.wf(),
            self.is_finished(),
        ensures
            self.successful + self.failed == self.total_chunks,
            self.failed == 0 ==> r == Ok::<(), FetchError>(()),
            self.failed > 0 ==> r == Err::<(), FetchError>(
                FetchError::ChunksFailed { failed: self.failed, total: self.total_chunks },
            ),
    {
        if self.failed > 0 {
            Err(FetchError::ChunksFailed { failed: self.failed, total: self.total_chunks })
        } else {
            Ok(())
        }
    }
}

/// `j` failed attempts in a row.
pub open spec fn failures(j: nat) -> Seq<bool> {
    Seq::new(j, |i: int| false)
}

proof fn lemma_failures_stay(s: ChunkedRun, j: nat)
    requires
        s.wf(),
        !s.is_finished(),
        s.attempts == 0,
        j <= s.config.max_retries,
    ensures
        s.feed(failures(j)) == (ChunkedRun { attempts: j as usize, ..s }),
    decreases j,
{
    if j > 0 {
        lemma_failures_stay(s, (j - 1) as nat);
        assert(failures(j).drop_last() =~= failures((j - 1) as nat));
    }
}

/// Retry law: starting a chunk, each of the first `max_retries` failures
/// keeps the chunk current and asks for the next attempt of it; the failure
/// after those (attempt `max_retries + 1`) resolves the chunk as one permanent
/// failure. A chunk that succeeds on attempt `k <= max_retries + 1` is
/// attempted exactly `k` times and resolves as one success, with no failure
/// counted.
pub proof fn lemma_retry_bound(s: ChunkedRun, k: nat)
    requires
        s.wf(),
        !s.is_finished(),
        s.attempts == 0,
        1 <= k <= s.config.max_retries + 1,
    ensures
        forall|j: nat| j < s.config.max_retries + 1 ==> {
            let t = #[trigger] s.feed(failures(j));
            &&& t.chunk == s.chunk
            &&& t.next_spec() == (Next::Attempt {
                chunk: s.chunk,
                span: chunk_span_spec(s.items as int, s.config.chunk_size as int, s.chunk as int),
                attempt: (j + 1) as usize,
            })
        },
        ({
            let t = s.feed(failures((s.config.max_retries + 1) as nat));
            &&& t.chunk == s.chunk + 1
            &&& t.failed == s.failed + 1
            &&& t.successful == s.successful
            &&& t.wf()
        }),
        ({
            let t = s.feed(failures((k - 1) as nat).push(true));
            &&& t.chunk == s.chunk + 1
            &&& t.successful == s.successful + 1
            &&& t.failed == s.failed
            &&& t.wf()
        }),
{
    let m = s.config.max_retries;
    assert forall|j: nat| j < m + 1 implies {
        let t = #[trigger] s.feed(failures(j));
        &&& t.chunk == s.chunk
        &&& t.next_spec() == (Next::Attempt {
            chunk: s.chunk,
            span: chunk_span_spec(s.items as int, s.config.chunk_size as int, s.chunk as int),
            attempt: (j + 1) as usize,
        })
    } by {
        lemma_failures_stay(s, j);
    }
    lemma_failures_stay(s, m as nat);
    assert(failures((m + 1) as nat).drop_last() =~= failures(m as nat));
    lemma_failures_stay(s, (k - 1) as nat);
    assert(failures((k - 1) as nat).push(true).drop_last() =~= failures((k - 1) as nat));
}

} // verus!
