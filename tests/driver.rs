use vnquant_dataset::chunking::{chunk_count_of, partition, Span};
use vnquant_dataset::driver::{backoff_secs, ChunkedRun, DriverConfig, Next, Step, Wait};
use vnquant_dataset::error::FetchError;

fn attempt(chunk: usize, start: usize, end: usize, attempt: usize) -> Next {
    Next::Attempt { chunk, span: Span { start, end }, attempt }
}

#[test]
fn scenario_three_chunks_with_retried_middle_chunk() {
    let (mut run, step) = ChunkedRun::start(250, DriverConfig::new(100, 2));
    assert_eq!(run.total_chunks, 3);
    assert_eq!(step, Step { wait: Wait::Nothing, next: attempt(0, 0, 100, 1) });
    let step = run.record_attempt(true);
    assert_eq!(step, Step { wait: Wait::Pause { millis: 200 }, next: attempt(1, 100, 200, 1) });
    let step = run.record_attempt(false);
    assert_eq!(step, Step { wait: Wait::Backoff { secs: 2 }, next: attempt(1, 100, 200, 2) });
    let step = run.record_attempt(false);
    assert_eq!(step, Step { wait: Wait::Backoff { secs: 4 }, next: attempt(1, 100, 200, 3) });
    let step = run.record_attempt(true);
    assert_eq!(step, Step { wait: Wait::Pause { millis: 200 }, next: attempt(2, 200, 250, 1) });
    let step = run.record_attempt(true);
    assert_eq!(step, Step { wait: Wait::Pause { millis: 200 }, next: Next::Finish { successful: 3, failed: 0 } });
    assert_eq!(run.successful, 3);
    assert_eq!(run.failed, 0);
    assert_eq!(run.outcome(), Ok(()));
}

#[test]
fn chunk_failing_every_attempt_fails_once() {
    let (mut run, _) = ChunkedRun::start(10, DriverConfig::new(10, 2));
    let mut attempts = 0;
    loop {
        attempts += 1;
        let step = run.record_attempt(false);
        if let Next::Finish { successful, failed } = step.next {
            assert_eq!((successful, failed), (0, 1));
            assert_eq!(step.wait, Wait::Pause { millis: 200 });
            break;
        }
    }
    assert_eq!(attempts, 3);
    assert_eq!(run.outcome(), Err(FetchError::ChunksFailed { failed: 1, total: 1 }));
}

#[test]
fn zero_retries_means_one_attempt() {
    let (mut run, _) = ChunkedRun::start(5, DriverConfig::new(2, 0));
    let step = run.record_attempt(false);
    assert_eq!(step, Step { wait: Wait::Pause { millis: 200 }, next: attempt(1, 2, 4, 1) });
    let step = run.record_attempt(true);
    assert_eq!(step.next, attempt(2, 4, 5, 1));
    let step = run.record_attempt(false);
    assert_eq!(step.next, Next::Finish { successful: 1, failed: 2 });
    assert_eq!(run.outcome(), Err(FetchError::ChunksFailed { failed: 2, total: 3 }));
}

#[test]
fn oversized_chunk_collapses_to_one() {
    let (mut run, step) = ChunkedRun::start(7, DriverConfig::new(100, 2));
    assert_eq!(run.total_chunks, 1);
    assert_eq!(step.next, attempt(0, 0, 7, 1));
    let step = run.record_attempt(true);
    assert_eq!(step.next, Next::Finish { successful: 1, failed: 0 });
}

#[test]
fn empty_universe_finishes_at_once() {
    let (run, step) = ChunkedRun::start(0, DriverConfig::new(100, 2));
    assert_eq!(step, Step { wait: Wait::Nothing, next: Next::Finish { successful: 0, failed: 0 } });
    assert_eq!(run.outcome(), Ok(()));
}

#[test]
fn configured_pause_is_used() {
    let cfg = DriverConfig::new(1, 1).with_inter_chunk_delay(50);
    let (mut run, _) = ChunkedRun::start(2, cfg);
    let step = run.record_attempt(true);
    assert_eq!(step.wait, Wait::Pause { millis: 50 });
}

#[test]
fn backoff_doubles_and_saturates() {
    assert_eq!(backoff_secs(0), 1);
    assert_eq!(backoff_secs(1), 2);
    assert_eq!(backoff_secs(2), 4);
    assert_eq!(backoff_secs(10), 1024);
    assert_eq!(backoff_secs(63), 1u64 << 63);
    assert_eq!(backoff_secs(64), u64::MAX);
    assert_eq!(backoff_secs(200), u64::MAX);
}

#[test]
fn partition_covers_universe_once() {
    assert_eq!(chunk_count_of(250, 100), 3);
    assert_eq!(chunk_count_of(200, 100), 2);
    assert_eq!(chunk_count_of(0, 100), 0);
    let spans = partition(250, 100);
    assert_eq!(
        spans,
        vec![Span { start: 0, end: 100 }, Span { start: 100, end: 200 }, Span { start: 200, end: 250 }]
    );
    for (n, c) in [(1usize, 1usize), (9, 4), (12, 4), (101, 10), (3, 7)] {
        let spans = partition(n, c);
        assert_eq!(spans.len(), (n + c - 1) / c);
        let mut next = 0;
        for s in &spans {
            assert_eq!(s.start, next);
            assert!(s.end > s.start && s.end - s.start <= c);
            next = s.end;
        }
        assert_eq!(next, n);
    }
}
