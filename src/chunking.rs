//! Splitting a sequence of `n` items into contiguous chunks of a fixed size,
//! the last of which may be shorter.

use vstd::prelude::*;
use vstd::arithmetic::div_mod::{lemma_fundamental_div_mod, lemma_fundamental_div_mod_converse};
use vstd::arithmetic::mul::lemma_mul_inequality;

verus! {

/// The half-open index range `start..end` of one chunk.
#[derive(Clone, Copy, Debug, PartialEq, Eq, Structural)]
pub struct Span {
    pub start: usize,
    pub end: usize,
}

impl Span {
    pub open spec fn len(self) -> int {
        self.end - self.start
    }
}

/// `ceil(n / size)`.
pub open spec fn chunk_count(n: int, size: int) -> int {
    (n + size - 1) / size
}

/// Where the first `k` chunks end: `min(k * size, n)`.
pub open spec fn prefix_end(n: int, size: int, k: int) -> int {
    if k * size <= n {
        k * size
    } else {
        n
    }
}

/// The span of chunk `i`.
pub open spec fn chunk_span_spec(n: int, size: int, i: int) -> Span {
    Span { start: (i * size) as usize, end: prefix_end(n, size, i + 1) as usize }
}

/// The items of chunk `i` of `u`.
pub open spec fn chunk_of<A>(u: Seq<A>, size: int, i: int) -> Seq<A> {
    u.subrange(i * size, prefix_end(u.len() as int, size, i + 1))
}

/// The first `k` chunks of `u`, joined in order.
pub open spec fn join_chunks<A>(u: Seq<A>, size: int, k: int) -> Seq<A>
    decreases k,
{
    if k <= 0 {
        Seq::empty()
    } else {
        join_chunks(u, size, k - 1) + chunk_of(u, size, k - 1)
    }
}

/// The ceiling is the least count whose chunks reach `n`.
pub proof fn lemma_chunk_count(n: int, size: int)
    requires
        n >= 0,
        size > 0,
    ensures
        0 <= chunk_count(n, size) <= n,
        chunk_count(n, size) * size >= n,
        n == 0 <==> chunk_count(n, size) == 0,
        chunk_count(n, size) > 0 ==> (chunk_count(n, size) - 1) * size < n,
        chunk_count(n, size) == n / size + (if n % size == 0 { 0int } else { 1int }),
{
    lemma_fundamental_div_mod(n, size);
    let q = n / size;
    let r = n % size;
    assert(q >= 0) by (nonlinear_arith)
        requires n == size * q + r, 0 <= r < size, n >= 0, size > 0;
    if r == 0 {
        assert(n + size - 1 == q * size + (size - 1)) by (nonlinear_arith)
            requires n == size * q + r, r == 0;
        lemma_fundamental_div_mod_converse(n + size - 1, size, q, size - 1);
    } else {
        assert(n + size - 1 == (q + 1) * size + (r - 1)) by (nonlinear_arith)
            requires n == size * q + r;
        lemma_fundamental_div_mod_converse(n + size - 1, size, q + 1, r - 1);
    }
    let c = chunk_count(n, size);
    assert(c * size >= n) by (nonlinear_arith)
        requires n == size * q + r, 0 <= r < size, c == q + (if r == 0 { 0int } else { 1int });
    assert(c > 0 ==> (c - 1) * size < n) by (nonlinear_arith)
        requires n == size * q + r, 0 <= r < size, c == q + (if r == 0 { 0int } else { 1int }), q >= 0;
    assert(c <= n) by (nonlinear_arith)
        requires c > 0 ==> (c - 1) * size < n, size > 0, n >= 0, c >= 0;
    assert(n == 0 ==> c == 0) by (nonlinear_arith)
        requires n == size * q + r, 0 <= r < size, c == q + (if r == 0 { 0int } else { 1int }), q >= 0, size > 0;
}

/// A chunk below the count starts inside the sequence and is not empty.
pub proof fn lemma_chunk_in_range(n: int, size: int, i: int)
    requires
        n >= 0,
        size > 0,
        0 <= i < chunk_count(n, size),
    ensures
        0 <= i * size < n,
        i * size < prefix_end(n, size, i + 1) <= n,
        prefix_end(n, size, i + 1) - i * size <= size,
        (i + 1) * size == i * size + size,
{
    lemma_chunk_count(n, size);
    lemma_mul_inequality(i, chunk_count(n, size) - 1, size);
    assert((i + 1) * size == i * size + size) by (nonlinear_arith);
    assert(0 <= i * size) by (nonlinear_arith)
        requires i >= 0, size > 0;
}

/// Number of chunks of size `size` that `n` items make.
pub fn chunk_count_of(n: usize, size: usize) -> (r: usize)
    requires
        size > 0,
    ensures
        r == chunk_count(n as int, size as int),
{
    proof {
        lemma_chunk_count(n as int, size as int);
    }
    if n % size == 0 {
        n / size
    } else {
        n / size + 1
    }
}

/// The span of chunk `i`.
pub fn chunk_span(n: usize, size: usize, i: usize) -> (r: Span)
    requires
        size > 0,
        i < chunk_count(n as int, size as int),
    ensures
        r == chunk_span_spec(n as int, size as int, i as int),
        r.start < r.end <= n,
        r.len() <= size,
{
    proof {
        lemma_chunk_in_range(n as int, size as int, i as int);
    }
    let start = i * size;
    let end = if n - start >= size {
        start + size
    } else {
        n
    };
    Span { start, end }
}

/// All chunk spans, in order.
pub fn partition(n: usize, size: usize) -> (r: Vec<Span>)
    requires
        size > 0,
    ensures
        r@.len() == chunk_count(n as int, size as int),
        forall|i: int| 0 <= i < r@.len() ==> r@[i] == chunk_span_spec(n as int, size as int, i),
{
    let count = chunk_count_of(n, size);
    let mut spans: Vec<Span> = Vec::new();
    let mut i: usize = 0;
    while i < count
        invariant
            count == chunk_count(n as int, size as int),
            size > 0,
            i <= count,
            spans@.len() == i,
            forall|j: int| 0 <= j < i ==> spans@[j] == chunk_span_spec(n as int, size as int, j),
        decreases count - i,
    {
        spans.push(chunk_span(n, size, i));
        i = i + 1;
    }
    spans
}

/// Partition law: a sequence of `n` items splits into exactly `ceil(n / size)`
/// chunks, each holding between one and `size` items and lying at the span
/// that `chunk_span` gives, and joining the chunks in order gives back the
/// sequence, with no item lost or repeated.
pub proof fn lemma_partition_exact<A>(u: Seq<A>, size: int)
    requires
        size > 0,
        u.len() <= usize::MAX,
    ensures
        chunk_count(u.len() as int, size) == (u.len() + size - 1) / size,
        forall|i: int| 0 <= i < chunk_count(u.len() as int, size)
            ==> 1 <= #[trigger] chunk_of(u, size, i).len() <= size,
        forall|i: int| 0 <= i < chunk_count(u.len() as int, size)
            ==> #[trigger] chunk_of(u, size, i) == u.subrange(
                chunk_span_spec(u.len() as int, size, i).start as int,
                chunk_span_spec(u.len() as int, size, i).end as int,
            ),
        join_chunks(u, size, chunk_count(u.len() as int, size)) == u,
{
    let n = u.len() as int;
    let c = chunk_count(n, size);
    lemma_chunk_count(n, size);
    assert forall|i: int| 0 <= i < c implies 1 <= #[trigger] chunk_of(u, size, i).len() <= size by {
        lemma_chunk_in_range(n, size, i);
    }
    assert forall|i: int| 0 <= i < c implies #[trigger] chunk_of(u, size, i) == u.subrange(
        chunk_span_spec(n, size, i).start as int,
        chunk_span_spec(n, size, i).end as int,
    ) by {
        lemma_chunk_in_range(n, size, i);
    }
    lemma_join_prefix(u, size, c);
    assert(prefix_end(n, size, c) == n);
    assert(u.subrange(0, n) =~= u);
}

proof fn lemma_join_prefix<A>(u: Seq<A>, size: int, k: int)
    requires
        size > 0,
        0 <= k <= chunk_count(u.len() as int, size),
    ensures
        join_chunks(u, size, k) =~= u.subrange(0, prefix_end(u.len() as int, size, k)),
    decreases k,
{
    let n = u.len() as int;
    lemma_chunk_count(n, size);
    if k > 0 {
        lemma_join_prefix(u, size, k - 1);
        lemma_chunk_in_range(n, size, k - 1);
        let mid = (k - 1) * size;
        assert(prefix_end(n, size, k - 1) == mid);
        assert(chunk_of(u, size, k - 1) == u.subrange(mid, prefix_end(n, size, k)));
        assert(u.subrange(0, mid) + u.subrange(mid, prefix_end(n, size, k))
            =~= u.subrange(0, prefix_end(n, size, k)));
    } else {
        assert(0 * size == 0) by (nonlinear_arith);
    }
}

} // verus!
