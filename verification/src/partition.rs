//! The range partitioner: one counter range per worker.

use vstd::prelude::*;

verus! {

/// The counters `start..=end` that one worker walks. A range whose `end` lies
/// just below its `start` holds no counter.
#[derive(Clone, Copy, Debug, PartialEq, Eq, Structural)]
pub struct CounterRange {
    pub start: u64,
    pub end: u64,
    pub worker_id: usize,
}

impl CounterRange {
    /// Whether `counter` lies in the range.
    pub open spec fn contains(self, counter: u64) -> bool {
        self.start <= counter <= self.end
    }

    /// Whether the range holds no counter at all.
    pub open spec fn is_empty(self) -> bool {
        self.end < self.start
    }
}

/// Why a search could not be set up.
#[derive(Clone, Copy, Debug, PartialEq, Eq, Structural)]
pub enum SetupError {
    /// A search needs at least one worker.
    InvalidWorkerCount,
}

/// How many counters each worker gets: the counters above `base`, divided
/// evenly with the remainder dropped.
pub open spec fn chunk_size(base: u64, worker_count: nat) -> int {
    (u64::MAX - base) / (worker_count as int)
}

/// The first counter of worker `i`.
pub open spec fn range_start(base: u64, worker_count: nat, i: int) -> int {
    base + chunk_size(base, worker_count) * i
}

/// The last counter of worker `i`.
pub open spec fn range_end(base: u64, worker_count: nat, i: int) -> int {
    base + chunk_size(base, worker_count) * (i + 1) - 1
}

/// Whether `ranges` is the partition for `worker_count` workers above `base`.
pub open spec fn is_partition(ranges: Seq<CounterRange>, base: u64, worker_count: nat) -> bool {
    &&& ranges.len() == worker_count
    &&& forall|i: int|
        0 <= i < worker_count ==> {
            &&& (#[trigger] ranges[i]).start == range_start(base, worker_count, i)
            &&& ranges[i].end == range_end(base, worker_count, i)
            &&& ranges[i].worker_id == i
        }
}

/// Every range of a partition fits in the counter domain: it starts at or
/// above `base` and ends at or below `u64::MAX`, and its end is no further
/// than one below its start.
pub proof fn ranges_fit_the_domain(base: u64, worker_count: nat, i: int)
    requires
        0 < worker_count <= u64::MAX,
        0 <= i < worker_count,
    ensures
        0 <= chunk_size(base, worker_count),
        chunk_size(base, worker_count) * worker_count <= u64::MAX - base,
        base <= range_start(base, worker_count, i) <= u64::MAX,
        range_start(base, worker_count, i) - 1 <= range_end(base, worker_count, i) <= u64::MAX,
        0 <= range_end(base, worker_count, i),
        range_end(base, worker_count, i) - range_start(base, worker_count, i) + 1 == chunk_size(
            base,
            worker_count,
        ),
{
    let remaining: int = u64::MAX - base;
    let n: int = worker_count as int;
    let chunk: int = chunk_size(base, worker_count);
    assert(0 <= chunk && chunk * n <= remaining && remaining - chunk * n < n) by (nonlinear_arith)
        requires
            chunk == remaining / n,
            0 <= remaining,
            0 < n,
    ;
    assert(0 <= chunk * i && chunk * (i + 1) <= chunk * n && chunk * (i + 1) == chunk * i + chunk)
        by (nonlinear_arith)
        requires
            0 <= chunk,
            0 <= i < n,
    ;
    if chunk == 0 {
        assert(chunk * n == 0 && chunk * i == 0 && chunk * (i + 1) == 0) by (nonlinear_arith)
            requires
                chunk == 0,
        ;
        assert(remaining < n);
    }
}

/// The ranges of a partition are contiguous and pairwise disjoint: each
/// starts right after the one before it ends, so a later range lies wholly
/// above an earlier one and no counter belongs to two workers.
pub proof fn ranges_are_disjoint(
    ranges: Seq<CounterRange>,
    base: u64,
    worker_count: nat,
    i: int,
    j: int,
)
    requires
        0 < worker_count <= u64::MAX,
        is_partition(ranges, base, worker_count),
        0 <= i < j < worker_count,
    ensures
        ranges[i + 1].start == ranges[i].end + 1,
        ranges[i].end < ranges[j].start,
        forall|counter: u64|
            !(#[trigger] ranges[i].contains(counter) && #[trigger] ranges[j].contains(counter)),
{
    let chunk: int = chunk_size(base, worker_count);
    ranges_fit_the_domain(base, worker_count, i);
    assert(chunk * (i + 1) <= chunk * j) by (nonlinear_arith)
        requires
            0 <= chunk,
            i + 1 <= j,
    ;
}

/// When every worker gets at least one counter, no range is empty, and each
/// holds exactly its share of counters.
pub proof fn ranges_are_non_empty(ranges: Seq<CounterRange>, base: u64, worker_count: nat, i: int)
    requires
        0 < worker_count <= u64::MAX,
        is_partition(ranges, base, worker_count),
        0 <= i < worker_count,
        chunk_size(base, worker_count) >= 1,
    ensures
        !ranges[i].is_empty(),
        ranges[i].contains(ranges[i].start),
        ranges[i].end - ranges[i].start + 1 == chunk_size(base, worker_count),
{
    ranges_fit_the_domain(base, worker_count, i);
}

/// The division's remainder is left uncovered: the last range stops short of
/// `u64::MAX` by `(u64::MAX - base) % worker_count` counters, fewer than there
/// are workers, and `u64::MAX` itself is never handed out.
pub proof fn ranges_leave_a_short_tail(ranges: Seq<CounterRange>, base: u64, worker_count: nat)
    requires
        0 < worker_count <= u64::MAX,
        is_partition(ranges, base, worker_count),
    ensures
        ranges[worker_count - 1].end + 1 + (u64::MAX - base) % (worker_count as int) == u64::MAX,
        0 <= (u64::MAX - base) % (worker_count as int) < worker_count,
{
    let remaining: int = u64::MAX - base;
    let n: int = worker_count as int;
    let chunk: int = chunk_size(base, worker_count);
    assert(chunk * n + remaining % n == remaining && 0 <= remaining % n < n) by (nonlinear_arith)
        requires
            chunk == remaining / n,
            0 <= remaining,
            0 < n,
    ;
    assert(chunk * (n - 1 + 1) == chunk * n);
}

/// Cuts the counters above `base` into one range per worker, in worker
/// order. Fails exactly when there is no worker to give a range to.
pub fn partition(base: u64, worker_count: usize) -> (outcome: Result<Vec<CounterRange>, SetupError>)
    ensures
        outcome is Err <==> worker_count == 0,
        outcome matches Err(error) ==> error == SetupError::InvalidWorkerCount,
        outcome matches Ok(ranges) ==> is_partition(ranges@, base, worker_count as nat),
{
    if worker_count == 0 {
        return Err(SetupError::InvalidWorkerCount);
    }
    let remaining: u64 = u64::MAX - base;
    let chunk: u64 = remaining / (worker_count as u64);
    let mut ranges: Vec<CounterRange> = Vec::new();
    let mut i: usize = 0;
    while i < worker_count
        invariant
            0 < worker_count,
            i <= worker_count,
            chunk == chunk_size(base, worker_count as nat),
            ranges@.len() == i,
            forall|j: int|
                0 <= j < i ==> {
                    &&& (#[trigger] ranges@[j]).start == range_start(base, worker_count as nat, j)
                    &&& ranges@[j].end == range_end(base, worker_count as nat, j)
                    &&& ranges@[j].worker_id == j
                },
        decreases worker_count - i,
    {
        proof {
            ranges_fit_the_domain(base, worker_count as nat, i as int);
        }
        let offset: u64 = chunk * (i as u64);
        let start: u64 = base + offset;
        let end: u64 = if chunk == 0 {
            start - 1
        } else {
            start + (chunk - 1)
        };
        ranges.push(CounterRange { start, end, worker_id: i });
        i += 1;
    }
    Ok(ranges)
}

} // verus!
