//! The worker: a brute-force walk over one counter range.

use crate::cancel::{poll, stop_requested};
use crate::candidate::{candidate_message, candidate_text};
use crate::channel::deliver;
use crate::hashing::{digest_text, text_digest, DIGEST_BYTES};
use crate::matcher::{has_zero_prefix, matches_difficulty};
use crate::partition::CounterRange;
use crate::result::{record_of, SearchResult};
use bus::BusReader;
use std::sync::mpsc::Sender;
use vstd::prelude::*;

verus! {

/// Where a worker stands. `Searching` is the only state it moves on from.
#[derive(Debug)]
pub enum WorkerState {
    /// `counter` is the next candidate to try.
    Searching { counter: u64 },
    /// A candidate matched; the worker has its result.
    Found(SearchResult),
    /// The range ran out without a match.
    Exhausted,
    /// The order to stop arrived.
    Cancelled,
}

/// How a worker ended, and whether its result reached the channel.
#[derive(Debug)]
pub struct WorkerReport {
    /// The state the worker ended in.
    pub outcome: WorkerState,
    /// Whether the result channel took the worker's result. A result that
    /// finds the coordinator gone is dropped, and the worker ends all the
    /// same.
    pub delivered: bool,
}

/// A worker before it starts: its range, what it searches for, and its ends
/// of the result channel and of the cancellation broadcast.
pub struct Worker {
    range: CounterRange,
    difficulty: u8,
    message: String,
    results: Sender<SearchResult>,
    cancel: BusReader<bool>,
}

/// Whether the candidate for `counter` meets the difficulty.
pub open spec fn hits(message: Seq<char>, difficulty: u8, counter: u64) -> bool {
    has_zero_prefix(text_digest(candidate_text(message, counter)), difficulty as nat)
}

/// The last counter a worker tries before it gives up: the end of its range,
/// or the top of the counter domain where the range has no end above its
/// start.
pub open spec fn last_counter(range: CounterRange) -> u64 {
    if range.start <= range.end {
        range.end
    } else {
        u64::MAX
    }
}

/// No candidate from the range start up to, but not including, `bound` meets
/// the difficulty.
pub open spec fn no_hit_below(
    range: CounterRange,
    message: Seq<char>,
    difficulty: u8,
    bound: int,
) -> bool {
    forall|c: u64| range.start <= c < bound ==> !#[trigger] hits(message, difficulty, c)
}

/// Whether `next` is where a searching worker stands after it has tried
/// `counter`, whose candidate text and digest are given: on a match it has
/// found its result; else it is exhausted at the end of the range, and at the
/// top of the counter domain; else it goes on with the next counter.
pub open spec fn follows_candidate(
    next: WorkerState,
    range: CounterRange,
    counter: u64,
    candidate: Seq<char>,
    digest: Seq<u8>,
    difficulty: u8,
) -> bool {
    if has_zero_prefix(digest, difficulty as nat) {
        next matches WorkerState::Found(result) && result@ == record_of(
            range.start,
            counter,
            digest,
            candidate,
            range.worker_id,
        )
    } else if counter == range.end || counter == u64::MAX {
        next is Exhausted
    } else {
        next == (WorkerState::Searching { counter: (counter + 1) as u64 })
    }
}

/// What a state says of the search so far. A searching worker has found no
/// match below its counter. A found result is the first match from the range
/// start on, with its digest in forty hexadecimal digits, and accounts for
/// the way there. An exhausted worker has tried every counter up to the last
/// without a match. A cancelled worker claims nothing.
pub open spec fn explored(
    state: WorkerState,
    range: CounterRange,
    message: Seq<char>,
    difficulty: u8,
) -> bool {
    match state {
        WorkerState::Searching { counter } => {
            &&& range.start <= counter <= last_counter(range)
            &&& no_hit_below(range, message, difficulty, counter as int)
        },
        WorkerState::Found(result) => {
            &&& range.start <= result@.end_counter <= last_counter(range)
            &&& no_hit_below(range, message, difficulty, result@.end_counter as int)
            &&& hits(message, difficulty, result@.end_counter)
            &&& result@.digest_hex.len() == 2 * DIGEST_BYTES
            &&& result@ == record_of(
                range.start,
                result@.end_counter,
                text_digest(candidate_text(message, result@.end_counter)),
                candidate_text(message, result@.end_counter),
                range.worker_id,
            )
        },
        WorkerState::Exhausted => no_hit_below(
            range,
            message,
            difficulty,
            last_counter(range) + 1,
        ),
        WorkerState::Cancelled => true,
    }
}

/// Judges one candidate by its digest. A worker never looks below the start
/// of its range.
pub fn evaluate_candidate(
    range: &CounterRange,
    counter: u64,
    candidate: String,
    digest: &[u8],
    difficulty: u8,
) -> (next: WorkerState)
    requires
        range.start <= counter,
    ensures
        follows_candidate(next, *range, counter, candidate@, digest@, difficulty),
{
    if matches_difficulty(digest, difficulty) {
        WorkerState::Found(
            SearchResult::new(range.start, counter, digest, candidate, range.worker_id),
        )
    } else if counter == range.end || counter == u64::MAX {
        WorkerState::Exhausted
    } else {
        WorkerState::Searching { counter: counter + 1 }
    }
}

/// One turn of a searching worker at `counter`. The order to stop comes
/// first: a cancelled worker hashes nothing and has no result. Otherwise the
/// candidate for `counter` is built, hashed and judged.
pub fn worker_step(
    range: &CounterRange,
    message: &str,
    difficulty: u8,
    counter: u64,
    cancelled: bool,
) -> (next: WorkerState)
    requires
        range.start <= counter,
    ensures
        cancelled ==> next is Cancelled,
        !cancelled ==> follows_candidate(
            next,
            *range,
            counter,
            candidate_text(message@, counter),
            text_digest(candidate_text(message@, counter)),
            difficulty,
        ),
        next matches WorkerState::Found(result) ==> result@.digest_hex.len() == 2 * DIGEST_BYTES,
{
    if cancelled {
        return WorkerState::Cancelled;
    }
    let candidate: String = candidate_message(message, counter);
    let digest: Vec<u8> = digest_text(candidate.as_str());
    evaluate_candidate(range, counter, candidate, digest.as_slice(), difficulty)
}

/// A step keeps the account of the search: where the counters below
/// `counter` held no match, the state after trying `counter` says so of the
/// counters it stands for.
pub proof fn step_keeps_account(
    next: WorkerState,
    range: CounterRange,
    message: Seq<char>,
    difficulty: u8,
    counter: u64,
)
    requires
        explored(WorkerState::Searching { counter }, range, message, difficulty),
        follows_candidate(
            next,
            range,
            counter,
            candidate_text(message, counter),
            text_digest(candidate_text(message, counter)),
            difficulty,
        ),
        next matches WorkerState::Found(result) ==> result@.digest_hex.len() == 2 * DIGEST_BYTES,
    ensures
        explored(next, range, message, difficulty),
        next matches WorkerState::Searching { counter: advanced } ==> advanced == counter + 1,
{
    if !hits(message, difficulty, counter) {
        assert(no_hit_below(range, message, difficulty, counter + 1));
    }
}

/// A found result is accounted to the range it was found in: it starts where
/// the range starts, carries the range's worker index, and its iteration
/// count is the distance from there to the winning counter, which no earlier
/// counter of the range would have been.
pub proof fn found_result_accounts_for_its_range(
    result: SearchResult,
    range: CounterRange,
    message: Seq<char>,
    difficulty: u8,
)
    requires
        explored(WorkerState::Found(result), range, message, difficulty),
    ensures
        result@.found,
        result@.worker_id == range.worker_id,
        result@.start_counter == range.start,
        result@.iteration_count == result@.end_counter - result@.start_counter,
        result@.matched_message == candidate_text(message, result@.end_counter),
        hits(message, difficulty, result@.end_counter),
        forall|c: u64|
            range.start <= c < result@.end_counter ==> !#[trigger] hits(message, difficulty, c),
{
}

/// With difficulty zero the first candidate a worker tries wins: the result
/// is the range start itself, reached after no iteration.
pub proof fn zero_difficulty_wins_at_once(
    next: WorkerState,
    range: CounterRange,
    candidate: Seq<char>,
    digest: Seq<u8>,
)
    requires
        follows_candidate(next, range, range.start, candidate, digest, 0),
    ensures
        next matches WorkerState::Found(result) && result@.start_counter == range.start
            && result@.end_counter == range.start && result@.iteration_count == 0
            && result@.found,
{
}

/// Walks the range from its start: before each candidate the cancellation
/// reader is polled, then the candidate is hashed and judged. A match is
/// sent on the result channel, once; a worker that ends otherwise sends
/// nothing. The report holds the state the worker ended in, which is never
/// `Searching`, and whether the channel took the result.
pub fn search_for_hash(
    range: CounterRange,
    difficulty: u8,
    message: String,
    results: Sender<SearchResult>,
    cancel: BusReader<bool>,
) -> (report: WorkerReport)
    ensures
        !(report.outcome is Searching),
        explored(report.outcome, range, message@, difficulty),
        report.delivered ==> report.outcome is Found,
{
    let mut cancel: BusReader<bool> = cancel;
    let mut counter: u64 = range.start;
    let mut state: WorkerState = WorkerState::Searching { counter };
    loop
        invariant_except_break
            state == (WorkerState::Searching { counter }),
        invariant
            explored(state, range, message@, difficulty),
        ensures
            !(state is Searching),
        decreases u64::MAX - counter,
    {
        let polled: Option<bool> = poll(&mut cancel);
        let next: WorkerState = worker_step(
            &range,
            message.as_str(),
            difficulty,
            counter,
            stop_requested(polled),
        );
        proof {
            if !(next is Cancelled) {
                step_keeps_account(next, range, message@, difficulty, counter);
            }
        }
        match next {
            WorkerState::Searching { counter: advanced } => {
                counter = advanced;
                state = WorkerState::Searching { counter: advanced };
            },
            ended => {
                state = ended;
                break ;
            },
        }
    }
    let delivered: bool = match &state {
        WorkerState::Found(result) => deliver(&results, result.clone()),
        _ => false,
    };
    WorkerReport { outcome: state, delivered }
}

impl Worker {
    /// Equips a worker for `range`.
    pub fn new(
        range: CounterRange,
        difficulty: u8,
        message: String,
        results: Sender<SearchResult>,
        cancel: BusReader<bool>,
    ) -> (worker: Self)
        ensures
            worker.range() == range,
            worker.difficulty() == difficulty,
            worker.message() == message@,
    {
        Worker { range, difficulty, message, results, cancel }
    }

    /// The range the worker owns.
    pub closed spec fn range(&self) -> CounterRange {
        self.range
    }

    /// The number of leading zero nibbles the worker looks for.
    pub closed spec fn difficulty(&self) -> u8 {
        self.difficulty
    }

    /// The fixed message the worker puts before each counter.
    pub closed spec fn message(&self) -> Seq<char> {
        self.message@
    }

    /// The range the worker owns.
    pub fn assigned_range(&self) -> (range: CounterRange)
        ensures
            range == self.range(),
    {
        self.range
    }

    /// Runs the search over the worker's range to its end.
    pub fn run(self) -> (report: WorkerReport)
        ensures
            !(report.outcome is Searching),
            explored(report.outcome, self.range(), self.message(), self.difficulty()),
            report.delivered ==> report.outcome is Found,
    {
        search_for_hash(self.range, self.difficulty, self.message, self.results, self.cancel)
    }
}

} // verus!
