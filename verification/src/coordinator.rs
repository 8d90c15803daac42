//! The coordinator: sets a search up, waits for the first result, and tells
//! the workers to stop.

use crate::cancel::{broadcast, broadcasts, bus_capacity, open_bus, subscribe};
use crate::channel::{receive, result_channel, share_sender};
use crate::partition::{is_partition, partition, CounterRange, SetupError};
use crate::result::SearchResult;
use crate::worker::Worker;
use bus::{Bus, BusReader};
use rand::Rng;
use std::sync::mpsc::{Receiver, Sender};
use vstd::prelude::*;

verus! {

/// The coordinator's side of a running search: the receiving end of the
/// result channel and the sending end of the cancellation broadcast. It acts
/// on one result at most.
pub struct Collector {
    results: Receiver<SearchResult>,
    cancel: Bus<bool>,
    cancelled: bool,
}

/// A search that is ready to start: one worker per range, and the collector
/// that waits for them.
pub struct SearchSetup {
    /// The counter the partition starts from.
    pub base: u64,
    /// The workers, in the order of their ranges; each is run on a thread of
    /// its own.
    pub workers: Vec<Worker>,
    /// The coordinator's ends of the result channel and of the broadcast.
    pub collector: Collector,
}

/// The ranges of a list of workers, in order.
pub open spec fn ranges_of(workers: Seq<Worker>) -> Seq<CounterRange> {
    Seq::new(workers.len(), |i: int| workers[i].range())
}

/// Whether `setup` is a search for `message` at `difficulty` with
/// `worker_count` workers above `base`: the workers own the ranges of the
/// partition, in order, and nothing has been cancelled or broadcast yet.
pub open spec fn is_setup_for(
    setup: SearchSetup,
    base: u64,
    message: Seq<char>,
    difficulty: u8,
    worker_count: nat,
) -> bool {
    &&& setup.base == base
    &&& is_partition(ranges_of(setup.workers@), base, worker_count)
    &&& forall|i: int|
        0 <= i < worker_count ==> {
            &&& (#[trigger] setup.workers@[i]).message() == message
            &&& setup.workers@[i].difficulty() == difficulty
        }
    &&& !setup.collector.is_cancelled() && setup.collector.signals() == Seq::<bool>::empty()
}

/// Calls `rand::thread_rng` and `Rng::gen` for a `u64`, uniform over the
/// whole type. Nothing is claimed of the result. The generator is seeded by
/// the system and gives up only where the system cannot seed it.
#[verifier::external_body]
fn random_base() -> (base: u64) {
    rand::thread_rng().gen()
}

impl Collector {
    #[verifier::type_invariant]
    spec fn armed(&self) -> bool {
        &&& bus_capacity(self.cancel) >= 1
        &&& !self.cancelled ==> broadcasts(self.cancel) == Seq::<bool>::empty()
    }

    /// Whether the collector has taken its result and told the workers to
    /// stop.
    pub closed spec fn is_cancelled(&self) -> bool {
        self.cancelled
    }

    /// Whether the collector has taken its result and told the workers to
    /// stop.
    pub fn cancelled(&self) -> (cancelled: bool)
        ensures
            cancelled == self.is_cancelled(),
    {
        self.cancelled
    }

    /// Waits for the first result on the channel. When one arrives, the order
    /// to stop is broadcast, once, without waiting for any worker to notice,
    /// and the result is handed back. `None` means that no result will come:
    /// every worker has ended without one, or the collector has had its
    /// result before and reads no further.
    pub fn await_first(&mut self) -> (first: Option<SearchResult>)
        ensures
            old(self).is_cancelled() ==> first is None && final(self).is_cancelled(),
            !old(self).is_cancelled() ==> (first is Some <==> final(self).is_cancelled()),
            first is Some ==> final(self).signals() == seq![true],
            first is None ==> final(self).signals() == old(self).signals(),
    {
        if self.cancelled {
            return None;
        }
        let received: Option<SearchResult> = receive(&self.results);
        self.settle(received)
    }

    /// The values the collector has broadcast to the workers so far, oldest
    /// first.
    pub closed spec fn signals(&self) -> Seq<bool> {
        broadcasts(self.cancel)
    }

    /// Decides on what the result channel gave. The first result that is
    /// handed in is accepted: the order to stop is broadcast as a single
    /// `true`, and the result is handed back as it came. A collector that
    /// has accepted a result drops whatever is handed in later, and `None`
    /// changes nothing.
    pub fn settle(&mut self, received: Option<SearchResult>) -> (first: Option<SearchResult>)
        ensures
            first == if old(self).is_cancelled() {
                None
            } else {
                received
            },
            final(self).is_cancelled() == (old(self).is_cancelled() || received is Some),
            first is Some ==> final(self).signals() == seq![true],
            first is None ==> final(self).signals() == old(self).signals(),
    {
        proof {
            use_type_invariant(&*self);
        }
        if self.cancelled {
            return None;
        }
        if received.is_some() {
            self.cancelled = true;
            broadcast(&mut self.cancel, true);
            assert(self.signals() =~= seq![true]);
        }
        received
    }
}

/// Sets up a search above a given base counter: validates the worker count,
/// cuts the counters into ranges, and equips one worker per range with a copy
/// of the message, a sender for its result and its own cancellation reader.
/// Fails exactly when `worker_count` is zero, and then nothing has been
/// made.
pub fn prepare_search_from(
    base: u64,
    message: &str,
    difficulty: u8,
    worker_count: usize,
) -> (outcome: Result<SearchSetup, SetupError>)
    ensures
        outcome is Err <==> worker_count == 0,
        outcome matches Err(error) ==> error == SetupError::InvalidWorkerCount,
        outcome matches Ok(setup) ==> is_setup_for(
            setup,
            base,
            message@,
            difficulty,
            worker_count as nat,
        ),
{
    let ranges: Vec<CounterRange> = match partition(base, worker_count) {
        Ok(ranges) => ranges,
        Err(error) => {
            return Err(error);
        },
    };
    let capacity: usize = if worker_count == usize::MAX {
        worker_count - 1
    } else {
        worker_count
    };
    let mut cancel: Bus<bool> = open_bus(capacity);
    let (sender, results): (Sender<SearchResult>, Receiver<SearchResult>) = result_channel();
    let mut workers: Vec<Worker> = Vec::new();
    let mut i: usize = 0;
    while i < worker_count
        invariant
            i <= worker_count,
            ranges@.len() == worker_count,
            workers@.len() == i,
            bus_capacity(cancel) >= 1,
            broadcasts(cancel) == Seq::<bool>::empty(),
            forall|j: int|
                0 <= j < i ==> {
                    &&& (#[trigger] workers@[j]).range() == ranges@[j]
                    &&& workers@[j].message() == message@
                    &&& workers@[j].difficulty() == difficulty
                },
        decreases worker_count - i,
    {
        let reader: BusReader<bool> = subscribe(&mut cancel);
        let worker: Worker = Worker::new(
            ranges[i],
            difficulty,
            String::from_str(message),
            share_sender(&sender),
            reader,
        );
        workers.push(worker);
        i += 1;
    }
    assert(ranges_of(workers@) =~= ranges@);
    Ok(SearchSetup { base, workers, collector: Collector { results, cancel, cancelled: false } })
}

/// Sets up a search above a base counter drawn at random from the whole
/// counter domain.
pub fn prepare_search(message: &str, difficulty: u8, worker_count: usize) -> (outcome: Result<
    SearchSetup,
    SetupError,
>)
    ensures
        outcome is Err <==> worker_count == 0,
        outcome matches Err(error) ==> error == SetupError::InvalidWorkerCount,
        outcome matches Ok(setup) ==> is_setup_for(
            setup,
            setup.base,
            message@,
            difficulty,
            worker_count as nat,
        ),
{
    if worker_count == 0 {
        return Err(SetupError::InvalidWorkerCount);
    }
    prepare_search_from(random_base(), message, difficulty, worker_count)
}

} // verus!
