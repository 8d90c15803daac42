//! The cancellation broadcast: one sender, one reader per worker.

use bus::{Bus, BusReader};
use vstd::prelude::*;

verus! {

/// The sending side of the broadcast, `bus::Bus`, carried as an opaque value.
#[verifier::external_type_specification]
#[verifier::external_body]
#[verifier::reject_recursive_types(T)]
pub struct ExBus<T>(bus::Bus<T>);

/// One receiving side of the broadcast, `bus::BusReader`, carried as an
/// opaque value.
#[verifier::external_type_specification]
#[verifier::external_body]
#[verifier::reject_recursive_types(T)]
pub struct ExBusReader<T>(bus::BusReader<T>);

/// The values that have been broadcast on a bus since it was made, oldest
/// first.
pub uninterp spec fn broadcasts(bus: Bus<bool>) -> Seq<bool>;

/// The length a bus was made with: how many broadcasts it takes in before a
/// reader has to catch up.
pub uninterp spec fn bus_capacity(bus: Bus<bool>) -> nat;

/// Calls `Bus::new` with `capacity`. Trusted, not proved: the new bus has
/// that capacity and nothing has been broadcast on it. The call adds one to
/// its argument, which rules out `usize::MAX`.
#[verifier::external_body]
pub(crate) fn open_bus(capacity: usize) -> (bus: Bus<bool>)
    requires
        capacity < usize::MAX,
    ensures
        broadcasts(bus) == Seq::<bool>::empty(),
        bus_capacity(bus) == capacity,
{
    Bus::new(capacity)
}

/// Calls `Bus::add_rx`. Trusted, not proved: adding a reader changes neither
/// what has been broadcast nor the capacity. The reader sees the broadcasts
/// made after this call.
#[verifier::external_body]
pub(crate) fn subscribe(bus: &mut Bus<bool>) -> (reader: BusReader<bool>)
    ensures
        broadcasts(*final(bus)) == broadcasts(*old(bus)),
        bus_capacity(*final(bus)) == bus_capacity(*old(bus)),
{
    bus.add_rx()
}

/// Calls `Bus::broadcast` with `value`. Trusted, not proved: the value joins
/// what has been broadcast, and the call does not unwind. The call waits
/// while the ring is full; with fewer broadcasts made than the capacity there
/// is a free seat and it returns at once.
#[verifier::external_body]
pub(crate) fn broadcast(bus: &mut Bus<bool>, value: bool)
    requires
        broadcasts(*old(bus)).len() < bus_capacity(*old(bus)),
    ensures
        broadcasts(*final(bus)) == broadcasts(*old(bus)).push(value),
        bus_capacity(*final(bus)) == bus_capacity(*old(bus)),
    no_unwind
{
    bus.broadcast(value)
}

/// Calls `BusReader::try_recv`, which never waits. Nothing is claimed of the
/// result: what a reader sees depends on when the other side broadcasts.
/// `None` stands for an empty or closed bus.
#[verifier::external_body]
pub(crate) fn poll(reader: &mut BusReader<bool>) -> (polled: Option<bool>) {
    reader.try_recv().ok()
}

/// Whether a poll brought the order to stop: only a broadcast `true` does.
pub fn stop_requested(polled: Option<bool>) -> (stop: bool)
    ensures
        stop == (polled == Some(true)),
{
    match polled {
        Some(found) => found,
        None => false,
    }
}

} // verus!
