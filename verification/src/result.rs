//! The record of a successful search.

use crate::digits::{hex_encoding, hex_string};
use vstd::prelude::*;

verus! {

/// What a `SearchResult` holds, as plain values.
pub struct SearchRecord {
    /// The first counter of the winner's range.
    pub start_counter: u64,
    /// The counter whose candidate matched.
    pub end_counter: u64,
    /// How many candidates were passed over before the match.
    pub iteration_count: u64,
    /// The digest in lowercase hexadecimal.
    pub digest_hex: Seq<char>,
    /// The text that was hashed.
    pub matched_message: Seq<char>,
    /// The winner's index among the workers.
    pub worker_id: usize,
    /// Always true: a record is only made for a match.
    pub found: bool,
}

/// The record for a match at `end_counter` in a range that starts at
/// `start_counter`.
pub open spec fn record_of(
    start_counter: u64,
    end_counter: u64,
    digest: Seq<u8>,
    matched_message: Seq<char>,
    worker_id: usize,
) -> SearchRecord {
    SearchRecord {
        start_counter,
        end_counter,
        iteration_count: (end_counter - start_counter) as u64,
        digest_hex: hex_encoding(digest),
        matched_message,
        worker_id,
        found: true,
    }
}

/// A winning counter with its digest and the account of the search that led
/// to it. Every value of this type reports a success, and its iteration count
/// is the distance from the range start to the winning counter.
#[derive(Debug)]
pub struct SearchResult {
    start_counter: u64,
    end_counter: u64,
    iteration_count: u64,
    digest_hex: String,
    matched_message: String,
    worker_id: usize,
    found: bool,
}

impl View for SearchResult {
    type V = SearchRecord;

    closed spec fn view(&self) -> SearchRecord {
        SearchRecord {
            start_counter: self.start_counter,
            end_counter: self.end_counter,
            iteration_count: self.iteration_count,
            digest_hex: self.digest_hex@,
            matched_message: self.matched_message@,
            worker_id: self.worker_id,
            found: self.found,
        }
    }
}

impl Clone for SearchResult {
    fn clone(&self) -> (copy: Self)
        ensures
            copy@ == self@,
    {
        proof {
            use_type_invariant(self);
        }
        SearchResult {
            start_counter: self.start_counter,
            end_counter: self.end_counter,
            iteration_count: self.iteration_count,
            digest_hex: self.digest_hex.clone(),
            matched_message: self.matched_message.clone(),
            worker_id: self.worker_id,
            found: self.found,
        }
    }
}

impl SearchResult {
    #[verifier::type_invariant]
    spec fn accounted(&self) -> bool {
        &&& self.start_counter <= self.end_counter
        &&& self.iteration_count == self.end_counter - self.start_counter
        &&& self.found
    }

    /// Records a match at `end_counter`, with the digest written out in
    /// hexadecimal. The winning counter cannot lie below the range start.
    pub fn new(
        start_counter: u64,
        end_counter: u64,
        digest: &[u8],
        matched_message: String,
        worker_id: usize,
    ) -> (result: Self)
        requires
            start_counter <= end_counter,
        ensures
            result@ == record_of(start_counter, end_counter, digest@, matched_message@, worker_id),
    {
        SearchResult {
            start_counter,
            end_counter,
            iteration_count: end_counter - start_counter,
            digest_hex: hex_string(digest),
            matched_message,
            worker_id,
            found: true,
        }
    }

    /// The first counter of the winner's range.
    pub fn start_counter(&self) -> (counter: u64)
        ensures
            counter == self@.start_counter,
            counter <= self@.end_counter,
    {
        proof {
            use_type_invariant(self);
        }
        self.start_counter
    }

    /// The counter whose candidate matched.
    pub fn end_counter(&self) -> (counter: u64)
        ensures
            counter == self@.end_counter,
            counter >= self@.start_counter,
    {
        proof {
            use_type_invariant(self);
        }
        self.end_counter
    }

    /// How many candidates were passed over before the match: the distance
    /// from the range start to the winning counter.
    pub fn iteration_count(&self) -> (count: u64)
        ensures
            count == self@.iteration_count,
            count == self@.end_counter - self@.start_counter,
    {
        proof {
            use_type_invariant(self);
        }
        self.iteration_count
    }

    /// The digest in lowercase hexadecimal.
    pub fn digest_hex(&self) -> (text: &str)
        ensures
            text@ == self@.digest_hex,
    {
        self.digest_hex.as_str()
    }

    /// The text that was hashed.
    pub fn matched_message(&self) -> (text: &str)
        ensures
            text@ == self@.matched_message,
    {
        self.matched_message.as_str()
    }

    /// The winner's index among the workers.
    pub fn worker_id(&self) -> (id: usize)
        ensures
            id == self@.worker_id,
    {
        self.worker_id
    }

    /// Whether the search succeeded, which it did.
    pub fn found(&self) -> (found: bool)
        ensures
            found == self@.found,
            found,
    {
        proof {
            use_type_invariant(self);
        }
        self.found
    }
}

} // verus!
