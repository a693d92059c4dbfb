//! The watcher's restart backoff: exponential with jitter, reset to its
//! minimum on every successful page or event.

use vstd::prelude::*;

verus! {

/// Relies on `rand::random`: one machine word from the thread-local
/// generator. Nothing is promised of its value.
#[verifier::external_body]
fn random_word() -> u64 {
    rand::random::<u64>()
}

/// Exponential backoff with jitter: each delay is the current base give or
/// take a tenth, and the base doubles up to the maximum until a reset.
pub struct Backoff {
    initial_millis: u64,
    max_millis: u64,
    current_millis: u64,
}

impl Backoff {
    /// The policy's well-formedness: the base stays between the bounds, and
    /// the bounds leave room for doubling and jitter.
    pub closed spec fn inv(&self) -> bool {
        &&& 0 < self.initial_millis <= self.current_millis <= self.max_millis
        &&& self.max_millis <= 0x1000_0000
    }

    /// The delay the next failure is answered with, before jitter.
    pub closed spec fn spec_current(&self) -> u64 {
        self.current_millis
    }

    /// The configured minimum delay.
    pub closed spec fn spec_initial(&self) -> u64 {
        self.initial_millis
    }

    /// The configured maximum delay.
    pub closed spec fn spec_max(&self) -> u64 {
        self.max_millis
    }

    /// A policy between the given bounds, starting at the minimum.
    pub fn new(initial_millis: u64, max_millis: u64) -> (r: Backoff)
        requires
            0 < initial_millis <= max_millis,
            max_millis <= 0x1000_0000,
        ensures
            r.inv(),
            r.spec_initial() == initial_millis,
            r.spec_max() == max_millis,
            r.spec_current() == initial_millis,
    {
        Backoff { initial_millis, max_millis, current_millis: initial_millis }
    }

    /// The watcher's defaults: 800 milliseconds to 30 seconds.
    pub fn watcher_default() -> (r: Backoff)
        ensures
            r.inv(),
            r.spec_initial() == 800,
            r.spec_max() == 30_000,
            r.spec_current() == 800,
    {
        Backoff::new(800, 30_000)
    }

    /// The next delay in milliseconds: the current base jittered by at most
    /// a tenth either way; the base then doubles, capped at the maximum.
    pub fn next_delay_millis(&mut self) -> (r: u64)
        requires
            old(self).inv(),
        ensures
            final(self).inv(),
            old(self).spec_current() - old(self).spec_current() / 10 <= r <= old(
                self,
            ).spec_current() + old(self).spec_current() / 10,
            final(self).spec_current() as int == if 2 * old(self).spec_current() <= old(
                self,
            ).spec_max() {
                2 * old(self).spec_current() as int
            } else {
                old(self).spec_max() as int
            },
            final(self).spec_initial() == old(self).spec_initial(),
            final(self).spec_max() == old(self).spec_max(),
    {
        let base = self.current_millis;
        let tenth = base / 10;
        let width = 2 * tenth + 1;
        let jittered = base - tenth + random_word() % width;
        self.current_millis = if base <= self.max_millis / 2 {
            2 * base
        } else {
            self.max_millis
        };
        proof {
            assert(2 * base <= self.max_millis ==> base <= self.max_millis / 2);
        }
        jittered
    }

    /// Resets the base to the minimum, as a successful page or event does.
    pub fn reset(&mut self)
        requires
            old(self).inv(),
        ensures
            final(self).inv(),
            final(self).spec_current() == old(self).spec_initial(),
            final(self).spec_initial() == old(self).spec_initial(),
            final(self).spec_max() == old(self).spec_max(),
    {
        self.current_millis = self.initial_millis;
    }
}

} // verus!
