//! The mathematical model shared by every negotiator: one stream of desired
//! values, coalesced into an ordered sequence of remote commits.
//!
//! A stream keeps the value the remote side is known to hold (`current`), the
//! latest value the local side wants (`desired`), the value of a commit that
//! was issued and not yet confirmed (`in_flight`), and whether a worker exists
//! (`active`). Desired values are never queued: a new one replaces the old.

use vstd::prelude::*;

verus! {

/// The state of one stream.
pub struct Stream<T> {
    /// What the remote side holds, as far as this side knows.
    pub current: Option<T>,
    /// What the local side wants next, if that differs from `current`.
    pub desired: Option<T>,
    /// What the worker has sent and is waiting to see confirmed.
    pub in_flight: Option<T>,
    /// Whether a worker exists for this stream.
    pub active: bool,
}

/// What a request asks of its caller.
#[derive(Clone, Copy, Debug, PartialEq, Eq, Structural)]
pub enum Decision {
    /// The stream takes no requests now; nothing changed.
    Ignored,
    /// The value is the one the remote side already holds; anything that was
    /// waiting to be sent has been withdrawn.
    Settled,
    /// The value waits for the worker that already exists.
    Queued,
    /// The value waits, and the caller has to start the worker.
    Spawn,
}

impl<T> Stream<T> {
    /// A stream on which nothing has happened yet.
    pub open spec fn empty() -> Stream<T> {
        Stream { current: None, desired: None, in_flight: None, active: false }
    }

    /// The consistency that every transition keeps.
    ///
    /// Work exists only while a worker does, and neither the waiting value nor
    /// the one being confirmed repeats what the remote side already holds.
    pub open spec fn wf(self) -> bool {
        &&& self.desired is Some ==> self.active
        &&& self.in_flight is Some ==> self.active
        &&& self.desired is Some ==> self.desired != self.current
        &&& self.in_flight is Some ==> self.in_flight != self.current
    }

    /// A stream that waits for confirmations takes no work before the remote
    /// side has reported a first value.
    pub open spec fn gated(self) -> bool {
        self.current is None ==> self.desired is None && self.in_flight is None
    }

    /// A stream whose commits need no confirmation never has one in flight.
    pub open spec fn immediate(self) -> bool {
        self.in_flight is None
    }

    /// What a request for `value` asks of the caller. `open` says whether the
    /// stream takes requests at all.
    pub open spec fn decide(self, value: T, open: bool) -> Decision {
        if !open {
            Decision::Ignored
        } else if self.current == Some(value) {
            Decision::Settled
        } else if self.active {
            Decision::Queued
        } else {
            Decision::Spawn
        }
    }

    /// The stream after a request for `value`.
    pub open spec fn request(self, value: T, open: bool) -> Stream<T> {
        match self.decide(value, open) {
            Decision::Ignored => self,
            Decision::Settled => Stream { desired: None, ..self },
            Decision::Queued => Stream { desired: Some(value), ..self },
            Decision::Spawn => Stream { desired: Some(value), active: true, ..self },
        }
    }

    /// The stream after the worker has looked for work. The waiting value, if
    /// there is one, becomes the value in flight; otherwise the worker ends.
    /// A value that was still in flight is given up.
    pub open spec fn take(self) -> Stream<T> {
        if self.desired is Some {
            Stream { desired: None, in_flight: self.desired, ..self }
        } else {
            Stream { in_flight: None, active: false, ..self }
        }
    }

    /// The stream after the remote side has confirmed the commit in flight.
    /// A waiting value that asks for what was just confirmed is withdrawn.
    pub open spec fn acknowledge(self) -> Stream<T> {
        if self.in_flight is Some {
            Stream {
                current: self.in_flight,
                desired: if self.desired == self.in_flight {
                    None
                } else {
                    self.desired
                },
                in_flight: None,
                ..self
            }
        } else {
            self
        }
    }

    /// The stream after the worker has looked for work on a stream whose
    /// commits count as delivered the moment they are sent.
    pub open spec fn take_sent(self) -> Stream<T> {
        self.take().acknowledge()
    }

    /// The stream after the remote side has reported its first value.
    pub open spec fn seed(self, value: T) -> Stream<T> {
        if self.current is None {
            Stream { current: Some(value), ..self }
        } else {
            self
        }
    }

    /// The stream after its worker has found the session gone.
    pub open spec fn abort(self) -> Stream<T> {
        Stream { desired: None, in_flight: None, active: false, ..self }
    }
}

} // verus!
