//! Histories of a stream, and what holds of all of them.
//!
//! A history is a sequence of events: requests from the local side, the
//! worker's looks for work, confirmations from the remote side. Replaying a
//! history counts the workers that exist and lists the commits that were
//! issued, so that statements about whole executions can be made and proved.

use vstd::prelude::*;
use crate::stream::{Decision, Stream};

verus! {

/// One thing that happens to a stream.
pub enum Event<T> {
    /// The remote side reports its first value.
    Seed(T),
    /// The local side asks for a value; the flag says whether the remote
    /// session exists at that moment.
    Request(T, bool),
    /// The worker looks for work.
    Take,
    /// The remote side confirms the commit in flight.
    Acknowledge,
    /// The worker finds the session gone and ends.
    Abort,
}

/// A stream together with the record of what its history has caused.
pub struct Run<T> {
    pub stream: Stream<T>,
    /// How many workers exist.
    pub workers: nat,
    /// The values for which a commit was issued, oldest first.
    pub commits: Seq<T>,
}

impl<T> Run<T> {
    /// The run with no history.
    pub open spec fn start() -> Run<T> {
        Run { stream: Stream::empty(), workers: 0, commits: Seq::empty() }
    }

    /// Whether the stream takes a request. A stream with confirmations waits
    /// for the remote side's first report; both kinds need the session.
    pub open spec fn open(self, confirmed: bool, attached: bool) -> bool {
        attached && (confirmed ==> self.stream.current is Some)
    }

    /// The consistency that every history keeps: the stream is well formed
    /// for its kind, and a worker exists exactly while it is marked active.
    pub open spec fn consistent(self, confirmed: bool) -> bool {
        &&& self.stream.wf()
        &&& confirmed ==> self.stream.gated()
        &&& !confirmed ==> self.stream.immediate()
        &&& self.workers == if self.stream.active { 1nat } else { 0nat }
    }

    /// The run after one more event. `confirmed` tells a stream whose commits
    /// are confirmed by the remote side from one whose commits count as
    /// delivered when they are sent. Events of the worker change nothing
    /// where no worker exists.
    pub open spec fn apply(self, confirmed: bool, event: Event<T>) -> Run<T> {
        match event {
            Event::Seed(value) => if confirmed {
                Run { stream: self.stream.seed(value), ..self }
            } else {
                self
            },
            Event::Request(value, attached) => {
                let open = self.open(confirmed, attached);
                Run {
                    stream: self.stream.request(value, open),
                    workers: if self.stream.decide(value, open) == Decision::Spawn {
                        self.workers + 1
                    } else {
                        self.workers
                    },
                    ..self
                }
            },
            Event::Take => if self.workers == 0 {
                self
            } else {
                match self.stream.desired {
                    Some(value) => Run {
                        stream: if confirmed {
                            self.stream.take()
                        } else {
                            self.stream.take_sent()
                        },
                        commits: self.commits.push(value),
                        ..self
                    },
                    None => Run {
                        stream: self.stream.take(),
                        workers: (self.workers - 1) as nat,
                        ..self
                    },
                }
            },
            Event::Acknowledge => if confirmed {
                Run { stream: self.stream.acknowledge(), ..self }
            } else {
                self
            },
            Event::Abort => if self.workers == 0 {
                self
            } else {
                Run { stream: self.stream.abort(), workers: (self.workers - 1) as nat, ..self }
            },
        }
    }

    /// The run after a whole history.
    pub open spec fn replay(self, confirmed: bool, events: Seq<Event<T>>) -> Run<T>
        decreases events.len(),
    {
        if events.len() == 0 {
            self
        } else {
            self.replay(confirmed, events.drop_last()).apply(confirmed, events.last())
        }
    }

    /// The run after the worker has been left alone for `rounds` rounds, each
    /// a confirmation followed by a look for work.
    pub open spec fn settle(self, confirmed: bool, rounds: nat) -> Run<T>
        decreases rounds,
    {
        if rounds == 0 {
            self
        } else {
            self.apply(confirmed, Event::Acknowledge).apply(confirmed, Event::Take).settle(
                confirmed,
                (rounds - 1) as nat,
            )
        }
    }

    /// Nothing is left to do: no worker, nothing waiting, nothing in flight.
    pub open spec fn quiet(self) -> bool {
        &&& self.workers == 0
        &&& !self.stream.active
        &&& self.stream.desired is None
        &&& self.stream.in_flight is None
    }
}

/// One event keeps a run consistent.
pub proof fn apply_keeps_consistent<T>(run: Run<T>, confirmed: bool, event: Event<T>)
    requires
        run.consistent(confirmed),
    ensures
        run.apply(confirmed, event).consistent(confirmed),
{
}

/// A history keeps a run consistent.
pub proof fn replay_keeps_consistent<T>(run: Run<T>, confirmed: bool, events: Seq<Event<T>>)
    requires
        run.consistent(confirmed),
    ensures
        run.replay(confirmed, events).consistent(confirmed),
    decreases events.len(),
{
    if events.len() > 0 {
        replay_keeps_consistent(run, confirmed, events.drop_last());
        apply_keeps_consistent(
            run.replay(confirmed, events.drop_last()),
            confirmed,
            events.last(),
        );
    }
}

/// A quiet run stays as it is however long the worker is left alone.
pub proof fn settle_quiet<T>(run: Run<T>, confirmed: bool, rounds: nat)
    requires
        run.quiet(),
    ensures
        run.settle(confirmed, rounds) == run,
    decreases rounds,
{
    if rounds > 0 {
        assert(run.apply(confirmed, Event::Acknowledge) == run);
        assert(run.apply(confirmed, Event::Take) == run);
        settle_quiet(run, confirmed, (rounds - 1) as nat);
    }
}

} // verus!
