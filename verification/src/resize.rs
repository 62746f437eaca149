//! The size negotiator: brings the remote grid to the size the window wants.
//!
//! A commit of a size counts only once the remote session has confirmed it,
//! so the worker waits for that confirmation between two commits.

use vstd::prelude::*;
use crate::dimensions::Dimensions;
use crate::stream::{Decision, Stream};

verus! {

/// Resize requests that are going to be, or have been, sent to the remote
/// session. One record exists per session; its owner keeps it behind a lock
/// and holds that lock for the length of one call, never across a wait.
pub struct ResizeRequests {
    /// The size the remote session has confirmed, or reported when it attached.
    current: Option<Dimensions>,
    /// The next size to send, if any.
    requested: Option<Dimensions>,
    /// The size that was sent and is not confirmed yet.
    committing: Option<Dimensions>,
    /// Whether a worker exists.
    active: bool,
}

impl View for ResizeRequests {
    type V = Stream<Dimensions>;

    closed spec fn view(&self) -> Stream<Dimensions> {
        Stream {
            current: self.current,
            desired: self.requested,
            in_flight: self.committing,
            active: self.active,
        }
    }
}

/// Every size that the stream holds can be sent.
pub open spec fn all_valid(s: Stream<Dimensions>) -> bool {
    &&& s.current matches Some(d) ==> d.valid()
    &&& s.desired matches Some(d) ==> d.valid()
    &&& s.in_flight matches Some(d) ==> d.valid()
}

/// One part of the instruction that commits a size.
#[derive(Clone, Copy, Debug, PartialEq, Eq, Structural)]
pub enum ResizeCall {
    /// Has the remote session announce, once, the next resize it finishes.
    AnnounceOnce,
    /// Asks the remote session to take the size.
    TryResize { cols: i64, rows: i64 },
}

/// The command by which the remote session is made to announce, once, that
/// it has finished a resize.
pub open spec fn announce_text() -> Seq<char> {
    "au VimResized * ++once cal rpcnotify(1, 'resized')"@
}

/// The text of `ResizeCall::AnnounceOnce`.
pub fn announce_command() -> (r: &'static str)
    ensures
        r@ == announce_text(),
{
    "au VimResized * ++once cal rpcnotify(1, 'resized')"
}

/// The instruction that commits `size`, to be sent as one indivisible batch.
/// The announcement is set up first, so that it exists before the remote
/// session can act on the resize, and belongs to this resize and no other.
pub fn commit_batch(size: Dimensions) -> (r: Vec<ResizeCall>)
    ensures
        r@ == seq![
            ResizeCall::AnnounceOnce,
            (ResizeCall::TryResize { cols: size.cols, rows: size.rows }),
        ],
{
    let mut batch: Vec<ResizeCall> = Vec::new();
    batch.push(ResizeCall::AnnounceOnce);
    batch.push(ResizeCall::TryResize { cols: size.cols, rows: size.rows });
    assert(batch@ =~= seq![
        ResizeCall::AnnounceOnce,
        ResizeCall::TryResize { cols: size.cols, rows: size.rows },
    ]);
    batch
}

fn same(held: Option<Dimensions>, size: Dimensions) -> (r: bool)
    ensures
        r == (held == Some(size)),
{
    match held {
        Some(d) => d.cols == size.cols && d.rows == size.rows,
        None => false,
    }
}

impl ResizeRequests {
    /// What holds of every record. It is kept by construction; a caller
    /// learns it of a record at hand from `use_type_invariant`.
    #[verifier::type_invariant]
    pub closed spec fn inv(self) -> bool {
        self@.wf() && self@.gated() && all_valid(self@)
    }

    /// What the invariant says in terms of the record's view.
    pub proof fn inv_unfolded(self)
        requires
            self.inv(),
        ensures
            self@.wf(),
            self@.gated(),
            all_valid(self@),
    {
    }

    /// A record for a session that has not attached yet.
    pub fn new() -> (r: ResizeRequests)
        ensures
            r@ == Stream::<Dimensions>::empty(),
    {
        ResizeRequests { current: None, requested: None, committing: None, active: false }
    }

    /// The size the remote session is known to have.
    pub fn current(&self) -> (r: Option<Dimensions>)
        ensures
            r == self@.current,
    {
        self.current
    }

    /// The size that waits to be sent.
    pub fn requested(&self) -> (r: Option<Dimensions>)
        ensures
            r == self@.desired,
    {
        self.requested
    }

    /// The size that was sent and awaits its confirmation.
    pub fn committing(&self) -> (r: Option<Dimensions>)
        ensures
            r == self@.in_flight,
    {
        self.committing
    }

    /// Whether a worker exists.
    pub fn is_active(&self) -> (r: bool)
        ensures
            r == self@.active,
    {
        self.active
    }

    /// Records the size that the remote session reports for its grid. Only the
    /// first report counts: the session starts out with that size, so nothing
    /// is sent for it. Later reports leave the record as it is.
    pub fn attach(&mut self, size: Dimensions)
        requires
            size.valid(),
        ensures
            final(self)@ == old(self)@.seed(size),
    {
        proof {
            use_type_invariant(&*self);
        }
        if self.current.is_none() {
            *self = ResizeRequests {
                current: Some(size),
                requested: self.requested,
                committing: self.committing,
                active: self.active,
            };
        }
    }

    /// Asks for the grid to become `size`. `attached` says whether the remote
    /// session exists.
    ///
    /// Nothing happens while the session is missing or has not reported a
    /// first size. A size equal to the confirmed one withdraws whatever was
    /// waiting. Any other size replaces what was waiting, and the caller has to
    /// start a worker exactly when the result is `Decision::Spawn`.
    pub fn request_size(&mut self, size: Dimensions, attached: bool) -> (r: Decision)
        requires
            size.valid(),
        ensures
            r == old(self)@.decide(size, attached && old(self)@.current is Some),
            final(self)@ == old(self)@.request(size, attached && old(self)@.current is Some),
    {
        proof {
            use_type_invariant(&*self);
        }
        if !attached || self.current.is_none() {
            Decision::Ignored
        } else if same(self.current, size) {
            *self = ResizeRequests {
                current: self.current,
                requested: None,
                committing: self.committing,
                active: self.active,
            };
            Decision::Settled
        } else {
            let started = self.active;
            *self = ResizeRequests {
                current: self.current,
                requested: Some(size),
                committing: self.committing,
                active: true,
            };
            if started {
                Decision::Queued
            } else {
                Decision::Spawn
            }
        }
    }

    /// The worker's look for work. `Some(size)` is the size to send now; the
    /// worker then waits for the confirmation and looks again. `None` ends the
    /// worker. A size that was still unconfirmed is given up.
    pub fn next_commit(&mut self) -> (r: Option<Dimensions>)
        ensures
            r == old(self)@.desired,
            r matches Some(d) ==> d.valid() && old(self)@.current != Some(d),
            final(self)@ == old(self)@.take(),
    {
        proof {
            use_type_invariant(&*self);
        }
        let next = self.requested;
        if next.is_some() {
            *self = ResizeRequests {
                current: self.current,
                requested: None,
                committing: next,
                active: self.active,
            };
        } else {
            *self = ResizeRequests {
                current: self.current,
                requested: None,
                committing: None,
                active: false,
            };
        }
        next
    }

    /// Records that the remote session has confirmed the size that was sent.
    /// Without a size in flight this changes nothing.
    pub fn acknowledge(&mut self)
        ensures
            final(self)@ == old(self)@.acknowledge(),
    {
        proof {
            use_type_invariant(&*self);
        }
        match self.committing {
            Some(done) => {
                let next = if same(self.requested, done) {
                    None
                } else {
                    self.requested
                };
                *self = ResizeRequests {
                    current: Some(done),
                    requested: next,
                    committing: None,
                    active: self.active,
                };
            },
            None => {},
        }
    }

    /// Records that the worker has found the session gone and has ended.
    pub fn abort(&mut self)
        ensures
            final(self)@ == old(self)@.abort(),
    {
        proof {
            use_type_invariant(&*self);
        }
        *self = ResizeRequests {
            current: self.current,
            requested: None,
            committing: None,
            active: false,
        };
    }
}

} // verus!
