//! The focus negotiator: tells the remote session whether the window has the
//! input focus.
//!
//! A focus notice needs no confirmation. It counts as delivered the moment the
//! worker picks it up, whether or not the call then succeeds.

use vstd::prelude::*;
use crate::stream::{Decision, Stream};

verus! {

/// Keeps track of the focus notices for the remote session.
pub struct FocusState {
    /// The last focus state that was sent, if any was.
    last: Option<bool>,
    /// The next focus state to send, if it differs from `last`.
    next: Option<bool>,
    /// Whether a worker exists.
    is_pending: bool,
}

impl View for FocusState {
    type V = Stream<bool>;

    closed spec fn view(&self) -> Stream<bool> {
        Stream { current: self.last, desired: self.next, in_flight: None, active: self.is_pending }
    }
}

fn holds(held: Option<bool>, gained: bool) -> (r: bool)
    ensures
        r == (held == Some(gained)),
{
    match held {
        Some(b) => b == gained,
        None => false,
    }
}

/// The event that the remote session is told to run for a focus state.
pub open spec fn autocmd_of(gained: bool) -> Seq<char> {
    if gained {
        "FocusGained"@
    } else {
        "FocusLost"@
    }
}

/// The command that runs the event for a focus state where it is defined.
pub open spec fn command_of(gained: bool) -> Seq<char> {
    "if exists('#"@ + autocmd_of(gained) + "')|doau "@ + autocmd_of(gained) + "|endif"@
}

/// The name of the event for a focus state.
pub fn focus_autocmd(gained: bool) -> (r: &'static str)
    ensures
        r@ == autocmd_of(gained),
{
    if gained {
        "FocusGained"
    } else {
        "FocusLost"
    }
}

/// The command to send for a focus state.
pub fn focus_command(gained: bool) -> (r: &'static str)
    ensures
        r@ == command_of(gained),
{
    proof {
        reveal_strlit("if exists('#");
        reveal_strlit("')|doau ");
        reveal_strlit("|endif");
        reveal_strlit("FocusGained");
        reveal_strlit("FocusLost");
        reveal_strlit("if exists('#FocusGained')|doau FocusGained|endif");
        reveal_strlit("if exists('#FocusLost')|doau FocusLost|endif");
        assert("if exists('#FocusGained')|doau FocusGained|endif"@ =~= command_of(true));
        assert("if exists('#FocusLost')|doau FocusLost|endif"@ =~= command_of(false));
    }
    if gained {
        "if exists('#FocusGained')|doau FocusGained|endif"
    } else {
        "if exists('#FocusLost')|doau FocusLost|endif"
    }
}

impl FocusState {
    /// What holds of every record. It is kept by construction; a caller
    /// learns it of a record at hand from `use_type_invariant`.
    #[verifier::type_invariant]
    pub closed spec fn inv(self) -> bool {
        self@.wf() && self@.immediate()
    }

    /// What the invariant says in terms of the record's view.
    pub proof fn inv_unfolded(self)
        requires
            self.inv(),
        ensures
            self@.wf(),
            self@.immediate(),
    {
    }

    /// A record for a session to which nothing has been sent.
    pub fn new() -> (r: FocusState)
        ensures
            r@ == Stream::<bool>::empty(),
    {
        FocusState { last: None, next: None, is_pending: false }
    }

    /// The last focus state that was sent.
    pub fn last(&self) -> (r: Option<bool>)
        ensures
            r == self@.current,
    {
        self.last
    }

    /// The focus state that waits to be sent.
    pub fn next(&self) -> (r: Option<bool>)
        ensures
            r == self@.desired,
    {
        self.next
    }

    /// Whether a worker exists.
    pub fn is_pending(&self) -> (r: bool)
        ensures
            r == self@.active,
    {
        self.is_pending
    }

    /// Asks for the remote session to learn the focus state `gained`.
    /// `attached` says whether the remote session exists.
    ///
    /// Nothing happens while the session is missing. A state equal to the one
    /// sent last withdraws whatever was waiting. The other state replaces what
    /// was waiting, and the caller has to start a worker exactly when the
    /// result is `Decision::Spawn`.
    pub fn request_focus(&mut self, gained: bool, attached: bool) -> (r: Decision)
        ensures
            r == old(self)@.decide(gained, attached),
            final(self)@ == old(self)@.request(gained, attached),
    {
        proof {
            use_type_invariant(&*self);
        }
        if !attached {
            Decision::Ignored
        } else if holds(self.last, gained) {
            *self = FocusState { last: self.last, next: None, is_pending: self.is_pending };
            Decision::Settled
        } else {
            let started = self.is_pending;
            *self = FocusState { last: self.last, next: Some(gained), is_pending: true };
            if started {
                Decision::Queued
            } else {
                Decision::Spawn
            }
        }
    }

    /// The worker's look for work. `Some(gained)` is the state to send now,
    /// and is from then on the one sent last; the worker looks again as soon as
    /// the call has returned. `None` ends the worker.
    pub fn next_commit(&mut self) -> (r: Option<bool>)
        ensures
            r == old(self)@.desired,
            r matches Some(b) ==> old(self)@.current != Some(b),
            final(self)@ == old(self)@.take_sent(),
    {
        proof {
            use_type_invariant(&*self);
        }
        let next = self.next;
        match next {
            Some(gained) => {
                *self = FocusState { last: Some(gained), next: None, is_pending: self.is_pending };
            },
            None => {
                *self = FocusState { last: self.last, next: None, is_pending: false };
            },
        }
        next
    }

    /// Records that the worker has found the session gone and has ended.
    pub fn abort(&mut self)
        ensures
            final(self)@ == old(self)@.abort(),
    {
        *self = FocusState { last: self.last, next: None, is_pending: false };
    }
}

} // verus!
