//! What holds of every history of a stream, proved over the model of
//! `crate::trace`.

use vstd::prelude::*;
use crate::stream::Decision;
use crate::trace::{replay_keeps_consistent, settle_quiet, Event, Run};

verus! {

/// Two rounds of the worker, written out.
proof fn settle_twice<T>(run: Run<T>, confirmed: bool, rounds: nat)
    requires
        rounds >= 2,
    ensures
        run.settle(confirmed, rounds) == run.apply(confirmed, Event::Acknowledge).apply(
            confirmed,
            Event::Take,
        ).apply(confirmed, Event::Acknowledge).apply(confirmed, Event::Take).settle(
            confirmed,
            (rounds - 2) as nat,
        ),
{
    let once = run.apply(confirmed, Event::Acknowledge).apply(confirmed, Event::Take);
    assert(run.settle(confirmed, rounds) == once.settle(confirmed, (rounds - 1) as nat));
    assert(once.settle(confirmed, (rounds - 1) as nat) == once.apply(
        confirmed,
        Event::Acknowledge,
    ).apply(confirmed, Event::Take).settle(confirmed, (rounds - 2) as nat));
}

/// At no point of any history do two workers exist for one stream, and a
/// request asks for a worker only at a point where none exists.
pub proof fn at_most_one_worker<T>(confirmed: bool, events: Seq<Event<T>>)
    ensures
        forall|n: int|
            0 <= n <= events.len() ==> (#[trigger] Run::<T>::start().replay(
                confirmed,
                events.take(n),
            )).workers <= 1,
        forall|n: int|
            #![trigger events.take(n)]
            0 <= n < events.len() ==> ({
                let before = Run::<T>::start().replay(confirmed, events.take(n));
                events[n] matches Event::Request(value, attached) ==> (before.stream.decide(
                    value,
                    before.open(confirmed, attached),
                ) == Decision::Spawn ==> before.workers == 0)
            }),
{
    assert forall|n: int| 0 <= n <= events.len() implies (#[trigger] Run::<T>::start().replay(
        confirmed,
        events.take(n),
    )).consistent(confirmed) by {
        replay_keeps_consistent(Run::<T>::start(), confirmed, events.take(n));
    }
}

/// Once the requests stop, the stream comes to rest on the value asked for
/// last: after any history, a last request for `value` and at least two
/// rounds of the worker, no work is left and the remote side holds `value`.
/// One commit was issued since, the one for `value`, unless the remote side
/// held `value` already or the commit for it was in flight: then none was.
///
/// A stream with confirmations owes this only once the remote side has
/// reported a first value, and not where the request repeats the confirmed
/// value while a commit for another value is in flight: that request
/// withdraws what was waiting, and the value in flight is the one confirmed.
pub proof fn convergence<T>(confirmed: bool, events: Seq<Event<T>>, value: T, rounds: nat)
    requires
        rounds >= 2,
        confirmed ==> Run::<T>::start().replay(confirmed, events).stream.current is Some,
        confirmed ==> !({
            let before = Run::<T>::start().replay(confirmed, events);
            before.stream.current == Some(value) && before.stream.in_flight is Some
        }),
    ensures
        ({
            let before = Run::<T>::start().replay(confirmed, events);
            let after = before.apply(confirmed, Event::Request(value, true)).settle(
                confirmed,
                rounds,
            );
            &&& after.quiet()
            &&& after.stream.current == Some(value)
            &&& after.commits == (if before.stream.current == Some(value)
                || before.stream.in_flight == Some(value) {
                before.commits
            } else {
                before.commits.push(value)
            })
        }),
{
    let before = Run::<T>::start().replay(confirmed, events);
    replay_keeps_consistent(Run::<T>::start(), confirmed, events);
    let asked = before.apply(confirmed, Event::Request(value, true));
    let twice = asked.apply(confirmed, Event::Acknowledge).apply(confirmed, Event::Take).apply(
        confirmed,
        Event::Acknowledge,
    ).apply(confirmed, Event::Take);
    settle_twice(asked, confirmed, rounds);
    assert(twice.quiet());
    settle_quiet(twice, confirmed, (rounds - 2) as nat);
}

/// A request that arrives before the worker has picked up the one before it
/// replaces it: however long the worker then runs, the only commit it can
/// issue is the one for the later value.
pub proof fn coalescing<T>(
    confirmed: bool,
    events: Seq<Event<T>>,
    first: T,
    second: T,
    rounds: nat,
)
    ensures
        ({
            let before = Run::<T>::start().replay(confirmed, events);
            let after = before.apply(confirmed, Event::Request(first, true)).apply(
                confirmed,
                Event::Request(second, true),
            ).settle(confirmed, rounds);
            after.commits == before.commits || after.commits == before.commits.push(second)
        }),
{
    let before = Run::<T>::start().replay(confirmed, events);
    replay_keeps_consistent(Run::<T>::start(), confirmed, events);
    let asked = before.apply(confirmed, Event::Request(first, true)).apply(
        confirmed,
        Event::Request(second, true),
    );
    let once = asked.apply(confirmed, Event::Acknowledge).apply(confirmed, Event::Take);
    let twice = once.apply(confirmed, Event::Acknowledge).apply(confirmed, Event::Take);
    if rounds == 0 {
    } else if rounds == 1 {
        assert(asked.settle(confirmed, rounds) == once.settle(confirmed, 0));
    } else {
        settle_twice(asked, confirmed, rounds);
        assert(twice.quiet());
        settle_quiet(twice, confirmed, (rounds - 2) as nat);
    }
}

/// A confirmation that never comes does not block the stream. While a commit
/// waits for its confirmation, a request for another value is taken at once,
/// and the worker's next look for work issues the commit for it, whether a
/// confirmation arrived first or the worker was released without one.
pub proof fn progress_without_acknowledgment<T>(events: Seq<Event<T>>, value: T)
    requires
        ({
            let before = Run::<T>::start().replay(true, events);
            &&& before.stream.in_flight is Some
            &&& before.stream.in_flight != Some(value)
            &&& before.stream.current != Some(value)
        }),
    ensures
        ({
            let before = Run::<T>::start().replay(true, events);
            let asked = before.apply(true, Event::Request(value, true));
            &&& asked.stream.desired == Some(value)
            &&& asked.workers == before.workers
            &&& asked.apply(true, Event::Take).commits == before.commits.push(value)
            &&& asked.apply(true, Event::Acknowledge).apply(true, Event::Take).commits
                == before.commits.push(value)
        }),
{
    replay_keeps_consistent(Run::<T>::start(), true, events);
}

/// Asking twice for the same value is asking once.
pub proof fn request_idempotent<T>(run: Run<T>, confirmed: bool, value: T, attached: bool)
    ensures
        run.apply(confirmed, Event::Request(value, attached)).apply(
            confirmed,
            Event::Request(value, attached),
        ) == run.apply(confirmed, Event::Request(value, attached)),
{
}

/// On a stream without confirmations, two requests in a row for a value that
/// was not the one sent last cause exactly one commit, for that value.
pub proof fn repeated_request_commits_once<T>(events: Seq<Event<T>>, value: T, rounds: nat)
    requires
        rounds >= 1,
        Run::<T>::start().replay(false, events).stream.current != Some(value),
    ensures
        ({
            let before = Run::<T>::start().replay(false, events);
            let after = before.apply(false, Event::Request(value, true)).apply(
                false,
                Event::Request(value, true),
            ).settle(false, rounds);
            after.commits == before.commits.push(value)
        }),
{
    let before = Run::<T>::start().replay(false, events);
    replay_keeps_consistent(Run::<T>::start(), false, events);
    let asked = before.apply(false, Event::Request(value, true)).apply(
        false,
        Event::Request(value, true),
    );
    let once = asked.apply(false, Event::Acknowledge).apply(false, Event::Take);
    let twice = once.apply(false, Event::Acknowledge).apply(false, Event::Take);
    if rounds == 1 {
        assert(asked.settle(false, rounds) == once.settle(false, 0));
    } else {
        settle_twice(asked, false, rounds);
        assert(twice.quiet());
        settle_quiet(twice, false, (rounds - 2) as nat);
    }
}

} // verus!
