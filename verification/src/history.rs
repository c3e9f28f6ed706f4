//! What holds of every run of the synchronisation task.
//!
//! A run is the sequence of events that the program reports, starting from
//! some state. The statements here are proved for all runs.

use crate::index::installed;
use crate::watch_loop::{ActionView, LoopError, LoopEvent, LoopState};
use vstd::prelude::*;

verus! {

/// The state that the run `events` leads to from `start`.
pub open spec fn run(start: LoopState, events: Seq<LoopEvent>) -> LoopState
    decreases events.len(),
{
    if events.len() == 0 {
        start
    } else {
        run(start, events.drop_last()).after(events.last())
    }
}

/// The answer to the event at position `at` of the run.
pub open spec fn response_at(start: LoopState, events: Seq<LoopEvent>, at: int) -> Result<
    ActionView,
    LoopError,
>
    recommends
        0 <= at < events.len(),
{
    run(start, events.take(at)).response(events[at])
}

/// Whether the answer asks for a build.
pub open spec fn asks_build(response: Result<ActionView, LoopError>) -> bool {
    response is Ok && response->Ok_0 is Build
}

/// Whether the event reports a creation or a write.
pub open spec fn is_trigger(event: LoopEvent) -> bool {
    event is Change && event->Change_0.triggers_rebuild()
}

/// How many builds the task asks for along the run.
pub open spec fn builds_asked(start: LoopState, events: Seq<LoopEvent>) -> nat
    decreases events.len(),
{
    if events.len() == 0 {
        0
    } else {
        let before = events.drop_last();
        builds_asked(start, before) + if asks_build(run(start, before).response(events.last())) {
            1nat
        } else {
            0nat
        }
    }
}

/// How many creations and writes the run delivers.
pub open spec fn triggers_delivered(events: Seq<LoopEvent>) -> nat
    decreases events.len(),
{
    if events.len() == 0 {
        0
    } else {
        triggers_delivered(events.drop_last()) + if is_trigger(events.last()) {
            1nat
        } else {
            0nat
        }
    }
}

/// How many times the run reports the readiness signal.
pub open spec fn signals_delivered(events: Seq<LoopEvent>) -> nat
    decreases events.len(),
{
    if events.len() == 0 {
        0
    } else {
        signals_delivered(events.drop_last()) + if events.last() is Ready {
            1nat
        } else {
            0nat
        }
    }
}

/// Whether every event of the run answers what the task asked for.
pub open spec fn in_turn(start: LoopState, events: Seq<LoopEvent>) -> bool {
    forall|at: int|
        0 <= at < events.len() ==> #[trigger] run(start, events.take(at)).accepts(events[at])
}

/// A step leaves the root path alone and keeps the state well formed.
pub proof fn lemma_step_keeps_shape(state: LoopState, event: LoopEvent)
    requires
        state.wf(),
    ensures
        state.after(event).wf(),
        state.after(event).root == state.root,
{
}

/// A run leaves the root path alone and keeps the state well formed.
pub proof fn lemma_run_keeps_shape(start: LoopState, events: Seq<LoopEvent>)
    requires
        start.wf(),
    ensures
        run(start, events).wf(),
        run(start, events).root == start.root,
    decreases events.len(),
{
    if events.len() > 0 {
        lemma_run_keeps_shape(start, events.drop_last());
    }
}

/// A build is asked for in two places only: when the readiness signal
/// arrives, and when a standing watcher delivers a creation or a write. It is
/// always a build from the task's own root path.
pub proof fn lemma_what_asks_for_a_build(state: LoopState, event: LoopEvent)
    ensures
        asks_build(state.response(event)) <==> (state.phase is AwaitingReady && event is Ready)
            || (state.phase is Watching && state.watcher_up && is_trigger(event)),
        asks_build(state.response(event)) ==> state.response(event) == Ok::<
            ActionView,
            LoopError,
        >(state.build()),
{
}

/// Builds do not overlap and cannot be called off: while one is under way
/// the task takes nothing but its outcome, asks for no other build, and goes
/// on to watching whatever the outcome is.
pub proof fn lemma_builds_do_not_overlap(state: LoopState, event: LoopEvent)
    requires
        state.phase is InitialBuild || state.phase is Rebuilding,
    ensures
        !asks_build(state.response(event)),
        state.accepts(event) <==> event is BuildSucceeded || event is BuildFailed,
        state.accepts(event) ==> state.after(event).phase is Watching,
        !state.accepts(event) ==> state.after(event) == state,
{
}

/// The readiness signal is waited for once: no step asks to wait for it, and
/// a task that has left the wait does not go back to it.
pub proof fn lemma_signal_is_awaited_once(start: LoopState, events: Seq<LoopEvent>, event: LoopEvent)
    ensures
        !(start.response(event) is Ok && start.response(event)->Ok_0 is AwaitReady),
        !(start.phase is AwaitingReady) ==> !(run(start, events).phase is AwaitingReady),
    decreases events.len(),
{
    if events.len() > 0 {
        lemma_signal_is_awaited_once(start, events.drop_last(), event);
    }
}

/// Once the task is over it stays over: every later event is refused and
/// nothing is asked for again.
pub proof fn lemma_terminated_is_final(start: LoopState, events: Seq<LoopEvent>, at: int)
    requires
        start.phase is Terminated,
        0 <= at < events.len(),
    ensures
        run(start, events) == start,
        response_at(start, events, at) == Err::<ActionView, LoopError>(LoopError::UnexpectedEvent),
{
    lemma_terminated_stays(start, events);
    lemma_terminated_stays(start, events.take(at));
}

proof fn lemma_terminated_stays(start: LoopState, events: Seq<LoopEvent>)
    requires
        start.phase is Terminated,
    ensures
        run(start, events) == start,
    decreases events.len(),
{
    if events.len() > 0 {
        lemma_terminated_stays(start, events.drop_last());
    }
}

/// The first build waits for the readiness signal: in a run from the start
/// state, a build is asked for only if the signal has been reported by then.
/// As long as it has not, the task is still waiting or has been abandoned.
pub proof fn lemma_no_build_before_ready(root: Seq<char>, events: Seq<LoopEvent>, at: int)
    requires
        0 <= at < events.len(),
    ensures
        asks_build(response_at(LoopState::initial(root), events, at)) ==> exists|signal: int|
            0 <= signal <= at && #[trigger] events[signal] is Ready,
        (forall|before: int| 0 <= before <= at ==> !(#[trigger] events[before] is Ready)) ==> {
            let reached = run(LoopState::initial(root), events.take(at + 1));
            reached.phase is AwaitingReady || reached.phase is Terminated
        },
{
    if forall|before: int| 0 <= before <= at ==> !(#[trigger] events[before] is Ready) {
        let start = LoopState::initial(root);
        lemma_unready_run(start, events.take(at));
        let upto = events.take(at + 1);
        assert(upto.drop_last() == events.take(at));
        assert(upto.last() == events[at]);
    }
}

proof fn lemma_unready_run(start: LoopState, events: Seq<LoopEvent>)
    requires
        start.phase is AwaitingReady || start.phase is Terminated,
        forall|at: int| 0 <= at < events.len() ==> !(#[trigger] events[at] is Ready),
    ensures
        run(start, events).phase is AwaitingReady || run(start, events).phase is Terminated,
    decreases events.len(),
{
    if events.len() > 0 {
        lemma_unready_run(start, events.drop_last());
    }
}

/// A wait that ends without the signal abandons the start-up: the task gives
/// `ReadyTimeout`, is over, and refuses whatever comes later, a late signal
/// included.
pub proof fn lemma_timeout_abandons_startup(state: LoopState, later: Seq<LoopEvent>, at: int)
    requires
        state.phase is AwaitingReady,
        0 <= at < later.len(),
    ensures
        state.response(LoopEvent::ReadyTimedOut) == Err::<ActionView, LoopError>(
            LoopError::ReadyTimeout,
        ),
        state.after(LoopEvent::ReadyTimedOut).phase is Terminated,
        response_at(state.after(LoopEvent::ReadyTimedOut), later, at) == Err::<
            ActionView,
            LoopError,
        >(LoopError::UnexpectedEvent),
{
    lemma_terminated_is_final(state.after(LoopEvent::ReadyTimedOut), later, at);
}

/// A root path that cannot be watched abandons the start-up: the task gives
/// `WatchSetup`, is over, and refuses whatever comes later.
pub proof fn lemma_watch_failure_abandons_startup(
    state: LoopState,
    later: Seq<LoopEvent>,
    at: int,
)
    requires
        state.phase is Watching,
        !state.watcher_up,
        0 <= at < later.len(),
    ensures
        state.response(LoopEvent::WatchFailed) == Err::<ActionView, LoopError>(
            LoopError::WatchSetup,
        ),
        state.after(LoopEvent::WatchFailed).phase is Terminated,
        response_at(state.after(LoopEvent::WatchFailed), later, at) == Err::<
            ActionView,
            LoopError,
        >(LoopError::UnexpectedEvent),
{
    lemma_terminated_is_final(state.after(LoopEvent::WatchFailed), later, at);
}

/// Each notification gives rise to one rebuild at most: along any run the
/// task asks for no more builds than creations and writes were delivered,
/// the first build apart.
pub proof fn lemma_builds_bounded_by_triggers(start: LoopState, events: Seq<LoopEvent>)
    ensures
        builds_asked(start, events) <= triggers_delivered(events) + signals_delivered(events),
        !(start.phase is AwaitingReady) ==> builds_asked(start, events) <= triggers_delivered(
            events,
        ),
    decreases events.len(),
{
    if events.len() > 0 {
        let before = events.drop_last();
        lemma_builds_bounded_by_triggers(start, before);
        lemma_what_asks_for_a_build(run(start, before), events.last());
        lemma_signal_is_awaited_once(start, before, events.last());
    }
}

/// Where every event comes in turn, each delivered creation or write gives
/// rise to a rebuild of its own: the builds asked for are the readiness
/// signal's and one for each such notification.
pub proof fn lemma_one_build_for_each_trigger(start: LoopState, events: Seq<LoopEvent>)
    requires
        in_turn(start, events),
    ensures
        builds_asked(start, events) == triggers_delivered(events) + signals_delivered(events),
    decreases events.len(),
{
    if events.len() > 0 {
        let before = events.drop_last();
        assert forall|at: int| 0 <= at < before.len() implies #[trigger] run(
            start,
            before.take(at),
        ).accepts(before[at]) by {
            assert(before.take(at) == events.take(at));
        }
        lemma_one_build_for_each_trigger(start, before);
        assert(events.take(events.len() - 1) == before);
        assert(run(start, events.take(events.len() - 1)).accepts(events[events.len() - 1]));
    }
}

/// A failed rebuild costs nothing: the index is what it was before, and the
/// task goes back to watching, asks for the next notification, and answers
/// the next creation or write with a build as before.
pub proof fn lemma_failed_rebuild_is_survived<T, E>(
    state: LoopState,
    index: T,
    error: E,
    next: LoopEvent,
)
    requires
        state.wf(),
        state.phase is Rebuilding,
    ensures
        installed(index, Err::<T, E>(error)) == index,
        state.accepts(LoopEvent::BuildFailed),
        state.after(LoopEvent::BuildFailed).phase is Watching,
        state.response(LoopEvent::BuildFailed) == Ok::<ActionView, LoopError>(
            ActionView::NextEvent,
        ),
        is_trigger(next) ==> state.after(LoopEvent::BuildFailed).response(next) == Ok::<
            ActionView,
            LoopError,
        >(state.build()),
{
}

} // verus!
