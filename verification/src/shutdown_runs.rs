//! Runs of the shutdown coordinator: what holds of every sequence of events.

use vstd::prelude::*;
use crate::shutdown::{
    CoordinatorModel, CoordinatorState, ShutdownAction, ShutdownEvent, ShutdownOutcome,
    SignalSource,
};

verus! {

/// How far a state is along the way from waiting to done.
pub open spec fn progress(state: CoordinatorState) -> nat {
    match state {
        CoordinatorState::Waiting => 0,
        CoordinatorState::HookRunning { .. } => 1,
        CoordinatorState::Draining { .. } => 2,
        CoordinatorState::Done { .. } => 3,
    }
}

impl CoordinatorModel {
    /// The coordinator after the first `n` of `events` were fed to it in
    /// order, starting from `self`.
    pub open spec fn after(self, events: Seq<ShutdownEvent>, n: nat) -> CoordinatorModel
        recommends
            n <= events.len(),
        decreases n,
    {
        if n == 0 || n > events.len() {
            self
        } else {
            self.after(events, (n - 1) as nat).next(events[n - 1]).0
        }
    }

    /// The action that the event at index `i` of `events` calls for.
    pub open spec fn action_at(self, events: Seq<ShutdownEvent>, i: int) -> ShutdownAction
        recommends
            0 <= i < events.len(),
    {
        self.after(events, i as nat).next(events[i]).1
    }
}

/// A step never goes back, keeps the note of the hook, and calls for an
/// action exactly when it moves on; it calls for completion exactly when it
/// enters the done state.
pub proof fn lemma_step_moves_forward(c: CoordinatorModel, event: ShutdownEvent)
    ensures
        c.next(event).0.has_hook == c.has_hook,
        progress(c.next(event).0.state) >= progress(c.state),
        c.next(event).1 == ShutdownAction::Ignore <==> c.next(event).0 == c,
        c.next(event).1 != ShutdownAction::Ignore <==> progress(c.next(event).0.state) > progress(
            c.state,
        ),
        c.next(event).1 == ShutdownAction::Complete <==> (c.next(event).0.state is Done
            && !(c.state is Done)),
        c.winner() is Some ==> c.next(event).0.winner() == c.winner(),
{
}

/// Along a run the coordinator never goes back, and a winner stays the winner.
pub proof fn lemma_run_moves_forward(
    c: CoordinatorModel,
    events: Seq<ShutdownEvent>,
    m: nat,
    n: nat,
)
    requires
        m <= n <= events.len(),
    ensures
        c.after(events, n).has_hook == c.after(events, m).has_hook,
        progress(c.after(events, n).state) >= progress(c.after(events, m).state),
        c.after(events, m).winner() is Some ==> c.after(events, n).winner() == c.after(
            events,
            m,
        ).winner(),
    decreases n - m,
{
    if m < n {
        lemma_run_moves_forward(c, events, m, (n - 1) as nat);
        lemma_step_moves_forward(c.after(events, (n - 1) as nat), events[n - 1]);
    }
}

/// Without a shutdown hook, the first termination signal completes the
/// shutdown at once: no hook is called, no time is waited.
pub proof fn law_no_hook_completes_on_first_signal(c: CoordinatorModel, signal: SignalSource)
    requires
        !c.has_hook,
        c.state is Waiting,
    ensures
        c.next(ShutdownEvent::Signal(signal)) == (
            c.done(signal, 0),
            ShutdownAction::Complete,
        ),
{
}

/// Without a shutdown hook, no run ever calls the hook or suspends.
pub proof fn law_no_hook_never_suspends(events: Seq<ShutdownEvent>, i: int)
    requires
        0 <= i < events.len(),
    ensures
        CoordinatorModel::initial(false).action_at(events, i) == ShutdownAction::Ignore
            || CoordinatorModel::initial(false).action_at(events, i) == ShutdownAction::Complete,
{
    lemma_hookless_run(events, i as nat);
}

/// Without a shutdown hook, a run is either still waiting or done with
/// nothing drained.
proof fn lemma_hookless_run(events: Seq<ShutdownEvent>, n: nat)
    requires
        n <= events.len(),
    ensures
        !CoordinatorModel::initial(false).after(events, n).has_hook,
        CoordinatorModel::initial(false).after(events, n).state is Waiting || (
        CoordinatorModel::initial(false).after(events, n).state matches CoordinatorState::Done {
            outcome,
        } && outcome.drained_ms == 0),
    decreases n,
{
    if n > 0 {
        lemma_hookless_run(events, (n - 1) as nat);
    }
}

/// A hook that asks for no drain time completes the shutdown at once,
/// without suspending.
pub proof fn law_zero_delay_completes_without_suspending(
    c: CoordinatorModel,
    signal: SignalSource,
)
    requires
        c.state == (CoordinatorState::HookRunning { signal }),
    ensures
        c.next(ShutdownEvent::HookReturned(0)) == (c.done(signal, 0), ShutdownAction::Complete),
{
}

/// A hook that asks for `delay_ms > 0` milliseconds makes the coordinator
/// suspend for exactly that long: the drain starts, nothing but its end moves
/// the coordinator on, and its end completes the shutdown with that drain
/// time on record.
pub proof fn law_positive_delay_is_drained(
    c: CoordinatorModel,
    signal: SignalSource,
    delay_ms: u64,
    event: ShutdownEvent,
)
    requires
        c.state == (CoordinatorState::HookRunning { signal }),
        delay_ms > 0,
    ensures
        c.next(ShutdownEvent::HookReturned(delay_ms)) == (
            c.at(CoordinatorState::Draining { signal, delay_ms }),
            ShutdownAction::Sleep(delay_ms),
        ),
        event != ShutdownEvent::DrainElapsed ==> c.at(
            CoordinatorState::Draining { signal, delay_ms },
        ).next(event) == (
            c.at(CoordinatorState::Draining { signal, delay_ms }),
            ShutdownAction::Ignore,
        ),
        c.at(CoordinatorState::Draining { signal, delay_ms }).next(ShutdownEvent::DrainElapsed)
            == (c.done(signal, delay_ms), ShutdownAction::Complete),
{
}

/// In a run from the start, a drain in progress was asked for by the hook:
/// some earlier event is the hook's return of exactly that drain time, and
/// it was answered by a suspension of that length.
proof fn lemma_drain_was_requested(
    has_hook: bool,
    events: Seq<ShutdownEvent>,
    n: nat,
    signal: SignalSource,
    delay_ms: u64,
) -> (i: int)
    requires
        n <= events.len(),
        CoordinatorModel::initial(has_hook).after(events, n).state == (CoordinatorState::Draining {
            signal,
            delay_ms,
        }),
    ensures
        0 <= i < n,
        delay_ms > 0,
        events[i] == ShutdownEvent::HookReturned(delay_ms),
        CoordinatorModel::initial(has_hook).action_at(events, i) == ShutdownAction::Sleep(
            delay_ms,
        ),
    decreases n,
{
    let start = CoordinatorModel::initial(has_hook);
    assert(n > 0);
    let before = start.after(events, (n - 1) as nat);
    if before.state == (CoordinatorState::Draining { signal, delay_ms }) {
        lemma_drain_was_requested(has_hook, events, (n - 1) as nat, signal, delay_ms)
    } else {
        n - 1
    }
}

/// In a run from the start, a completion that has a drain time on record
/// came about by waiting: the hook returned that time at some earlier event,
/// the coordinator answered with a suspension of exactly that length, and
/// the completing event is the report that the time has passed.
pub proof fn law_completion_follows_drain(
    has_hook: bool,
    events: Seq<ShutdownEvent>,
    j: int,
    outcome: ShutdownOutcome,
) -> (i: int)
    requires
        0 <= j < events.len(),
        CoordinatorModel::initial(has_hook).action_at(events, j) == ShutdownAction::Complete,
        CoordinatorModel::initial(has_hook).after(events, (j + 1) as nat).state == (
        CoordinatorState::Done { outcome }),
        outcome.drained_ms > 0,
    ensures
        0 <= i < j,
        events[i] == ShutdownEvent::HookReturned(outcome.drained_ms),
        CoordinatorModel::initial(has_hook).action_at(events, i) == ShutdownAction::Sleep(
            outcome.drained_ms,
        ),
        events[j] == ShutdownEvent::DrainElapsed,
{
    let start = CoordinatorModel::initial(has_hook);
    let before = start.after(events, j as nat);
    assert(start.after(events, (j + 1) as nat) == before.next(events[j]).0);
    lemma_drain_was_requested(has_hook, events, j as nat, outcome.signal, outcome.drained_ms)
}

/// Of two termination signals the coordinator acts on one: whatever state
/// the first is met in, the second changes nothing and calls for nothing.
/// Met while waiting, the first is the winner.
pub proof fn law_second_signal_has_no_effect(
    c: CoordinatorModel,
    first: SignalSource,
    second: SignalSource,
)
    ensures
        c.next(ShutdownEvent::Signal(first)).0.next(ShutdownEvent::Signal(second)) == (
            c.next(ShutdownEvent::Signal(first)).0,
            ShutdownAction::Ignore,
        ),
        c.state is Waiting ==> c.next(ShutdownEvent::Signal(first)).0.winner() == Some(first),
{
}

/// A run completes at most once: two events that both call for completion
/// are the same event.
pub proof fn law_completes_at_most_once(
    c: CoordinatorModel,
    events: Seq<ShutdownEvent>,
    i: int,
    j: int,
)
    requires
        0 <= i < events.len(),
        0 <= j < events.len(),
        c.action_at(events, i) == ShutdownAction::Complete,
        c.action_at(events, j) == ShutdownAction::Complete,
    ensures
        i == j,
{
    if i < j {
        lemma_completion_ends_run(c, events, i, j);
    } else if j < i {
        lemma_completion_ends_run(c, events, j, i);
    }
}

/// After completion nothing happens: every later event of the run is
/// ignored and leaves the outcome as it is.
pub proof fn lemma_completion_ends_run(
    c: CoordinatorModel,
    events: Seq<ShutdownEvent>,
    i: int,
    j: int,
)
    requires
        0 <= i < j < events.len(),
        c.action_at(events, i) == ShutdownAction::Complete,
    ensures
        c.action_at(events, j) == ShutdownAction::Ignore,
        c.after(events, (j + 1) as nat) == c.after(events, (i + 1) as nat),
    decreases j - i,
{
    lemma_step_moves_forward(c.after(events, i as nat), events[i]);
    assert(c.after(events, (i + 1) as nat) == c.after(events, i as nat).next(events[i]).0);
    if i + 1 < j {
        lemma_completion_ends_run(c, events, i, j - 1);
    }
    assert(c.after(events, j as nat) == c.after(events, (i + 1) as nat));
    assert(c.after(events, (j + 1) as nat) == c.after(events, j as nat).next(events[j]).0);
}

/// The first signal of a run is the one acted on: it calls for the hook
/// where one was supplied and completes the shutdown where none was, it is
/// the winner, and it is never replaced.
pub proof fn law_first_signal_wins(
    has_hook: bool,
    events: Seq<ShutdownEvent>,
    i: int,
    n: nat,
    signal: SignalSource,
)
    requires
        0 <= i < n <= events.len(),
        events[i] == ShutdownEvent::Signal(signal),
        forall|k: int| 0 <= k < i ==> !(#[trigger] events[k] is Signal),
    ensures
        has_hook ==> CoordinatorModel::initial(has_hook).action_at(events, i)
            == ShutdownAction::InvokeHook,
        !has_hook ==> CoordinatorModel::initial(has_hook).action_at(events, i)
            == ShutdownAction::Complete,
        CoordinatorModel::initial(has_hook).after(events, n).winner() == Some(signal),
{
    let start = CoordinatorModel::initial(has_hook);
    lemma_waits_for_signal(has_hook, events, i as nat);
    assert(start.after(events, (i + 1) as nat) == start.after(events, i as nat).next(events[i]).0);
    lemma_run_moves_forward(start, events, (i + 1) as nat, n);
}

/// Until a signal arrives, a run from the start stays waiting.
proof fn lemma_waits_for_signal(has_hook: bool, events: Seq<ShutdownEvent>, n: nat)
    requires
        n <= events.len(),
        forall|k: int| 0 <= k < n ==> !(#[trigger] events[k] is Signal),
    ensures
        CoordinatorModel::initial(has_hook).after(events, n) == CoordinatorModel::initial(
            has_hook,
        ),
    decreases n,
{
    if n > 0 {
        lemma_waits_for_signal(has_hook, events, (n - 1) as nat);
        assert(!(events[n - 1] is Signal));
    }
}

} // verus!
