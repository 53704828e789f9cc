//! Runs of the lifecycle: what holds of every sequence of events.

use vstd::prelude::*;
use crate::lifecycle::{
    LifecycleActionView, LifecycleErrorView, LifecycleEventView, LifecycleModel, Phase,
};
use crate::server::{BindErrorView, BoundSocket, ServerParams};

verus! {

/// How far a phase is along the way from binding to finished.
pub open spec fn stage<L>(phase: Phase<L>) -> nat {
    match phase {
        Phase::Binding => 0,
        Phase::Arming(_) => 1,
        Phase::Serving => 2,
        Phase::Finished => 3,
    }
}

impl<L> LifecycleModel<L> {
    /// The lifecycle and the shown address after the first `n` of `events`
    /// were fed in order, starting from `self` with `shown` on display.
    pub open spec fn after(self, shown: Seq<char>, events: Seq<LifecycleEventView<L>>, n: nat)
        -> (LifecycleModel<L>, Seq<char>)
        recommends
            n <= events.len(),
        decreases n,
    {
        if n == 0 || n > events.len() {
            (self, shown)
        } else {
            let before = self.after(shown, events, (n - 1) as nat);
            let step = before.0.next(before.1, events[n - 1]);
            (step.0, step.1)
        }
    }

    /// The action that the event at index `i` of `events` calls for.
    pub open spec fn action_at(self, shown: Seq<char>, events: Seq<LifecycleEventView<L>>, i: int)
        -> LifecycleActionView<L>
        recommends
            0 <= i < events.len(),
    {
        let before = self.after(shown, events, i as nat);
        before.0.next(before.1, events[i]).2
    }
}

/// A step keeps the settings, never goes back, and calls for an action
/// exactly when it moves on; it hands out the terminal result exactly when
/// it enters the finished phase.
pub proof fn lemma_step_moves_forward<L>(
    m: LifecycleModel<L>,
    shown: Seq<char>,
    event: LifecycleEventView<L>,
)
    ensures
        m.next(shown, event).0.settings == m.settings,
        m.next(shown, event).0.app_path == m.app_path,
        stage(m.next(shown, event).0.phase) >= stage(m.phase),
        m.next(shown, event).2 is Ignore <==> stage(m.next(shown, event).0.phase) == stage(
            m.phase,
        ),
        m.next(shown, event).2 is Ignore ==> m.next(shown, event).0 == m && m.next(
            shown,
            event,
        ).1 == shown,
        m.next(shown, event).2 is Exit <==> (m.next(shown, event).0.phase is Finished
            && !(m.phase is Finished)),
        !(m.phase is Binding) ==> m.next(shown, event).1 == shown,
{
}

/// Along a run the settings stay and the lifecycle never goes back.
pub proof fn lemma_run_moves_forward<L>(
    m: LifecycleModel<L>,
    shown: Seq<char>,
    events: Seq<LifecycleEventView<L>>,
    from: nat,
    to: nat,
)
    requires
        from <= to <= events.len(),
    ensures
        m.after(shown, events, to).0.settings == m.after(shown, events, from).0.settings,
        m.after(shown, events, to).0.app_path == m.after(shown, events, from).0.app_path,
        stage(m.after(shown, events, to).0.phase) >= stage(m.after(shown, events, from).0.phase),
        !(m.after(shown, events, from).0.phase is Binding) ==> m.after(shown, events, to).1
            == m.after(shown, events, from).1,
    decreases to - from,
{
    if from < to {
        lemma_run_moves_forward(m, shown, events, from, (to - 1) as nat);
        let before = m.after(shown, events, (to - 1) as nat);
        lemma_step_moves_forward(before.0, before.1, events[to - 1]);
    }
}

/// A failed bind ends the start: the error names the address that was
/// tried, the configured one, with the reason given; the shown address is
/// left as it was.
pub proof fn law_bind_failure_is_reported<L>(
    m: LifecycleModel<L>,
    shown: Seq<char>,
    reason: Seq<char>,
)
    requires
        m.phase is Binding,
    ensures
        m.next(shown, LifecycleEventView::BindReturned(Err(reason))) == (
            m.at(Phase::Finished),
            shown,
            LifecycleActionView::<L>::Exit(
                Err(
                    LifecycleErrorView::Bind(
                        BindErrorView { address: m.settings.tcp_listener(), reason },
                    ),
                ),
            ),
        ),
{
}

/// No step asks for a bind: the one attempt that opens a start is the only
/// one, on the configured address, and after a failure no other address or
/// port is tried.
pub proof fn law_no_second_bind_attempt<L>(
    m: LifecycleModel<L>,
    shown: Seq<char>,
    event: LifecycleEventView<L>,
)
    ensures
        !(m.next(shown, event).2 is Bind),
        m.phase is Finished ==> m.next(shown, event) == (
            m,
            shown,
            LifecycleActionView::<L>::Ignore,
        ),
{
}

/// In a run from the start, a listener held while the handlers are
/// installed came from the bind attempt: an earlier event reported the
/// socket, the handle carries its listener with the settings' security label
/// and the resolved port, and the address composed for it is on display.
proof fn lemma_armed_was_bound<L>(
    m: LifecycleModel<L>,
    shown: Seq<char>,
    events: Seq<LifecycleEventView<L>>,
    n: nat,
    params: ServerParams<L>,
) -> (socket: BoundSocket<L>)
    requires
        m.phase is Binding,
        n <= events.len(),
        m.after(shown, events, n).0.phase == Phase::Arming(params),
    ensures
        exists|i: int|
            0 <= i < n && #[trigger] events[i] == LifecycleEventView::BindReturned(
                Ok::<BoundSocket<L>, Seq<char>>(socket),
            ),
        params == m.handle(socket),
        m.after(shown, events, n).1 == m.address(socket.local_port).text(),
    decreases n,
{
    assert(n > 0);
    let before = m.after(shown, events, (n - 1) as nat);
    lemma_run_moves_forward(m, shown, events, 0, (n - 1) as nat);
    if before.0.phase == Phase::Arming(params) {
        let socket = lemma_armed_was_bound(m, shown, events, (n - 1) as nat, params);
        let i = choose|i: int|
            0 <= i < n - 1 && #[trigger] events[i] == LifecycleEventView::BindReturned(
                Ok::<BoundSocket<L>, Seq<char>>(socket),
            );
        assert(0 <= i < n && events[i] == LifecycleEventView::BindReturned(
            Ok::<BoundSocket<L>, Seq<char>>(socket),
        ));
        socket
    } else {
        let socket = events[n - 1]->BindReturned_0->Ok_0;
        assert(events[n - 1] == LifecycleEventView::BindReturned(
            Ok::<BoundSocket<L>, Seq<char>>(socket),
        ));
        socket
    }
}

/// The address is published before serving begins. In a run from the start,
/// whenever a step asks to serve, the listener to serve on is one that the
/// bind attempt reported, and the address composed for it from the settings
/// is on display, before the step and after it.
pub proof fn law_address_is_published_before_serving<L>(
    m: LifecycleModel<L>,
    shown: Seq<char>,
    events: Seq<LifecycleEventView<L>>,
    j: int,
    params: ServerParams<L>,
) -> (socket: BoundSocket<L>)
    requires
        m.phase is Binding,
        0 <= j < events.len(),
        m.action_at(shown, events, j) == LifecycleActionView::Serve(params),
    ensures
        exists|i: int|
            0 <= i < j && #[trigger] events[i] == LifecycleEventView::BindReturned(
                Ok::<BoundSocket<L>, Seq<char>>(socket),
            ),
        params == m.handle(socket),
        m.after(shown, events, j as nat).1 == m.address(socket.local_port).text(),
        m.after(shown, events, (j + 1) as nat).1 == m.address(socket.local_port).text(),
{
    let before = m.after(shown, events, j as nat);
    assert(before.0.phase == Phase::Arming(params));
    lemma_armed_was_bound(m, shown, events, j as nat, params)
}

/// The address is published once per start: two steps of a run that both
/// publish are the same step, and what one publishes stays on display for
/// the rest of the run.
pub proof fn law_address_is_published_once<L>(
    m: LifecycleModel<L>,
    shown: Seq<char>,
    events: Seq<LifecycleEventView<L>>,
    i: int,
    j: int,
)
    requires
        0 <= i < events.len(),
        0 <= j < events.len(),
        m.action_at(shown, events, i) is InstallHandlers,
    ensures
        m.action_at(shown, events, j) is InstallHandlers ==> i == j,
        i < j ==> m.after(shown, events, (j + 1) as nat).1 == m.after(
            shown,
            events,
            (i + 1) as nat,
        ).1,
{
    let at_i = m.after(shown, events, i as nat);
    let at_j = m.after(shown, events, j as nat);
    lemma_step_moves_forward(at_i.0, at_i.1, events[i]);
    lemma_step_moves_forward(at_j.0, at_j.1, events[j]);
    assert(m.after(shown, events, (i + 1) as nat).0 == at_i.0.next(at_i.1, events[i]).0);
    assert(m.after(shown, events, (j + 1) as nat).0 == at_j.0.next(at_j.1, events[j]).0);
    if i < j {
        lemma_run_moves_forward(m, shown, events, (i + 1) as nat, j as nat);
        lemma_run_moves_forward(m, shown, events, (i + 1) as nat, (j + 1) as nat);
    } else if j < i {
        lemma_run_moves_forward(m, shown, events, (j + 1) as nat, i as nat);
    }
}

/// A run hands out at most one terminal result: two events that both call
/// for the exit are the same event.
pub proof fn law_exits_at_most_once<L>(
    m: LifecycleModel<L>,
    shown: Seq<char>,
    events: Seq<LifecycleEventView<L>>,
    i: int,
    j: int,
)
    requires
        0 <= i < events.len(),
        0 <= j < events.len(),
        m.action_at(shown, events, i) is Exit,
        m.action_at(shown, events, j) is Exit,
    ensures
        i == j,
{
    if i < j {
        lemma_exit_ends_run(m, shown, events, i, j);
    } else if j < i {
        lemma_exit_ends_run(m, shown, events, j, i);
    }
}

/// After the terminal result nothing happens: every later event of the run
/// is ignored.
pub proof fn lemma_exit_ends_run<L>(
    m: LifecycleModel<L>,
    shown: Seq<char>,
    events: Seq<LifecycleEventView<L>>,
    i: int,
    j: int,
)
    requires
        0 <= i < j < events.len(),
        m.action_at(shown, events, i) is Exit,
    ensures
        m.action_at(shown, events, j) is Ignore,
{
    let before = m.after(shown, events, i as nat);
    lemma_step_moves_forward(before.0, before.1, events[i]);
    assert(m.after(shown, events, (i + 1) as nat).0 == before.0.next(before.1, events[i]).0);
    lemma_run_moves_forward(m, shown, events, (i + 1) as nat, j as nat);
}

/// A start that cannot bind, or cannot install its signal handlers, is
/// given up before serving begins: in a run where one step hands out either
/// failure, no step asks to serve.
pub proof fn law_failed_start_never_serves<L>(
    m: LifecycleModel<L>,
    shown: Seq<char>,
    events: Seq<LifecycleEventView<L>>,
    i: int,
    j: int,
)
    requires
        0 <= i < events.len(),
        0 <= j < events.len(),
        m.action_at(shown, events, i) matches LifecycleActionView::Exit(Err(error)) && (
        error is Bind || error is SignalInstall),
    ensures
        !(m.action_at(shown, events, j) is Serve),
{
    let at_j = m.after(shown, events, j as nat);
    if j < i {
        lemma_step_moves_forward(at_j.0, at_j.1, events[j]);
        assert(m.after(shown, events, (j + 1) as nat).0 == at_j.0.next(at_j.1, events[j]).0);
        lemma_run_moves_forward(m, shown, events, (j + 1) as nat, i as nat);
    } else if i < j {
        lemma_exit_ends_run(m, shown, events, i, j);
    }
}

/// What the serving loop returns is what the start ends with: success
/// after a graceful shutdown, or the loop's own failure, neither masked.
pub proof fn law_serving_result_is_propagated<L>(
    m: LifecycleModel<L>,
    shown: Seq<char>,
    returned: Result<(), Seq<char>>,
)
    requires
        m.phase is Serving,
    ensures
        m.next(shown, LifecycleEventView::ServeReturned(returned)) == (
            m.at(Phase::Finished),
            shown,
            LifecycleActionView::<L>::Exit(
                match returned {
                    Ok(_) => Ok(()),
                    Err(reason) => Err(LifecycleErrorView::Serving { reason }),
                },
            ),
        ),
{
}

} // verus!
