//! The graceful-shutdown coordinator.
//!
//! One coordinator lives per service start. It waits for the first of
//! several termination signals, lets an optional shutdown hook say how long
//! to drain, waits that long, and completes. The coordinator decides; the
//! embedding program does the waiting: it feeds each thing that happened to
//! [`Coordinator::step`] as a [`ShutdownEvent`] and performs the
//! [`ShutdownAction`] that comes back.

use vstd::prelude::*;

verus! {

/// A source of termination signals. All sources are treated alike.
#[derive(Clone, Copy, Debug, PartialEq, Eq, Structural)]
pub enum SignalSource {
    /// The interrupt signal.
    Interrupt,
    /// The platform's termination signal, where it has one.
    Terminate,
    /// The platform's quit signal, where it has one; it ends the service as
    /// the termination signal does.
    Quit,
}

/// How a shutdown went: the signal that won the race and the drain time
/// that was waited out, in milliseconds.
#[derive(Clone, Copy, Debug, PartialEq, Eq, Structural)]
pub struct ShutdownOutcome {
    pub signal: SignalSource,
    pub drained_ms: u64,
}

/// Where the coordinator stands while something outside is awaited.
///
/// Between these lies the moment at which a signal has been received and
/// the coordinator decides what follows. It is reached when the first signal
/// arrives and again when the hook has returned, and it is left within the
/// same step, so the coordinator never rests in it: see
/// [`CoordinatorModel::signal_received`].
#[derive(Clone, Copy, Debug, PartialEq, Eq, Structural)]
pub enum CoordinatorState {
    /// No signal has arrived yet.
    Waiting,
    /// A signal has won and the shutdown hook is running.
    HookRunning { signal: SignalSource },
    /// The hook asked for `delay_ms` milliseconds, which are being waited out.
    Draining { signal: SignalSource, delay_ms: u64 },
    /// The coordinator has completed.
    Done { outcome: ShutdownOutcome },
}

/// Something that happened outside and is reported to the coordinator.
#[derive(Clone, Copy, Debug, PartialEq, Eq, Structural)]
pub enum ShutdownEvent {
    /// A termination signal fired.
    Signal(SignalSource),
    /// The shutdown hook returned the drain time it asks for, in milliseconds.
    HookReturned(u64),
    /// The drain time that was asked for has passed.
    DrainElapsed,
}

/// What the embedding program is to do next.
#[derive(Clone, Copy, Debug, PartialEq, Eq, Structural)]
pub enum ShutdownAction {
    /// Nothing: the event has no effect in the current state.
    Ignore,
    /// Call the shutdown hook and report its result as `HookReturned`. The
    /// hook has to return: the coordinator waits for it without a limit and
    /// has no channel for its failures.
    InvokeHook,
    /// Suspend for this many milliseconds, then report `DrainElapsed`.
    Sleep(u64),
    /// Shutdown may proceed: stop waiting and let the serving loop unwind.
    Complete,
}

/// The mathematical value of a [`Coordinator`].
pub ghost struct CoordinatorModel {
    pub has_hook: bool,
    pub state: CoordinatorState,
}

impl CoordinatorModel {
    /// The coordinator of a fresh start.
    pub open spec fn initial(has_hook: bool) -> CoordinatorModel {
        CoordinatorModel { has_hook, state: CoordinatorState::Waiting }
    }

    /// The same coordinator in another state.
    pub open spec fn at(self, state: CoordinatorState) -> CoordinatorModel {
        CoordinatorModel { has_hook: self.has_hook, state }
    }

    /// The state that completion with the given outcome leads to.
    pub open spec fn done(self, signal: SignalSource, drained_ms: u64) -> CoordinatorModel {
        self.at(CoordinatorState::Done { outcome: ShutdownOutcome { signal, drained_ms } })
    }

    /// The decision taken once `signal` has been received. `hook_result` is
    /// `None` while no hook has run, and the drain time it asked for after
    /// it has.
    ///
    /// With nothing captured yet, a supplied hook is run, and without a hook
    /// the shutdown completes. With a drain time captured, a positive time
    /// is waited out and a time of zero completes the shutdown.
    pub open spec fn signal_received(self, signal: SignalSource, hook_result: Option<u64>) -> (
        CoordinatorModel,
        ShutdownAction,
    ) {
        match hook_result {
            None => if self.has_hook {
                (self.at(CoordinatorState::HookRunning { signal }), ShutdownAction::InvokeHook)
            } else {
                (self.done(signal, 0), ShutdownAction::Complete)
            },
            Some(delay_ms) => if delay_ms > 0 {
                (
                    self.at(CoordinatorState::Draining { signal, delay_ms }),
                    ShutdownAction::Sleep(delay_ms),
                )
            } else {
                (self.done(signal, 0), ShutdownAction::Complete)
            },
        }
    }

    /// The transition function: the state after `event` and the action it
    /// calls for.
    ///
    /// The first signal wins the race and is decided on; so is the return
    /// of the hook. The end of the drain completes the shutdown. Every other
    /// pair of state and event leaves the coordinator as it is.
    pub open spec fn next(self, event: ShutdownEvent) -> (CoordinatorModel, ShutdownAction) {
        match (self.state, event) {
            (CoordinatorState::Waiting, ShutdownEvent::Signal(signal)) => self.signal_received(
                signal,
                None,
            ),
            (CoordinatorState::HookRunning { signal }, ShutdownEvent::HookReturned(delay_ms)) => {
                self.signal_received(signal, Some(delay_ms))
            },
            (CoordinatorState::Draining { signal, delay_ms }, ShutdownEvent::DrainElapsed) => (
                self.done(signal, delay_ms),
                ShutdownAction::Complete,
            ),
            _ => (self, ShutdownAction::Ignore),
        }
    }

    /// The signal that won the race, once one has.
    pub open spec fn winner(self) -> Option<SignalSource> {
        match self.state {
            CoordinatorState::Waiting => None,
            CoordinatorState::HookRunning { signal } => Some(signal),
            CoordinatorState::Draining { signal, .. } => Some(signal),
            CoordinatorState::Done { outcome } => Some(outcome.signal),
        }
    }
}

/// The graceful-shutdown coordinator of one service start.
#[derive(Clone, Copy, Debug)]
pub struct Coordinator {
    has_hook: bool,
    state: CoordinatorState,
}

impl View for Coordinator {
    type V = CoordinatorModel;

    closed spec fn view(&self) -> CoordinatorModel {
        CoordinatorModel { has_hook: self.has_hook, state: self.state }
    }
}

/// Sets up the coordinator for a service start: it waits for the first
/// termination signal. `has_hook` says whether a shutdown hook was supplied.
pub fn graceful_shutdown(has_hook: bool) -> (coordinator: Coordinator)
    ensures
        coordinator@ == CoordinatorModel::initial(has_hook),
{
    Coordinator { has_hook, state: CoordinatorState::Waiting }
}

impl Coordinator {
    /// Takes in one event and says what to do next.
    pub fn step(&mut self, event: ShutdownEvent) -> (action: ShutdownAction)
        ensures
            (final(self)@, action) == old(self)@.next(event),
    {
        match (self.state, event) {
            (CoordinatorState::Waiting, ShutdownEvent::Signal(signal)) => {
                if self.has_hook {
                    self.state = CoordinatorState::HookRunning { signal };
                    ShutdownAction::InvokeHook
                } else {
                    self.state =
                    CoordinatorState::Done { outcome: ShutdownOutcome { signal, drained_ms: 0 } };
                    ShutdownAction::Complete
                }
            },
            (CoordinatorState::HookRunning { signal }, ShutdownEvent::HookReturned(delay_ms)) => {
                if delay_ms > 0 {
                    self.state = CoordinatorState::Draining { signal, delay_ms };
                    ShutdownAction::Sleep(delay_ms)
                } else {
                    self.state =
                    CoordinatorState::Done { outcome: ShutdownOutcome { signal, drained_ms: 0 } };
                    ShutdownAction::Complete
                }
            },
            (CoordinatorState::Draining { signal, delay_ms }, ShutdownEvent::DrainElapsed) => {
                self.state =
                CoordinatorState::Done {
                    outcome: ShutdownOutcome { signal, drained_ms: delay_ms },
                };
                ShutdownAction::Complete
            },
            _ => ShutdownAction::Ignore,
        }
    }

    /// Whether a shutdown hook was supplied at the start.
    pub fn has_hook(&self) -> (has_hook: bool)
        ensures
            has_hook == self@.has_hook,
    {
        self.has_hook
    }

    /// The current state.
    pub fn state(&self) -> (state: CoordinatorState)
        ensures
            state == self@.state,
    {
        self.state
    }

    /// Whether the coordinator has completed.
    pub fn is_done(&self) -> (done: bool)
        ensures
            done == (self@.state is Done),
    {
        match self.state {
            CoordinatorState::Done { .. } => true,
            _ => false,
        }
    }

    /// The outcome of the shutdown, once the coordinator has completed.
    pub fn outcome(&self) -> (outcome: Option<ShutdownOutcome>)
        ensures
            outcome == match self@.state {
                CoordinatorState::Done { outcome } => Some(outcome),
                _ => None,
            },
    {
        match self.state {
            CoordinatorState::Done { outcome } => Some(outcome),
            _ => None,
        }
    }
}

} // verus!
