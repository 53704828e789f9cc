use service_lifecycle::graceful_shutdown;
use service_lifecycle::shutdown::{
    Coordinator, CoordinatorState, ShutdownAction, ShutdownEvent, ShutdownOutcome, SignalSource,
};

const SOURCES: [SignalSource; 3] =
    [SignalSource::Interrupt, SignalSource::Terminate, SignalSource::Quit];

fn drive(coordinator: &mut Coordinator, events: &[ShutdownEvent]) -> Vec<ShutdownAction> {
    events.iter().map(|event| coordinator.step(*event)).collect()
}

#[test]
fn coordinator_starts_waiting() {
    for has_hook in [false, true] {
        let coordinator = graceful_shutdown(has_hook);
        assert_eq!(coordinator.state(), CoordinatorState::Waiting);
        assert_eq!(coordinator.has_hook(), has_hook);
        assert!(!coordinator.is_done());
        assert_eq!(coordinator.outcome(), None);
    }
}

#[test]
fn without_hook_first_signal_completes_at_once() {
    for signal in SOURCES {
        let mut coordinator = graceful_shutdown(false);
        assert_eq!(coordinator.step(ShutdownEvent::Signal(signal)), ShutdownAction::Complete);
        assert!(coordinator.is_done());
        assert_eq!(coordinator.outcome(), Some(ShutdownOutcome { signal, drained_ms: 0 }));
    }
}

#[test]
fn with_hook_first_signal_runs_the_hook() {
    for signal in SOURCES {
        let mut coordinator = graceful_shutdown(true);
        assert_eq!(coordinator.step(ShutdownEvent::Signal(signal)), ShutdownAction::InvokeHook);
        assert_eq!(coordinator.state(), CoordinatorState::HookRunning { signal });
        assert!(!coordinator.is_done());
    }
}

#[test]
fn hook_returning_zero_completes_without_suspending() {
    let mut coordinator = graceful_shutdown(true);
    let actions = drive(
        &mut coordinator,
        &[ShutdownEvent::Signal(SignalSource::Interrupt), ShutdownEvent::HookReturned(0)],
    );
    assert_eq!(actions, vec![ShutdownAction::InvokeHook, ShutdownAction::Complete]);
    assert_eq!(
        coordinator.outcome(),
        Some(ShutdownOutcome { signal: SignalSource::Interrupt, drained_ms: 0 })
    );
}

#[test]
fn hook_returning_a_delay_drains_for_that_long() {
    let mut coordinator = graceful_shutdown(true);
    assert_eq!(
        coordinator.step(ShutdownEvent::Signal(SignalSource::Terminate)),
        ShutdownAction::InvokeHook
    );
    assert_eq!(coordinator.step(ShutdownEvent::HookReturned(1500)), ShutdownAction::Sleep(1500));
    assert_eq!(
        coordinator.state(),
        CoordinatorState::Draining { signal: SignalSource::Terminate, delay_ms: 1500 }
    );
    assert!(!coordinator.is_done());
    assert_eq!(coordinator.step(ShutdownEvent::DrainElapsed), ShutdownAction::Complete);
    assert_eq!(
        coordinator.outcome(),
        Some(ShutdownOutcome { signal: SignalSource::Terminate, drained_ms: 1500 })
    );
}

#[test]
fn longest_delay_is_asked_for_unchanged() {
    let mut coordinator = graceful_shutdown(true);
    coordinator.step(ShutdownEvent::Signal(SignalSource::Quit));
    assert_eq!(
        coordinator.step(ShutdownEvent::HookReturned(u64::MAX)),
        ShutdownAction::Sleep(u64::MAX)
    );
    assert_eq!(coordinator.step(ShutdownEvent::HookReturned(1)), ShutdownAction::Ignore);
    assert_eq!(coordinator.step(ShutdownEvent::DrainElapsed), ShutdownAction::Complete);
    assert_eq!(
        coordinator.outcome(),
        Some(ShutdownOutcome { signal: SignalSource::Quit, drained_ms: u64::MAX })
    );
}

#[test]
fn second_signal_is_abandoned_without_effect() {
    for has_hook in [false, true] {
        for first in SOURCES {
            for second in SOURCES {
                let mut coordinator = graceful_shutdown(has_hook);
                coordinator.step(ShutdownEvent::Signal(first));
                let before = coordinator.state();
                assert_eq!(coordinator.step(ShutdownEvent::Signal(second)), ShutdownAction::Ignore);
                assert_eq!(coordinator.state(), before);
            }
        }
    }
}

#[test]
fn two_concurrent_signals_complete_exactly_once() {
    let mut coordinator = graceful_shutdown(false);
    let actions = drive(
        &mut coordinator,
        &[
            ShutdownEvent::Signal(SignalSource::Interrupt),
            ShutdownEvent::Signal(SignalSource::Terminate),
            ShutdownEvent::Signal(SignalSource::Interrupt),
        ],
    );
    let completions = actions.iter().filter(|action| **action == ShutdownAction::Complete).count();
    assert_eq!(completions, 1);
    assert_eq!(actions[0], ShutdownAction::Complete);
    assert_eq!(
        coordinator.outcome(),
        Some(ShutdownOutcome { signal: SignalSource::Interrupt, drained_ms: 0 })
    );
}

#[test]
fn signal_during_the_drain_does_not_cut_it_short() {
    let mut coordinator = graceful_shutdown(true);
    let actions = drive(
        &mut coordinator,
        &[
            ShutdownEvent::Signal(SignalSource::Interrupt),
            ShutdownEvent::HookReturned(200),
            ShutdownEvent::Signal(SignalSource::Terminate),
            ShutdownEvent::Signal(SignalSource::Quit),
            ShutdownEvent::HookReturned(0),
        ],
    );
    assert_eq!(
        actions,
        vec![
            ShutdownAction::InvokeHook,
            ShutdownAction::Sleep(200),
            ShutdownAction::Ignore,
            ShutdownAction::Ignore,
            ShutdownAction::Ignore,
        ]
    );
    assert_eq!(
        coordinator.state(),
        CoordinatorState::Draining { signal: SignalSource::Interrupt, delay_ms: 200 }
    );
    assert_eq!(coordinator.step(ShutdownEvent::DrainElapsed), ShutdownAction::Complete);
    assert_eq!(
        coordinator.outcome(),
        Some(ShutdownOutcome { signal: SignalSource::Interrupt, drained_ms: 200 })
    );
}

#[test]
fn events_out_of_turn_are_ignored() {
    let mut waiting = graceful_shutdown(true);
    assert_eq!(waiting.step(ShutdownEvent::HookReturned(5)), ShutdownAction::Ignore);
    assert_eq!(waiting.step(ShutdownEvent::DrainElapsed), ShutdownAction::Ignore);
    assert_eq!(waiting.state(), CoordinatorState::Waiting);

    let mut running = graceful_shutdown(true);
    running.step(ShutdownEvent::Signal(SignalSource::Interrupt));
    assert_eq!(running.step(ShutdownEvent::DrainElapsed), ShutdownAction::Ignore);
    assert_eq!(running.state(), CoordinatorState::HookRunning { signal: SignalSource::Interrupt });
}

#[test]
fn nothing_happens_after_completion() {
    let mut coordinator = graceful_shutdown(true);
    coordinator.step(ShutdownEvent::Signal(SignalSource::Terminate));
    coordinator.step(ShutdownEvent::HookReturned(0));
    let done = coordinator.state();
    let events = [
        ShutdownEvent::Signal(SignalSource::Interrupt),
        ShutdownEvent::HookReturned(10),
        ShutdownEvent::DrainElapsed,
    ];
    for event in events {
        assert_eq!(coordinator.step(event), ShutdownAction::Ignore);
        assert_eq!(coordinator.state(), done);
    }
}

#[test]
fn every_short_run_completes_at_most_once() {
    let alphabet = [
        ShutdownEvent::Signal(SignalSource::Interrupt),
        ShutdownEvent::Signal(SignalSource::Terminate),
        ShutdownEvent::HookReturned(0),
        ShutdownEvent::HookReturned(7),
        ShutdownEvent::DrainElapsed,
    ];
    for has_hook in [false, true] {
        for code in 0..(5usize.pow(5)) {
            let mut rest = code;
            let mut coordinator = graceful_shutdown(has_hook);
            let mut completions = 0;
            let mut slept = 0u64;
            for _ in 0..5 {
                match coordinator.step(alphabet[rest % 5]) {
                    ShutdownAction::Complete => completions += 1,
                    ShutdownAction::Sleep(ms) => slept += ms,
                    ShutdownAction::InvokeHook => assert!(has_hook),
                    ShutdownAction::Ignore => {}
                }
                rest /= 5;
            }
            assert!(completions <= 1);
            assert_eq!(completions == 1, coordinator.is_done());
            if let Some(outcome) = coordinator.outcome() {
                assert_eq!(outcome.drained_ms, slept);
            }
        }
    }
}

fn run_on_timer(hook: Option<fn() -> u64>) -> (std::time::Duration, ShutdownOutcome) {
    let runtime = tokio::runtime::Builder::new_current_thread().enable_time().build().unwrap();
    runtime.block_on(async {
        let started = std::time::Instant::now();
        let mut coordinator = graceful_shutdown(hook.is_some());
        let mut action = coordinator.step(ShutdownEvent::Signal(SignalSource::Interrupt));
        loop {
            action = match action {
                ShutdownAction::InvokeHook => {
                    let delay = hook.map(|call| call()).unwrap_or(0);
                    coordinator.step(ShutdownEvent::HookReturned(delay))
                }
                ShutdownAction::Sleep(ms) => {
                    tokio::time::sleep(std::time::Duration::from_millis(ms)).await;
                    coordinator.step(ShutdownEvent::DrainElapsed)
                }
                ShutdownAction::Complete | ShutdownAction::Ignore => break,
            };
        }
        (started.elapsed(), coordinator.outcome().unwrap())
    })
}

fn ask_for_sixty_ms() -> u64 {
    60
}

fn ask_for_nothing() -> u64 {
    0
}

#[test]
fn drain_takes_at_least_the_time_asked_for() {
    let (elapsed, outcome) = run_on_timer(Some(ask_for_sixty_ms));
    assert!(elapsed >= std::time::Duration::from_millis(60));
    assert_eq!(outcome, ShutdownOutcome { signal: SignalSource::Interrupt, drained_ms: 60 });
}

#[test]
fn no_drain_without_a_request() {
    let (_, outcome) = run_on_timer(Some(ask_for_nothing));
    assert_eq!(outcome.drained_ms, 0);
    let (_, outcome) = run_on_timer(None);
    assert_eq!(outcome.drained_ms, 0);
}
