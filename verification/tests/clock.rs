use async_soft_clock::clock::{next_run_step, Clock, RunAction, RunStage, RunState};
use async_soft_clock::error::ErrorKind;
use tokio::sync::mpsc;

fn state(running: bool, stage: RunStage) -> RunState {
    RunState { running, stage }
}

/// Drives a run of `clock` to its end, as the asynchronous start does, but
/// without waiting: the actions are collected instead of performed.
fn drive(clock: &mut Clock) -> Result<(bool, Vec<RunAction>), ErrorKind> {
    let mut run = match clock.begin_start() {
        Ok(run) => run,
        Err(e) => {
            return Err(match e.kind() {
                ErrorKind::ClockAlreadyRunning => ErrorKind::ClockAlreadyRunning,
                ErrorKind::Message(m) => ErrorKind::Message(m.clone()),
            })
        }
    };
    let mut actions = Vec::new();
    while run.continues() {
        let (next, action) = clock.run_step(run);
        actions.push(action);
        run = next;
    }
    Ok((clock.finish_start(), actions))
}

/// Test that trying to start the clock twice fails
#[test]
fn start_twice_fails() {
    // Create a channel to stop the clock
    let (stopper, rx) = mpsc::channel(1);

    // Create a clock that ticks every 0.1 seconds
    let mut clock = Clock::new_with_stopper(10_000_000, rx);

    let mut tick_listener = clock.register();

    stopper.try_send(()).unwrap();
    let first = drive(&mut clock);
    assert!(matches!(first, Ok((true, _))));
    // The stop was pending from the start: no tick was sent.
    assert!(tick_listener.try_recv().is_err());

    stopper.try_send(()).unwrap();
    let second = drive(&mut clock);
    assert!(matches!(second, Err(ErrorKind::ClockAlreadyRunning)));
}

#[test]
fn new_clock_has_period_and_no_listeners() {
    let clock = Clock::new(2_000_000_000);
    assert_eq!(clock.period_nanos(), 2_000_000_000);
    assert_eq!(clock.listeners().len(), 0);
    assert_eq!(clock.interval_period().as_secs(), 2);
    assert_eq!(clock.interval_period().subsec_nanos(), 0);
}

#[test]
fn default_clock_has_zero_period() {
    let clock = Clock::default();
    assert_eq!(clock.period_nanos(), 0);
    assert_eq!(clock.listeners().len(), 0);
}

#[test]
fn register_adds_a_listener_each_time() {
    let mut clock = Clock::new(1_000);
    let mut rx1 = clock.register();
    let mut rx2 = clock.register();
    assert_eq!(clock.listeners().len(), 2);
    // Each listener's sender reaches the receiver handed out for it.
    clock.listeners()[0].tx.try_send(()).unwrap();
    assert!(rx1.try_recv().is_ok());
    assert!(rx2.try_recv().is_err());
    clock.listeners()[1].tx.try_send(()).unwrap();
    assert!(rx2.try_recv().is_ok());
}

#[test]
fn second_begin_is_refused_with_clock_already_running() {
    let mut clock = Clock::new(1_000);
    let run = clock.begin_start();
    assert_eq!(run.ok(), Some(state(true, RunStage::BeforeInterval)));
    let again = clock.begin_start();
    let err = again.err().unwrap();
    assert!(matches!(err.kind(), ErrorKind::ClockAlreadyRunning));
    assert_eq!(err.to_string(), "Clock is already running");
    assert!(clock.finish_start());
    // A clock starts only once, also after its run has ended.
    let after = clock.begin_start().err().unwrap();
    assert!(matches!(after.kind(), ErrorKind::ClockAlreadyRunning));
}

#[test]
fn each_step_decides_as_the_loop_does() {
    assert_eq!(
        next_run_step(state(true, RunStage::BeforeInterval), false),
        (state(true, RunStage::BeforeTick), RunAction::WaitInterval)
    );
    assert_eq!(
        next_run_step(state(true, RunStage::BeforeInterval), true),
        (state(false, RunStage::BeforeTick), RunAction::Skip)
    );
    assert_eq!(
        next_run_step(state(true, RunStage::BeforeTick), false),
        (state(true, RunStage::BeforeInterval), RunAction::NotifyListeners)
    );
    assert_eq!(
        next_run_step(state(true, RunStage::BeforeTick), true),
        (state(false, RunStage::BeforeInterval), RunAction::Skip)
    );
    // A run that is stopping finishes its turn without sending a tick.
    assert_eq!(
        next_run_step(state(false, RunStage::BeforeTick), false),
        (state(false, RunStage::BeforeInterval), RunAction::Skip)
    );
}

#[test]
fn loop_continues_only_while_running_or_mid_turn() {
    assert!(state(true, RunStage::BeforeInterval).continues());
    assert!(state(true, RunStage::BeforeTick).continues());
    assert!(state(false, RunStage::BeforeTick).continues());
    assert!(!state(false, RunStage::BeforeInterval).continues());
}

#[test]
fn undisturbed_run_waits_then_ticks() {
    let mut s = state(true, RunStage::BeforeInterval);
    let mut actions = Vec::new();
    for _ in 0..6 {
        let (next, action) = next_run_step(s, false);
        actions.push(action);
        s = next;
    }
    assert_eq!(s, state(true, RunStage::BeforeInterval));
    assert_eq!(
        actions,
        vec![
            RunAction::WaitInterval,
            RunAction::NotifyListeners,
            RunAction::WaitInterval,
            RunAction::NotifyListeners,
            RunAction::WaitInterval,
            RunAction::NotifyListeners,
        ]
    );
}

#[test]
fn stop_before_the_wait_skips_the_whole_turn() {
    let (stopper, rx) = mpsc::channel(1);
    let mut clock = Clock::new_with_stopper(1_000, rx);
    stopper.try_send(()).unwrap();
    let (exited, actions) = drive(&mut clock).ok().unwrap();
    assert!(exited);
    // The stop is taken at the first poll; the second poll finds nothing,
    // and no tick is sent.
    assert_eq!(actions, vec![RunAction::Skip, RunAction::Skip]);
}

#[test]
fn run_step_reports_what_the_poll_found() {
    let (stopper, rx) = mpsc::channel(1);
    let mut clock = Clock::new_with_stopper(1_000, rx);
    let run = clock.begin_start().ok().unwrap();
    let (next, action) = clock.run_step(run);
    assert_eq!(action, RunAction::WaitInterval);
    assert_eq!(next, state(true, RunStage::BeforeTick));
    stopper.try_send(()).unwrap();
    let (last, action) = clock.run_step(next);
    assert_eq!(action, RunAction::Skip);
    assert_eq!(last, state(false, RunStage::BeforeInterval));
    assert!(!last.continues());
}

#[test]
fn clock_without_stopper_never_stops() {
    let mut clock = Clock::new(1_000);
    let mut run = clock.begin_start().ok().unwrap();
    for _ in 0..10 {
        let (next, action) = clock.run_step(run);
        assert_ne!(action, RunAction::Skip);
        run = next;
    }
    assert!(run.continues());
}

#[test]
fn register_makes_channels_of_the_tick_capacity() {
    let mut clock = Clock::new(1_000);
    let rx = clock.register();
    assert_eq!(rx.max_capacity(), 100);
    assert_eq!(clock.listeners()[0].tx.max_capacity(), 100);
}

#[test]
fn polling_keeps_the_stop_channel() {
    let (stopper, rx) = mpsc::channel(1);
    let mut clock = Clock::new_with_stopper(1_000, rx);
    let mut run = clock.begin_start().ok().unwrap();
    for _ in 0..4 {
        let (next, action) = clock.run_step(run);
        assert_ne!(action, RunAction::Skip);
        run = next;
    }
    stopper.try_send(()).unwrap();
    let (last, action) = clock.run_step(run);
    assert_eq!(action, RunAction::Skip);
    assert!(!last.continues() || last.stage == RunStage::BeforeTick);
}
