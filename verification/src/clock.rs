//! Software clocks: creating them, registering listeners, and the decisions
//! of their run loop.
//!
//! A clock's run is a loop. Each turn polls the stop channel, then waits for
//! the next instant of the clock's interval, then polls the stop channel
//! again, then tells every listener of the tick. A poll that finds a stop
//! message marks the clock as stopping; from then on nothing more is waited
//! for or sent, and the loop ends at the start of the next turn. The waiting and
//! the sending are asynchronous and are done by the caller, who feeds each
//! poll to [`Clock::run_step`] and performs the [`RunAction`] it returns.
use vstd::prelude::*;
use tokio::sync::mpsc::Receiver;
use crate::channel::{receiver_max_capacity, sender_max_capacity, try_take, unit_channel};
use crate::error::{Error, ErrorKind};
use crate::listener::ClockListener;
use crate::time::Duration;

verus! {

/// The capacity of the stop channel a clock makes for itself and of each
/// listener's tick channel.
pub const CHANNEL_CAPACITY: usize = 100;

/// How long, in milliseconds, a tick waits for room in a listener's channel
/// before that listener misses it.
pub const TICK_SEND_TIMEOUT_MILLIS: u64 = 100;

/// What is known of a clock: its period, whether it has been started,
/// whether a run of it is under way, and its listeners in the order they
/// registered.
pub struct ClockView {
    /// The time between ticks, in nanoseconds.
    pub period_nanos: u64,
    /// Whether the clock has ever been started; a clock starts only once.
    pub started: bool,
    /// Whether a run of the clock has begun and not yet finished.
    pub running: bool,
    /// The registered listeners, oldest first.
    pub listeners: Seq<ClockListener>,
}

/// A clock with the given period, never started, with no listeners.
pub open spec fn fresh_clock(period_nanos: u64) -> ClockView {
    ClockView { period_nanos, started: false, running: false, listeners: Seq::empty() }
}

/// The same clock with its running flag set to `running`.
pub open spec fn with_running(v: ClockView, running: bool) -> ClockView {
    ClockView { running, ..v }
}

/// What an attempt to begin a run does to a clock: a clock that has been
/// started before, whether its run is under way or over, is left as it is
/// and gives no run state; a clock never started is marked started and
/// running, and its run begins in [`initial_run_state`].
pub open spec fn begin_outcome(v: ClockView) -> (ClockView, Option<RunState>) {
    if v.started {
        (v, None)
    } else {
        (ClockView { started: true, ..with_running(v, true) }, Some(initial_run_state()))
    }
}

/// What finishing a run does to a clock: it is no longer running, and it
/// stays started.
pub open spec fn finish_outcome(v: ClockView) -> ClockView {
    with_running(v, false)
}

/// A software clock.
///
/// It has a single clock source, its period, and a channel on which it can
/// be told to stop. It can be started once and signals every
/// registered listener on each tick.
pub struct Clock {
    period_nanos: u64,
    flags: StartFlags,
    stop_receiver: Receiver<()>,
    listeners: Vec<ClockListener>,
}

/// Whether a clock has been started and whether its run is under way.
struct StartFlags {
    started: bool,
    running: bool,
}

impl StartFlags {
    /// A run can be under way only in a clock that has been started.
    #[verifier::type_invariant]
    spec fn running_only_if_started(self) -> bool {
        self.running ==> self.started
    }
}

impl View for Clock {
    type V = ClockView;

    closed spec fn view(&self) -> ClockView {
        ClockView {
            period_nanos: self.period_nanos,
            started: self.flags.started,
            running: self.flags.running,
            listeners: self.listeners@,
        }
    }
}

/// Which half of a turn of the run loop comes next.
#[derive(Debug, Clone, Copy, PartialEq, Eq, Structural)]
pub enum RunStage {
    /// The stop poll that precedes waiting for the interval.
    BeforeInterval,
    /// The stop poll that precedes telling the listeners of a tick.
    BeforeTick,
}

/// Where a run of the clock stands.
#[derive(Debug, Clone, Copy, PartialEq, Eq, Structural)]
pub struct RunState {
    /// Cleared once a stop message has been received.
    pub running: bool,
    /// The half of the current turn that comes next.
    pub stage: RunStage,
}

/// What the caller does after a stop poll.
#[derive(Debug, Clone, Copy, PartialEq, Eq, Structural)]
pub enum RunAction {
    /// Wait for the next instant of the clock's interval.
    WaitInterval,
    /// Send a tick to every registered listener.
    NotifyListeners,
    /// Nothing: a stop message was received.
    Skip,
}

/// The state in which a run begins.
pub open spec fn initial_run_state() -> RunState {
    RunState { running: true, stage: RunStage::BeforeInterval }
}

/// Whether the run loop takes another step from `state`: the loop tests its
/// flag only at the start of a turn, so the second half of a turn always
/// follows the first.
pub open spec fn loop_continues(state: RunState) -> bool {
    state.running || state.stage == RunStage::BeforeTick
}

/// One step of the run loop, given whether the stop poll found a message.
/// Work is done only while the run is still running after the poll: a stop
/// taken at either poll of a turn keeps the rest of that turn, its wait and
/// its tick, from being done.
pub open spec fn step_spec(state: RunState, stop_requested: bool) -> (RunState, RunAction) {
    let running = state.running && !stop_requested;
    match state.stage {
        RunStage::BeforeInterval => (
            RunState { running, stage: RunStage::BeforeTick },
            if running { RunAction::WaitInterval } else { RunAction::Skip },
        ),
        RunStage::BeforeTick => (
            RunState { running, stage: RunStage::BeforeInterval },
            if running { RunAction::NotifyListeners } else { RunAction::Skip },
        ),
    }
}

impl RunState {
    /// Whether the run loop takes another step from this state.
    pub fn continues(&self) -> (b: bool)
        ensures
            b == loop_continues(*self),
    {
        match self.stage {
            RunStage::BeforeTick => true,
            RunStage::BeforeInterval => self.running,
        }
    }
}

/// The decision of one step of the run loop: the next state and what to do,
/// given whether the stop poll at `state` found a stop message.
pub fn next_run_step(state: RunState, stop_requested: bool) -> (next: (RunState, RunAction))
    ensures
        next == step_spec(state, stop_requested),
{
    let running = state.running && !stop_requested;
    match state.stage {
        RunStage::BeforeInterval => {
            let action = if running { RunAction::WaitInterval } else { RunAction::Skip };
            (RunState { running, stage: RunStage::BeforeTick }, action)
        },
        RunStage::BeforeTick => {
            let action = if running { RunAction::NotifyListeners } else { RunAction::Skip };
            (RunState { running, stage: RunStage::BeforeInterval }, action)
        },
    }
}

impl Clock {
    /// The receiver on which this clock listens for stop messages.
    pub closed spec fn stop_channel(&self) -> Receiver<()> {
        self.stop_receiver
    }

    /// A clock with the given period in nanoseconds, and a stop channel of
    /// its own whose sender is dropped at once: such a clock never receives
    /// a stop message.
    pub fn new(period_nanos: u64) -> (clock: Clock)
        ensures
            clock@ == fresh_clock(period_nanos),
            clock@.period_nanos == period_nanos,
            clock@.listeners.len() == 0,
            !clock@.started,
            !clock@.running,
            receiver_max_capacity(clock.stop_channel()) == CHANNEL_CAPACITY,
    {
        let (_tx, rx) = unit_channel(CHANNEL_CAPACITY);
        Clock {
            period_nanos,
            flags: StartFlags { started: false, running: false },
            stop_receiver: rx,
            listeners: Vec::new(),
        }
    }

    /// A clock with the given period in nanoseconds that stops when a unit
    /// message arrives on `rx`.
    pub fn new_with_stopper(period_nanos: u64, rx: Receiver<()>) -> (clock: Clock)
        ensures
            clock@ == fresh_clock(period_nanos),
            clock@.period_nanos == period_nanos,
            clock@.listeners.len() == 0,
            !clock@.started,
            !clock@.running,
            clock.stop_channel() == rx,
    {
        Clock {
            period_nanos,
            flags: StartFlags { started: false, running: false },
            stop_receiver: rx,
            listeners: Vec::new(),
        }
    }

    /// The time between ticks, in nanoseconds.
    pub fn period_nanos(&self) -> (period: u64)
        ensures
            period == self@.period_nanos,
    {
        self.period_nanos
    }

    /// The period of the interval that a run waits on between ticks.
    pub fn interval_period(&self) -> (period: Duration)
        ensures
            period@ == self@.period_nanos,
    {
        Duration::from_nanos(self.period_nanos)
    }

    /// The registered listeners, oldest first: a tick is sent to each of
    /// them in this order.
    pub fn listeners(&self) -> (listeners: &Vec<ClockListener>)
        ensures
            listeners@ == self@.listeners,
    {
        &self.listeners
    }

    /// Registers a new listener for the clock's ticks and returns the
    /// receiving end of its tick channel. The listeners registered before
    /// are kept, in order, and the new one comes last.
    pub fn register(&mut self) -> (rx: Receiver<()>)
        ensures
            final(self)@.period_nanos == old(self)@.period_nanos,
            final(self)@.started == old(self)@.started,
            final(self)@.running == old(self)@.running,
            exists|listener: ClockListener|
                final(self)@.listeners == old(self)@.listeners.push(listener),
            final(self).stop_channel() == old(self).stop_channel(),
            receiver_max_capacity(rx) == CHANNEL_CAPACITY,
            sender_max_capacity(final(self)@.listeners.last().tx) == CHANNEL_CAPACITY,
    {
        let (tx, rx) = unit_channel(CHANNEL_CAPACITY);
        let listener = ClockListener { tx };
        self.listeners.push(listener);
        assert(self@.listeners == old(self)@.listeners.push(listener));
        rx
    }

    /// Begins the run of the clock. A clock can be started once: any later
    /// attempt, while its run is under way or after it ended, fails with
    /// `ClockAlreadyRunning` and changes nothing.
    pub fn begin_start(&mut self) -> (result: Result<RunState, Error>)
        ensures
            final(self)@ == begin_outcome(old(self)@).0,
            match begin_outcome(old(self)@).1 {
                Some(state) => result == Ok::<RunState, Error>(state),
                None => result matches Err(e) && e@ is ClockAlreadyRunning,
            },
            final(self).stop_channel() == old(self).stop_channel(),
            old(self)@.running ==> old(self)@.started,
            final(self)@.period_nanos == old(self)@.period_nanos,
            final(self)@.listeners == old(self)@.listeners,
            final(self)@.started,
            result is Ok <==> !old(self)@.started,
            result is Ok ==> final(self)@.running,
            result is Err ==> final(self)@ == old(self)@,
    {
        proof {
            use_type_invariant(&self.flags);
        }
        if self.flags.started {
            Err(Error::new(ErrorKind::ClockAlreadyRunning))
        } else {
            self.flags.started = true;
            self.flags.running = true;
            Ok(RunState { running: true, stage: RunStage::BeforeInterval })
        }
    }

    /// One step of a run: polls the stop channel once, without waiting, and
    /// returns the next state and what to do, as [`next_run_step`] decides
    /// for whatever the poll found. Nothing else about the clock changes.
    pub fn run_step(&mut self, state: RunState) -> (next: (RunState, RunAction))
        ensures
            exists|stop_requested: bool| next == step_spec(state, stop_requested),
            final(self)@ == old(self)@,
            final(self).stop_channel() == old(self).stop_channel(),
    {
        let stop_requested = try_take(&mut self.stop_receiver);
        next_run_step(state, stop_requested)
    }

    /// Ends the run, whether its loop finished or the run was abandoned; the
    /// clock stays started and cannot be started again. Returns `true`, what
    /// a run that exits through normal means reports.
    pub fn finish_start(&mut self) -> (exited_normally: bool)
        ensures
            exited_normally,
            final(self)@ == finish_outcome(old(self)@),
            final(self)@.period_nanos == old(self)@.period_nanos,
            final(self)@.listeners == old(self)@.listeners,
            final(self)@.started == old(self)@.started,
            !final(self)@.running,
            final(self).stop_channel() == old(self).stop_channel(),
    {
        self.flags.running = false;
        true
    }
}

/// The state the run loop ends in and the actions it asks for, starting
/// from `state`, when its stop polls find `polls` in turn; polls beyond the
/// end of the loop are never made.
pub open spec fn run_trace(state: RunState, polls: Seq<bool>) -> (RunState, Seq<RunAction>)
    decreases polls.len(),
{
    if polls.len() == 0 || !loop_continues(state) {
        (state, Seq::empty())
    } else {
        let (next, action) = step_spec(state, polls[0]);
        let (last, rest) = run_trace(next, polls.drop_first());
        (last, seq![action] + rest)
    }
}

/// The actions of `turns` whole turns of an undisturbed run: a wait for the
/// interval, then a tick to the listeners, again and again.
pub open spec fn ticking_actions(turns: nat) -> Seq<RunAction> {
    Seq::new(
        2 * turns,
        |i: int|
            if i % 2 == 0 {
                RunAction::WaitInterval
            } else {
                RunAction::NotifyListeners
            },
    )
}

/// A clock starts only once: after it has been started, every further
/// attempt is refused and changes nothing, whether its run is under way or
/// has finished.
pub proof fn lemma_started_once(v: ClockView)
    ensures
        begin_outcome(begin_outcome(v).0).1 is None,
        begin_outcome(begin_outcome(v).0).0 == begin_outcome(v).0,
        begin_outcome(finish_outcome(begin_outcome(v).0)).1 is None,
        begin_outcome(finish_outcome(begin_outcome(v).0)).0 == finish_outcome(begin_outcome(v).0),
        !v.started ==> begin_outcome(v).1 == Some(initial_run_state()),
{
}

/// A new clock has exactly the period it was given, no listeners, and has
/// never been started.
pub proof fn lemma_fresh_clock(period_nanos: u64)
    ensures
        fresh_clock(period_nanos).period_nanos == period_nanos,
        fresh_clock(period_nanos).listeners.len() == 0,
        !fresh_clock(period_nanos).started,
        !fresh_clock(period_nanos).running,
        begin_outcome(fresh_clock(period_nanos)).1 == Some(initial_run_state()),
{
}

/// Starting a clock changes nothing but its two flags: its period and its
/// listeners, in order, are kept, whether the start is refused or not. A
/// clock that was never started is started and running afterwards.
pub proof fn lemma_begin_keeps_clock(v: ClockView)
    ensures
        begin_outcome(v).0.period_nanos == v.period_nanos,
        begin_outcome(v).0.listeners == v.listeners,
        begin_outcome(v).0.started,
        !v.started ==> begin_outcome(v).0.running && begin_outcome(v).1 is Some,
        v.started ==> begin_outcome(v).0 == v && begin_outcome(v).1 is None,
{
}

/// Ending a run changes nothing but the running flag: the period, the
/// listeners and the started flag are kept, and the clock is not running.
pub proof fn lemma_finish_keeps_clock(v: ClockView)
    ensures
        finish_outcome(v).period_nanos == v.period_nanos,
        finish_outcome(v).listeners == v.listeners,
        finish_outcome(v).started == v.started,
        !finish_outcome(v).running,
{
}

/// A listener registered before a run is still registered, at the same
/// place, after the run begins and after it ends.
pub proof fn lemma_listeners_outlive_run(v: ClockView, i: int)
    requires
        0 <= i < v.listeners.len(),
    ensures
        begin_outcome(v).0.listeners.len() == v.listeners.len(),
        begin_outcome(v).0.listeners[i] == v.listeners[i],
        finish_outcome(begin_outcome(v).0).listeners.len() == v.listeners.len(),
        finish_outcome(begin_outcome(v).0).listeners[i] == v.listeners[i],
{
}

/// A poll that takes a stop message stops the run at once: whichever half
/// of the turn it is, the run is no longer running, moves on to the other
/// half, and does nothing. A poll that finds no message changes neither the
/// running flag nor, while running, the work: the interval is waited for
/// before it, the listeners are ticked at its end.
pub proof fn lemma_poll_decides_step(state: RunState)
    ensures
        !step_spec(state, true).0.running,
        step_spec(state, true).0.stage != state.stage,
        step_spec(state, true).1 == RunAction::Skip,
        step_spec(state, false).0.running == state.running,
        step_spec(state, false).0.stage != state.stage,
        state.running && state.stage == RunStage::BeforeInterval ==> step_spec(state, false).1
            == RunAction::WaitInterval,
        state.running && state.stage == RunStage::BeforeTick ==> step_spec(state, false).1
            == RunAction::NotifyListeners,
{
}

/// A received stop message clears the running flag and skips the work it
/// preceded, and a run that is stopping stays stopping, and does nothing,
/// whatever the later polls find.
pub proof fn lemma_stop_is_final(state: RunState, stop_requested: bool)
    ensures
        stop_requested ==> !step_spec(state, stop_requested).0.running,
        stop_requested ==> step_spec(state, stop_requested).1 == RunAction::Skip,
        !state.running ==> !step_spec(state, stop_requested).0.running,
        !state.running ==> step_spec(state, stop_requested).1 == RunAction::Skip,
{
}

/// Every step moves to the other half of the turn.
pub proof fn lemma_steps_alternate(state: RunState, stop_requested: bool)
    ensures
        step_spec(state, stop_requested).0.stage != state.stage,
{
}

/// A run that is not told to stop ticks forever: every turn waits for the
/// interval and then ticks the listeners, and comes back to where it began.
pub proof fn lemma_undisturbed_run_ticks(turns: nat)
    ensures
        run_trace(initial_run_state(), Seq::new(2 * turns, |i: int| false))
            == (initial_run_state(), ticking_actions(turns)),
    decreases turns,
{
    let polls = Seq::new(2 * turns, |i: int| false);
    if turns > 0 {
        let s0 = initial_run_state();
        let s1 = RunState { running: true, stage: RunStage::BeforeTick };
        let fewer = Seq::new(2 * ((turns - 1) as nat), |i: int| false);
        lemma_undisturbed_run_ticks((turns - 1) as nat);
        assert(polls.drop_first().drop_first() =~= fewer);
        assert(step_spec(s0, polls[0]) == (s1, RunAction::WaitInterval));
        assert(step_spec(s1, polls.drop_first()[0]) == (s0, RunAction::NotifyListeners));
        assert(run_trace(s1, polls.drop_first()).1 =~= seq![RunAction::NotifyListeners]
            + ticking_actions((turns - 1) as nat));
        assert(ticking_actions(turns) =~= seq![RunAction::WaitInterval, RunAction::NotifyListeners]
            + ticking_actions((turns - 1) as nat));
    } else {
        assert(ticking_actions(turns) =~= Seq::empty());
    }
}

/// Once a stop message is received, at poll `i`, the run stops as soon as
/// possible: from that poll on every action is `Skip`, so nothing more is
/// waited for and no listener is sent a tick; at most one more poll is made,
/// and if a poll follows, the loop has ended by then.
pub proof fn lemma_stop_ends_run(state: RunState, polls: Seq<bool>, i: int)
    requires
        0 <= i < polls.len(),
        polls[i],
    ensures
        run_trace(state, polls).1.len() <= i + 2,
        forall|k: int|
            i <= k < run_trace(state, polls).1.len() ==> run_trace(state, polls).1[k]
                == RunAction::Skip,
        polls.len() >= i + 2 ==> !loop_continues(run_trace(state, polls).0),
    decreases i,
{
    if !loop_continues(state) {
    } else {
        let (next, action) = step_spec(state, polls[0]);
        let tail = polls.drop_first();
        let (last, rest) = run_trace(next, tail);
        assert(run_trace(state, polls) == (last, seq![action] + rest));
        if i > 0 {
            assert(tail[i - 1]);
            lemma_stop_ends_run(next, tail, i - 1);
        } else {
            assert(!next.running);
            if tail.len() == 0 || !loop_continues(next) {
                assert(rest =~= Seq::<RunAction>::empty());
            } else {
                let (next2, action2) = step_spec(next, tail[0]);
                assert(next.stage == RunStage::BeforeTick);
                assert(action2 == RunAction::Skip);
                assert(!loop_continues(next2));
                assert(run_trace(next2, tail.drop_first()).1 =~= Seq::<RunAction>::empty());
                assert(rest =~= seq![action2]);
            }
        }
    }
}

impl Default for Clock {
    /// A clock with a zero period and a stop channel whose sender is dropped.
    fn default() -> (clock: Clock)
        ensures
            clock@ == fresh_clock(0),
            clock@.period_nanos == 0,
            clock@.listeners.len() == 0,
            !clock@.started,
            !clock@.running,
            receiver_max_capacity(clock.stop_channel()) == CHANNEL_CAPACITY,
    {
        Clock::new(0)
    }
}

} // verus!
