//! The daemon loop's decisions: from its state and one input (a client
//! command, a monitor event, a start result, a termination signal) to its
//! next state and the actions the runtime performs, in order.
use vstd::prelude::*;

use crate::messages::{Broadcast, ClientEvent, ClientInput, MonitorEvent, WatchEvent, WatchKey};

verus! {

/// Where the daemon stands with respect to its one monitor run.
#[derive(Debug, Clone, Copy, PartialEq, Eq, Structural)]
pub enum Phase {
    /// No run underway.
    Idle,
    /// A run was requested with these timeouts; its backend has not yet
    /// confirmed that it started.
    Starting { status_mins: u64, notifs_mins: u64 },
    /// A run is underway and was announced to the clients.
    Watching,
    /// The daemon is shutting down and ignores every further input.
    Terminated,
}

/// One thing the runtime must do, in the order the actions are returned.
#[derive(Debug, Clone, Copy, PartialEq, Eq, Structural)]
pub enum Action {
    /// Cancel the monitor run with this identifier.
    CancelRun(u64),
    /// Start a monitor run under this identifier, then report the outcome
    /// with `RunStarted` or with a `MonitorEvent::Error` for it.
    StartRun { run: u64, status_mins: u64, notifs_mins: u64 },
    /// Send this message to every connected client.
    Send(Broadcast),
    /// Stop accepting connections, end every session and exit.
    Shutdown,
}

/// One input of the daemon loop.
#[derive(Debug, Clone)]
pub enum DaemonInput {
    /// A client session's command or failure.
    Client(ClientEvent),
    /// The backend of this run started.
    RunStarted(u64),
    /// An event of the monitor run with this identifier.
    Monitor { run: u64, event: MonitorEvent },
    /// The process was asked to terminate.
    Terminate,
}

/// The daemon's state. `run` is the identifier of the latest run requested
/// (zero before the first); identifiers are never reused. The two flags are
/// the last idle value relayed for each key in the current run.
#[derive(Debug, Clone, Copy, PartialEq, Eq, Structural)]
pub struct Daemon {
    pub run: u64,
    pub phase: Phase,
    pub status_idle: bool,
    pub notifs_idle: bool,
}

impl Daemon {
    pub open spec fn initial() -> Daemon {
        Daemon { run: 0, phase: Phase::Idle, status_idle: false, notifs_idle: false }
    }

    /// A run was requested and not yet cancelled.
    pub open spec fn is_active(self) -> bool {
        self.phase is Starting || self.phase is Watching
    }

    pub open spec fn last_idle(self, key: WatchKey) -> bool {
        match key {
            WatchKey::Status => self.status_idle,
            WatchKey::Notifs => self.notifs_idle,
        }
    }

    pub open spec fn with_phase(self, phase: Phase) -> Daemon {
        Daemon { run: self.run, phase, status_idle: self.status_idle, notifs_idle: self.notifs_idle }
    }

    pub open spec fn with_idle(self, key: WatchKey, idle: bool) -> Daemon {
        match key {
            WatchKey::Status => Daemon {
                run: self.run,
                phase: self.phase,
                status_idle: idle,
                notifs_idle: self.notifs_idle,
            },
            WatchKey::Notifs => Daemon {
                run: self.run,
                phase: self.phase,
                status_idle: self.status_idle,
                notifs_idle: idle,
            },
        }
    }

    /// What ending the current run takes: cancel it, and tell the clients
    /// if it had been announced to them.
    pub open spec fn stop_actions(self) -> Seq<Action> {
        match self.phase {
            Phase::Watching => seq![
                Action::CancelRun(self.run),
                Action::Send(Broadcast::WatchStopped),
            ],
            Phase::Starting { .. } => seq![Action::CancelRun(self.run)],
            _ => seq![],
        }
    }

    /// What shutting down takes: cancel the current run, then shut down.
    pub open spec fn quit_actions(self) -> Seq<Action> {
        if self.is_active() {
            seq![Action::CancelRun(self.run), Action::Shutdown]
        } else {
            seq![Action::Shutdown]
        }
    }

    /// The next state and the actions for one input.
    ///
    /// A start cancels the current run (announcing the stop if the run had
    /// been announced) before it requests the new one, which is announced
    /// once its backend has started. A stop while no run is underway does
    /// nothing. A client's failure stays with its session. A run's failure
    /// ends the run as a stop does. An event is relayed only if it comes from
    /// the announced run and changes its key's idle value: where several
    /// seats report one key, the first seat to report idle makes the key
    /// idle and the first to report resume makes it active again.
    pub open spec fn step_spec(self, input: DaemonInput) -> (Daemon, Seq<Action>) {
        if self.phase is Terminated {
            (self, seq![])
        } else {
            match input {
                DaemonInput::Terminate => (self.with_phase(Phase::Terminated), self.quit_actions()),
                DaemonInput::Client(ClientEvent::Input(ClientInput::Quit)) => (
                    self.with_phase(Phase::Terminated),
                    self.quit_actions(),
                ),
                DaemonInput::Client(
                    ClientEvent::Input(ClientInput::StartWatch { status_mins, notifs_mins }),
                ) => {
                    if self.run < u64::MAX {
                        let run = (self.run + 1) as u64;
                        (
                            Daemon {
                                run,
                                phase: Phase::Starting { status_mins, notifs_mins },
                                status_idle: false,
                                notifs_idle: false,
                            },
                            self.stop_actions().push(
                                Action::StartRun { run, status_mins, notifs_mins },
                            ),
                        )
                    } else {
                        (self.with_phase(Phase::Idle), self.stop_actions())
                    }
                },
                DaemonInput::Client(ClientEvent::Input(ClientInput::StopWatch)) => {
                    if self.is_active() {
                        (self.with_phase(Phase::Idle), self.stop_actions())
                    } else {
                        (self, seq![])
                    }
                },
                DaemonInput::Client(ClientEvent::Error(_)) => (self, seq![]),
                DaemonInput::RunStarted(run) => match self.phase {
                    Phase::Starting { status_mins, notifs_mins } => {
                        if run == self.run {
                            (
                                self.with_phase(Phase::Watching),
                                seq![
                                    Action::Send(
                                        Broadcast::WatchStarted { status_mins, notifs_mins },
                                    ),
                                ],
                            )
                        } else {
                            (self, seq![])
                        }
                    },
                    _ => (self, seq![]),
                },
                DaemonInput::Monitor { run, event: MonitorEvent::WatchEvent(e) } => {
                    if self.phase is Watching && run == self.run && e.spec_idle()
                        != self.last_idle(e.spec_key()) {
                        (
                            self.with_idle(e.spec_key(), e.spec_idle()),
                            seq![Action::Send(Broadcast::WatchEvent(e))],
                        )
                    } else {
                        (self, seq![])
                    }
                },
                DaemonInput::Monitor { run, event: MonitorEvent::Error(_) } => {
                    if run == self.run && self.is_active() {
                        (self.with_phase(Phase::Idle), self.stop_actions())
                    } else {
                        (self, seq![])
                    }
                },
            }
        }
    }

    /// A daemon with no run underway.
    pub fn new() -> (r: Daemon)
        ensures
            r == Daemon::initial(),
    {
        Daemon { run: 0, phase: Phase::Idle, status_idle: false, notifs_idle: false }
    }

    fn is_active_exec(&self) -> (r: bool)
        ensures
            r == self.is_active(),
    {
        match self.phase {
            Phase::Starting { .. } | Phase::Watching => true,
            _ => false,
        }
    }

    fn push_stop_actions(&self, out: &mut Vec<Action>)
        ensures
            final(out)@ == old(out)@ + self.stop_actions(),
    {
        match self.phase {
            Phase::Watching => {
                out.push(Action::CancelRun(self.run));
                out.push(Action::Send(Broadcast::WatchStopped));
                assert(final(out)@ =~= old(out)@ + self.stop_actions());
            },
            Phase::Starting { .. } => {
                out.push(Action::CancelRun(self.run));
                assert(final(out)@ =~= old(out)@ + self.stop_actions());
            },
            _ => {
                assert(final(out)@ =~= old(out)@ + self.stop_actions());
            },
        }
    }

    /// Takes one input: moves to the next state and returns the actions to
    /// perform, in order.
    pub fn step(&mut self, input: DaemonInput) -> (r: Vec<Action>)
        ensures
            (*final(self), r@) == old(self).step_spec(input),
    {
        let mut out: Vec<Action> = Vec::new();
        if self.phase == Phase::Terminated {
            assert(out@ =~= seq![]);
            return out;
        }
        match input {
            DaemonInput::Terminate | DaemonInput::Client(
                ClientEvent::Input(ClientInput::Quit),
            ) => {
                if self.is_active_exec() {
                    out.push(Action::CancelRun(self.run));
                }
                out.push(Action::Shutdown);
                self.phase = Phase::Terminated;
                assert(out@ =~= old(self).quit_actions());
            },
            DaemonInput::Client(
                ClientEvent::Input(ClientInput::StartWatch { status_mins, notifs_mins }),
            ) => {
                self.push_stop_actions(&mut out);
                if self.run < u64::MAX {
                    let run = self.run + 1;
                    out.push(Action::StartRun { run, status_mins, notifs_mins });
                    self.run = run;
                    self.phase = Phase::Starting { status_mins, notifs_mins };
                    self.status_idle = false;
                    self.notifs_idle = false;
                } else {
                    self.phase = Phase::Idle;
                }
            },
            DaemonInput::Client(ClientEvent::Input(ClientInput::StopWatch)) => {
                if self.is_active_exec() {
                    self.push_stop_actions(&mut out);
                    self.phase = Phase::Idle;
                }
            },
            DaemonInput::Client(ClientEvent::Error(_)) => {},
            DaemonInput::RunStarted(run) => {
                match self.phase {
                    Phase::Starting { status_mins, notifs_mins } => {
                        if run == self.run {
                            out.push(
                                Action::Send(Broadcast::WatchStarted { status_mins, notifs_mins }),
                            );
                            self.phase = Phase::Watching;
                        }
                    },
                    _ => {},
                }
            },
            DaemonInput::Monitor { run, event: MonitorEvent::WatchEvent(e) } => {
                let key = e.key();
                let idle = e.idle();
                let last = match key {
                    WatchKey::Status => self.status_idle,
                    WatchKey::Notifs => self.notifs_idle,
                };
                if self.phase == Phase::Watching && run == self.run && idle != last {
                    out.push(Action::Send(Broadcast::WatchEvent(e)));
                    match key {
                        WatchKey::Status => self.status_idle = idle,
                        WatchKey::Notifs => self.notifs_idle = idle,
                    }
                }
            },
            DaemonInput::Monitor { run, event: MonitorEvent::Error(_) } => {
                if run == self.run && self.is_active_exec() {
                    self.push_stop_actions(&mut out);
                    self.phase = Phase::Idle;
                }
            },
        }
        proof {
            assert(out@ =~= old(self).step_spec(input).1);
        }
        out
    }
}

/// The state and the actions after a sequence of inputs.
pub open spec fn run_trace(d: Daemon, inputs: Seq<DaemonInput>) -> (Daemon, Seq<Action>)
    decreases inputs.len(),
{
    if inputs.len() == 0 {
        (d, seq![])
    } else {
        let prev = run_trace(d, inputs.drop_last());
        let next = prev.0.step_spec(inputs.last());
        (next.0, prev.1 + next.1)
    }
}

/// Runs an observer over a sequence of actions: `None` as soon as one action
/// is one the observer does not accept in its state.
pub open spec fn observe_all<O>(f: spec_fn(O, Action) -> Option<O>, o: O, acts: Seq<Action>) -> Option<O>
    decreases acts.len(),
{
    if acts.len() == 0 {
        Some(o)
    } else {
        match observe_all(f, o, acts.drop_last()) {
            Some(o1) => f(o1, acts.last()),
            None => None,
        }
    }
}

/// What a client can tell from the lifecycle broadcasts: whether a watch is
/// announced. `WatchStarted` only while none is, `WatchStopped` and events
/// only while one is.
pub open spec fn lifecycle_observer(announced: bool, a: Action) -> Option<bool> {
    match a {
        Action::Send(Broadcast::WatchStarted { .. }) => if !announced { Some(true) } else { None },
        Action::Send(Broadcast::WatchStopped) => if announced { Some(false) } else { None },
        Action::Send(Broadcast::WatchEvent(_)) => if announced { Some(true) } else { None },
        _ => Some(announced),
    }
}

/// The last idle value broadcast for each key (status, notifs) since the
/// latest `WatchStarted`, which counts as `false`. An event must carry the
/// opposite of the last value for its key.
pub open spec fn alternation_observer(last: (bool, bool), a: Action) -> Option<(bool, bool)> {
    match a {
        Action::Send(Broadcast::WatchStarted { .. }) => Some((false, false)),
        Action::Send(Broadcast::WatchEvent(WatchEvent::StatusIdle(v))) => {
            if v != last.0 { Some((v, last.1)) } else { None }
        },
        Action::Send(Broadcast::WatchEvent(WatchEvent::NotifsIdle(v))) => {
            if v != last.1 { Some((last.0, v)) } else { None }
        },
        _ => Some(last),
    }
}

pub open spec fn cancels(acts: Seq<Action>, run: u64) -> bool {
    exists|i: int| 0 <= i < acts.len() && acts[i] == Action::CancelRun(run)
}

proof fn lemma_observe_append<O>(f: spec_fn(O, Action) -> Option<O>, o: O, a: Seq<Action>, b: Seq<Action>)
    ensures
        observe_all(f, o, a + b) == match observe_all(f, o, a) {
            Some(o1) => observe_all(f, o1, b),
            None => None,
        },
    decreases b.len(),
{
    if b.len() == 0 {
        assert(a + b =~= a);
    } else {
        lemma_observe_append(f, o, a, b.drop_last());
        assert((a + b).drop_last() =~= a + b.drop_last());
        assert((a + b).last() == b.last());
    }
}

pub open spec fn lifecycle() -> spec_fn(bool, Action) -> Option<bool> {
    |w: bool, a: Action| lifecycle_observer(w, a)
}

pub open spec fn alternation() -> spec_fn((bool, bool), Action) -> Option<(bool, bool)> {
    |last: (bool, bool), a: Action| alternation_observer(last, a)
}

spec fn lifecycle_agrees(announced: bool, d: Daemon) -> bool {
    d.phase is Terminated || announced == d.phase is Watching
}

spec fn alternation_agrees(last: (bool, bool), d: Daemon) -> bool {
    &&& d.phase is Starting ==> !d.status_idle && !d.notifs_idle
    &&& d.phase is Watching ==> last == (d.status_idle, d.notifs_idle)
}

spec fn cancelled_before(d: Daemon, acts: Seq<Action>) -> bool {
    forall|r: u64| #[trigger] cancels(acts, r) ==> r < d.run || (r == d.run && !d.is_active())
}

proof fn lemma_short_seq(out: Seq<Action>)
    requires
        out.len() <= 3,
    ensures
        out.len() >= 1 ==> out.drop_last().len() + 1 == out.len(),
        out.len() == 1 ==> out.drop_last() =~= Seq::<Action>::empty(),
        out.len() == 2 ==> out.drop_last().drop_last() =~= Seq::<Action>::empty(),
        out.len() == 3 ==> out.drop_last().drop_last().drop_last() =~= Seq::<Action>::empty(),
{
}

proof fn lemma_lifecycle_step(d: Daemon, input: DaemonInput, announced: bool)
    requires
        lifecycle_agrees(announced, d),
    ensures
        ({
            let (d2, out) = d.step_spec(input);
            observe_all(lifecycle(), announced, out) matches Some(w) && lifecycle_agrees(w, d2)
        }),
{
    reveal_with_fuel(observe_all, 4);
    lemma_short_seq(d.step_spec(input).1);
}

proof fn lemma_alternation_step(d: Daemon, input: DaemonInput, last: (bool, bool))
    requires
        alternation_agrees(last, d),
    ensures
        ({
            let (d2, out) = d.step_spec(input);
            observe_all(alternation(), last, out) matches Some(l2) && alternation_agrees(l2, d2)
        }),
{
    reveal_with_fuel(observe_all, 4);
    lemma_short_seq(d.step_spec(input).1);
}

proof fn lemma_cancel_step(d: Daemon, input: DaemonInput, acts: Seq<Action>)
    requires
        cancelled_before(d, acts),
    ensures
        cancelled_before(d.step_spec(input).0, acts + d.step_spec(input).1),
{
    let (d2, out) = d.step_spec(input);
    assert forall|r: u64| #[trigger] cancels(acts + out, r) implies r < d2.run || (r == d2.run
        && !d2.is_active()) by {
        let i = choose|i: int| 0 <= i < (acts + out).len() && (acts + out)[i] == Action::CancelRun(r);
        if i < acts.len() {
            assert((acts + out)[i] == acts[i]);
            assert(cancels(acts, r));
        } else {
            assert((acts + out)[i] == out[i - acts.len()]);
            assert(out[i - acts.len()] == Action::CancelRun(r));
        }
    }
}

/// Alternation: in every sequence of broadcasts the daemon produces from its
/// initial state, each `WatchEvent` carries the opposite idle value of the
/// previous `WatchEvent` for the same key since the latest `WatchStarted`
/// (the first one after `WatchStarted` reports idle).
pub proof fn lemma_alternation(inputs: Seq<DaemonInput>)
    ensures
        observe_all(alternation(), (false, false), run_trace(Daemon::initial(), inputs).1) is Some,
{
    lemma_alternation_trace(inputs);
}

proof fn lemma_alternation_trace(inputs: Seq<DaemonInput>)
    ensures
        observe_all(alternation(), (false, false), run_trace(Daemon::initial(), inputs).1) matches Some(
            l,
        ) && alternation_agrees(l, run_trace(Daemon::initial(), inputs).0),
    decreases inputs.len(),
{
    if inputs.len() > 0 {
        lemma_alternation_trace(inputs.drop_last());
        let prev = run_trace(Daemon::initial(), inputs.drop_last());
        let next = prev.0.step_spec(inputs.last());
        lemma_observe_append(alternation(), (false, false), prev.1, next.1);
        let l = observe_all(alternation(), (false, false), prev.1)->Some_0;
        lemma_alternation_step(prev.0, inputs.last(), l);
    }
}

/// Single run: in every sequence of actions the daemon produces from its
/// initial state, `WatchStarted` is only broadcast when no watch is
/// announced, so a second start is always preceded by `WatchStopped`; and
/// `WatchEvent`s are only broadcast between a `WatchStarted` and the next
/// `WatchStopped`.
pub proof fn lemma_single_run(inputs: Seq<DaemonInput>)
    ensures
        observe_all(lifecycle(), false, run_trace(Daemon::initial(), inputs).1) is Some,
{
    lemma_lifecycle_trace(inputs);
}

proof fn lemma_lifecycle_trace(inputs: Seq<DaemonInput>)
    ensures
        observe_all(lifecycle(), false, run_trace(Daemon::initial(), inputs).1) matches Some(w)
            && lifecycle_agrees(w, run_trace(Daemon::initial(), inputs).0),
    decreases inputs.len(),
{
    if inputs.len() > 0 {
        lemma_lifecycle_trace(inputs.drop_last());
        let prev = run_trace(Daemon::initial(), inputs.drop_last());
        let next = prev.0.step_spec(inputs.last());
        lemma_observe_append(lifecycle(), false, prev.1, next.1);
        let w = observe_all(lifecycle(), false, prev.1)->Some_0;
        lemma_lifecycle_step(prev.0, inputs.last(), w);
    }
}

proof fn lemma_cancel_trace(inputs: Seq<DaemonInput>)
    ensures
        cancelled_before(run_trace(Daemon::initial(), inputs).0, run_trace(Daemon::initial(), inputs).1),
    decreases inputs.len(),
{
    if inputs.len() > 0 {
        lemma_cancel_trace(inputs.drop_last());
        let prev = run_trace(Daemon::initial(), inputs.drop_last());
        lemma_cancel_step(prev.0, inputs.last(), prev.1);
    }
}

/// Cleanup on cancel: once the daemon has cancelled a run, any event of
/// that run, however late it arrives, produces no action at all: in
/// particular nothing is broadcast.
pub proof fn lemma_cleanup_on_cancel(inputs: Seq<DaemonInput>, run: u64, event: MonitorEvent)
    requires
        cancels(run_trace(Daemon::initial(), inputs).1, run),
    ensures
        ({
            let d = run_trace(Daemon::initial(), inputs).0;
            d.step_spec(DaemonInput::Monitor { run, event }) == (d, Seq::<Action>::empty())
        }),
{
    lemma_cancel_trace(inputs);
    let d = run_trace(Daemon::initial(), inputs).0;
    assert(seq![] =~= Seq::<Action>::empty());
}

/// Idempotent stop: `StopWatch` while no run is underway changes nothing
/// and produces no action.
pub proof fn lemma_stop_when_idle(d: Daemon)
    requires
        d.phase is Idle,
    ensures
        d.step_spec(DaemonInput::Client(ClientEvent::Input(ClientInput::StopWatch))) == (
            d,
            Seq::<Action>::empty(),
        ),
{
    assert(seq![] =~= Seq::<Action>::empty());
}

} // verus!
