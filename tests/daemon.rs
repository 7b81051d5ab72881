use wayafknext::{
    Action, Broadcast, ClientEvent, ClientInput, Daemon, DaemonInput, MonitorEvent, Phase,
    WatchEvent,
};

fn client(input: ClientInput) -> DaemonInput {
    DaemonInput::Client(ClientEvent::Input(input))
}

fn event(run: u64, e: WatchEvent) -> DaemonInput {
    DaemonInput::Monitor { run, event: MonitorEvent::WatchEvent(e) }
}

fn sent(actions: &[Action]) -> Vec<Broadcast> {
    actions
        .iter()
        .filter_map(|a| match a {
            Action::Send(b) => Some(*b),
            _ => None,
        })
        .collect()
}

fn start(d: &mut Daemon, status_mins: u64, notifs_mins: u64) -> (u64, Vec<Action>) {
    let mut acts = d.step(client(ClientInput::StartWatch { status_mins, notifs_mins }));
    let run = match acts.last() {
        Some(Action::StartRun { run, .. }) => *run,
        other => panic!("no run started: {:?}", other),
    };
    acts.extend(d.step(DaemonInput::RunStarted(run)));
    (run, acts)
}

/// The broadcasts of the end-to-end scenario, in order.
fn scenario() -> Vec<Broadcast> {
    let mut d = Daemon::new();
    let mut out = Vec::new();
    let (run, acts) = start(&mut d, 1, 5);
    assert_eq!(
        acts[0],
        Action::StartRun { run, status_mins: 1, notifs_mins: 5 }
    );
    out.extend(sent(&acts));
    out.extend(sent(&d.step(event(run, WatchEvent::StatusIdle(true)))));
    out.extend(sent(&d.step(event(run, WatchEvent::StatusIdle(false)))));
    let acts = d.step(client(ClientInput::StopWatch));
    assert_eq!(acts[0], Action::CancelRun(run));
    out.extend(sent(&acts));
    out
}

#[test]
fn end_to_end_start_idle_resume_stop() {
    assert_eq!(
        scenario(),
        vec![
            Broadcast::WatchStarted { status_mins: 1, notifs_mins: 5 },
            Broadcast::WatchEvent(WatchEvent::StatusIdle(true)),
            Broadcast::WatchEvent(WatchEvent::StatusIdle(false)),
            Broadcast::WatchStopped,
        ]
    );
}

#[test]
fn two_clients_see_the_same_broadcasts() {
    // Every client is sent the one sequence the daemon produces.
    let first = scenario();
    let second = scenario();
    assert_eq!(first, second);
    assert_eq!(first.len(), 4);
}

#[test]
fn stop_while_idle_does_nothing() {
    let mut d = Daemon::new();
    let before = d;
    assert!(d.step(client(ClientInput::StopWatch)).is_empty());
    assert_eq!(d, before);
}

#[test]
fn second_start_stops_the_first_run_before_starting() {
    let mut d = Daemon::new();
    let (first, _) = start(&mut d, 1, 5);
    let (second, acts) = start(&mut d, 2, 3);
    assert_ne!(first, second);
    assert_eq!(
        acts,
        vec![
            Action::CancelRun(first),
            Action::Send(Broadcast::WatchStopped),
            Action::StartRun { run: second, status_mins: 2, notifs_mins: 3 },
            Action::Send(Broadcast::WatchStarted { status_mins: 2, notifs_mins: 3 }),
        ]
    );
}

#[test]
fn late_events_of_a_cancelled_run_are_dropped() {
    let mut d = Daemon::new();
    let (first, _) = start(&mut d, 1, 5);
    let (second, _) = start(&mut d, 1, 5);
    assert!(d.step(event(first, WatchEvent::StatusIdle(true))).is_empty());
    assert!(d
        .step(DaemonInput::Monitor { run: first, event: MonitorEvent::Error("late".to_string()) })
        .is_empty());
    assert_eq!(
        sent(&d.step(event(second, WatchEvent::NotifsIdle(true)))),
        vec![Broadcast::WatchEvent(WatchEvent::NotifsIdle(true))]
    );
    d.step(client(ClientInput::StopWatch));
    assert!(d.step(event(second, WatchEvent::NotifsIdle(false))).is_empty());
}

#[test]
fn repeated_idle_values_are_not_relayed() {
    let mut d = Daemon::new();
    let (run, _) = start(&mut d, 1, 5);
    // A resume before any idle, and a second idle from another seat.
    assert!(d.step(event(run, WatchEvent::StatusIdle(false))).is_empty());
    assert_eq!(d.step(event(run, WatchEvent::StatusIdle(true))).len(), 1);
    assert!(d.step(event(run, WatchEvent::StatusIdle(true))).is_empty());
    assert_eq!(d.step(event(run, WatchEvent::NotifsIdle(true))).len(), 1);
    assert_eq!(d.step(event(run, WatchEvent::StatusIdle(false))).len(), 1);
    assert!(d.step(event(run, WatchEvent::StatusIdle(false))).is_empty());
}

#[test]
fn events_before_the_run_started_are_dropped() {
    let mut d = Daemon::new();
    let acts = d.step(client(ClientInput::StartWatch { status_mins: 1, notifs_mins: 1 }));
    assert_eq!(acts, vec![Action::StartRun { run: 1, status_mins: 1, notifs_mins: 1 }]);
    assert!(matches!(d.phase, Phase::Starting { .. }));
    assert!(d.step(event(1, WatchEvent::StatusIdle(true))).is_empty());
}

#[test]
fn failed_start_returns_to_idle_without_broadcast() {
    let mut d = Daemon::new();
    d.step(client(ClientInput::StartWatch { status_mins: 1, notifs_mins: 1 }));
    let acts = d.step(DaemonInput::Monitor {
        run: 1,
        event: MonitorEvent::Error("no service".to_string()),
    });
    assert_eq!(acts, vec![Action::CancelRun(1)]);
    assert_eq!(d.phase, Phase::Idle);
    assert!(d.step(DaemonInput::RunStarted(1)).is_empty());
}

#[test]
fn run_failure_stops_the_watch() {
    let mut d = Daemon::new();
    let (run, _) = start(&mut d, 1, 1);
    let acts = d.step(DaemonInput::Monitor { run, event: MonitorEvent::Error("bus".to_string()) });
    assert_eq!(acts, vec![Action::CancelRun(run), Action::Send(Broadcast::WatchStopped)]);
    assert_eq!(d.phase, Phase::Idle);
}

#[test]
fn client_error_leaves_the_daemon_alone() {
    let mut d = Daemon::new();
    let (_, _) = start(&mut d, 1, 1);
    let before = d;
    assert!(d.step(DaemonInput::Client(ClientEvent::Error("bad json".to_string()))).is_empty());
    assert_eq!(d, before);
}

#[test]
fn quit_cancels_and_shuts_down() {
    let mut d = Daemon::new();
    let (run, _) = start(&mut d, 1, 1);
    assert_eq!(d.step(client(ClientInput::Quit)), vec![Action::CancelRun(run), Action::Shutdown]);
    assert_eq!(d.phase, Phase::Terminated);
    assert!(d.step(client(ClientInput::StartWatch { status_mins: 1, notifs_mins: 1 })).is_empty());
    let mut idle = Daemon::new();
    assert_eq!(idle.step(DaemonInput::Terminate), vec![Action::Shutdown]);
}

#[test]
fn exhausted_run_identifiers_start_nothing() {
    let mut d = Daemon { run: u64::MAX, phase: Phase::Watching, status_idle: false, notifs_idle: false };
    let acts = d.step(client(ClientInput::StartWatch { status_mins: 1, notifs_mins: 1 }));
    assert_eq!(acts, vec![Action::CancelRun(u64::MAX), Action::Send(Broadcast::WatchStopped)]);
    assert_eq!(d.phase, Phase::Idle);
}
