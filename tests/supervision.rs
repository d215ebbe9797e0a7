use std::time::{Duration, Instant};

use verboten::appstate::{state_channel, AppState, AppStateReceiver};
use verboten::lifecycle::{reports_until_stopped, status_for, HostState, HostStatus};
use verboten::supervisor::{Action, Input, KillOutcome, Liveness, Supervisor};
use verboten::termsig::{term_channel, Reason, TermWait};

fn drain(rx: &mut AppStateReceiver) -> Vec<AppState> {
    let mut out = Vec::new();
    while let Some(e) = rx.recv() {
        out.push(e);
    }
    out
}

/// Feeds the inputs in order and returns every action and every event.
fn feed(inputs: &[Input]) -> (Vec<Action>, Vec<AppState>) {
    let (tx, mut rx) = state_channel();
    let (mut sup, first) = Supervisor::start(tx);
    let mut actions = vec![first];
    for i in inputs {
        actions.push(sup.step(*i));
    }
    drop(sup.into_sender());
    (actions, drain(&mut rx))
}

/// Runs the worker's loop against a real termination channel, with a
/// child that never exits on its own and is killed on request.
fn drive(wait: &mut TermWait, max_ticks: usize) -> (Vec<Action>, Vec<AppState>) {
    let (tx, mut rx) = state_channel();
    let (mut sup, mut action) = Supervisor::start(tx);
    let mut actions = vec![action];
    let mut ticks = 0;
    while action != Action::Finish {
        let input = match action {
            Action::Spawn => Input::Spawned,
            Action::Wait => {
                ticks += 1;
                assert!(ticks <= max_ticks, "the run did not stop");
                Input::Waited(wait.wait())
            }
            Action::PollExit => Input::Polled(Liveness::StillRunning),
            Action::Kill => Input::KillDone(KillOutcome::Killed),
            Action::Finish => unreachable!(),
        };
        action = sup.step(input);
        actions.push(action);
    }
    drop(sup.into_sender());
    (actions, drain(&mut rx))
}

#[test]
fn scenario_plain_config_stop_request() {
    let (actions, events) = feed(&[
        Input::Spawned,
        Input::Waited(Reason::Timeout),
        Input::Polled(Liveness::StillRunning),
        Input::Waited(Reason::Die),
        Input::KillDone(KillOutcome::Killed),
    ]);
    assert_eq!(
        events,
        vec![
            AppState::Starting(1),
            AppState::Starting(2),
            AppState::Started,
            AppState::Stopping(0),
            AppState::Stopped
        ]
    );
    assert_eq!(
        actions,
        vec![Action::Spawn, Action::Wait, Action::PollExit, Action::Wait, Action::Kill, Action::Finish]
    );
    let reports = reports_until_stopped(&events);
    let states: Vec<HostState> = reports.iter().map(|r| r.state).collect();
    assert_eq!(
        states,
        vec![
            HostState::StartPending,
            HostState::StartPending,
            HostState::Running,
            HostState::StopPending,
            HostState::Stopped
        ]
    );
    assert_eq!(reports[0].checkpoint, 1);
    assert_eq!(reports[1].checkpoint, 2);
    assert_eq!(reports[3].checkpoint, 0);
    assert!(reports[2].accepts_stop);
}

#[test]
fn spawn_failure_still_stops() {
    let (actions, events) = feed(&[Input::SpawnFailed, Input::Waited(Reason::Die)]);
    assert_eq!(
        events,
        vec![AppState::Starting(1), AppState::Starting(2), AppState::Stopping(0), AppState::Stopped]
    );
    assert!(!events.contains(&AppState::Started));
    assert_eq!(actions, vec![Action::Spawn, Action::Finish, Action::Finish]);
}

#[test]
fn self_exit_never_kills() {
    let (actions, events) = feed(&[
        Input::Spawned,
        Input::Waited(Reason::Timeout),
        Input::Polled(Liveness::Exited),
    ]);
    assert!(!actions.contains(&Action::Kill));
    assert_eq!(actions.last(), Some(&Action::Finish));
    assert_eq!(
        events,
        vec![
            AppState::Starting(1),
            AppState::Starting(2),
            AppState::Started,
            AppState::Stopping(0),
            AppState::Stopped
        ]
    );
}

#[test]
fn failed_liveness_query_terminates() {
    let (actions, events) = feed(&[
        Input::Spawned,
        Input::Waited(Reason::Timeout),
        Input::Polled(Liveness::QueryFailed),
        Input::KillDone(KillOutcome::Failed),
    ]);
    assert_eq!(actions[3], Action::Kill);
    assert_eq!(events.last(), Some(&AppState::Stopped));
    assert_eq!(events.len(), 5);
}

#[test]
fn kill_of_exited_child_ends_normally() {
    let base = [Input::Spawned, Input::Waited(Reason::Die)];
    let (_, killed) = feed(&[base[0], base[1], Input::KillDone(KillOutcome::Killed)]);
    let (_, already) = feed(&[base[0], base[1], Input::KillDone(KillOutcome::AlreadyExited)]);
    let (_, failed) = feed(&[base[0], base[1], Input::KillDone(KillOutcome::Failed)]);
    assert_eq!(killed, already);
    assert_eq!(killed, failed);
    let last = reports_until_stopped(&already).pop().unwrap();
    assert_eq!(last.state, HostState::Stopped);
}

#[test]
fn stop_request_seen_within_one_tick() {
    let (mut signal, mut wait) = term_channel();
    let (tx, mut rx) = state_channel();
    let (mut sup, mut action) = Supervisor::start(tx);
    let mut polls = 0;
    let mut signalled_at: Option<Instant> = None;
    let mut stopping_after: Option<Duration> = None;
    while action != Action::Finish {
        let input = match action {
            Action::Spawn => Input::Spawned,
            Action::Wait => Input::Waited(wait.wait()),
            Action::PollExit => {
                polls += 1;
                assert!(polls <= 3, "the request was not seen");
                if polls == 1 {
                    // The request arrives while the child runs.
                    assert!(signal.signal());
                    signalled_at = Some(Instant::now());
                }
                Input::Polled(Liveness::StillRunning)
            }
            Action::Kill => {
                stopping_after = signalled_at.map(|t| t.elapsed());
                Input::KillDone(KillOutcome::Killed)
            }
            Action::Finish => unreachable!(),
        };
        action = sup.step(input);
    }
    drop(sup.into_sender());
    assert_eq!(polls, 1);
    assert!(stopping_after.unwrap() <= Duration::from_millis(1500));
    let events = drain(&mut rx);
    assert_eq!(events[3], AppState::Stopping(0));
    assert_eq!(events.last(), Some(&AppState::Stopped));
}

#[test]
fn dropped_requester_still_stops() {
    let (signal, mut wait) = term_channel();
    drop(signal);
    assert_eq!(wait.wait(), Reason::Error);
    let (actions, events) = drive(&mut wait, 3);
    assert!(actions.contains(&Action::Kill));
    assert_eq!(
        events,
        vec![
            AppState::Starting(1),
            AppState::Starting(2),
            AppState::Started,
            AppState::Stopping(0),
            AppState::Stopped
        ]
    );
}

#[test]
fn second_request_same_events() {
    let (mut signal, mut wait) = term_channel();
    assert!(signal.signal());
    let (_, once) = drive(&mut wait, 3);

    let (mut signal, mut wait) = term_channel();
    assert!(signal.signal());
    assert!(signal.signal());
    let (_, twice) = drive(&mut wait, 3);
    assert_eq!(once, twice);

    let (_, fed_once) = feed(&[Input::Spawned, Input::Waited(Reason::Die), Input::KillDone(KillOutcome::Killed)]);
    let (_, fed_twice) = feed(&[
        Input::Spawned,
        Input::Waited(Reason::Die),
        Input::Waited(Reason::Die),
        Input::KillDone(KillOutcome::Killed),
    ]);
    assert_eq!(fed_once, fed_twice);
}

#[test]
fn unexpected_input_repeats_pending_action() {
    let (tx, _rx) = state_channel();
    let (mut sup, _) = Supervisor::start(tx);
    assert_eq!(sup.step(Input::Waited(Reason::Die)), Action::Spawn);
    assert_eq!(sup.step(Input::Spawned), Action::Wait);
    assert_eq!(sup.step(Input::Polled(Liveness::Exited)), Action::Wait);
    assert!(!sup.is_done());
    assert_eq!(sup.step(Input::Waited(Reason::Die)), Action::Kill);
    assert_eq!(sup.step(Input::Spawned), Action::Kill);
    assert_eq!(sup.step(Input::KillDone(KillOutcome::Killed)), Action::Finish);
    assert!(sup.is_done());
}

#[test]
fn wait_times_out_after_one_tick() {
    let (_signal, mut wait) = term_channel();
    let start = Instant::now();
    assert_eq!(wait.wait(), Reason::Timeout);
    let spent = start.elapsed();
    assert!(spent >= Duration::from_millis(900));
    assert!(spent <= Duration::from_millis(1500));
}

#[test]
fn signal_to_gone_waiter_is_reported() {
    let (mut signal, wait) = term_channel();
    drop(wait);
    assert!(!signal.signal());
}

#[test]
fn state_sender_checkpoints() {
    let (mut tx, mut rx) = state_channel();
    tx.starting(None);
    tx.starting(Some(7));
    tx.started();
    tx.stopping(None);
    tx.stopping(Some(3));
    tx.stopped();
    drop(tx);
    assert_eq!(
        drain(&mut rx),
        vec![
            AppState::Starting(0),
            AppState::Starting(7),
            AppState::Started,
            AppState::Stopping(0),
            AppState::Stopping(3),
            AppState::Stopped
        ]
    );
    assert_eq!(rx.recv(), None);
}

#[test]
fn status_reports_per_event() {
    assert_eq!(
        status_for(AppState::Starting(2)),
        HostStatus { state: HostState::StartPending, accepts_stop: false, checkpoint: 2, wait_hint_secs: 10 }
    );
    assert_eq!(
        status_for(AppState::Started),
        HostStatus { state: HostState::Running, accepts_stop: true, checkpoint: 0, wait_hint_secs: 0 }
    );
    assert_eq!(
        status_for(AppState::Stopping(4)),
        HostStatus { state: HostState::StopPending, accepts_stop: false, checkpoint: 4, wait_hint_secs: 30 }
    );
    assert_eq!(
        status_for(AppState::Stopped),
        HostStatus { state: HostState::Stopped, accepts_stop: false, checkpoint: 0, wait_hint_secs: 0 }
    );
}

#[test]
fn reports_end_at_first_stopped() {
    let events = vec![AppState::Starting(1), AppState::Stopped, AppState::Started];
    let reports = reports_until_stopped(&events);
    assert_eq!(reports.len(), 2);
    assert_eq!(reports[1].state, HostState::Stopped);
    assert!(reports_until_stopped(&Vec::new()).is_empty());
}
