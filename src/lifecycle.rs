//! The lifecycle loop's half of the protocol with the host service manager:
//! how each lifecycle event reads as a status report, and how control
//! requests from the host become a termination request.
use vstd::prelude::*;
use crate::appstate::AppState;
use crate::termsig::TermSignal;

verus! {

/// Seconds the host is told to allow between two start checkpoints.
pub const START_PENDING_WAIT_SECS: u64 = 10;

/// Seconds the host is told to allow between two stop checkpoints.
pub const STOP_PENDING_WAIT_SECS: u64 = 30;

/// The service states the host distinguishes.
#[derive(PartialEq, Eq, Structural, Clone, Copy, Debug)]
pub enum HostState {
    StartPending,
    Running,
    StopPending,
    Stopped,
}

/// One status report to the host.
#[derive(PartialEq, Eq, Structural, Clone, Copy, Debug)]
pub struct HostStatus {
    pub state: HostState,
    /// Whether the host may send a stop request.
    pub accepts_stop: bool,
    pub checkpoint: u32,
    /// How long the host should wait for the next report, in seconds.
    pub wait_hint_secs: u64,
}

/// The report that stands for a lifecycle event.
pub open spec fn status_of(event: AppState) -> HostStatus {
    match event {
        AppState::Starting(cp) => HostStatus {
            state: HostState::StartPending,
            accepts_stop: false,
            checkpoint: cp,
            wait_hint_secs: START_PENDING_WAIT_SECS,
        },
        AppState::Started => HostStatus {
            state: HostState::Running,
            accepts_stop: true,
            checkpoint: 0,
            wait_hint_secs: 0,
        },
        AppState::Stopping(cp) => HostStatus {
            state: HostState::StopPending,
            accepts_stop: false,
            checkpoint: cp,
            wait_hint_secs: STOP_PENDING_WAIT_SECS,
        },
        AppState::Stopped => HostStatus {
            state: HostState::Stopped,
            accepts_stop: false,
            checkpoint: 0,
            wait_hint_secs: 0,
        },
    }
}

/// The report the host assumes before the first one arrives.
pub fn initial_status() -> (r: HostStatus)
    ensures
        r == (HostStatus {
            state: HostState::StartPending,
            accepts_stop: false,
            checkpoint: 0,
            wait_hint_secs: START_PENDING_WAIT_SECS,
        }),
{
    HostStatus {
        state: HostState::StartPending,
        accepts_stop: false,
        checkpoint: 0,
        wait_hint_secs: START_PENDING_WAIT_SECS,
    }
}

/// The report that stands for a lifecycle event.
pub fn status_for(event: AppState) -> (r: HostStatus)
    ensures
        r == status_of(event),
{
    match event {
        AppState::Starting(cp) => HostStatus {
            state: HostState::StartPending,
            accepts_stop: false,
            checkpoint: cp,
            wait_hint_secs: START_PENDING_WAIT_SECS,
        },
        AppState::Started => HostStatus {
            state: HostState::Running,
            accepts_stop: true,
            checkpoint: 0,
            wait_hint_secs: 0,
        },
        AppState::Stopping(cp) => HostStatus {
            state: HostState::StopPending,
            accepts_stop: false,
            checkpoint: cp,
            wait_hint_secs: STOP_PENDING_WAIT_SECS,
        },
        AppState::Stopped => HostStatus {
            state: HostState::Stopped,
            accepts_stop: false,
            checkpoint: 0,
            wait_hint_secs: 0,
        },
    }
}

/// Whether the lifecycle loop ends after this event.
pub fn is_terminal(event: AppState) -> (r: bool)
    ensures
        r == (event is Stopped),
{
    match event {
        AppState::Stopped => true,
        _ => false,
    }
}

/// The reports the lifecycle loop makes for a stream of events: one per
/// event, in order, up to and including the first `Stopped`.
pub fn reports_until_stopped(events: &Vec<AppState>) -> (r: Vec<HostStatus>)
    ensures
        r@.len() <= events@.len(),
        forall|j: int| 0 <= j < r@.len() ==> r@[j] == status_of(#[trigger] events@[j]),
        forall|j: int| 0 <= j < r@.len() - 1 ==> !(#[trigger] events@[j] is Stopped),
        r@.len() == events@.len() || (r@.len() > 0 && events@[r@.len() - 1] is Stopped),
{
    let mut out: Vec<HostStatus> = Vec::new();
    let mut i: usize = 0;
    while i < events.len()
        invariant
            i <= events@.len(),
            out@.len() == i,
            forall|j: int| 0 <= j < i ==> out@[j] == status_of(#[trigger] events@[j]),
            forall|j: int| 0 <= j < i ==> !(#[trigger] events@[j] is Stopped),
        decreases events@.len() - i,
    {
        let event = events[i];
        out.push(status_for(event));
        i = i + 1;
        if is_terminal(event) {
            return out;
        }
    }
    out
}

/// Control requests the host may deliver.
#[derive(PartialEq, Eq, Structural, Clone, Copy, Debug)]
pub enum ControlCode {
    Stop,
    Interrogate,
    Continue,
    Pause,
    Other,
}

/// The acknowledgment handed back to the host.
#[derive(PartialEq, Eq, Structural, Clone, Copy, Debug)]
pub enum ControlAck {
    NoError,
    NotImplemented,
}

pub open spec fn ack_of(code: ControlCode) -> ControlAck {
    match code {
        ControlCode::Stop => ControlAck::NoError,
        ControlCode::Interrogate => ControlAck::NoError,
        _ => ControlAck::NotImplemented,
    }
}

/// Turns host control requests into termination requests.
pub struct ControlBridge {
    signal: TermSignal,
}

impl ControlBridge {
    /// The termination requests handed to the channel so far.
    pub closed spec fn requests(&self) -> nat {
        self.signal.requests()
    }

    pub fn new(signal: TermSignal) -> (r: ControlBridge)
        ensures
            r.requests() == signal.requests(),
    {
        ControlBridge { signal }
    }

    /// Handles one control request without blocking: a stop request becomes
    /// one termination request; anything else changes nothing.
    pub fn handle(&mut self, code: ControlCode) -> (r: ControlAck)
        ensures
            r == ack_of(code),
            final(self).requests() == old(self).requests() + if code == ControlCode::Stop {
                1nat
            } else {
                0nat
            },
    {
        match code {
            ControlCode::Stop => {
                // A waiting side that is gone has already shut down.
                let _ = self.signal.signal();
                ControlAck::NoError
            },
            ControlCode::Interrogate => ControlAck::NoError,
            _ => ControlAck::NotImplemented,
        }
    }
}

} // verus!
