//! The status channel: the ordered stream of lifecycle events from the
//! supervisor worker to the lifecycle loop.
use vstd::prelude::*;
use crate::channel::{open_logged_channel, receive_logged, send_logged, LoggedReceiver, LoggedSender};

verus! {

/// States that can be reported back to a service subsystem.
#[derive(PartialEq, Eq, Structural, Clone, Copy, Debug)]
pub enum AppState {
    Starting(u32),
    Started,
    Stopping(u32),
    Stopped,
}

/// The producing end.
pub struct AppStateSender {
    tx: LoggedSender<AppState>,
}

impl AppStateSender {
    /// The events sent through this end so far, oldest first.
    pub closed spec fn sent(&self) -> Seq<AppState> {
        self.tx.log()
    }

    fn emit(&mut self, event: AppState)
        ensures
            final(self).sent() == old(self).sent().push(event),
    {
        // A receiver that is gone means the service is already torn down:
        // nothing is left to inform.
        let _ = send_logged(&mut self.tx, event);
    }

    /// Reports a start checkpoint; no checkpoint stands for checkpoint 0.
    pub fn starting(&mut self, checkpoint: Option<u32>)
        ensures
            final(self).sent() == old(self).sent().push(
                AppState::Starting(
                    match checkpoint {
                        Some(cp) => cp,
                        None => 0u32,
                    },
                ),
            ),
    {
        match checkpoint {
            Some(cp) => self.emit(AppState::Starting(cp)),
            None => self.emit(AppState::Starting(0)),
        }
    }

    /// Reports that the supervised process is up.
    pub fn started(&mut self)
        ensures
            final(self).sent() == old(self).sent().push(AppState::Started),
    {
        self.emit(AppState::Started);
    }

    /// Reports a shutdown checkpoint; no checkpoint stands for checkpoint 0.
    pub fn stopping(&mut self, checkpoint: Option<u32>)
        ensures
            final(self).sent() == old(self).sent().push(
                AppState::Stopping(
                    match checkpoint {
                        Some(cp) => cp,
                        None => 0u32,
                    },
                ),
            ),
    {
        match checkpoint {
            Some(cp) => self.emit(AppState::Stopping(cp)),
            None => self.emit(AppState::Stopping(0)),
        }
    }

    /// Reports that shutdown is complete. This is the last event of a run.
    pub fn stopped(&mut self)
        ensures
            final(self).sent() == old(self).sent().push(AppState::Stopped),
    {
        self.emit(AppState::Stopped);
    }
}

/// The consuming end.
pub struct AppStateReceiver {
    rx: LoggedReceiver<AppState>,
}

impl AppStateReceiver {
    /// The events taken from this end so far, oldest first.
    pub closed spec fn received(&self) -> Seq<AppState> {
        self.rx.log()
    }

    /// Blocks for the next event and takes it. `None` means that the
    /// producing end is gone and every event it sent has been taken.
    pub fn recv(&mut self) -> (r: Option<AppState>)
        ensures
            r is Some ==> final(self).received() == old(self).received().push(r->Some_0),
            r is None ==> final(self).received() == old(self).received(),
    {
        receive_logged(&mut self.rx)
    }
}

/// Creates a connected pair; nothing has been sent yet.
pub fn state_channel() -> (r: (AppStateSender, AppStateReceiver))
    ensures
        r.0.sent() == Seq::<AppState>::empty(),
        r.1.received() == Seq::<AppState>::empty(),
{
    let (tx, rx) = open_logged_channel();
    (AppStateSender { tx }, AppStateReceiver { rx })
}

} // verus!
