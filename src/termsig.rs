//! The termination channel: one request to stop, observed by polling with a
//! fixed tick.
use vstd::prelude::*;
use crate::channel::{
    open_logged_channel, receive_logged_within, send_logged, Delivery, LoggedReceiver, LoggedSender,
};

verus! {

/// Seconds that one poll of the termination channel may block. The same
/// span is the interval between two liveness checks of the child.
pub const TICK_SECS: u64 = 1;

/// The sending end, held by the control bridge.
pub struct TermSignal {
    tx: LoggedSender<()>,
}

impl TermSignal {
    /// The number of termination requests handed to the channel so far.
    pub closed spec fn requests(&self) -> nat {
        self.tx.log().len()
    }

    /// Hands one termination request to the channel. Returns false when the
    /// waiting side is already gone, which means the service has been torn
    /// down; callers may ignore it.
    pub fn signal(&mut self) -> (delivered: bool)
        ensures
            final(self).requests() == old(self).requests() + 1,
    {
        send_logged(&mut self.tx, ())
    }
}

/// The waiting end, held by the supervisor worker.
pub struct TermWait {
    rx: LoggedReceiver<()>,
}

/// Outcome of one poll of the termination channel.
#[derive(PartialEq, Eq, Structural, Clone, Copy, Debug)]
pub enum Reason {
    /// No request arrived within one tick.
    Timeout,
    /// Termination was requested.
    Die,
    /// The sending end is gone without a request.
    Error,
}

/// How a receive outcome reads as a poll outcome.
pub open spec fn reason_of(d: Delivery<()>) -> Reason {
    match d {
        Delivery::Message(_) => Reason::Die,
        Delivery::TimedOut => Reason::Timeout,
        Delivery::Disconnected => Reason::Error,
    }
}

/// Reads a receive outcome as a poll outcome.
pub fn reason_from(d: Delivery<()>) -> (r: Reason)
    ensures
        r == reason_of(d),
{
    match d {
        Delivery::Message(_) => Reason::Die,
        Delivery::TimedOut => Reason::Timeout,
        Delivery::Disconnected => Reason::Error,
    }
}

impl TermWait {
    /// The number of termination requests taken from the channel so far.
    pub closed spec fn seen(&self) -> nat {
        self.rx.log().len()
    }

    /// Waits at most one tick for a termination request. Which outcome comes
    /// back depends on the other thread and on time; a request that is
    /// reported has been taken from the channel, and nothing else has.
    pub fn wait(&mut self) -> (r: Reason)
        ensures
            r == Reason::Die ==> final(self).seen() == old(self).seen() + 1,
            r != Reason::Die ==> final(self).seen() == old(self).seen(),
    {
        let d = receive_logged_within(&mut self.rx, TICK_SECS);
        reason_from(d)
    }
}

/// Creates a connected pair: the signalling end and the waiting end.
pub fn term_channel() -> (r: (TermSignal, TermWait))
    ensures
        r.0.requests() == 0,
        r.1.seen() == 0,
{
    let (tx, rx) = open_logged_channel();
    (TermSignal { tx }, TermWait { rx })
}

} // verus!
