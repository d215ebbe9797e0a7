//! The std message channels that carry signals and lifecycle events between
//! threads, as the rest of the library sees them.
use std::sync::mpsc::{Receiver, RecvTimeoutError, Sender};
use std::time::Duration;
use vstd::prelude::*;

verus! {

#[verifier::external_type_specification]
#[verifier::external_body]
#[verifier::reject_recursive_types(T)]
pub struct ExSender<T>(Sender<T>);

#[verifier::external_type_specification]
#[verifier::external_body]
#[verifier::reject_recursive_types(T)]
pub struct ExReceiver<T>(Receiver<T>);

/// What one receive with a time limit came back with.
pub enum Delivery<T> {
    Message(T),
    TimedOut,
    Disconnected,
}

/// Relies on std::sync::mpsc::channel: a fresh, connected pair with an
/// unbounded buffer.
#[verifier::external_body]
pub(crate) fn open_channel<T>() -> (Sender<T>, Receiver<T>) {
    std::sync::mpsc::channel()
}

/// A sending end together with the record of every value handed to it.
#[verifier::reject_recursive_types(T)]
pub struct LoggedSender<T> {
    tx: Sender<T>,
    log: Ghost<Seq<T>>,
}

impl<T> LoggedSender<T> {
    /// Every value handed to `send` on this end, oldest first.
    pub closed spec fn log(&self) -> Seq<T> {
        self.log@
    }
}

/// Relies on Sender::send: it hands the value to the channel without
/// blocking, and reports whether the receiving side still existed.
#[verifier::external_body]
pub(crate) fn send_logged<T>(tx: &mut LoggedSender<T>, value: T) -> (delivered: bool)
    ensures
        final(tx).log() == old(tx).log().push(value),
{
    tx.tx.send(value).is_ok()
}

/// A receiving end together with the record of every value taken from it.
#[verifier::reject_recursive_types(T)]
pub struct LoggedReceiver<T> {
    rx: Receiver<T>,
    log: Ghost<Seq<T>>,
}

impl<T> LoggedReceiver<T> {
    /// Every value taken from this end, oldest first.
    pub closed spec fn log(&self) -> Seq<T> {
        self.log@
    }
}

/// Opens a channel; neither end has handed over or taken anything yet.
pub(crate) fn open_logged_channel<T>() -> (r: (LoggedSender<T>, LoggedReceiver<T>))
    ensures
        r.0.log() == Seq::<T>::empty(),
        r.1.log() == Seq::<T>::empty(),
{
    let (tx, rx) = open_channel();
    (LoggedSender { tx, log: Ghost(Seq::empty()) }, LoggedReceiver { rx, log: Ghost(Seq::empty()) })
}

/// Relies on Receiver::recv: blocks until a value arrives and takes it, or
/// reports that every sender is gone and the buffer is empty.
#[verifier::external_body]
pub(crate) fn receive_logged<T>(rx: &mut LoggedReceiver<T>) -> (r: Option<T>)
    ensures
        r is Some ==> final(rx).log() == old(rx).log().push(r->Some_0),
        r is None ==> final(rx).log() == old(rx).log(),
{
    rx.rx.recv().ok()
}

/// Relies on Receiver::recv_timeout with Duration::from_secs: blocks for at
/// most `secs` whole seconds, and takes a value if one arrives.
#[verifier::external_body]
pub(crate) fn receive_logged_within<T>(rx: &mut LoggedReceiver<T>, secs: u64) -> (r: Delivery<T>)
    ensures
        r is Message ==> final(rx).log() == old(rx).log().push(r->Message_0),
        !(r is Message) ==> final(rx).log() == old(rx).log(),
{
    match rx.rx.recv_timeout(Duration::from_secs(secs)) {
        Ok(v) => Delivery::Message(v),
        Err(RecvTimeoutError::Timeout) => Delivery::TimedOut,
        Err(RecvTimeoutError::Disconnected) => Delivery::Disconnected,
    }
}

} // verus!
