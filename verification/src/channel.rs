//! The channels between the background tasks and the consumer.
//!
//! Sightings and updates travel over bounded tokio channels, the answer to
//! a connection attempt and the stop signals over one-shot channels. The
//! consumer never waits: it asks each channel whether something is there.
//! What a channel answers is decided by another task, so nothing is known
//! of an answer beforehand; the consumer's rules say what follows from
//! each.

use vstd::prelude::*;

verus! {

/// Capacity of the channels that carry sightings and updates. It is sized
/// generously: a full channel holds the sending task up rather than lose
/// an item.
pub const CHANNEL_CAPACITY: usize = 1024;

/// `tokio::sync::mpsc::Sender`, the sending half of a bounded channel.
/// It is opaque here.
#[verifier::external_type_specification]
#[verifier::external_body]
#[verifier::reject_recursive_types(T)]
pub struct ExSender<T>(tokio::sync::mpsc::Sender<T>);

/// `tokio::sync::mpsc::Receiver`, the receiving half of a bounded channel.
/// It is opaque here.
#[verifier::external_type_specification]
#[verifier::external_body]
#[verifier::reject_recursive_types(T)]
pub struct ExReceiver<T>(tokio::sync::mpsc::Receiver<T>);

/// `tokio::sync::oneshot::Sender`, the sending half of a channel for one
/// value. It is opaque here.
#[verifier::external_type_specification]
#[verifier::external_body]
#[verifier::reject_recursive_types(T)]
pub struct ExOnceSender<T>(tokio::sync::oneshot::Sender<T>);

/// `tokio::sync::oneshot::Receiver`, the receiving half of a channel for
/// one value. It is opaque here.
#[verifier::external_type_specification]
#[verifier::external_body]
#[verifier::reject_recursive_types(T)]
pub struct ExOnceReceiver<T>(tokio::sync::oneshot::Receiver<T>);

/// `tokio::sync::oneshot::error::RecvError`, which a one-shot receiver
/// yields when it is awaited in vain. The library never awaits; the type
/// is named because the receiver's own declaration mentions it.
#[verifier::external_type_specification]
#[verifier::external_body]
pub struct ExOnceRecvError(tokio::sync::oneshot::error::RecvError);

/// What a channel answers when asked without waiting.
#[derive(Debug, PartialEq, Eq)]
pub enum Polled<T> {
    /// The next item.
    Item(T),
    /// Nothing is there yet, but the sending half is alive.
    Empty,
    /// Nothing is there and nothing will come: the sending half is gone.
    Closed,
}

/// Calls `tokio::sync::mpsc::channel`, which makes a channel that holds up
/// to `capacity` items. It panics on a capacity of zero and on one above
/// an eighth of `usize::MAX`, so neither is let through. The two halves
/// are opaque: nothing is claimed of them.
#[verifier::external_body]
pub(crate) fn bounded<T>(capacity: usize) -> (ends: (
    tokio::sync::mpsc::Sender<T>,
    tokio::sync::mpsc::Receiver<T>,
))
    requires
        0 < capacity <= usize::MAX / 8,
{
    tokio::sync::mpsc::channel(capacity)
}

/// Calls `tokio::sync::oneshot::channel`, which makes a channel for one
/// value. The two halves are opaque: nothing is claimed of them.
#[verifier::external_body]
pub(crate) fn once<T>() -> (ends: (
    tokio::sync::oneshot::Sender<T>,
    tokio::sync::oneshot::Receiver<T>,
)) {
    tokio::sync::oneshot::channel()
}

/// Calls `tokio::sync::mpsc::Receiver::try_recv` and tells its three
/// answers apart. Nothing is claimed of which answer comes: that lies with
/// the sending tasks.
#[verifier::external_body]
pub(crate) fn poll<T>(rx: &mut tokio::sync::mpsc::Receiver<T>) -> (polled: Polled<T>) {
    match rx.try_recv() {
        Ok(item) => Polled::Item(item),
        Err(tokio::sync::mpsc::error::TryRecvError::Empty) => Polled::Empty,
        Err(tokio::sync::mpsc::error::TryRecvError::Disconnected) => Polled::Closed,
    }
}

/// Calls `tokio::sync::oneshot::Receiver::try_recv` and tells its three
/// answers apart. Nothing is claimed of which answer comes: that lies with
/// the sending task.
#[verifier::external_body]
pub(crate) fn poll_once<T>(rx: &mut tokio::sync::oneshot::Receiver<T>) -> (polled: Polled<T>) {
    match rx.try_recv() {
        Ok(item) => Polled::Item(item),
        Err(tokio::sync::oneshot::error::TryRecvError::Empty) => Polled::Empty,
        Err(tokio::sync::oneshot::error::TryRecvError::Closed) => Polled::Closed,
    }
}

/// Calls `tokio::sync::oneshot::Sender::send`, which never waits. Whether
/// the value is taken lies with the receiving task; a value that is not
/// taken comes back as it was given.
#[verifier::external_body]
pub(crate) fn send_once<T>(tx: tokio::sync::oneshot::Sender<T>, value: T) -> (r: Result<(), T>)
    ensures
        r matches Err(returned) ==> returned == value,
{
    tx.send(value)
}

} // verus!
