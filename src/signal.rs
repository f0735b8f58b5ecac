//! The channels between a controller and its worker, through async_channel.

use vstd::prelude::*;

verus! {

/// async_channel's sending end, carried opaque.
#[verifier::external_type_specification]
#[verifier::external_body]
#[verifier::reject_recursive_types(T)]
pub struct ExSender<T>(async_channel::Sender<T>);

/// async_channel's receiving end, carried opaque.
#[verifier::external_type_specification]
#[verifier::external_body]
#[verifier::reject_recursive_types(T)]
pub struct ExReceiver<T>(async_channel::Receiver<T>);

/// Relies on async_channel::bounded with capacity one, which does not panic.
#[verifier::external_body]
pub(crate) fn stop_channel() -> (async_channel::Sender<()>, async_channel::Receiver<()>) {
    async_channel::bounded(1)
}

/// Relies on async_channel::Sender::close; whether this call closed the channel
/// is not needed.
#[verifier::external_body]
pub(crate) fn close_stop(s: &async_channel::Sender<()>) {
    s.close();
}

/// What a poll of the stop channel found.
#[derive(PartialEq, Eq, Structural, Clone, Copy, Debug)]
pub enum StopPoll {
    /// No message, and the sender is still there.
    Empty,
    /// A stop message.
    Requested,
    /// No message, and the sender is gone.
    Disconnected,
}

/// Relies on async_channel::Receiver::try_recv, which does not block: a
/// message, an empty open channel, or an empty closed one.
#[verifier::external_body]
pub(crate) fn poll_stop(r: &async_channel::Receiver<()>) -> (p: StopPoll) {
    match r.try_recv() {
        Ok(()) => StopPoll::Requested,
        Err(async_channel::TryRecvError::Empty) => StopPoll::Empty,
        Err(async_channel::TryRecvError::Closed) => StopPoll::Disconnected,
    }
}

/// Relies on async_channel::Sender::send_blocking: blocks while the channel is
/// full; `true` when the message was sent, `false` when the channel is closed.
#[verifier::external_body]
pub(crate) fn send_signal<T>(s: &async_channel::Sender<T>, msg: T) -> (sent: bool) {
    s.send_blocking(msg).is_ok()
}

/// Relies on async_channel::Receiver::recv_blocking: blocks while the channel
/// is empty and open; `true` when a message came, `false` when the channel is
/// closed and empty.
#[verifier::external_body]
pub(crate) fn recv_signal(r: &async_channel::Receiver<u8>) -> (received: bool) {
    r.recv_blocking().is_ok()
}

} // verus!
