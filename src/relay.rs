//! The relay channel: an ordered hand-off of frames from the capture side to
//! the sender side, which may run on other threads.

use vstd::prelude::*;
use crate::video::FrameBuffer;

verus! {

#[verifier::external_type_specification]
#[verifier::external_body]
#[verifier::reject_recursive_types(T)]
pub struct ExChannelSender<T>(crossbeam_channel::Sender<T>);

#[verifier::external_type_specification]
#[verifier::external_body]
#[verifier::reject_recursive_types(T)]
pub struct ExChannelReceiver<T>(crossbeam_channel::Receiver<T>);

/// The other end of the relay channel is gone: no frame will pass again.
#[derive(Debug, Clone, Copy, PartialEq, Eq, Structural)]
pub struct Disconnected;

/// The capture side's end of the relay channel.
pub struct RelaySender {
    tx: crossbeam_channel::Sender<FrameBuffer>,
}

/// The sender side's end of the relay channel.
pub struct RelayReceiver {
    rx: crossbeam_channel::Receiver<FrameBuffer>,
}

/// Relies on crossbeam_channel::unbounded: a new channel with no capacity
/// limit; it cannot fail.
#[verifier::external_body]
fn open_unbounded() -> (r: (crossbeam_channel::Sender<FrameBuffer>, crossbeam_channel::Receiver<FrameBuffer>)) {
    crossbeam_channel::unbounded()
}

/// Relies on crossbeam_channel::Sender::send: it either queues the message
/// or, when every receiver is gone, hands the message back in its error.
#[verifier::external_body]
fn channel_send(tx: &crossbeam_channel::Sender<FrameBuffer>, frame: FrameBuffer) -> (r: Result<(), FrameBuffer>)
    ensures
        r matches Err(back) ==> back == frame,
{
    match tx.send(frame) {
        Ok(()) => Ok(()),
        Err(crossbeam_channel::SendError(back)) => Err(back),
    }
}

/// Relies on crossbeam_channel::Receiver::recv: blocks for the next message,
/// or fails once the channel is empty and every sender is gone.
#[verifier::external_body]
fn channel_recv(rx: &crossbeam_channel::Receiver<FrameBuffer>) -> (r: Option<FrameBuffer>) {
    rx.recv().ok()
}

/// A fresh relay channel with no capacity limit.
pub fn relay_channel() -> (RelaySender, RelayReceiver) {
    let (tx, rx) = open_unbounded();
    (RelaySender { tx }, RelayReceiver { rx })
}

impl RelaySender {
    /// Queues `frame` for the sender side. When the receiving end is gone the
    /// frame is lost and `Disconnected` comes back.
    pub fn send(&self, frame: FrameBuffer) -> Result<(), Disconnected> {
        match channel_send(&self.tx, frame) {
            Ok(()) => Ok(()),
            Err(_lost) => Err(Disconnected),
        }
    }
}

impl RelayReceiver {
    /// Blocks for the next frame in the order it was queued; `Disconnected`
    /// once the channel is drained and the capture side is gone.
    pub fn receive(&self) -> Result<FrameBuffer, Disconnected> {
        match channel_recv(&self.rx) {
            Some(frame) => Ok(frame),
            None => Err(Disconnected),
        }
    }
}

} // verus!
