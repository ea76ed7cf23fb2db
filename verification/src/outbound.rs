//! The sending end of one client's outbound queue.

use tokio::sync::mpsc::UnboundedSender;
use vstd::prelude::*;
use warp::ws::Message;

verus! {

/// `tokio::sync::mpsc::UnboundedSender`, carried through as an opaque value.
#[verifier::external_type_specification]
#[verifier::external_body]
#[verifier::reject_recursive_types(T)]
pub struct ExUnboundedSender<T>(UnboundedSender<T>);

/// `warp::ws::Message`, carried through as an opaque value.
#[verifier::external_type_specification]
#[verifier::external_body]
pub struct ExMessage(Message);

/// The sending end of the unbounded, ordered queue that one connection drains
/// towards its peer. The registry keeps it; the connection keeps the receiving
/// end and is its only consumer.
pub struct OutboundHandle {
    sender: UnboundedSender<Message>,
}

impl OutboundHandle {
    /// Wraps the sending end of a connection's queue.
    pub fn new(sender: UnboundedSender<Message>) -> (handle: OutboundHandle)
        ensures
            handle.sender() == sender,
    {
        OutboundHandle { sender }
    }

    /// The queue's sending end.
    pub closed spec fn sender(&self) -> UnboundedSender<Message> {
        self.sender
    }

    /// Tries to enqueue `payload` as one text frame, without blocking. `false`
    /// means that the queue no longer takes frames; the frame is then dropped.
    pub(crate) fn offer(&self, payload: &str) -> (accepted: bool) {
        enqueue_text(&self.sender, payload)
    }
}

/// `UnboundedSender::send` on a frame made by `warp::ws::Message::text`.
/// The send never waits. Whether it is accepted depends on whether the
/// receiving end is still open, which the consumer decides, so nothing is
/// claimed of the result.
#[verifier::external_body]
fn enqueue_text(sender: &UnboundedSender<Message>, payload: &str) -> (accepted: bool) {
    sender.send(Message::text(payload)).is_ok()
}

} // verus!
