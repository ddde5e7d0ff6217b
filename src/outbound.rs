//! A sink session's outbound queue, with the record of every frame it accepted.

use vstd::prelude::*;
use crate::protocol::RelayMessage;
use tokio::sync::mpsc::UnboundedSender;

verus! {

/// Relies on tokio's `mpsc::UnboundedSender::send`: queues `frame` unless the
/// receiving end has gone, and says whether it was queued.
#[verifier::external_body]
fn enqueue(tx: &UnboundedSender<RelayMessage>, frame: RelayMessage) -> bool {
    tx.send(frame).is_ok()
}

/// The sending end of a session's outbound queue. Every frame goes out through
/// `push`, which records it when the queue accepts it.
pub struct Outbound {
    tx: UnboundedSender<RelayMessage>,
    sent: Ghost<Seq<RelayMessage>>,
}

impl Outbound {
    /// The frames this queue has accepted, in order.
    pub closed spec fn sent(&self) -> Seq<RelayMessage> {
        self.sent@
    }

    /// A queue on `tx` that has accepted nothing yet.
    pub fn new(tx: UnboundedSender<RelayMessage>) -> (r: Self)
        ensures
            r.sent() == Seq::<RelayMessage>::empty(),
    {
        Outbound { tx, sent: Ghost(Seq::empty()) }
    }

    /// Queues `frame`; whether the queue still has a receiver decides the result.
    pub fn push(&mut self, frame: RelayMessage) -> (ok: bool)
        ensures
            ok ==> final(self).sent() == old(self).sent().push(frame),
            !ok ==> *final(self) == *old(self),
    {
        let ghost g = frame;
        if enqueue(&self.tx, frame) {
            self.sent = Ghost(self.sent@.push(g));
            true
        } else {
            false
        }
    }
}

} // verus!
