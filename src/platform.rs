//! Trusted boundary to the async runtime, the clock, random ids and JSON values.
//! Every item here is believed, not proved; each names what it relies on.

use vstd::prelude::*;
use crate::protocol::AckResponse;

verus! {

/// serde_json's `Value`: job metadata, carried through unread.
#[verifier::external_type_specification]
#[verifier::external_body]
pub struct ExJsonValue(serde_json::Value);

/// Relies on serde_json's derived `Clone` for `Value`; nothing is claimed of the copy.
pub assume_specification[ <serde_json::Value as Clone>::clone ](v: &serde_json::Value) -> serde_json::Value;

/// tokio's `oneshot::error::RecvError`, named by the receiver's `Future` impl.
#[verifier::external_type_specification]
#[verifier::external_body]
pub struct ExRecvError(tokio::sync::oneshot::error::RecvError);

/// tokio's `oneshot::Sender`: the sending end of a waiter.
#[verifier::external_type_specification]
#[verifier::external_body]
#[verifier::reject_recursive_types(T)]
pub struct ExReplySender<T>(tokio::sync::oneshot::Sender<T>);

/// tokio's `oneshot::Receiver`: where a dispatcher awaits its ack.
#[verifier::external_type_specification]
#[verifier::external_body]
#[verifier::reject_recursive_types(T)]
pub struct ExReplyReceiver<T>(tokio::sync::oneshot::Receiver<T>);

/// tokio's `mpsc::UnboundedSender`: the outbound queue of a sink session.
#[verifier::external_type_specification]
#[verifier::external_body]
#[verifier::reject_recursive_types(T)]
pub struct ExFrameSender<T>(tokio::sync::mpsc::UnboundedSender<T>);

pub open spec fn is_lower_hex(c: char) -> bool {
    ('0' <= c && c <= '9') || ('a' <= c && c <= 'f')
}

/// The hyphenated lower-case text of a random (version 4, RFC 4122 variant) UUID.
pub open spec fn is_uuid_v4_text(s: Seq<char>) -> bool {
    &&& s.len() == 36
    &&& forall|i: int|
        0 <= i < 36 ==> (if i == 8 || i == 13 || i == 18 || i == 23 {
            #[trigger] s[i] == '-'
        } else {
            is_lower_hex(s[i])
        })
    &&& s[14] == '4'
    &&& (s[19] == '8' || s[19] == '9' || s[19] == 'a' || s[19] == 'b')
}

/// Relies on uuid's `Uuid::new_v4`, which sets the version and variant bits on
/// random bits, and on its `Display`, which writes the hyphenated lower-case form.
#[verifier::external_body]
pub(crate) fn new_uuid_text() -> (r: String)
    ensures
        is_uuid_v4_text(r@),
{
    uuid::Uuid::new_v4().to_string()
}

/// Relies on chrono's `Utc::now` and `DateTime::timestamp_millis`: the wall-clock
/// time in milliseconds since the Unix epoch. Nothing is promised of its value.
#[verifier::external_body]
pub(crate) fn now_millis() -> i64 {
    chrono::Utc::now().timestamp_millis()
}

/// Relies on tokio's `oneshot::channel`: a fresh single-use reply channel.
#[verifier::external_body]
pub(crate) fn reply_channel() -> (tokio::sync::oneshot::Sender<AckResponse>, tokio::sync::oneshot::Receiver<AckResponse>) {
    tokio::sync::oneshot::channel()
}

/// Relies on tokio's `oneshot::Sender::send`: hands `response` to the waiting
/// receiver, if it is still there; a dropped receiver makes this a no-op.
#[verifier::external_body]
pub(crate) fn fulfil(reply: tokio::sync::oneshot::Sender<AckResponse>, response: AckResponse) {
    let _ = reply.send(response);
}

} // verus!
