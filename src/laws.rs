//! Properties of the relay that span several operations, stated over the
//! same spec functions that the operations' contracts use.

use vstd::prelude::*;
use crate::config::ServerConfig;
use crate::error::AppError;
use crate::manager::{
    acked, is_current, job_queued, published, settled, superseded_reason,
    without_waiter, SlotView, WaitOutcome,
};
use crate::models::{Placement, SourceInfo, TargetSpec};
use crate::protocol::{is_policy_frame, AckStatus};
use crate::waiters::{answers_with, drained, resolved_ids, Resolution};

verus! {

/// Every dispatch settles with exactly one of: an `ok`, `retry` or `failed`
/// ack, a dispatch timeout, or no sink.
pub proof fn lemma_one_terminal_outcome(outcome: WaitOutcome, timeout_ms: u64)
    ensures
        ({
            let r = settled(outcome, timeout_ms);
            let ok = r matches Ok(a) && a.status == AckStatus::Success;
            let retry = r matches Ok(a) && a.status == AckStatus::Retry;
            let failed = r matches Ok(a) && a.status == AckStatus::Failed;
            let timeout = r matches Err(AppError::DispatchTimeout { .. });
            let no_sink = r matches Err(AppError::NoSink);
            &&& ok || retry || failed || timeout || no_sink
            &&& !(ok && retry) && !(ok && failed) && !(retry && failed)
            &&& !((ok || retry || failed) && (timeout || no_sink)) && !(timeout && no_sink)
        }),
{
}

/// A waiter that a dispatch put in the table is gone once that dispatch
/// finishes, whatever the outcome.
pub proof fn lemma_waiter_removed(
    before: Option<SlotView>,
    queued: Option<SlotView>,
    after: Option<SlotView>,
    id: Seq<char>,
    text: Seq<char>,
    placement: Option<Placement>,
    source: SourceInfo,
    target: Option<TargetSpec>,
    metadata: serde_json::Value,
)
    requires
        job_queued(before, queued, id, text, placement, source, target, metadata),
        without_waiter(queued, after, id),
    ensures
        queued->0.waiting.contains(id),
        after matches Some(s) ==> !s.waiting.contains(id),
{
}

/// An ack for an id that does not wait on the acking session's sink changes
/// nothing and answers nobody.
pub proof fn lemma_unknown_ack_no_effect(
    before: Option<SlotView>,
    after: Option<SlotView>,
    sid: u64,
    id: Seq<char>,
    status: AckStatus,
    error: Option<String>,
    rs: Seq<Resolution>,
)
    requires
        acked(before, after, sid, id, status, error, rs),
        !(is_current(before, sid) && before->0.waiting.contains(id)),
    ensures
        after == before,
        rs.len() == 0,
{
}

/// After a registration the slot holds exactly the new session, and the policy
/// frame is the first and only frame queued to it.
pub proof fn lemma_policy_first(
    before: Option<SlotView>,
    after: Option<SlotView>,
    rs: Seq<Resolution>,
    sid: u64,
    config: ServerConfig,
    capabilities: Vec<String>,
    providers: Vec<String>,
    version: String,
)
    requires
        published(before, after, rs, sid, config, capabilities, providers, version),
    ensures
        is_current(after, sid),
        after->0.sent.len() == 1,
        is_policy_frame(after->0.sent[0], config.supersede_on_register, config.max_job_bytes),
{
}

/// Under supersession every waiter of the displaced sink is answered with
/// `retry` and "Superseded by new sink", and the new sink starts with no
/// waiters, so no dispatch has reached it yet.
pub proof fn lemma_supersede_drains(
    before: Option<SlotView>,
    after: Option<SlotView>,
    rs: Seq<Resolution>,
    sid: u64,
    config: ServerConfig,
    capabilities: Vec<String>,
    providers: Vec<String>,
    version: String,
)
    requires
        published(before, after, rs, sid, config, capabilities, providers, version),
        before is Some,
    ensures
        drained(rs, before->0.waiting, AckStatus::Retry, superseded_reason()),
        after->0.waiting.is_empty(),
        forall|i: int| 0 <= i < rs.len() ==> (#[trigger] rs[i]).response.status == AckStatus::Retry,
{
    assert forall|i: int| 0 <= i < rs.len() implies (#[trigger] rs[i]).response.status == AckStatus::Retry by {
        assert(answers_with(rs[i].response, AckStatus::Retry, superseded_reason()));
    }
}

/// A dispatch whose waiter was answered by a drain (the sink was displaced or
/// disconnected) settles as a `retry` ack carrying the drain's reason.
pub proof fn lemma_drained_waiter_settles_retry(
    rs: Seq<Resolution>,
    ids: Set<Seq<char>>,
    reason: Seq<char>,
    id: Seq<char>,
    timeout_ms: u64,
) -> (i: int)
    requires
        drained(rs, ids, AckStatus::Retry, reason),
        ids.contains(id),
    ensures
        0 <= i < rs.len(),
        rs[i].job_id@ == id,
        settled(WaitOutcome::Replied(rs[i].response), timeout_ms) matches Ok(a) && answers_with(
            a,
            AckStatus::Retry,
            reason,
        ),
{
    assert(resolved_ids(rs).to_set().contains(id));
    let i = choose|i: int| 0 <= i < resolved_ids(rs).len() && resolved_ids(rs)[i] == id;
    assert(answers_with(rs[i].response, AckStatus::Retry, reason));
    i
}

} // verus!
