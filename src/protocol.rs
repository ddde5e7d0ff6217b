//! Frames exchanged with the sink over its bidirectional channel.

use vstd::prelude::*;
use crate::models::{Placement, SourceInfo, TargetSpec};
use crate::text::opt_text;

verus! {

/// The schema version that every frame carries.
pub const SCHEMA_VERSION: &'static str = "1.0";

pub open spec fn schema_version_spec() -> Seq<char> {
    "1.0"@
}

/// How the sink settled a job.
#[derive(Clone, Copy, Debug, PartialEq, Eq, Structural)]
pub enum AckStatus {
    Success,
    Retry,
    Failed,
}

/// The wire name of a status.
pub open spec fn status_name(s: AckStatus) -> Seq<char> {
    match s {
        AckStatus::Success => "ok"@,
        AckStatus::Retry => "retry"@,
        AckStatus::Failed => "failed"@,
    }
}

impl AckStatus {
    /// The wire name: `ok`, `retry` or `failed`.
    pub fn as_str(&self) -> (r: &'static str)
        ensures
            r@ == status_name(*self),
    {
        match self {
            AckStatus::Success => "ok",
            AckStatus::Retry => "retry",
            AckStatus::Failed => "failed",
        }
    }
}

/// The terminal answer for one job.
#[derive(Clone, Debug)]
pub struct AckResponse {
    pub status: AckStatus,
    pub error: Option<String>,
}

/// Frames sent by the sink.
#[derive(Clone, Debug)]
pub enum SinkMessage {
    Register {
        schema_version: String,
        version: String,
        capabilities: Vec<String>,
        providers: Vec<String>,
    },
    Ack { schema_version: String, id: String, status: AckStatus, error: Option<String> },
    Pong { schema_version: String },
}

/// What a job frame carries to the sink.
#[derive(Clone, Debug)]
pub struct InsertTextPayload {
    pub text: String,
    pub placement: Option<Placement>,
    pub source: SourceInfo,
    pub target: Option<TargetSpec>,
    pub metadata: serde_json::Value,
}

/// Frames sent to the sink.
#[derive(Clone, Debug)]
pub enum RelayMessage {
    InsertText { schema_version: String, id: String, payload: InsertTextPayload },
    Ping { schema_version: String },
    Policy { schema_version: String, supersede_on_register: bool, max_job_bytes: usize },
}

/// The policy frame that opens every registered session.
pub open spec fn is_policy_frame(m: RelayMessage, supersede: bool, max_job_bytes: usize) -> bool {
    match m {
        RelayMessage::Policy { schema_version, supersede_on_register, max_job_bytes: b } => {
            &&& schema_version@ == schema_version_spec()
            &&& supersede_on_register == supersede
            &&& b == max_job_bytes
        },
        _ => false,
    }
}

pub open spec fn is_ping_frame(m: RelayMessage) -> bool {
    match m {
        RelayMessage::Ping { schema_version } => schema_version@ == schema_version_spec(),
        _ => false,
    }
}

/// A job frame for job `id` carrying exactly the given payload.
pub open spec fn is_job_frame(
    m: RelayMessage,
    id: Seq<char>,
    text: Seq<char>,
    placement: Option<Placement>,
    source: SourceInfo,
    target: Option<TargetSpec>,
    metadata: serde_json::Value,
) -> bool {
    match m {
        RelayMessage::InsertText { schema_version, id: i, payload } => {
            &&& schema_version@ == schema_version_spec()
            &&& i@ == id
            &&& payload.text@ == text
            &&& payload.placement == placement
            &&& payload.source == source
            &&& payload.target == target
            &&& payload.metadata == metadata
        },
        _ => false,
    }
}

pub fn schema_version_string() -> (r: String)
    ensures
        r@ == schema_version_spec(),
{
    String::from_str(SCHEMA_VERSION)
}

pub fn policy_frame(supersede_on_register: bool, max_job_bytes: usize) -> (r: RelayMessage)
    ensures
        is_policy_frame(r, supersede_on_register, max_job_bytes),
{
    RelayMessage::Policy {
        schema_version: schema_version_string(),
        supersede_on_register,
        max_job_bytes,
    }
}

pub fn ping_frame() -> (r: RelayMessage)
    ensures
        is_ping_frame(r),
{
    RelayMessage::Ping { schema_version: schema_version_string() }
}

/// The error text that a test sink attaches when it settles a job with `mode`.
pub open spec fn simulated_error(mode: AckStatus) -> Option<Seq<char>> {
    match mode {
        AckStatus::Success => None,
        AckStatus::Retry => Some("Simulated retry"@),
        AckStatus::Failed => Some("Simulated failure"@),
    }
}

/// `r` is a pong of the current schema.
pub open spec fn is_pong_reply(r: Option<SinkMessage>) -> bool {
    match r {
        Some(SinkMessage::Pong { schema_version }) => schema_version@ == schema_version_spec(),
        _ => false,
    }
}

/// `r` acks job `id` with `mode` and the matching simulated error.
pub open spec fn is_ack_reply(r: Option<SinkMessage>, id: Seq<char>, mode: AckStatus) -> bool {
    match r {
        Some(SinkMessage::Ack { schema_version, id: i, status, error }) => {
            &&& schema_version@ == schema_version_spec()
            &&& i@ == id
            &&& status == mode
            &&& opt_text(error) == simulated_error(mode)
        },
        _ => false,
    }
}

/// How a sink that settles every job with `mode` answers `frame`: a pong for a
/// ping, an ack for a job, nothing for the policy.
pub fn sink_reply(frame: &RelayMessage, mode: AckStatus) -> (r: Option<SinkMessage>)
    ensures
        match *frame {
            RelayMessage::Ping { .. } => is_pong_reply(r),
            RelayMessage::InsertText { id, .. } => is_ack_reply(r, id@, mode),
            RelayMessage::Policy { .. } => r is None,
        },
{
    match frame {
        RelayMessage::Ping { .. } => Some(SinkMessage::Pong { schema_version: schema_version_string() }),
        RelayMessage::InsertText { id, .. } => {
            let error = match mode {
                AckStatus::Success => None,
                AckStatus::Retry => Some(String::from_str("Simulated retry")),
                AckStatus::Failed => Some(String::from_str("Simulated failure")),
            };
            Some(SinkMessage::Ack { schema_version: schema_version_string(), id: id.clone(), status: mode, error })
        },
        RelayMessage::Policy { .. } => None,
    }
}

} // verus!
