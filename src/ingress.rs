//! The HTTP side of a job: admission checks in order, id assignment and
//! dispatch, and the reply that reports the job's outcome.

use vstd::prelude::*;
use crate::config::ServerConfig;
use crate::error::{reply_text, status_of, validation_text, AppError, ValidationFailure};
use crate::manager::{job_queued, SinkManager};
use crate::models::{first_violation, InsertTextRequest};
use crate::platform::{is_uuid_v4_text, new_uuid_text};
use crate::protocol::{status_name, AckResponse, AckStatus};
use crate::text::opt_text;
use tokio::sync::oneshot::Receiver;

verus! {

/// The reason an invalid request is refused with.
pub open spec fn invalid_reason(f: ValidationFailure) -> Seq<char> {
    "Validation error: "@ + validation_text(f)
}

/// A job passes the checks: a valid request, within the size cap, and a sink
/// registered if one is required.
pub open spec fn admits(request: InsertTextRequest, payload_size: usize, config: ServerConfig, sink_present: bool) -> bool {
    &&& first_violation(request) is None
    &&& payload_size <= config.max_job_bytes
    &&& !(config.require_sink && !sink_present)
}

/// `e` is the error of the first check that the job fails.
pub open spec fn refused_with(
    e: AppError,
    request: InsertTextRequest,
    payload_size: usize,
    config: ServerConfig,
    sink_present: bool,
) -> bool {
    match first_violation(request) {
        Some(f) => match e {
            AppError::InvalidRequest { reason } => reason@ == invalid_reason(f),
            _ => false,
        },
        None => if payload_size > config.max_job_bytes {
            e == AppError::PayloadTooLarge { size: payload_size, max: config.max_job_bytes }
        } else if config.require_sink && !sink_present {
            e is NoSink
        } else {
            false
        },
    }
}

/// Checks a submitted job before dispatch: the request rules first, then the
/// size of its serialized form against the cap, then whether a required sink
/// is registered.
pub fn admit_job(request: &InsertTextRequest, payload_size: usize, config: &ServerConfig, sink_present: bool) -> (r: Result<(), AppError>)
    ensures
        r is Ok <==> admits(*request, payload_size, *config, sink_present),
        r matches Err(e) ==> refused_with(e, *request, payload_size, *config, sink_present),
{
    match request.validate() {
        Ok(()) => {},
        Err(e) => {
            let mut reason = String::from_str("Validation error: ");
            reason.append(e.describe().as_str());
            return Err(AppError::InvalidRequest { reason });
        },
    }
    if payload_size > config.max_job_bytes {
        return Err(AppError::PayloadTooLarge { size: payload_size, max: config.max_job_bytes });
    }
    if config.require_sink && !sink_present {
        return Err(AppError::NoSink);
    }
    Ok(())
}

/// A dispatched job: its id and where its answer will arrive.
pub struct PendingJob {
    pub job_id: String,
    pub reply: Receiver<AckResponse>,
}

impl SinkManager {
    /// Admits a job whose serialized form takes `payload_size` bytes, gives it a
    /// fresh random id, and dispatches it to the registered sink.
    pub fn submit_job(&mut self, request: InsertTextRequest, payload_size: usize) -> (r: Result<PendingJob, AppError>)
        requires
            old(self).wf(),
        ensures
            final(self).wf(),
            final(self).settings() == old(self).settings(),
            final(self).can_open() == old(self).can_open(),
            !admits(request, payload_size, old(self).settings(), old(self)@ is Some) ==> final(self)@ == old(self)@,
            r matches Err(e) ==> refused_with(e, request, payload_size, old(self).settings(), old(self)@ is Some)
                || (admits(request, payload_size, old(self).settings(), old(self)@ is Some) && e is NoSink),
            r is Ok ==> admits(request, payload_size, old(self).settings(), old(self)@ is Some),
            admits(request, payload_size, old(self).settings(), old(self)@ is Some) && old(self)@ is None
                ==> final(self)@ is None && r matches Err(AppError::NoSink),
            r matches Ok(p) ==> is_uuid_v4_text(p.job_id@) && job_queued(
                old(self)@,
                final(self)@,
                p.job_id@,
                request.text@,
                request.placement,
                request.source,
                request.target,
                request.metadata,
            ),
    {
        let present = self.has_active_sink();
        admit_job(&request, payload_size, self.config(), present)?;
        let job_id = new_uuid_text();
        let InsertTextRequest { text, placement, source, target, metadata, .. } = request;
        let reply = self.dispatch_job(job_id.clone(), text, placement, source, target, metadata)?;
        Ok(PendingJob { job_id, reply })
    }
}

/// The HTTP reply for a job: status code and the fields of its JSON body.
#[derive(Debug)]
pub struct JobReply {
    pub status_code: u16,
    pub job_id: Option<String>,
    pub status: Option<String>,
    pub error: Option<String>,
}

/// The reply for the outcome of job `job_id`: 200 for an `ok` ack, 502 with the
/// sink's status and error for `retry` or `failed`, and for an error its own
/// status code and message.
pub fn job_reply(job_id: &str, outcome: &Result<AckResponse, AppError>) -> (r: JobReply)
    ensures
        match *outcome {
            Ok(a) => {
                &&& opt_text(r.job_id) == Some(job_id@)
                &&& opt_text(r.status) == Some(status_name(a.status))
                &&& if a.status == AckStatus::Success {
                    r.status_code == 200 && r.error is None
                } else {
                    r.status_code == 502 && opt_text(r.error) == opt_text(a.error)
                }
            },
            Err(e) => {
                &&& r.status_code == status_of(e)
                &&& r.job_id is None
                &&& r.status is None
                &&& opt_text(r.error) == Some(reply_text(e))
            },
        },
{
    match outcome {
        Ok(a) => {
            let status = Some(String::from_str(a.status.as_str()));
            match a.status {
                AckStatus::Success => JobReply { status_code: 200, job_id: Some(String::from_str(job_id)), status, error: None },
                _ => JobReply {
                    status_code: 502,
                    job_id: Some(String::from_str(job_id)),
                    status,
                    error: match &a.error {
                        Some(e) => Some(e.clone()),
                        None => None,
                    },
                },
            }
        },
        Err(e) => JobReply { status_code: e.status_code(), job_id: None, status: None, error: Some(e.reply_message()) },
    }
}

} // verus!
