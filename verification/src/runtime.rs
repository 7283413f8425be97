//! The messages that the runtime listens to, and how they are answered.

use vstd::prelude::*;

use crate::contracts::{
    AvailabilityProbeMessage, AvailabilitySnapshot, AvailabilitySnapshotView, JobApprovalCommand,
    JobDispatchMessage,
};
use crate::job;
use crate::job::JobSlot;
use crate::text;
use crate::timestamp::Timestamp;

verus! {

/// Where lifecycle events are published.
pub const EVENTS_SUBJECT: &'static str = "elowen.jobs.events";

/// How often the registration is renewed, in seconds.
pub const HEARTBEAT_SECS: u64 = 30;

/// How long the runtime waits before it tries again to register, or to claim the slot for an
/// approved push, in seconds.
pub const RETRY_SECS: u64 = 2;

/// Where a device is asked whether it is available.
pub fn probe_subject(device_id: &str) -> (out: String)
    ensures
        out@ == "elowen.devices.availability.probe."@ + device_id@,
{
    let mut out = "elowen.devices.availability.probe.".to_owned();
    out.append(device_id);
    out
}

/// Where jobs are dispatched to a device.
pub fn dispatch_subject(device_id: &str) -> (out: String)
    ensures
        out@ == "elowen.jobs.dispatch."@ + device_id@,
{
    let mut out = "elowen.jobs.dispatch.".to_owned();
    out.append(device_id);
    out
}

/// Where approvals are sent to a device.
pub fn approval_subject(device_id: &str) -> (out: String)
    ensures
        out@ == "elowen.jobs.approvals."@ + device_id@,
{
    let mut out = "elowen.jobs.approvals.".to_owned();
    out.append(device_id);
    out
}

/// What becomes of a message.
#[derive(Clone, Copy, Debug, PartialEq, Eq, Structural)]
pub enum Route {
    /// It cannot be read and is dropped.
    NotDecoded,
    /// It is meant for another device and is dropped.
    Mismatched,
    /// It is handled.
    Accepted,
}

/// What becomes of a message that is meant for a device, if it can be read.
pub open spec fn route_of(addressee: Option<Seq<char>>, device_id: Seq<char>) -> Route {
    match addressee {
        None => Route::NotDecoded,
        Some(id) => if id == device_id {
            Route::Accepted
        } else {
            Route::Mismatched
        },
    }
}

/// What becomes of a dispatched job.
pub fn route_dispatch(dispatch: &Option<JobDispatchMessage>, device_id: &str) -> (route: Route)
    ensures
        route == route_of(
            match *dispatch {
                Some(message) => Some(message.device_id@),
                None => None,
            },
            device_id@,
        ),
{
    match dispatch {
        None => Route::NotDecoded,
        Some(message) => if text::text_eq(&message.device_id, device_id) {
            Route::Accepted
        } else {
            Route::Mismatched
        },
    }
}

/// What becomes of an approval.
pub fn route_approval(command: &Option<JobApprovalCommand>, device_id: &str) -> (route: Route)
    ensures
        route == route_of(
            match *command {
                Some(message) => Some(message.device_id@),
                None => None,
            },
            device_id@,
        ),
{
    match command {
        None => Route::NotDecoded,
        Some(message) => if text::text_eq(&message.device_id, device_id) {
            Route::Accepted
        } else {
            Route::Mismatched
        },
    }
}

/// What is answered to a device probe.
pub open spec fn availability(
    probe: AvailabilityProbeMessage,
    device_id: Seq<char>,
    slot: Option<Seq<char>>,
    now: Timestamp,
) -> AvailabilitySnapshotView {
    AvailabilitySnapshotView {
        probe_id: probe.probe_id@,
        job_id: text::opt_text(probe.job_id),
        device_id,
        available: slot is None,
        reason: match slot {
            Some(job_id) => "busy with active job "@ + job_id,
            None => "idle"@,
        },
        responded_at: now,
    }
}

/// What becomes of a probe.
pub enum ProbeAnswer {
    /// Nobody waits for an answer, and the probe is dropped.
    NoReplySubject,
    /// The probe cannot be read and is dropped.
    NotDecoded,
    /// The probe is meant for another device and is dropped.
    Mismatched,
    /// The probe is answered.
    Respond { snapshot: AvailabilitySnapshot },
}

/// Answers a probe.
pub fn answer_probe(
    has_reply_subject: bool,
    probe: &Option<AvailabilityProbeMessage>,
    device_id: &str,
    slot: &JobSlot,
    now: Timestamp,
) -> (answer: ProbeAnswer)
    ensures
        match answer {
            ProbeAnswer::NoReplySubject => !has_reply_subject,
            ProbeAnswer::NotDecoded => has_reply_subject && probe is None,
            ProbeAnswer::Mismatched => {
                &&& has_reply_subject
                &&& probe matches Some(message) && message.device_id@ != device_id@
            },
            ProbeAnswer::Respond { snapshot } => {
                &&& has_reply_subject
                &&& probe matches Some(message)
                &&& message.device_id@ == device_id@
                &&& snapshot@ == availability(*message, device_id@, slot@, now)
            },
        },
{
    if !has_reply_subject {
        return ProbeAnswer::NoReplySubject;
    }
    let message = match probe {
        Some(message) => message,
        None => return ProbeAnswer::NotDecoded,
    };
    if !text::text_eq(&message.device_id, device_id) {
        return ProbeAnswer::Mismatched;
    }
    let (available, reason) = match slot.current() {
        Some(job_id) => {
            let mut reason = "busy with active job ".to_owned();
            reason.append(&job_id);
            (false, reason)
        },
        None => (true, "idle".to_owned()),
    };
    ProbeAnswer::Respond {
        snapshot: AvailabilitySnapshot {
            probe_id: message.probe_id.clone(),
            job_id: text::copy_opt(&message.job_id),
            device_id: device_id.to_owned(),
            available,
            reason,
            responded_at: now,
        },
    }
}

/// A device says that it is available exactly where a job that is dispatched to it would be taken
/// in.
pub proof fn available_devices_take_jobs(
    probe: AvailabilityProbeMessage,
    device_id: Seq<char>,
    slot: Option<Seq<char>>,
    job_id: Seq<char>,
    now: Timestamp,
)
    ensures
        availability(probe, device_id, slot, now).available <==> slot is None && job::claimed(
            slot,
            job_id,
        ) == Some(job_id),
{
}

/// Whether the log is written as JSON.
pub fn logs_json(log_format: &str) -> (json: bool)
    ensures
        json == (text::lower(log_format@) == "json"@),
{
    text::text_eq(&text::lowered(log_format), "json")
}

/// The filter of the log: the configured one, else that of the environment, else the default.
pub fn log_filter(configured: &Option<String>, environment: &Option<String>) -> (filter: String)
    ensures
        filter@ == (match (text::opt_text(*configured), text::opt_text(*environment)) {
            (Some(own), _) => own,
            (None, Some(other)) => other,
            (None, None) => "info"@,
        }),
{
    match (configured, environment) {
        (Some(own), _) => own.clone(),
        (None, Some(other)) => other.clone(),
        (None, None) => "info".to_owned(),
    }
}

/// A message is accepted exactly where it was decoded and is addressed to this device.
pub proof fn only_own_messages_are_accepted(addressee: Option<Seq<char>>, device_id: Seq<char>)
    ensures
        route_of(addressee, device_id) is Accepted <==> addressee == Some(device_id),
        route_of(addressee, device_id) is NotDecoded <==> addressee is None,
        route_of(addressee, device_id) is Mismatched <==> addressee is Some && addressee != Some(
            device_id,
        ),
{
}

/// A probe is answered under its own id and for its own job, by this device and at this time. A
/// device that is busy says with what.
pub proof fn probes_are_answered_for_their_job(
    probe: AvailabilityProbeMessage,
    device_id: Seq<char>,
    slot: Option<Seq<char>>,
    now: Timestamp,
)
    ensures
        ({
            let answer = availability(probe, device_id, slot, now);
            &&& answer.probe_id == probe.probe_id@
            &&& answer.job_id == text::opt_text(probe.job_id)
            &&& answer.device_id == device_id
            &&& answer.responded_at == now
            &&& answer.available <==> slot is None
            &&& slot is None ==> answer.reason == "idle"@
            &&& slot matches Some(job_id) ==> ("busy with active job "@).is_prefix_of(answer.reason)
                && job_id.is_suffix_of(answer.reason)
        }),
{
    if let Some(job_id) = slot {
        text::parts_begin_and_end("busy with active job "@, job_id);
    }
}

} // verus!
