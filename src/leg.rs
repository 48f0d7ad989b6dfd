use vstd::prelude::*;

use crate::api::Headers;
use crate::request::MaterializedLeg;

verus! {

/// What `String::from_utf8_lossy` makes of the bytes.
pub uninterp spec fn utf8_lossy(b: Seq<u8>) -> Seq<char>;

/// Relies on `String::from_utf8_lossy`: invalid sequences become U+FFFD, and no bytes
/// give the empty string.
#[verifier::external_body]
fn decode_lossy(b: &[u8]) -> (r: String)
    ensures
        r@ == utf8_lossy(b@),
        b@.len() == 0 ==> r@.len() == 0,
{
    String::from(String::from_utf8_lossy(b))
}

/// `a - b`, or zero where `b` is the later instant.
pub open spec fn elapsed(now: u64, start: u64) -> u64 {
    if now >= start {
        (now - start) as u64
    } else {
        0
    }
}

/// How a leg ended, before it is rendered for the caller.
#[derive(Debug)]
pub enum LegResult {
    /// The target replied and its body was read.
    Completed { status: u16, headers: Headers, content: String, duration_msec: u64 },
    /// The leg could not be turned into a request; nothing was sent.
    RequestInvalid { cause: String },
    /// The client failed before a reply came.
    RequestFailure { cause: String, duration_msec: u64 },
    /// Reading the body failed.
    ResponseFailure { cause: String, duration_msec: u64 },
    /// The batch's deadline came first.
    ResponseTimeout { duration_msec: u64 },
}

/// Where a leg stands. Times are milliseconds on one monotonic clock.
#[derive(Debug)]
pub enum LegState {
    /// Built, not yet handed to the client.
    Pending,
    /// Handed to the client at `start_msec`; waiting for the head of the reply.
    Sending { start_msec: u64 },
    /// The head has come; the body is being read.
    Receiving { start_msec: u64, status: u16, headers: Headers },
    /// Done, one way or another.
    Finished(LegResult),
}

/// What happened to a leg.
#[derive(Debug)]
pub enum LegEvent {
    /// The request was handed to the client.
    Dispatched { now_msec: u64 },
    /// The client returned the head of a reply.
    HeadReceived { status: u16, headers: Headers },
    /// The whole body was read.
    BodyRead { now_msec: u64, body: Vec<u8> },
    /// The client returned an error instead of a reply.
    RequestFailed { now_msec: u64, cause: String },
    /// Reading the body returned an error.
    BodyFailed { now_msec: u64, cause: String },
    /// The batch's deadline passed.
    DeadlineElapsed { now_msec: u64 },
}

/// The time that a finished leg reports.
pub open spec fn result_duration(r: LegResult) -> u64 {
    match r {
        LegResult::Completed { duration_msec, .. } => duration_msec,
        LegResult::RequestInvalid { .. } => 0,
        LegResult::RequestFailure { duration_msec, .. } => duration_msec,
        LegResult::ResponseFailure { duration_msec, .. } => duration_msec,
        LegResult::ResponseTimeout { duration_msec } => duration_msec,
    }
}

/// The instant at which the leg was handed to the client, once it was.
pub open spec fn start_of(s: LegState) -> Option<u64> {
    match s {
        LegState::Sending { start_msec } => Some(start_msec),
        LegState::Receiving { start_msec, .. } => Some(start_msec),
        _ => None,
    }
}

/// `r` is the state that follows `s` on `e`. Events that do not fit the state leave it as it is.
pub open spec fn follows(s: LegState, e: LegEvent, r: LegState) -> bool {
    match (s, e) {
        (LegState::Pending, LegEvent::Dispatched { now_msec }) => r == LegState::Sending {
            start_msec: now_msec,
        },
        (LegState::Pending, LegEvent::DeadlineElapsed { .. }) => r == LegState::Finished(
            LegResult::ResponseTimeout { duration_msec: 0 },
        ),
        (LegState::Sending { start_msec }, LegEvent::HeadReceived { status, headers }) => r
            == LegState::Receiving { start_msec, status, headers },
        (LegState::Sending { start_msec }, LegEvent::RequestFailed { now_msec, cause }) => r
            == LegState::Finished(
            LegResult::RequestFailure { cause, duration_msec: elapsed(now_msec, start_msec) },
        ),
        (LegState::Sending { start_msec }, LegEvent::DeadlineElapsed { now_msec }) => r
            == LegState::Finished(
            LegResult::ResponseTimeout { duration_msec: elapsed(now_msec, start_msec) },
        ),
        (
            LegState::Receiving { start_msec, status, headers },
            LegEvent::BodyRead { now_msec, body },
        ) => {
            &&& r is Finished
            &&& r->Finished_0 matches LegResult::Completed {
                status: st,
                headers: hs,
                content,
                duration_msec,
            } && st == status && hs == headers && content@ == utf8_lossy(body@) && (body@.len()
                == 0 ==> content@.len() == 0) && duration_msec == elapsed(now_msec, start_msec)
        },
        (LegState::Receiving { start_msec, .. }, LegEvent::BodyFailed { now_msec, cause }) => r
            == LegState::Finished(
            LegResult::ResponseFailure { cause, duration_msec: elapsed(now_msec, start_msec) },
        ),
        (LegState::Receiving { start_msec, .. }, LegEvent::DeadlineElapsed { now_msec }) => r
            == LegState::Finished(
            LegResult::ResponseTimeout { duration_msec: elapsed(now_msec, start_msec) },
        ),
        (s, _) => r == s,
    }
}

impl LegState {
    /// The first state of a leg, and the request to send, if any: a leg that could not be
    /// built is finished at once with no time spent, and nothing is to be sent for it.
    pub fn start(leg: MaterializedLeg) -> (r: (LegState, Option<http::Request<hyper::Body>>))
        ensures
            leg is ValidRequest <==> r.1 is Some,
            leg matches MaterializedLeg::ValidRequest(q) ==> r.1 == Some(q),
            leg is ValidRequest ==> r.0 is Pending,
            leg is InvalidRequest ==> r.0 == LegState::Finished(
                LegResult::RequestInvalid { cause: leg->cause },
            ),
    {
        match leg {
            MaterializedLeg::ValidRequest(req) => (LegState::Pending, Some(req)),
            MaterializedLeg::InvalidRequest { defect: _, cause } => (
                LegState::Finished(LegResult::RequestInvalid { cause }),
                None,
            ),
        }
    }

    /// The state that follows on an event.
    pub fn step(self, e: LegEvent) -> (r: LegState)
        ensures
            follows(self, e, r),
    {
        match (self, e) {
            (LegState::Pending, LegEvent::Dispatched { now_msec }) => LegState::Sending {
                start_msec: now_msec,
            },
            (LegState::Pending, LegEvent::DeadlineElapsed { .. }) => LegState::Finished(
                LegResult::ResponseTimeout { duration_msec: 0 },
            ),
            (LegState::Sending { start_msec }, LegEvent::HeadReceived { status, headers }) => {
                LegState::Receiving { start_msec, status, headers }
            },
            (LegState::Sending { start_msec }, LegEvent::RequestFailed { now_msec, cause }) => {
                LegState::Finished(
                    LegResult::RequestFailure {
                        cause,
                        duration_msec: now_msec.saturating_sub(start_msec),
                    },
                )
            },
            (LegState::Sending { start_msec }, LegEvent::DeadlineElapsed { now_msec }) => {
                LegState::Finished(
                    LegResult::ResponseTimeout {
                        duration_msec: now_msec.saturating_sub(start_msec),
                    },
                )
            },
            (
                LegState::Receiving { start_msec, status, headers },
                LegEvent::BodyRead { now_msec, body },
            ) => {
                let content = decode_lossy(body.as_slice());
                LegState::Finished(
                    LegResult::Completed {
                        status,
                        headers,
                        content,
                        duration_msec: now_msec.saturating_sub(start_msec),
                    },
                )
            },
            (
                LegState::Receiving { start_msec, .. },
                LegEvent::BodyFailed { now_msec, cause },
            ) => LegState::Finished(
                LegResult::ResponseFailure {
                    cause,
                    duration_msec: now_msec.saturating_sub(start_msec),
                },
            ),
            (LegState::Receiving { start_msec, .. }, LegEvent::DeadlineElapsed { now_msec }) => {
                LegState::Finished(
                    LegResult::ResponseTimeout {
                        duration_msec: now_msec.saturating_sub(start_msec),
                    },
                )
            },
            (s, _) => s,
        }
    }

    /// How the leg ended, where `now_msec` is the time at which it is asked: a leg not yet
    /// done is ended by the deadline at that instant.
    pub fn finish(self, now_msec: u64) -> (r: LegResult)
        ensures
            self is Finished ==> r == self->Finished_0,
            !(self is Finished) ==> follows(
                self,
                LegEvent::DeadlineElapsed { now_msec },
                LegState::Finished(r),
            ),
    {
        match self {
            LegState::Finished(r) => r,
            other => match other.step(LegEvent::DeadlineElapsed { now_msec }) {
                LegState::Finished(r) => r,
                _ => LegResult::ResponseTimeout { duration_msec: 0 },
            },
        }
    }

    /// Whether the leg is done.
    pub fn is_finished(&self) -> (r: bool)
        ensures
            r == self is Finished,
    {
        matches!(self, LegState::Finished(_))
    }
}

/// The instant that an event carries, for the events that carry one.
pub open spec fn event_time(e: LegEvent) -> Option<u64> {
    match e {
        LegEvent::Dispatched { now_msec } => Some(now_msec),
        LegEvent::HeadReceived { .. } => None,
        LegEvent::BodyRead { now_msec, .. } => Some(now_msec),
        LegEvent::RequestFailed { now_msec, .. } => Some(now_msec),
        LegEvent::BodyFailed { now_msec, .. } => Some(now_msec),
        LegEvent::DeadlineElapsed { now_msec } => Some(now_msec),
    }
}

/// A leg that was handed to the client no earlier than the batch's entry, and ends on an
/// event no later than the budget plus some slack after that entry, reports a time no longer
/// than the budget plus that slack.
pub proof fn law_duration_within_budget(
    s: LegState,
    e: LegEvent,
    r: LegState,
    entry_msec: u64,
    timeout_msec: u64,
    slack_msec: u64,
)
    requires
        follows(s, e, r),
        !(s is Finished),
        r is Finished,
        start_of(s) matches Some(start) ==> start >= entry_msec,
        event_time(e) matches Some(t) ==> t <= entry_msec + timeout_msec + slack_msec,
    ensures
        result_duration(r->Finished_0) <= timeout_msec + slack_msec,
{
}

/// The deadline ends every leg that is not done yet.
pub proof fn law_deadline_finishes(s: LegState, e: LegEvent, r: LegState)
    requires
        follows(s, e, r),
        e is DeadlineElapsed,
    ensures
        r is Finished,
{
}

/// A finished leg stays as it ended, whatever comes after.
pub proof fn law_finished_is_final(s: LegState, e: LegEvent, r: LegState)
    requires
        follows(s, e, r),
        s is Finished,
    ensures
        r == s,
{
}

/// A leg that completes reports the status of the reply's head; so where the head's status
/// is one of 100 to 599, so is the success's.
pub proof fn law_success_status(s: LegState, e: LegEvent, r: LegState)
    requires
        follows(s, e, r),
        s matches LegState::Receiving { status, .. } && 100 <= status <= 599,
        r matches LegState::Finished(LegResult::Completed { .. }),
    ensures
        r->Finished_0 matches LegResult::Completed { status, .. } && 100 <= status <= 599
            && status == s->Receiving_status,
{
}

} // verus!
