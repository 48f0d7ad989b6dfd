use vstd::prelude::*;

use crate::api::{OctoplexRequest, OctoplexResponse, SingleHttpFailure, SingleHttpResponse, SingleOutcome};
use crate::leg::{LegResult, result_duration};
use crate::request::{MaterializedLeg, materialize, materializes};

verus! {

/// The largest budget a batch may ask for: one hour, in milliseconds.
pub const MAX_REQUEST_DURATION_MSEC: u64 = 60 * 60 * 1_000;

/// The most legs a batch may hold.
pub const MAX_BATCH_SIZE: usize = 50;

/// Why a whole batch is refused.
#[derive(Debug, Clone, Copy, PartialEq, Eq, Structural)]
pub enum ValidationError {
    /// The budget is over the limit, which is carried in milliseconds.
    MaximumTimeoutExceeded(u64),
    EmptyBatchRequested,
    /// There are more legs than the limit that is carried.
    MaximumBatchSizeExceeded(usize),
}

/// The verdict on a batch with this budget and this many legs: the first rule broken, if any.
pub open spec fn verdict(timeout_msec: u64, n: nat) -> Option<ValidationError> {
    if timeout_msec > MAX_REQUEST_DURATION_MSEC {
        Some(ValidationError::MaximumTimeoutExceeded(MAX_REQUEST_DURATION_MSEC))
    } else if n == 0 {
        Some(ValidationError::EmptyBatchRequested)
    } else if n > MAX_BATCH_SIZE {
        Some(ValidationError::MaximumBatchSizeExceeded(MAX_BATCH_SIZE))
    } else {
        None
    }
}

/// Appends one unit of a humantime text: nothing for a zero count, else the count and the
/// unit's name, a space before it if something came first, and an `s` after a plural name
/// of more than one.
pub open spec fn humantime_item(acc: Seq<char>, count: nat, unit: Seq<char>, plural: bool) -> Seq<
    char,
> {
    if count == 0 {
        acc
    } else {
        (if acc.len() > 0 {
            acc + " "@
        } else {
            acc
        }) + decimal(count) + unit + (if plural && count > 1 {
            "s"@
        } else {
            Seq::empty()
        })
    }
}

/// How humantime writes a duration of this many milliseconds: years of 365.25 days, months
/// of 30.44 days, days, hours, minutes, seconds and milliseconds, each that is not zero.
pub open spec fn humantime_text(msec: nat) -> Seq<char> {
    if msec == 0 {
        "0s"@
    } else {
        let secs = msec / 1000;
        let ydays = secs % 31_557_600;
        let mdays = ydays % 2_630_016;
        let day_secs = mdays % 86400;
        let t = humantime_item(Seq::empty(), secs / 31_557_600, "year"@, true);
        let t = humantime_item(t, ydays / 2_630_016, "month"@, true);
        let t = humantime_item(t, mdays / 86400, "day"@, true);
        let t = humantime_item(t, day_secs / 3600, "h"@, false);
        let t = humantime_item(t, day_secs % 3600 / 60, "m"@, false);
        let t = humantime_item(t, day_secs % 60, "s"@, false);
        humantime_item(t, msec % 1000, "ms"@, false)
    }
}

/// Relies on `humantime::format_duration` and its `Display`, which for whole milliseconds
/// writes no microseconds or nanoseconds.
#[verifier::external_body]
fn format_duration_msec(msec: u64) -> (r: String)
    ensures
        r@ == humantime_text(msec as nat),
{
    humantime::format_duration(std::time::Duration::from_millis(msec)).to_string()
}

/// The character of a decimal digit.
pub open spec fn digit_char(d: nat) -> char {
    if d == 0 {
        '0'
    } else if d == 1 {
        '1'
    } else if d == 2 {
        '2'
    } else if d == 3 {
        '3'
    } else if d == 4 {
        '4'
    } else if d == 5 {
        '5'
    } else if d == 6 {
        '6'
    } else if d == 7 {
        '7'
    } else if d == 8 {
        '8'
    } else {
        '9'
    }
}

/// The decimal notation of a number, without leading zeros.
pub open spec fn decimal(n: nat) -> Seq<char>
    decreases n,
{
    if n < 10 {
        seq![digit_char(n)]
    } else {
        decimal(n / 10).push(digit_char(n % 10))
    }
}

fn digit_text(d: u64) -> (r: &'static str)
    requires
        d < 10,
    ensures
        r@ == seq![digit_char(d as nat)],
{
    proof {
        reveal_strlit("0");
        reveal_strlit("1");
        reveal_strlit("2");
        reveal_strlit("3");
        reveal_strlit("4");
        reveal_strlit("5");
        reveal_strlit("6");
        reveal_strlit("7");
        reveal_strlit("8");
        reveal_strlit("9");
    }
    if d == 0 {
        "0"
    } else if d == 1 {
        "1"
    } else if d == 2 {
        "2"
    } else if d == 3 {
        "3"
    } else if d == 4 {
        "4"
    } else if d == 5 {
        "5"
    } else if d == 6 {
        "6"
    } else if d == 7 {
        "7"
    } else if d == 8 {
        "8"
    } else {
        "9"
    }
}

/// Writes a number in decimal.
pub fn decimal_text(n: u64) -> (r: String)
    ensures
        r@ == decimal(n as nat),
{
    let mut s = String::from_str(digit_text(n % 10));
    let mut m: u64 = n / 10;
    proof {
        if n >= 10 {
            assert(decimal(n as nat) == decimal(m as nat) + s@);
        }
    }
    while m > 0
        invariant
            m > 0 ==> decimal(n as nat) == decimal(m as nat) + s@,
            m == 0 ==> decimal(n as nat) == s@,
        decreases m,
    {
        let ghost old_s = s@;
        let mut t = String::from_str(digit_text(m % 10));
        t.append(s.as_str());
        s = t;
        proof {
            if m >= 10 {
                let d = decimal((m / 10) as nat);
                assert(decimal(m as nat) == d.push(digit_char((m % 10) as nat)));
                assert(d.push(digit_char((m % 10) as nat)) + old_s =~= d + s@);
            } else {
                assert(decimal(m as nat) + old_s =~= s@);
            }
        }
        m = m / 10;
    }
    s
}

/// The message that goes back to the caller of a refused batch.
pub open spec fn validation_message(e: ValidationError) -> Seq<char> {
    match e {
        ValidationError::MaximumTimeoutExceeded(limit) => "timeout may not be more than "@
            + humantime_text(limit as nat),
        ValidationError::EmptyBatchRequested => "there must be at least one request in the batch"@,
        ValidationError::MaximumBatchSizeExceeded(limit) => "there may not be more than "@
            + decimal(limit as nat) + " requests in the batch"@,
    }
}

impl ValidationError {
    /// The message for the caller.
    pub fn message(&self) -> (r: String)
        ensures
            r@ == validation_message(*self),
    {
        match self {
            ValidationError::MaximumTimeoutExceeded(limit) => {
                String::from_str("timeout may not be more than ").concat(
                    format_duration_msec(*limit).as_str(),
                )
            },
            ValidationError::EmptyBatchRequested => String::from_str(
                "there must be at least one request in the batch",
            ),
            ValidationError::MaximumBatchSizeExceeded(limit) => {
                String::from_str("there may not be more than ").concat(
                    decimal_text(*limit as u64).as_str(),
                ).concat(" requests in the batch")
            },
        }
    }
}

/// Holds a batch to the limits: the budget first, then an empty batch, then its size.
pub fn validate_request(batch: OctoplexRequest) -> (r: Result<OctoplexRequest, ValidationError>)
    ensures
        match verdict(batch.timeout_msec, batch.requests@.len()) {
            Some(e) => r == Err::<OctoplexRequest, ValidationError>(e),
            None => r == Ok::<OctoplexRequest, ValidationError>(batch),
        },
{
    if batch.timeout_msec > MAX_REQUEST_DURATION_MSEC {
        return Err(ValidationError::MaximumTimeoutExceeded(MAX_REQUEST_DURATION_MSEC));
    }
    if batch.requests.len() == 0 {
        return Err(ValidationError::EmptyBatchRequested);
    }
    if batch.requests.len() > MAX_BATCH_SIZE {
        return Err(ValidationError::MaximumBatchSizeExceeded(MAX_BATCH_SIZE));
    }
    Ok(batch)
}

/// The instant by which every leg must be done: entry plus budget, held at the clock's end.
pub open spec fn deadline_of(entry_msec: u64, timeout_msec: u64) -> u64 {
    if entry_msec + timeout_msec <= u64::MAX {
        (entry_msec + timeout_msec) as u64
    } else {
        u64::MAX
    }
}

/// The batch's one deadline, shared by all its legs.
pub fn batch_deadline(entry_msec: u64, timeout_msec: u64) -> (r: u64)
    ensures
        r == deadline_of(entry_msec, timeout_msec),
{
    entry_msec.saturating_add(timeout_msec)
}

/// Turns every leg into a request, in order; a leg that cannot be built is marked as such.
pub fn build_out_requests(batch: OctoplexRequest) -> (r: Vec<MaterializedLeg>)
    ensures
        r@.len() == batch.requests@.len(),
        forall|i: int| 0 <= i < r@.len() ==> materializes(batch.requests@[i], #[trigger] r@[i]),
{
    let ghost legs = batch.requests@;
    let mut rest = batch.requests;
    let mut out: Vec<MaterializedLeg> = Vec::new();
    let n = rest.len();
    let mut i: usize = 0;
    while i < n
        invariant
            n == legs.len(),
            0 <= i <= n,
            rest@ == legs.subrange(i as int, n as int),
            out@.len() == i,
            forall|k: int| 0 <= k < i ==> materializes(legs[k], #[trigger] out@[k]),
        decreases n - i,
    {
        let leg = rest.remove(0);
        assert(leg == legs[i as int]);
        let m = materialize(leg);
        out.push(m);
        proof {
            assert(rest@ =~= legs.subrange(i + 1, n as int));
        }
        i = i + 1;
    }
    out
}

/// A batch that passed the limits: its deadline and its legs, ready to run.
pub struct PreparedBatch {
    pub deadline_msec: u64,
    pub legs: Vec<MaterializedLeg>,
}

/// `r` is what a batch entering at `entry_msec` comes to before its legs run: the first
/// limit it breaks, or its deadline and one leg per request, leg `i` built from request `i`.
pub open spec fn prepared_from(
    batch: OctoplexRequest,
    entry_msec: u64,
    r: Result<PreparedBatch, ValidationError>,
) -> bool {
    match verdict(batch.timeout_msec, batch.requests@.len()) {
        Some(e) => r matches Err(x) && x == e,
        None => r matches Ok(p) && p.deadline_msec == deadline_of(entry_msec, batch.timeout_msec)
            && p.legs@.len() == batch.requests@.len() && forall|i: int|
            0 <= i < p.legs@.len() ==> materializes(batch.requests@[i], #[trigger] p.legs@[i]),
    }
}

/// Everything a batch goes through before its legs run: the limits, the shared deadline,
/// and each leg turned into a request. A refused batch yields no leg to run.
pub fn prepare_batch(batch: OctoplexRequest, entry_msec: u64) -> (r: Result<
    PreparedBatch,
    ValidationError,
>)
    ensures
        prepared_from(batch, entry_msec, r),
{
    let batch = match validate_request(batch) {
        Ok(b) => b,
        Err(e) => return Err(e),
    };
    let deadline_msec = batch_deadline(entry_msec, batch.timeout_msec);
    let legs = build_out_requests(batch);
    Ok(PreparedBatch { deadline_msec, legs })
}

/// The message of a failed leg.
pub open spec fn failure_text(r: LegResult) -> Seq<char> {
    match r {
        LegResult::RequestInvalid { cause } => "the request was invalid: "@ + cause@,
        LegResult::RequestFailure { cause, .. } => "the request failed: "@ + cause@,
        LegResult::ResponseFailure { cause, .. } => "failure during response: "@ + cause@,
        LegResult::ResponseTimeout { .. } => "timeout elapsed"@,
        LegResult::Completed { .. } => Seq::empty(),
    }
}

/// `o` is what the caller sees of `r`.
pub open spec fn outcome_agrees(r: LegResult, o: SingleOutcome) -> bool {
    match r {
        LegResult::Completed { status, headers, content, duration_msec } => o
            == SingleOutcome::Success(
            SingleHttpResponse { headers, status, content: Some(content), duration_msec },
        ),
        _ => o matches SingleOutcome::Failure(f) && f.error@ == failure_text(r) && f.duration_msec
            == result_duration(r),
    }
}

/// Renders how a leg ended for the caller: a reply as a success, every other end as a
/// failure with its message and time.
pub fn outcome_of(r: LegResult) -> (o: SingleOutcome)
    ensures
        outcome_agrees(r, o),
{
    match r {
        LegResult::Completed { status, headers, content, duration_msec } => SingleOutcome::Success(
            SingleHttpResponse { headers, status, content: Some(content), duration_msec },
        ),
        LegResult::RequestInvalid { cause } => SingleOutcome::Failure(
            SingleHttpFailure {
                error: String::from_str("the request was invalid: ").concat(cause.as_str()),
                duration_msec: 0,
            },
        ),
        LegResult::RequestFailure { cause, duration_msec } => SingleOutcome::Failure(
            SingleHttpFailure {
                error: String::from_str("the request failed: ").concat(cause.as_str()),
                duration_msec,
            },
        ),
        LegResult::ResponseFailure { cause, duration_msec } => SingleOutcome::Failure(
            SingleHttpFailure {
                error: String::from_str("failure during response: ").concat(cause.as_str()),
                duration_msec,
            },
        ),
        LegResult::ResponseTimeout { duration_msec } => SingleOutcome::Failure(
            SingleHttpFailure { error: String::from_str("timeout elapsed"), duration_msec },
        ),
    }
}

/// `reply` holds one outcome per result, the outcome at `i` being what the caller sees of
/// result `i`.
pub open spec fn aggregated(results: Seq<LegResult>, reply: OctoplexResponse) -> bool {
    &&& reply.responses@.len() == results.len()
    &&& forall|i: int|
        0 <= i < results.len() ==> outcome_agrees(results[i], #[trigger] reply.responses@[i])
}

/// Folds the legs' ends into the batch's reply, one outcome per leg, in the legs' order.
pub fn aggregate(results: Vec<LegResult>) -> (r: OctoplexResponse)
    ensures
        aggregated(results@, r),
{
    let ghost all = results@;
    let mut rest = results;
    let mut responses: Vec<SingleOutcome> = Vec::new();
    let n = rest.len();
    let mut i: usize = 0;
    while i < n
        invariant
            n == all.len(),
            0 <= i <= n,
            rest@ == all.subrange(i as int, n as int),
            responses@.len() == i,
            forall|k: int| 0 <= k < i ==> outcome_agrees(all[k], #[trigger] responses@[k]),
        decreases n - i,
    {
        let r = rest.remove(0);
        assert(r == all[i as int]);
        responses.push(outcome_of(r));
        proof {
            assert(rest@ =~= all.subrange(i + 1, n as int));
        }
        i = i + 1;
    }
    OctoplexResponse { responses }
}

/// A leg that could not be built reports no time spent.
pub proof fn law_invalid_takes_no_time(r: LegResult, o: SingleOutcome)
    requires
        r is RequestInvalid,
        outcome_agrees(r, o),
    ensures
        o matches SingleOutcome::Failure(f) && f.duration_msec == 0,
{
}

/// Each leg's outcome depends on how that leg ended alone: two batches whose legs at `i`
/// ended alike give outcomes of the same kind at `i`, whatever their other legs came to.
pub proof fn law_isolation(
    a: Seq<LegResult>,
    b: Seq<LegResult>,
    ra: Seq<SingleOutcome>,
    rb: Seq<SingleOutcome>,
    i: int,
)
    requires
        ra.len() == a.len(),
        rb.len() == b.len(),
        forall|k: int| 0 <= k < a.len() ==> outcome_agrees(a[k], #[trigger] ra[k]),
        forall|k: int| 0 <= k < b.len() ==> outcome_agrees(b[k], #[trigger] rb[k]),
        0 <= i < a.len(),
        i < b.len(),
        a[i] == b[i],
    ensures
        ra[i] is Success <==> rb[i] is Success,
        ra[i] is Success ==> ra[i] == rb[i],
{
    assert(outcome_agrees(a[i], ra[i]));
    assert(outcome_agrees(b[i], rb[i]));
}

/// A batch that passes the limits gets one outcome per request, in the order of the
/// requests, once each of its prepared legs has ended in one result, kept in the legs'
/// order: the outcome at `i` is that of leg `i`, built from request `i`.
pub proof fn law_one_outcome_per_request(
    batch: OctoplexRequest,
    entry_msec: u64,
    prepared: PreparedBatch,
    results: Seq<LegResult>,
    reply: OctoplexResponse,
)
    requires
        prepared_from(batch, entry_msec, Ok(prepared)),
        results.len() == prepared.legs@.len(),
        aggregated(results, reply),
    ensures
        verdict(batch.timeout_msec, batch.requests@.len()) is None,
        reply.responses@.len() == batch.requests@.len(),
        forall|i: int|
            0 <= i < batch.requests@.len() ==> materializes(batch.requests@[i], prepared.legs@[i])
                && outcome_agrees(results[i], #[trigger] reply.responses@[i]),
{
    assert forall|i: int| 0 <= i < batch.requests@.len() implies materializes(
        batch.requests@[i],
        prepared.legs@[i],
    ) && outcome_agrees(results[i], #[trigger] reply.responses@[i]) by {
        assert(materializes(batch.requests@[i], prepared.legs@[i]));
        assert(outcome_agrees(results[i], reply.responses@[i]));
    }
}

} // verus!
