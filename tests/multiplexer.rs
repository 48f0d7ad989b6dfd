use octoplex::api::{Headers, HttpMethod, OctoplexRequest, SingleHttpRequest, SingleOutcome};
use octoplex::leg::{LegEvent, LegResult, LegState};
use octoplex::multiplexer::{
    aggregate, batch_deadline, build_out_requests, decimal_text, outcome_of, prepare_batch,
    validate_request, ValidationError, MAX_BATCH_SIZE, MAX_REQUEST_DURATION_MSEC,
};
use octoplex::request::{materialize, LegDefect, MaterializedLeg};

const MOCK_REQUEST_DURATION_MSEC: u64 = 50;

fn google_request() -> SingleHttpRequest {
    SingleHttpRequest {
        method: HttpMethod::GET,
        uri: "https://www.google.com/".to_string(),
        headers: vec![],
        body: None,
    }
}

fn get(uri: &str) -> SingleHttpRequest {
    SingleHttpRequest { method: HttpMethod::GET, uri: uri.to_string(), headers: vec![], body: None }
}

fn json_headers() -> Headers {
    Headers::from_entries(vec![(
        "content-type".to_string(),
        "application/json; charset=utf-8".to_string(),
    )])
}

/// Runs one leg through the state machine on the given events, as the server's loop does.
fn run_leg(leg: MaterializedLeg, events: Vec<LegEvent>) -> LegResult {
    let (mut state, request) = LegState::start(leg);
    if request.is_some() {
        for e in events {
            state = state.step(e);
        }
    }
    match state {
        LegState::Finished(r) => r,
        other => panic!("leg did not finish: {:?}", other),
    }
}

fn ok_events(start: u64, end: u64) -> Vec<LegEvent> {
    vec![
        LegEvent::Dispatched { now_msec: start },
        LegEvent::HeadReceived { status: 200, headers: json_headers() },
        LegEvent::BodyRead { now_msec: end, body: b"{}".to_vec() },
    ]
}

fn err_events(start: u64, end: u64) -> Vec<LegEvent> {
    vec![
        LegEvent::Dispatched { now_msec: start },
        LegEvent::RequestFailed { now_msec: end, cause: "just some error".to_string() },
    ]
}

#[test]
fn rejects_excessive_timeout() {
    let batch = OctoplexRequest { timeout_msec: 5_000_000, requests: vec![google_request()] };

    let result = prepare_batch(batch, 0);

    assert!(result.is_err(), "expected Err");
    assert_eq!(
        result.err().unwrap(),
        ValidationError::MaximumTimeoutExceeded(MAX_REQUEST_DURATION_MSEC)
    );
}

#[test]
fn rejects_empty_batch() {
    let batch = OctoplexRequest { timeout_msec: MOCK_REQUEST_DURATION_MSEC * 2, requests: vec![] };

    let result = prepare_batch(batch, 0);

    assert!(result.is_err(), "expected Err");
    assert_eq!(result.err().unwrap(), ValidationError::EmptyBatchRequested);
}

#[test]
fn rejects_oversized_batch() {
    let mut requests = vec![];
    for _ in 0..75 {
        requests.push(google_request());
    }
    let batch = OctoplexRequest { timeout_msec: MOCK_REQUEST_DURATION_MSEC * 2, requests };

    let result = prepare_batch(batch, 0);

    assert!(result.is_err(), "expected Err");
    let e = result.err().unwrap();
    assert_eq!(e, ValidationError::MaximumBatchSizeExceeded(MAX_BATCH_SIZE));
    assert_eq!(e.message(), "there may not be more than 50 requests in the batch");
}

#[test]
fn uses_http_client() {
    let batch = OctoplexRequest {
        timeout_msec: MOCK_REQUEST_DURATION_MSEC * 2,
        requests: vec![google_request()],
    };
    let prepared = prepare_batch(batch, 0).expect("expected Ok");
    assert_eq!(prepared.deadline_msec, 100);

    let results: Vec<LegResult> = prepared
        .legs
        .into_iter()
        .map(|leg| run_leg(leg, ok_events(0, MOCK_REQUEST_DURATION_MSEC)))
        .collect();
    let result = aggregate(results);

    assert_eq!(result.responses.len(), 1);
    assert_eq!(result.responses[0].kind_name(), "Success");
    match &result.responses[0] {
        SingleOutcome::Success(r) => {
            assert_eq!(r.status, 200);
            assert_eq!(r.content.as_deref(), Some("{}"));
            assert!(r.duration_msec >= MOCK_REQUEST_DURATION_MSEC && r.duration_msec <= 100);
        }
        other => panic!("expected a success, got {:?}", other),
    }
}

#[test]
fn handles_timeout() {
    let batch = OctoplexRequest {
        timeout_msec: MOCK_REQUEST_DURATION_MSEC / 2,
        requests: vec![google_request()],
    };
    let prepared = prepare_batch(batch, 1_000).expect("expected Ok");
    let deadline = prepared.deadline_msec;
    assert_eq!(deadline, 1_025);

    let results: Vec<LegResult> = prepared
        .legs
        .into_iter()
        .map(|leg| {
            run_leg(
                leg,
                vec![
                    LegEvent::Dispatched { now_msec: 1_000 },
                    LegEvent::DeadlineElapsed { now_msec: deadline },
                ],
            )
        })
        .collect();
    let result = aggregate(results);

    assert_eq!(result.responses.len(), 1);
    assert_eq!(result.responses[0].kind_name(), "Failure");
    match &result.responses[0] {
        SingleOutcome::Failure(f) => {
            assert_eq!(f.error, "timeout elapsed");
            assert_eq!(f.duration_msec, 25);
        }
        other => panic!("expected a failure, got {:?}", other),
    }
}

#[test]
fn handles_http_error() {
    let batch = OctoplexRequest {
        timeout_msec: MOCK_REQUEST_DURATION_MSEC * 2,
        requests: vec![google_request()],
    };
    let prepared = prepare_batch(batch, 0).expect("expected Ok");

    let results: Vec<LegResult> =
        prepared.legs.into_iter().map(|leg| run_leg(leg, err_events(0, 0))).collect();
    let result = aggregate(results);

    assert_eq!(result.responses.len(), 1);
    assert_eq!(result.responses[0].kind_name(), "Failure");
    match &result.responses[0] {
        SingleOutcome::Failure(f) => {
            assert!(f.error.starts_with("the request failed:"));
            assert_eq!(f.error, "the request failed: just some error");
            assert_eq!(f.duration_msec, 0);
        }
        other => panic!("expected a failure, got {:?}", other),
    }
}

#[test]
fn mixed_batch_keeps_order() {
    let batch = OctoplexRequest {
        timeout_msec: 100,
        requests: vec![get("https://a/"), get("https://b/"), get("https://c/")],
    };
    let prepared = prepare_batch(batch, 0).expect("expected Ok");
    let mut legs = prepared.legs.into_iter();
    // the legs end in another order than they were given
    let third = run_leg(legs.next_back().unwrap(), ok_events(0, 10));
    let second = run_leg(legs.next_back().unwrap(), err_events(0, 20));
    let first = run_leg(legs.next_back().unwrap(), ok_events(0, 60));
    let result = aggregate(vec![first, second, third]);

    let kinds: Vec<&str> = result.responses.iter().map(|o| o.kind_name()).collect();
    assert_eq!(kinds, vec!["Success", "Failure", "Success"]);
}

#[test]
fn invalid_uri_leg_never_sent() {
    let batch = OctoplexRequest {
        timeout_msec: 100,
        requests: vec![get("not a url"), get("https://a/")],
    };
    let prepared = prepare_batch(batch, 0).expect("expected Ok");
    let mut sent = 0;
    let mut results = vec![];
    for leg in prepared.legs {
        let (mut state, request) = LegState::start(leg);
        if request.is_some() {
            sent += 1;
            for e in ok_events(0, 50) {
                state = state.step(e);
            }
        }
        match state {
            LegState::Finished(r) => results.push(r),
            other => panic!("leg did not finish: {:?}", other),
        }
    }
    assert_eq!(sent, 1);
    let result = aggregate(results);
    assert_eq!(result.responses.len(), 2);
    match &result.responses[0] {
        SingleOutcome::Failure(f) => {
            assert_eq!(f.duration_msec, 0);
            assert!(f.error.starts_with("the request was invalid: "));
        }
        other => panic!("expected a failure, got {:?}", other),
    }
    assert_eq!(result.responses[1].kind_name(), "Success");
}

#[test]
fn validation_limits_are_inclusive() {
    let mut requests = vec![];
    for _ in 0..50 {
        requests.push(google_request());
    }
    let batch = OctoplexRequest { timeout_msec: 3_600_000, requests };
    assert!(validate_request(batch).is_ok());

    let batch = OctoplexRequest { timeout_msec: 3_600_001, requests: vec![] };
    assert_eq!(
        validate_request(batch).err().unwrap(),
        ValidationError::MaximumTimeoutExceeded(3_600_000)
    );
}

#[test]
fn validation_messages() {
    assert_eq!(
        ValidationError::MaximumTimeoutExceeded(MAX_REQUEST_DURATION_MSEC).message(),
        "timeout may not be more than 1h"
    );
    assert_eq!(
        ValidationError::MaximumTimeoutExceeded(90_500).message(),
        "timeout may not be more than 1m 30s 500ms"
    );
    assert_eq!(
        ValidationError::EmptyBatchRequested.message(),
        "there must be at least one request in the batch"
    );
}

#[test]
fn decimal_text_writes_numbers() {
    assert_eq!(decimal_text(0), "0");
    assert_eq!(decimal_text(7), "7");
    assert_eq!(decimal_text(50), "50");
    assert_eq!(decimal_text(1_000_007), "1000007");
    assert_eq!(decimal_text(u64::MAX), "18446744073709551615");
}

#[test]
fn deadline_is_entry_plus_budget() {
    assert_eq!(batch_deadline(10, 25), 35);
    assert_eq!(batch_deadline(u64::MAX - 1, 25), u64::MAX);
}

#[test]
fn build_out_requests_keeps_length_and_order() {
    let batch = OctoplexRequest {
        timeout_msec: 10,
        requests: vec![get("https://a/"), get("bad uri"), get("http://b/x?y=1")],
    };
    let legs = build_out_requests(batch);
    assert_eq!(legs.len(), 3);
    assert!(matches!(legs[0], MaterializedLeg::ValidRequest(_)));
    assert!(matches!(
        legs[1],
        MaterializedLeg::InvalidRequest { defect: LegDefect::MalformedUri, .. }
    ));
    assert!(matches!(legs[2], MaterializedLeg::ValidRequest(_)));
}

#[test]
fn materialize_builds_the_request() {
    let leg = SingleHttpRequest {
        method: HttpMethod::PUT,
        uri: "https://example.com/items/1".to_string(),
        headers: vec![("X-Trace".to_string(), "abc\tdef".to_string())],
        body: Some("payload".to_string()),
    };
    match materialize(leg) {
        MaterializedLeg::ValidRequest(req) => {
            assert_eq!(req.method(), http::Method::PUT);
            assert_eq!(req.uri(), "https://example.com/items/1");
            assert_eq!(req.headers().get("x-trace").unwrap(), "abc\tdef");
        }
        MaterializedLeg::InvalidRequest { cause, .. } => panic!("unexpected rejection: {}", cause),
    }
}

#[test]
fn materialize_rejects_bad_headers() {
    let mut leg = get("https://a/");
    leg.headers = vec![("bad name".to_string(), "v".to_string())];
    assert!(matches!(
        materialize(leg),
        MaterializedLeg::InvalidRequest { defect: LegDefect::IllegalHeaderName, .. }
    ));

    let mut leg = get("https://a/");
    leg.headers = vec![
        ("ok".to_string(), "fine".to_string()),
        ("x-val".to_string(), "line\nbreak".to_string()),
    ];
    assert!(matches!(
        materialize(leg),
        MaterializedLeg::InvalidRequest { defect: LegDefect::IllegalHeaderValue, .. }
    ));

    let mut leg = get("https://a/");
    leg.headers = vec![("".to_string(), "v".to_string())];
    assert!(matches!(
        materialize(leg),
        MaterializedLeg::InvalidRequest { defect: LegDefect::IllegalHeaderName, .. }
    ));

    let mut leg = get("not a url");
    leg.headers = vec![("bad name".to_string(), "v".to_string())];
    assert!(matches!(
        materialize(leg),
        MaterializedLeg::InvalidRequest { defect: LegDefect::MalformedUri, .. }
    ));
}

#[test]
fn request_invalid_renders_with_zero_duration() {
    match outcome_of(LegResult::RequestInvalid { cause: "invalid uri character".to_string() }) {
        SingleOutcome::Failure(f) => {
            assert_eq!(f.error, "the request was invalid: invalid uri character");
            assert_eq!(f.duration_msec, 0);
        }
        other => panic!("expected a failure, got {:?}", other),
    }
}

#[test]
fn response_failure_and_timeout_render() {
    match outcome_of(LegResult::ResponseFailure { cause: "eof".to_string(), duration_msec: 7 }) {
        SingleOutcome::Failure(f) => {
            assert_eq!(f.error, "failure during response: eof");
            assert_eq!(f.duration_msec, 7);
        }
        other => panic!("expected a failure, got {:?}", other),
    }
    match outcome_of(LegResult::ResponseTimeout { duration_msec: 9 }) {
        SingleOutcome::Failure(f) => {
            assert_eq!(f.error, "timeout elapsed");
            assert_eq!(f.duration_msec, 9);
        }
        other => panic!("expected a failure, got {:?}", other),
    }
}

#[test]
fn body_failure_after_head() {
    let state = LegState::Pending
        .step(LegEvent::Dispatched { now_msec: 5 })
        .step(LegEvent::HeadReceived { status: 503, headers: Headers::from_entries(vec![]) })
        .step(LegEvent::BodyFailed { now_msec: 12, cause: "reset".to_string() });
    match state {
        LegState::Finished(LegResult::ResponseFailure { cause, duration_msec }) => {
            assert_eq!(cause, "reset");
            assert_eq!(duration_msec, 7);
        }
        other => panic!("unexpected state {:?}", other),
    }
}

#[test]
fn non_2xx_is_a_success_and_body_is_decoded_lossily() {
    let state = LegState::Pending
        .step(LegEvent::Dispatched { now_msec: 5 })
        .step(LegEvent::HeadReceived { status: 404, headers: Headers::from_entries(vec![]) })
        .step(LegEvent::BodyRead { now_msec: 6, body: vec![b'o', 0xff, b'k'] });
    match outcome_of(match state {
        LegState::Finished(r) => r,
        other => panic!("unexpected state {:?}", other),
    }) {
        SingleOutcome::Success(r) => {
            assert_eq!(r.status, 404);
            assert_eq!(r.content.as_deref(), Some("o\u{FFFD}k"));
            assert_eq!(r.duration_msec, 1);
        }
        other => panic!("expected a success, got {:?}", other),
    }
}

#[test]
fn empty_body_gives_empty_content() {
    let state = LegState::Pending
        .step(LegEvent::Dispatched { now_msec: 0 })
        .step(LegEvent::HeadReceived { status: 204, headers: Headers::from_entries(vec![]) })
        .step(LegEvent::BodyRead { now_msec: 3, body: vec![] });
    match state {
        LegState::Finished(LegResult::Completed { content, .. }) => assert_eq!(content, ""),
        other => panic!("unexpected state {:?}", other),
    }
}

#[test]
fn clock_going_back_gives_zero_duration() {
    let state = LegState::Pending
        .step(LegEvent::Dispatched { now_msec: 100 })
        .step(LegEvent::RequestFailed { now_msec: 90, cause: "refused".to_string() });
    match state {
        LegState::Finished(LegResult::RequestFailure { duration_msec, .. }) => {
            assert_eq!(duration_msec, 0)
        }
        other => panic!("unexpected state {:?}", other),
    }
}

#[test]
fn finished_leg_ignores_later_events() {
    let state = LegState::Pending
        .step(LegEvent::Dispatched { now_msec: 0 })
        .step(LegEvent::DeadlineElapsed { now_msec: 25 })
        .step(LegEvent::HeadReceived { status: 200, headers: Headers::from_entries(vec![]) })
        .step(LegEvent::BodyRead { now_msec: 50, body: b"{}".to_vec() });
    assert!(state.is_finished());
    match state {
        LegState::Finished(LegResult::ResponseTimeout { duration_msec }) => {
            assert_eq!(duration_msec, 25)
        }
        other => panic!("unexpected state {:?}", other),
    }
}

#[test]
fn failing_leg_does_not_change_sibling_kind() {
    let mk = |second_fails: bool| {
        let second = if second_fails {
            LegResult::RequestFailure { cause: "x".to_string(), duration_msec: 1 }
        } else {
            LegResult::ResponseTimeout { duration_msec: 2 }
        };
        aggregate(vec![
            LegResult::Completed {
                status: 200,
                headers: Headers::from_entries(vec![]),
                content: "a".to_string(),
                duration_msec: 3,
            },
            second,
        ])
    };
    let a = mk(true);
    let b = mk(false);
    assert_eq!(a.responses[0], b.responses[0]);
    assert_eq!(a.responses[0].kind_name(), "Success");
}

#[test]
fn finish_ends_an_unfinished_leg_at_the_deadline() {
    let sending = LegState::Pending.step(LegEvent::Dispatched { now_msec: 10 });
    match sending.finish(35) {
        LegResult::ResponseTimeout { duration_msec } => assert_eq!(duration_msec, 25),
        other => panic!("unexpected result {:?}", other),
    }
    let done = LegState::Finished(LegResult::RequestInvalid { cause: "c".to_string() });
    match done.finish(99) {
        LegResult::RequestInvalid { cause } => assert_eq!(cause, "c"),
        other => panic!("unexpected result {:?}", other),
    }
}

#[test]
fn repeated_header_name_carries_each_value() {
    let mut leg = get("https://a/");
    leg.headers = vec![
        ("Accept".to_string(), "text/plain".to_string()),
        ("accept".to_string(), "application/json".to_string()),
    ];
    match materialize(leg) {
        MaterializedLeg::ValidRequest(req) => {
            let values: Vec<&str> =
                req.headers().get_all("accept").iter().map(|v| v.to_str().unwrap()).collect();
            assert_eq!(values, vec!["text/plain", "application/json"]);
        }
        MaterializedLeg::InvalidRequest { cause, .. } => panic!("unexpected rejection: {}", cause),
    }
}

#[test]
fn many_headers_still_fit() {
    let mut leg = get("https://a/");
    leg.headers = (0..6553).map(|i| (format!("x-h{}", i), "v".to_string())).collect();
    match materialize(leg) {
        MaterializedLeg::ValidRequest(req) => assert_eq!(req.headers().len(), 6553),
        MaterializedLeg::InvalidRequest { cause, .. } => panic!("unexpected rejection: {}", cause),
    }
}

#[test]
fn start_hands_out_the_legs_own_request() {
    let leg = SingleHttpRequest {
        method: HttpMethod::DELETE,
        uri: "http://b/items/9".to_string(),
        headers: vec![],
        body: None,
    };
    let (state, request) = LegState::start(materialize(leg));
    assert!(matches!(state, LegState::Pending));
    let request = request.expect("a valid leg is sent");
    assert_eq!(request.method(), http::Method::DELETE);
    assert_eq!(request.uri(), "http://b/items/9");
}

#[test]
fn humantime_texts() {
    assert_eq!(
        ValidationError::MaximumTimeoutExceeded(0).message(),
        "timeout may not be more than 0s"
    );
    assert_eq!(
        ValidationError::MaximumTimeoutExceeded(172_800_001).message(),
        "timeout may not be more than 2days 1ms"
    );
    assert_eq!(
        ValidationError::MaximumTimeoutExceeded(31_557_600_000 + 2_630_016_000 + 61_000).message(),
        "timeout may not be more than 1year 1month 1m 1s"
    );
}
