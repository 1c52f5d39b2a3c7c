use captcha_ark::outcome::{CaptchaResponse, RejectReason, VerificationOutcome};
use captcha_ark::protocol::{
    classify, classify_retry, verify_captcha, ChallengeTicket, Command, Event, Input, Misstep,
    Stage, Step, CLIENT_WAIT_SECS, CONNECT_TIMEOUT_SECS, RETRY_PAUSE_MILLIS, SERVER_WAIT_SECS,
};

fn input() -> Input {
    Input {
        session_id: "sess-42".to_string(),
        buyer: "alice.testnet".to_string(),
        amount: "3000000000000000000000000".to_string(),
        launchpad_url: "https://launch.example".to_string(),
    }
}

fn answered(status: u16, body: &str) -> Event {
    Event::Answered { status, body: body.as_bytes().to_vec() }
}

fn ticket(id: &str) -> ChallengeTicket {
    ChallengeTicket { challenge_id: id.to_string() }
}

fn step(stage: Stage, event: Event) -> Step {
    verify_captcha(&input(), stage, event).expect("the stage waits for the event")
}

fn finished(step: Step) -> VerificationOutcome {
    assert_eq!(step.stage, Stage::Finished);
    match step.command {
        Command::Finish(outcome) => outcome,
        other => panic!("no outcome: {:?}", other),
    }
}

/// Runs a whole verification against the replies given, in their order.
fn run(replies: Vec<Event>) -> (VerificationOutcome, usize) {
    let mut replies = replies.into_iter();
    let mut current = step(Stage::Idle, Event::Started);
    let mut moves = 1;
    loop {
        let event = match &current.command {
            Command::Finish(outcome) => return (outcome.clone(), moves),
            Command::Pause { .. } => Event::Resumed,
            _ => replies.next().expect("a reply for each request"),
        };
        current = step(current.stage, event);
        moves += 1;
    }
}

#[test]
fn the_first_move_creates_the_challenge() {
    let first = step(Stage::Idle, Event::Started);
    assert_eq!(first.stage, Stage::Creating);
    match first.command {
        Command::Post { url, content_type, body, connect_timeout_secs } => {
            assert_eq!(url, "https://launch.example/api/captcha/challenge");
            assert_eq!(content_type, "application/json");
            assert_eq!(connect_timeout_secs, 10);
            let sent: serde_json::Value = serde_json::from_str(&body).unwrap();
            let members = sent.as_object().unwrap();
            assert_eq!(members.len(), 3);
            assert_eq!(sent["session_id"], "sess-42");
            assert_eq!(sent["buyer"], "alice.testnet");
            assert_eq!(sent["amount"], "3000000000000000000000000");
        }
        other => panic!("no creation request: {:?}", other),
    }
}

#[test]
fn a_created_challenge_is_waited_for() {
    let next = step(Stage::Creating, answered(200, r#"{"challenge_id":"ch-7"}"#));
    assert_eq!(next.stage, Stage::Waiting(ticket("ch-7")));
    assert_eq!(
        next.command,
        Command::Get {
            url: "https://launch.example/api/captcha/wait/ch-7?timeout=60".to_string(),
            connect_timeout_secs: 65,
        }
    );
}

#[test]
fn the_timeouts_are_as_documented() {
    assert_eq!(CONNECT_TIMEOUT_SECS, 10);
    assert_eq!(SERVER_WAIT_SECS, 60);
    assert_eq!(CLIENT_WAIT_SECS, 65);
    assert!(CLIENT_WAIT_SECS > SERVER_WAIT_SECS);
    assert_eq!(RETRY_PAUSE_MILLIS, 500);
}

#[test]
fn a_challenge_response_may_hold_more_than_the_identifier() {
    let next = step(
        Stage::Creating,
        answered(201, r#"{"expires": 60, "challenge_id": "a b", "extra": [1, 2]}"#),
    );
    assert_eq!(next.stage, Stage::Waiting(ticket("a b")));
}

#[test]
fn a_failed_creation_is_a_delivery_error() {
    let outcome = finished(step(Stage::Creating, answered(500, "boom")));
    assert_eq!(
        outcome,
        VerificationOutcome::DeliveryError(
            "Failed to create challenge. Status: 500. Details: boom".to_string()
        )
    );
    let response = outcome.into_response("sess-42".to_string());
    assert_eq!(
        response,
        CaptchaResponse {
            verified: false,
            session_id: "sess-42".to_string(),
            error: Some(
                "Verification failed: Failed to create challenge. Status: 500. Details: boom"
                    .to_string()
            ),
            error_type: Some("system_error".to_string()),
        }
    );
}

#[test]
fn a_failed_creation_ends_the_verification_at_once() {
    let (outcome, moves) = run(vec![answered(500, "")]);
    assert!(matches!(outcome, VerificationOutcome::DeliveryError(_)));
    assert_eq!(moves, 2);
}

#[test]
fn the_details_of_a_failure_are_decoded_leniently() {
    let event = Event::Answered { status: 404, body: vec![b'n', b'o', 0xff, b'!'] };
    let outcome = finished(step(Stage::Creating, event));
    assert_eq!(
        outcome,
        VerificationOutcome::DeliveryError(
            "Failed to create challenge. Status: 404. Details: no\u{fffd}!".to_string()
        )
    );
}

#[test]
fn the_bounds_of_success_are_200_and_299() {
    let body = r#"{"challenge_id":"c"}"#;
    assert_eq!(step(Stage::Creating, answered(199, body)).stage, Stage::Finished);
    assert_eq!(step(Stage::Creating, answered(200, body)).stage, Stage::Waiting(ticket("c")));
    assert_eq!(step(Stage::Creating, answered(299, body)).stage, Stage::Waiting(ticket("c")));
    assert_eq!(step(Stage::Creating, answered(300, body)).stage, Stage::Finished);
}

#[test]
fn an_unsent_request_is_a_delivery_error() {
    let event = Event::Unsent { detail: "connection refused".to_string() };
    assert_eq!(
        finished(step(Stage::Creating, event.clone())),
        VerificationOutcome::DeliveryError("connection refused".to_string())
    );
    assert_eq!(
        finished(step(Stage::Waiting(ticket("c")), event)),
        VerificationOutcome::DeliveryError("connection refused".to_string())
    );
}

#[test]
fn an_unreadable_body_is_a_delivery_error() {
    let failed = Event::Unreadable {
        status: 502,
        error: "stream closed".to_string(),
        debug: "Closed(stream)".to_string(),
    };
    assert_eq!(
        finished(step(Stage::Creating, failed.clone())),
        VerificationOutcome::DeliveryError(
            "Failed to create challenge. Status: 502. Failed to read body: Closed(stream)"
                .to_string()
        )
    );
    assert_eq!(
        finished(step(Stage::Waiting(ticket("c")), failed)),
        VerificationOutcome::DeliveryError(
            "Failed to verify CAPTCHA. Status: 502. Failed to read body: Closed(stream)".to_string()
        )
    );
    let succeeded = Event::Unreadable {
        status: 200,
        error: "stream closed".to_string(),
        debug: "Closed(stream)".to_string(),
    };
    assert_eq!(
        finished(step(Stage::Creating, succeeded)),
        VerificationOutcome::DeliveryError("stream closed".to_string())
    );
}

/// What the parser says of a body that is no JSON document.
fn parser_report(body: &str) -> String {
    serde_json::from_str::<serde_json::Value>(body).unwrap_err().to_string()
}

#[test]
fn a_challenge_that_is_no_json_is_a_delivery_error_with_the_parser_report() {
    assert_eq!(
        finished(step(Stage::Creating, answered(200, ""))),
        VerificationOutcome::DeliveryError("EOF while parsing a value at line 1 column 0".to_string())
    );
    for body in ["", "not json", "{", r#"{"challenge_id":"c""#, "{} {}"] {
        assert_eq!(
            finished(step(Stage::Creating, answered(200, body))),
            VerificationOutcome::DeliveryError(parser_report(body))
        );
    }
}

#[test]
fn a_challenge_without_its_identifier_is_a_delivery_error() {
    let lacking = VerificationOutcome::DeliveryError("missing field `challenge_id`".to_string());
    for body in ["{}", r#"{"challenge_id": 7}"#, r#"["challenge_id"]"#, r#"{"id":"c"}"#, "null"] {
        assert_eq!(finished(step(Stage::Creating, answered(200, body))), lacking);
    }
}

#[test]
fn an_answer_that_is_no_json_is_a_delivery_error_with_the_parser_report() {
    for body in ["", "{", r#"{"status":"solved","verified":tru}"#] {
        assert_eq!(
            finished(step(Stage::Waiting(ticket("c")), answered(200, body))),
            VerificationOutcome::DeliveryError(parser_report(body))
        );
    }
}

#[test]
fn an_answer_without_its_fields_is_a_delivery_error() {
    let lacking =
        VerificationOutcome::DeliveryError("missing field `status` or `verified`".to_string());
    for body in [
        "{}",
        r#"{"status":"solved"}"#,
        r#"{"verified":true}"#,
        r#"{"status":"solved","verified":"yes"}"#,
        r#"{"status":1,"verified":true}"#,
    ] {
        assert_eq!(finished(step(Stage::Waiting(ticket("c")), answered(200, body))), lacking);
    }
}

#[test]
fn a_malformed_body_is_reported_as_the_parser_or_the_protocol_puts_it() {
    assert_eq!(
        captcha_ark::protocol::malformed(Some("expected value".to_string()), "missing field `x`"),
        VerificationOutcome::DeliveryError("expected value".to_string())
    );
    assert_eq!(
        captcha_ark::protocol::malformed(None, "missing field `x`"),
        VerificationOutcome::DeliveryError("missing field `x`".to_string())
    );
}

#[test]
fn a_failed_poll_is_a_delivery_error() {
    assert_eq!(
        finished(step(Stage::Waiting(ticket("c")), answered(503, "busy"))),
        VerificationOutcome::DeliveryError(
            "Failed to verify CAPTCHA. Status: 503. Details: busy".to_string()
        )
    );
}

#[test]
fn classification_covers_every_status() {
    assert_eq!(classify("solved", true), Some(VerificationOutcome::Verified));
    assert_eq!(
        classify("solved", false),
        Some(VerificationOutcome::Rejected(RejectReason::WrongAnswer))
    );
    assert_eq!(classify("timeout", true), Some(VerificationOutcome::TimedOut));
    assert_eq!(classify("timeout", false), Some(VerificationOutcome::TimedOut));
    assert_eq!(classify("pending", true), None);
    assert_eq!(classify("pending", false), None);
    assert_eq!(classify("exploded", true), Some(VerificationOutcome::ExecutionFailed));
    assert_eq!(classify("", false), Some(VerificationOutcome::ExecutionFailed));
    assert_eq!(classify("Solved", true), Some(VerificationOutcome::ExecutionFailed));
}

#[test]
fn the_retry_counts_only_a_solved_challenge() {
    assert_eq!(classify_retry("solved", true), VerificationOutcome::Verified);
    assert_eq!(
        classify_retry("solved", false),
        VerificationOutcome::Rejected(RejectReason::WrongAnswer)
    );
    assert_eq!(classify_retry("pending", true), VerificationOutcome::TimedOut);
    assert_eq!(classify_retry("timeout", true), VerificationOutcome::TimedOut);
    assert_eq!(classify_retry("exploded", true), VerificationOutcome::TimedOut);
}

#[test]
fn the_poll_decides_without_a_retry() {
    let wait = Stage::Waiting(ticket("c"));
    let solved = step(wait.clone(), answered(200, r#"{"status":"solved","verified":true}"#));
    assert_eq!(finished(solved), VerificationOutcome::Verified);
    let wrong = step(wait.clone(), answered(200, r#"{"status":"solved","verified":false}"#));
    assert_eq!(finished(wrong), VerificationOutcome::Rejected(RejectReason::WrongAnswer));
    let late = step(wait.clone(), answered(200, r#"{"status":"timeout","verified":false}"#));
    assert_eq!(finished(late), VerificationOutcome::TimedOut);
    let odd = step(wait, answered(200, r#"{"status":"melted","verified":false}"#));
    assert_eq!(finished(odd), VerificationOutcome::ExecutionFailed);
}

#[test]
fn an_undecided_poll_pauses_and_retries() {
    let paused =
        step(Stage::Waiting(ticket("ch-7")), answered(200, r#"{"status":"pending","verified":false}"#));
    assert_eq!(paused.stage, Stage::Pausing(ticket("ch-7")));
    assert_eq!(paused.command, Command::Pause { millis: 500 });
    let retry = step(paused.stage, Event::Resumed);
    assert_eq!(retry.stage, Stage::Rechecking);
    assert_eq!(
        retry.command,
        Command::Get {
            url: "https://launch.example/api/captcha/verify/ch-7".to_string(),
            connect_timeout_secs: 10,
        }
    );
}

#[test]
fn the_retry_ends_the_verification_whatever_comes() {
    let cases = vec![
        (answered(200, r#"{"status":"solved","verified":true}"#), VerificationOutcome::Verified),
        (
            answered(200, r#"{"status":"solved","verified":false}"#),
            VerificationOutcome::Rejected(RejectReason::WrongAnswer),
        ),
        (answered(200, r#"{"status":"pending","verified":false}"#), VerificationOutcome::TimedOut),
        (answered(200, r#"{"status":"timeout","verified":false}"#), VerificationOutcome::TimedOut),
        (answered(200, r#"{"status":"melted","verified":true}"#), VerificationOutcome::TimedOut),
        (answered(200, "garbage"), VerificationOutcome::TimedOut),
        (answered(500, r#"{"status":"solved","verified":true}"#), VerificationOutcome::TimedOut),
        (Event::Unsent { detail: "down".to_string() }, VerificationOutcome::TimedOut),
        (
            Event::Unreadable { status: 200, error: "cut".to_string(), debug: "Cut".to_string() },
            VerificationOutcome::TimedOut,
        ),
    ];
    for (event, expected) in cases {
        assert_eq!(finished(step(Stage::Rechecking, event)), expected);
    }
}

#[test]
fn a_solved_challenge_verifies_the_buyer() {
    let (outcome, moves) = run(vec![
        answered(200, r#"{"challenge_id":"ch-1"}"#),
        answered(200, r#"{"status":"solved","verified":true}"#),
    ]);
    assert_eq!(outcome, VerificationOutcome::Verified);
    assert_eq!(moves, 3);
    let response = outcome.into_response("sess-42".to_string());
    assert_eq!(
        response,
        CaptchaResponse {
            verified: true,
            session_id: "sess-42".to_string(),
            error: None,
            error_type: None,
        }
    );
}

#[test]
fn a_pending_poll_and_a_wrong_answer_on_retry_reject() {
    let (outcome, moves) = run(vec![
        answered(200, r#"{"challenge_id":"ch-1"}"#),
        answered(200, r#"{"status":"pending","verified":false}"#),
        answered(200, r#"{"status":"solved","verified":false}"#),
    ]);
    assert_eq!(outcome, VerificationOutcome::Rejected(RejectReason::WrongAnswer));
    assert_eq!(moves, 5);
}

#[test]
fn no_verification_takes_more_than_five_moves() {
    let scripts = vec![
        vec![Event::Unsent { detail: "x".to_string() }],
        vec![answered(200, r#"{"challenge_id":"c"}"#), answered(404, "")],
        vec![
            answered(200, r#"{"challenge_id":"c"}"#),
            answered(200, r#"{"status":"pending","verified":true}"#),
            answered(200, r#"{"status":"pending","verified":true}"#),
        ],
    ];
    for script in scripts {
        let (_, moves) = run(script);
        assert!(moves <= 5);
    }
}

#[test]
fn an_event_that_the_stage_does_not_wait_for_is_refused() {
    let reply = answered(200, "{}");
    let refused = vec![
        (Stage::Idle, Event::Resumed),
        (Stage::Idle, reply.clone()),
        (Stage::Creating, Event::Started),
        (Stage::Creating, Event::Resumed),
        (Stage::Waiting(ticket("c")), Event::Started),
        (Stage::Waiting(ticket("c")), Event::Resumed),
        (Stage::Pausing(ticket("c")), reply.clone()),
        (Stage::Pausing(ticket("c")), Event::Started),
        (Stage::Rechecking, Event::Resumed),
        (Stage::Finished, Event::Started),
        (Stage::Finished, Event::Resumed),
        (Stage::Finished, reply),
    ];
    for (stage, event) in refused {
        assert_eq!(verify_captcha(&input(), stage, event), Err(Misstep));
    }
}

#[test]
fn each_outcome_has_its_payload() {
    let session = "s".to_string();
    let wrong = VerificationOutcome::Rejected(RejectReason::WrongAnswer).into_response(session.clone());
    assert_eq!((wrong.verified, wrong.error, wrong.error_type.as_deref()), (false, None, Some("wrong_answer")));
    let late = VerificationOutcome::TimedOut.into_response(session.clone());
    assert_eq!((late.verified, late.error, late.error_type.as_deref()), (false, None, Some("timeout")));
    let failed = VerificationOutcome::ExecutionFailed.into_response(session.clone());
    assert_eq!((failed.verified, failed.error, failed.error_type.as_deref()), (false, None, Some("system_error")));
    let lost = VerificationOutcome::DeliveryError("dns".to_string()).into_response(session.clone());
    assert_eq!(lost.error.as_deref(), Some("Verification failed: dns"));
    assert_eq!(lost.error_type.as_deref(), Some("system_error"));
    assert_eq!(lost.session_id, session);
}

#[test]
fn the_moves_can_be_made_one_by_one() {
    let first = captcha_ark::protocol::begin(&input());
    assert_eq!(first, step(Stage::Idle, Event::Started));
    let second = captcha_ark::protocol::poll(&input(), ticket("ch-9"));
    assert_eq!(second.stage, Stage::Waiting(ticket("ch-9")));
    assert_eq!(
        second.command,
        Command::Get {
            url: "https://launch.example/api/captcha/wait/ch-9?timeout=60".to_string(),
            connect_timeout_secs: 65,
        }
    );
    let undecided = captcha_ark::protocol::decide(ticket("ch-9"), "pending", true);
    assert_eq!(undecided.stage, Stage::Pausing(ticket("ch-9")));
    assert_eq!(undecided.command, Command::Pause { millis: 500 });
    let decided = captcha_ark::protocol::decide(ticket("ch-9"), "timeout", true);
    assert_eq!(finished(decided), VerificationOutcome::TimedOut);
    let again = captcha_ark::protocol::retry(&input(), ticket("ch-9"));
    assert_eq!(again, step(Stage::Pausing(ticket("ch-9")), Event::Resumed));
}
