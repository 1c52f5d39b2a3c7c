use captcha_ark::outcome::{RejectReason, VerificationOutcome};
use captcha_ark::protocol::{verify_captcha, Command, Event, Input, Stage};
use captcha_ark::sale::{Dispatch, Effect, RefundReason, Settlement, TokenSaleContract};

const NEAR: u128 = 1_000_000_000_000_000_000_000_000;

/// The challenge service, as a list of what it answers to each request.
struct Service {
    answers: Vec<(u16, &'static str)>,
    requests: Vec<String>,
    pauses: Vec<u64>,
}

impl Service {
    fn answer(&mut self, url: &str) -> Event {
        self.requests.push(url.to_string());
        let (status, body) = self.answers.remove(0);
        Event::Answered { status, body: body.as_bytes().to_vec() }
    }
}

/// Reads the job input of a dispatch as the client does.
fn job_input(dispatch: &Dispatch) -> Input {
    let input: serde_json::Value = serde_json::from_str(&dispatch.input_data).unwrap();
    let member = |name: &str| input[name].as_str().unwrap().to_string();
    Input {
        session_id: member("session_id"),
        buyer: member("buyer"),
        amount: member("amount"),
        launchpad_url: member("launchpad_url"),
    }
}

/// Runs the client on the job of a dispatch, against the service.
fn verify(dispatch: &Dispatch, service: &mut Service) -> VerificationOutcome {
    let input = job_input(dispatch);
    let mut stage = Stage::Idle;
    let mut event = Event::Started;
    loop {
        let step = verify_captcha(&input, stage, event).unwrap();
        stage = step.stage;
        event = match step.command {
            Command::Finish(outcome) => return outcome,
            Command::Pause { millis } => {
                service.pauses.push(millis);
                Event::Resumed
            }
            Command::Post { url, .. } => service.answer(&url),
            Command::Get { url, .. } => service.answer(&url),
        };
    }
}

/// Dispatches a purchase, verifies it against the service and settles it.
fn purchase(
    sale: &mut TokenSaleContract,
    attached: u128,
    service: &mut Service,
) -> (Dispatch, Settlement) {
    let dispatch =
        sale.buy_tokens("alice.testnet".to_string(), attached, "sess-42".to_string()).unwrap();
    let outcome = verify(&dispatch, service);
    let response = outcome.into_response(dispatch.intent.session_id.clone());
    let settlement = sale.on_captcha_verified(
        dispatch.intent.buyer.clone(),
        dispatch.intent.attached,
        Ok(Some(response)),
    );
    (dispatch, settlement)
}

fn sale() -> TokenSaleContract {
    TokenSaleContract::new("owner.testnet".to_string(), 1_000, "https://launch.example".to_string())
}

#[test]
fn a_solved_challenge_sells_the_tokens() {
    let mut sale = sale();
    let mut service = Service {
        answers: vec![
            (200, r#"{"challenge_id":"ch-1"}"#),
            (200, r#"{"status":"solved","verified":true}"#),
        ],
        requests: vec![],
        pauses: vec![],
    };
    let attached = 2 * NEAR + NEAR / 10;
    let (dispatch, settlement) = purchase(&mut sale, attached, &mut service);
    assert_eq!(dispatch.intent.tokens, 200);
    assert_eq!(settlement.effect, Effect::Committed { tokens: 200 });
    assert_eq!(settlement.message, "Success! You bought 200 tokens for 2 NEAR. Session: sess-42");
    assert_eq!(sale.get_stats(), (200, 1_000));
    assert_eq!(
        service.requests,
        vec![
            "https://launch.example/api/captcha/challenge".to_string(),
            "https://launch.example/api/captcha/wait/ch-1?timeout=60".to_string(),
        ]
    );
    assert!(service.pauses.is_empty());
}

#[test]
fn a_wrong_answer_found_on_the_retry_refunds_the_buyer() {
    let mut sale = sale();
    let mut service = Service {
        answers: vec![
            (200, r#"{"challenge_id":"ch-1"}"#),
            (200, r#"{"status":"pending","verified":false}"#),
            (200, r#"{"status":"solved","verified":false}"#),
        ],
        requests: vec![],
        pauses: vec![],
    };
    let attached = 2 * NEAR + NEAR / 10;
    let dispatch =
        sale.buy_tokens("alice.testnet".to_string(), attached, "sess-42".to_string()).unwrap();
    let outcome = verify(&dispatch, &mut service);
    assert_eq!(outcome, VerificationOutcome::Rejected(RejectReason::WrongAnswer));
    assert_eq!(service.pauses, vec![500]);
    assert_eq!(service.requests.len(), 3);
    assert_eq!(service.requests[2], "https://launch.example/api/captcha/verify/ch-1");
    let settlement = sale.on_captcha_verified(
        dispatch.intent.buyer.clone(),
        dispatch.intent.attached,
        Ok(Some(outcome.into_response("sess-42".to_string()))),
    );
    assert_eq!(
        settlement.effect,
        Effect::Refunded {
            receiver: "alice.testnet".to_string(),
            amount: attached,
            reason: RefundReason::WrongAnswer,
        }
    );
    assert_eq!(sale.get_stats(), (0, 1_000));
}

#[test]
fn a_service_that_is_down_refunds_the_buyer() {
    let mut sale = sale();
    let mut service =
        Service { answers: vec![(500, "internal error")], requests: vec![], pauses: vec![] };
    let (dispatch, settlement) = purchase(&mut sale, 3 * NEAR, &mut service);
    assert_eq!(service.requests.len(), 1);
    assert_eq!(
        settlement.effect,
        Effect::Refunded {
            receiver: "alice.testnet".to_string(),
            amount: 3 * NEAR,
            reason: RefundReason::Unverified,
        }
    );
    assert_eq!(dispatch.deposit, 3 * NEAR);
    assert_eq!(dispatch.intent.attached, 3 * NEAR);
    assert_eq!(sale.get_stats(), (0, 1_000));
}

#[test]
fn a_timeout_of_the_service_refunds_the_buyer() {
    let mut sale = sale();
    let mut service = Service {
        answers: vec![
            (200, r#"{"challenge_id":"ch-1"}"#),
            (200, r#"{"status":"timeout","verified":false}"#),
        ],
        requests: vec![],
        pauses: vec![],
    };
    let (_, settlement) = purchase(&mut sale, 3 * NEAR, &mut service);
    assert_eq!(
        settlement.effect,
        Effect::Refunded {
            receiver: "alice.testnet".to_string(),
            amount: 3 * NEAR,
            reason: RefundReason::Timeout,
        }
    );
    assert_eq!(sale.get_stats(), (0, 1_000));
}
