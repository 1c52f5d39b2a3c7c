//! The verification client: a three-step protocol against the challenge
//! service, as a state machine that says what to send next and reduces
//! whatever the service does to one `VerificationOutcome`.
//!
//! The caller owns the transport. It starts with the stage `Idle` and the
//! event `Started`, performs each `Command` that a step hands out and feeds
//! what came of it back as the next event, until a step hands out `Finish`.

use vstd::prelude::*;
use vstd::string::*;
use crate::json::{
    fields_view, flag_field, json_fault, json_flag_field, json_object_of, json_text_field,
    object_text, parse_fault, text_field,
};
use crate::outcome::{OutcomeView, RejectReason, VerificationOutcome};
use crate::text::{decimal, decimal_text, lossy_text, same_text, text_of, utf8_lossy};

verus! {

/// Seconds allowed for connecting when a request is expected to be answered at once.
pub const CONNECT_TIMEOUT_SECS: u64 = 10;

/// Seconds that the challenge service holds a long poll open for.
pub const SERVER_WAIT_SECS: u64 = 60;

/// Seconds that the client gives the long poll: more than the service takes,
/// so that the client never gives up before the service answers.
pub const CLIENT_WAIT_SECS: u64 = 65;

/// Milliseconds to pause before the one status check that follows a long
/// poll which ended undecided.
pub const RETRY_PAUSE_MILLIS: u64 = 500;

/// What a verification is asked for.
#[derive(Clone, Debug, PartialEq, Eq)]
pub struct Input {
    pub session_id: String,
    pub buyer: String,
    pub amount: String,
    pub launchpad_url: String,
}

/// An `Input` with its texts as sequences of characters.
pub struct InputView {
    pub session_id: Seq<char>,
    pub buyer: Seq<char>,
    pub amount: Seq<char>,
    pub launchpad_url: Seq<char>,
}

impl View for Input {
    type V = InputView;

    open spec fn view(&self) -> InputView {
        InputView {
            session_id: self.session_id@,
            buyer: self.buyer@,
            amount: self.amount@,
            launchpad_url: self.launchpad_url@,
        }
    }
}

/// The challenge that the service created for one purchase.
#[derive(Clone, Debug, PartialEq, Eq)]
pub struct ChallengeTicket {
    pub challenge_id: String,
}

/// What the caller reports back to the protocol.
#[derive(Clone, Debug, PartialEq, Eq)]
pub enum Event {
    /// The verification begins.
    Started,
    /// The pause that was asked for is over.
    Resumed,
    /// The request could not be sent, or no response came.
    Unsent { detail: String },
    /// A response came and its body was read.
    Answered { status: u16, body: Vec<u8> },
    /// A response came and its body could not be read: `error` says why in
    /// short, `debug` at length.
    Unreadable { status: u16, error: String, debug: String },
}

/// An `Event` with its contents as sequences.
pub enum EventView {
    Started,
    Resumed,
    Unsent { detail: Seq<char> },
    Answered { status: u16, body: Seq<u8> },
    Unreadable { status: u16, error: Seq<char>, debug: Seq<char> },
}

impl View for Event {
    type V = EventView;

    open spec fn view(&self) -> EventView {
        match self {
            Event::Started => EventView::Started,
            Event::Resumed => EventView::Resumed,
            Event::Unsent { detail } => EventView::Unsent { detail: detail@ },
            Event::Answered { status, body } => EventView::Answered { status: *status, body: body@ },
            Event::Unreadable { status, error, debug } => EventView::Unreadable {
                status: *status,
                error: error@,
                debug: debug@,
            },
        }
    }
}

/// Where a verification stands.
#[derive(Clone, Debug, PartialEq, Eq)]
pub enum Stage {
    /// Nothing was sent yet.
    Idle,
    /// The request that creates the challenge is under way.
    Creating,
    /// The long poll for the answer is under way.
    Waiting(ChallengeTicket),
    /// The long poll ended undecided; the pause before the one retry is under way.
    Pausing(ChallengeTicket),
    /// The one retry is under way.
    Rechecking,
    /// The outcome was handed out.
    Finished,
}

/// A `Stage` with its challenge identifier as a sequence of characters.
pub enum StageView {
    Idle,
    Creating,
    Waiting { challenge_id: Seq<char> },
    Pausing { challenge_id: Seq<char> },
    Rechecking,
    Finished,
}

impl View for Stage {
    type V = StageView;

    open spec fn view(&self) -> StageView {
        match self {
            Stage::Idle => StageView::Idle,
            Stage::Creating => StageView::Creating,
            Stage::Waiting(ticket) => StageView::Waiting { challenge_id: ticket.challenge_id@ },
            Stage::Pausing(ticket) => StageView::Pausing { challenge_id: ticket.challenge_id@ },
            Stage::Rechecking => StageView::Rechecking,
            Stage::Finished => StageView::Finished,
        }
    }
}

/// What the caller is to do next.
#[derive(Clone, Debug, PartialEq, Eq)]
pub enum Command {
    /// Send a POST request with this body and report what came of it.
    Post { url: String, content_type: String, body: String, connect_timeout_secs: u64 },
    /// Send a GET request and report what came of it.
    Get { url: String, connect_timeout_secs: u64 },
    /// Wait this long and report `Resumed`.
    Pause { millis: u64 },
    /// The verification is over with this outcome.
    Finish(VerificationOutcome),
}

/// A `Command` with its texts as sequences of characters.
pub enum CommandView {
    Post { url: Seq<char>, content_type: Seq<char>, body: Seq<char>, connect_timeout_secs: u64 },
    Get { url: Seq<char>, connect_timeout_secs: u64 },
    Pause { millis: u64 },
    Finish(OutcomeView),
}

impl View for Command {
    type V = CommandView;

    open spec fn view(&self) -> CommandView {
        match self {
            Command::Post { url, content_type, body, connect_timeout_secs } => CommandView::Post {
                url: url@,
                content_type: content_type@,
                body: body@,
                connect_timeout_secs: *connect_timeout_secs,
            },
            Command::Get { url, connect_timeout_secs } => CommandView::Get {
                url: url@,
                connect_timeout_secs: *connect_timeout_secs,
            },
            Command::Pause { millis } => CommandView::Pause { millis: *millis },
            Command::Finish(outcome) => CommandView::Finish(outcome@),
        }
    }
}

/// One move of the protocol: the stage reached and what to do there.
#[derive(Clone, Debug, PartialEq, Eq)]
pub struct Step {
    pub stage: Stage,
    pub command: Command,
}

/// A `Step` by the views of its parts.
pub struct StepView {
    pub stage: StageView,
    pub command: CommandView,
}

impl View for Step {
    type V = StepView;

    open spec fn view(&self) -> StepView {
        StepView { stage: self.stage@, command: self.command@ }
    }
}

/// The event is none that the stage waits for.
#[derive(Clone, Copy, Debug, PartialEq, Eq, Structural)]
pub struct Misstep;

/// The event reports what came of a request.
pub open spec fn is_reply(event: EventView) -> bool {
    event is Unsent || event is Answered || event is Unreadable
}

/// The stage waits for the event.
pub open spec fn fits(stage: StageView, event: EventView) -> bool {
    match stage {
        StageView::Idle => event is Started,
        StageView::Creating => is_reply(event),
        StageView::Waiting { .. } => is_reply(event),
        StageView::Pausing { .. } => event is Resumed,
        StageView::Rechecking => is_reply(event),
        StageView::Finished => false,
    }
}

/// The status is one of success.
pub open spec fn is_success(status: u16) -> bool {
    200 <= status < 300
}

/// Where challenges are created.
pub open spec fn challenge_url(base: Seq<char>) -> Seq<char> {
    base + "/api/captcha/challenge"@
}

/// Where the answer to a challenge is waited for, for as long as the service holds the poll.
pub open spec fn wait_url(base: Seq<char>, challenge_id: Seq<char>) -> Seq<char> {
    base + "/api/captcha/wait/"@ + challenge_id + "?timeout="@ + decimal(SERVER_WAIT_SECS as nat)
}

/// Where the state of a challenge is asked for at once.
pub open spec fn verify_url(base: Seq<char>, challenge_id: Seq<char>) -> Seq<char> {
    base + "/api/captcha/verify/"@ + challenge_id
}

/// The members of the request that creates a challenge.
pub open spec fn challenge_fields(input: InputView) -> Seq<(Seq<char>, Seq<char>)> {
    seq![
        ("session_id"@, input.session_id),
        ("buyer"@, input.buyer),
        ("amount"@, input.amount),
    ]
}

/// The body of a successful response that was read.
pub open spec fn readable_body(event: EventView) -> Option<Seq<u8>> {
    match event {
        EventView::Answered { status, body } => if is_success(status) {
            Some(body)
        } else {
            None
        },
        _ => None,
    }
}

/// The diagnostic for a reply that brought no readable successful response;
/// `what` names the request that failed.
pub open spec fn refusal(what: Seq<char>, event: EventView) -> Seq<char> {
    match event {
        EventView::Answered { status, body } => what + ". Status: "@ + decimal(status as nat)
            + ". Details: "@ + utf8_lossy(body),
        EventView::Unreadable { status, error, debug } => if is_success(status) {
            error
        } else {
            what + ". Status: "@ + decimal(status as nat) + ". Failed to read body: "@ + debug
        },
        EventView::Unsent { detail } => detail,
        _ => Seq::empty(),
    }
}

/// The status tag and the flag of an answer of the service; `None` where the
/// body holds no such answer.
pub open spec fn answer_in(body: Seq<u8>) -> Option<(Seq<char>, bool)> {
    match (json_text_field(body, "status"@), json_flag_field(body, "verified"@)) {
        (Some(status), Some(verified)) => Some((status, verified)),
        _ => None,
    }
}

/// What an answer to the long poll means: an outcome, or `None` where the
/// service has not decided yet and the one retry is due.
pub open spec fn reading_of(status: Seq<char>, verified: bool) -> Option<OutcomeView> {
    if status == "solved"@ {
        if verified {
            Some(OutcomeView::Verified)
        } else {
            Some(OutcomeView::Rejected(RejectReason::WrongAnswer))
        }
    } else if status == "timeout"@ {
        Some(OutcomeView::TimedOut)
    } else if status == "pending"@ {
        None
    } else {
        Some(OutcomeView::ExecutionFailed)
    }
}

/// What an answer to the retry means: a solved challenge counts, anything
/// else is a timeout.
pub open spec fn retry_reading_of(status: Seq<char>, verified: bool) -> OutcomeView {
    if status == "solved"@ {
        if verified {
            OutcomeView::Verified
        } else {
            OutcomeView::Rejected(RejectReason::WrongAnswer)
        }
    } else {
        OutcomeView::TimedOut
    }
}

/// The diagnostic for a body that does not hold what `lacking` names: what
/// the parser reports where the body is no JSON document, and `lacking` where
/// it is one.
pub open spec fn malformation(fault: Option<Seq<char>>, lacking: Seq<char>) -> Seq<char> {
    match fault {
        Some(report) => report,
        None => lacking,
    }
}

/// The step that ends the verification with `outcome`.
pub open spec fn finish_with(outcome: OutcomeView) -> StepView {
    StepView { stage: StageView::Finished, command: CommandView::Finish(outcome) }
}

/// The first step: ask the service to create a challenge.
pub open spec fn opening(input: InputView) -> StepView {
    StepView {
        stage: StageView::Creating,
        command: CommandView::Post {
            url: challenge_url(input.launchpad_url),
            content_type: "application/json"@,
            body: json_object_of(challenge_fields(input)),
            connect_timeout_secs: CONNECT_TIMEOUT_SECS,
        },
    }
}

/// The step that waits for the answer to a challenge: one long poll, which
/// the client gives more time than the service holds it for.
pub open spec fn polling(input: InputView, challenge_id: Seq<char>) -> StepView {
    StepView {
        stage: StageView::Waiting { challenge_id },
        command: CommandView::Get {
            url: wait_url(input.launchpad_url, challenge_id),
            connect_timeout_secs: CLIENT_WAIT_SECS,
        },
    }
}

/// The step that an answer to the long poll leads to: the end, with the
/// outcome that the answer means, or the pause before the one retry.
pub open spec fn deciding(challenge_id: Seq<char>, status: Seq<char>, verified: bool) -> StepView {
    match reading_of(status, verified) {
        Some(outcome) => finish_with(outcome),
        None => StepView {
            stage: StageView::Pausing { challenge_id },
            command: CommandView::Pause { millis: RETRY_PAUSE_MILLIS },
        },
    }
}

/// The step after the reply to the creation request: wait for the answer
/// to the challenge that was created, or end with a delivery error.
pub open spec fn after_creation(input: InputView, event: EventView) -> StepView {
    match readable_body(event) {
        Some(body) => match json_text_field(body, "challenge_id"@) {
            Some(challenge_id) => polling(input, challenge_id),
            None => finish_with(
                OutcomeView::DeliveryError(
                    malformation(json_fault(body), "missing field `challenge_id`"@),
                ),
            ),
        },
        None => finish_with(
            OutcomeView::DeliveryError(refusal("Failed to create challenge"@, event)),
        ),
    }
}

/// The step after the reply to the long poll: the outcome that the answer
/// means, or the pause before the one retry, or a delivery error.
pub open spec fn after_wait(challenge_id: Seq<char>, event: EventView) -> StepView {
    match readable_body(event) {
        Some(body) => match answer_in(body) {
            Some((status, verified)) => deciding(challenge_id, status, verified),
            None => finish_with(
                OutcomeView::DeliveryError(
                    malformation(json_fault(body), "missing field `status` or `verified`"@),
                ),
            ),
        },
        None => finish_with(
            OutcomeView::DeliveryError(refusal("Failed to verify CAPTCHA"@, event)),
        ),
    }
}

/// The step after the pause: the one retry.
pub open spec fn after_pause(input: InputView, challenge_id: Seq<char>) -> StepView {
    StepView {
        stage: StageView::Rechecking,
        command: CommandView::Get {
            url: verify_url(input.launchpad_url, challenge_id),
            connect_timeout_secs: CONNECT_TIMEOUT_SECS,
        },
    }
}

/// The outcome after the reply to the retry: what a readable answer means,
/// and a timeout for every other reply.
pub open spec fn retry_outcome(event: EventView) -> OutcomeView {
    match readable_body(event) {
        Some(body) => match answer_in(body) {
            Some((status, verified)) => retry_reading_of(status, verified),
            None => OutcomeView::TimedOut,
        },
        None => OutcomeView::TimedOut,
    }
}

/// The move that the protocol makes from `stage` on `event`; `None` where the
/// stage does not wait for the event.
pub open spec fn step_of(input: InputView, stage: StageView, event: EventView) -> Option<StepView> {
    if !fits(stage, event) {
        None
    } else {
        Some(
            match stage {
                StageView::Idle => opening(input),
                StageView::Creating => after_creation(input, event),
                StageView::Waiting { challenge_id } => after_wait(challenge_id, event),
                StageView::Pausing { challenge_id } => after_pause(input, challenge_id),
                _ => finish_with(retry_outcome(event)),
            },
        )
    }
}

/// The outcome of an optional result.
pub open spec fn outcome_view_of(outcome: Option<VerificationOutcome>) -> Option<OutcomeView> {
    match outcome {
        Some(o) => Some(o@),
        None => None,
    }
}

/// Reads an answer to the long poll: the outcome that it means, or `None`
/// where the service has not decided and the one retry is due.
pub fn classify(status: &str, verified: bool) -> (outcome: Option<VerificationOutcome>)
    ensures
        outcome_view_of(outcome) == reading_of(status@, verified),
{
    if same_text(status, "solved") {
        if verified {
            Some(VerificationOutcome::Verified)
        } else {
            Some(VerificationOutcome::Rejected(RejectReason::WrongAnswer))
        }
    } else if same_text(status, "timeout") {
        Some(VerificationOutcome::TimedOut)
    } else if same_text(status, "pending") {
        None
    } else {
        Some(VerificationOutcome::ExecutionFailed)
    }
}

/// Reads an answer to the retry.
pub fn classify_retry(status: &str, verified: bool) -> (outcome: VerificationOutcome)
    ensures
        outcome@ == retry_reading_of(status@, verified),
{
    if same_text(status, "solved") {
        if verified {
            VerificationOutcome::Verified
        } else {
            VerificationOutcome::Rejected(RejectReason::WrongAnswer)
        }
    } else {
        VerificationOutcome::TimedOut
    }
}

/// The answer that a body holds.
fn read_answer(body: &Vec<u8>) -> (answer: Option<(String, bool)>)
    ensures
        match answer {
            Some(pair) => answer_in(body@) == Some((pair.0@, pair.1)),
            None => answer_in(body@).is_none(),
        },
{
    let status: Option<String> = text_field(body, "status");
    let verified: Option<bool> = flag_field(body, "verified");
    match (status, verified) {
        (Some(status), Some(verified)) => Some((status, verified)),
        _ => None,
    }
}

/// Takes the body out of a reply that brought a readable successful
/// response, and writes the diagnostic for any other.
fn take_body(what: &str, event: Event) -> (taken: Result<Vec<u8>, String>)
    requires
        is_reply(event@),
    ensures
        match taken {
            Ok(body) => readable_body(event@) == Some(body@),
            Err(detail) => readable_body(event@).is_none() && detail@ == refusal(what@, event@),
        },
{
    match event {
        Event::Answered { status, body } => {
            if 200 <= status && status < 300 {
                Ok(body)
            } else {
                let mut detail: String = String::from_str(what);
                detail.append(". Status: ");
                detail.append(decimal_text(status as u128).as_str());
                detail.append(". Details: ");
                detail.append(lossy_text(&body).as_str());
                Err(detail)
            }
        },
        Event::Unreadable { status, error, debug } => {
            if 200 <= status && status < 300 {
                Err(error)
            } else {
                let mut text: String = String::from_str(what);
                text.append(". Status: ");
                text.append(decimal_text(status as u128).as_str());
                text.append(". Failed to read body: ");
                text.append(debug.as_str());
                Err(text)
            }
        },
        Event::Unsent { detail } => Err(detail),
        _ => Err(String::new()),
    }
}

/// The delivery error for a body that does not hold what `lacking` names;
/// `fault` is what the parser reported of the body, if anything.
pub fn malformed(fault: Option<String>, lacking: &str) -> (outcome: VerificationOutcome)
    ensures
        outcome@ == OutcomeView::DeliveryError(malformation(text_of(fault), lacking@)),
{
    match fault {
        Some(report) => VerificationOutcome::DeliveryError(report),
        None => VerificationOutcome::DeliveryError(String::from_str(lacking)),
    }
}

/// The step that ends the verification with `outcome`.
fn finish(outcome: VerificationOutcome) -> (step: Step)
    ensures
        step@ == finish_with(outcome@),
{
    Step { stage: Stage::Finished, command: Command::Finish(outcome) }
}

/// Begins the verification: the request that creates the challenge.
pub fn begin(input: &Input) -> (step: Step)
    ensures
        step@ == opening(input@),
{
    let mut url: String = input.launchpad_url.clone();
    url.append("/api/captcha/challenge");
    let mut fields: Vec<(String, String)> = Vec::new();
    fields.push((String::from_str("session_id"), input.session_id.clone()));
    fields.push((String::from_str("buyer"), input.buyer.clone()));
    fields.push((String::from_str("amount"), input.amount.clone()));
    assert(fields_view(fields@) =~= challenge_fields(input@));
    let body: String = object_text(&fields);
    Step {
        stage: Stage::Creating,
        command: Command::Post {
            url,
            content_type: String::from_str("application/json"),
            body,
            connect_timeout_secs: CONNECT_TIMEOUT_SECS,
        },
    }
}

/// Waits for the answer to the challenge of `ticket`: one long poll.
pub fn poll(input: &Input, ticket: ChallengeTicket) -> (step: Step)
    ensures
        step@ == polling(input@, ticket.challenge_id@),
{
    let mut url: String = input.launchpad_url.clone();
    url.append("/api/captcha/wait/");
    url.append(ticket.challenge_id.as_str());
    url.append("?timeout=");
    url.append(decimal_text(SERVER_WAIT_SECS as u128).as_str());
    Step {
        stage: Stage::Waiting(ticket),
        command: Command::Get { url, connect_timeout_secs: CLIENT_WAIT_SECS },
    }
}

/// Acts on an answer to the long poll: ends the verification with the
/// outcome that the answer means, or pauses before the one retry where the
/// service has not decided.
pub fn decide(ticket: ChallengeTicket, status: &str, verified: bool) -> (step: Step)
    ensures
        step@ == deciding(ticket.challenge_id@, status@, verified),
{
    match classify(status, verified) {
        Some(outcome) => finish(outcome),
        None => Step {
            stage: Stage::Pausing(ticket),
            command: Command::Pause { millis: RETRY_PAUSE_MILLIS },
        },
    }
}

/// Moves on from the reply to the creation request.
fn created(input: &Input, event: Event) -> (step: Step)
    requires
        is_reply(event@),
    ensures
        step@ == after_creation(input@, event@),
{
    match take_body("Failed to create challenge", event) {
        Ok(body) => match text_field(&body, "challenge_id") {
            Some(challenge_id) => poll(input, ChallengeTicket { challenge_id }),
            None => finish(malformed(parse_fault(&body), "missing field `challenge_id`")),
        },
        Err(detail) => finish(VerificationOutcome::DeliveryError(detail)),
    }
}

/// Moves on from the reply to the long poll.
fn waited(ticket: ChallengeTicket, event: Event) -> (step: Step)
    requires
        is_reply(event@),
    ensures
        step@ == after_wait(ticket.challenge_id@, event@),
{
    match take_body("Failed to verify CAPTCHA", event) {
        Ok(body) => match read_answer(&body) {
            Some((status, verified)) => decide(ticket, status.as_str(), verified),
            None => finish(malformed(parse_fault(&body), "missing field `status` or `verified`")),
        },
        Err(detail) => finish(VerificationOutcome::DeliveryError(detail)),
    }
}

/// Asks once more, after the pause, where the challenge of `ticket` stands.
pub fn retry(input: &Input, ticket: ChallengeTicket) -> (step: Step)
    ensures
        step@ == after_pause(input@, ticket.challenge_id@),
{
    let mut url: String = input.launchpad_url.clone();
    url.append("/api/captcha/verify/");
    url.append(ticket.challenge_id.as_str());
    Step {
        stage: Stage::Rechecking,
        command: Command::Get { url, connect_timeout_secs: CONNECT_TIMEOUT_SECS },
    }
}

/// Ends the verification on the reply to the retry.
fn rechecked(event: Event) -> (step: Step)
    requires
        is_reply(event@),
    ensures
        step@ == finish_with(retry_outcome(event@)),
{
    let outcome: VerificationOutcome = match take_body("Failed to verify CAPTCHA", event) {
        Ok(body) => match read_answer(&body) {
            Some((status, verified)) => classify_retry(status.as_str(), verified),
            None => VerificationOutcome::TimedOut,
        },
        Err(_) => VerificationOutcome::TimedOut,
    };
    finish(outcome)
}

/// Whether the event reports what came of a request.
fn reports_reply(event: &Event) -> (yes: bool)
    ensures
        yes == is_reply(event@),
{
    match event {
        Event::Unsent { .. } => true,
        Event::Answered { .. } => true,
        Event::Unreadable { .. } => true,
        _ => false,
    }
}

/// Makes one move of the verification of `input`: from `stage`, on `event`,
/// to the next stage and the command to perform there. An event that the
/// stage does not wait for is refused.
pub fn verify_captcha(input: &Input, stage: Stage, event: Event) -> (moved: Result<Step, Misstep>)
    ensures
        moved is Ok <==> fits(stage@, event@),
        match moved {
            Ok(step) => step_of(input@, stage@, event@) == Some(step@),
            Err(_) => step_of(input@, stage@, event@).is_none(),
        },
{
    match stage {
        Stage::Idle => match event {
            Event::Started => Ok(begin(input)),
            _ => Err(Misstep),
        },
        Stage::Creating => if reports_reply(&event) {
            Ok(created(input, event))
        } else {
            Err(Misstep)
        },
        Stage::Waiting(ticket) => if reports_reply(&event) {
            Ok(waited(ticket, event))
        } else {
            Err(Misstep)
        },
        Stage::Pausing(ticket) => match event {
            Event::Resumed => Ok(retry(input, ticket)),
            _ => Err(Misstep),
        },
        Stage::Rechecking => if reports_reply(&event) {
            Ok(rechecked(event))
        } else {
            Err(Misstep)
        },
        Stage::Finished => Err(Misstep),
    }
}

} // verus!
