//! The terminal results of a verification and the payload that carries one.

use vstd::prelude::*;
use vstd::string::*;
use crate::text::text_of;

verus! {

/// Why a solved challenge did not verify its solver.
#[derive(Clone, Copy, Debug, PartialEq, Eq, Structural)]
pub enum RejectReason {
    /// The answer given was wrong.
    WrongAnswer,
}

/// The result of one verification: exactly one of five.
#[derive(Clone, Debug, PartialEq, Eq)]
pub enum VerificationOutcome {
    /// The challenge was solved and the answer was right.
    Verified,
    /// The challenge was answered and the answer did not verify.
    Rejected(RejectReason),
    /// Nobody answered the challenge in time.
    TimedOut,
    /// The challenge service reported a state that the protocol does not know.
    ExecutionFailed,
    /// The challenge service could not be talked to; the text says what went wrong.
    DeliveryError(String),
}

/// A `VerificationOutcome` with its text as a sequence of characters.
pub enum OutcomeView {
    Verified,
    Rejected(RejectReason),
    TimedOut,
    ExecutionFailed,
    DeliveryError(Seq<char>),
}

impl View for VerificationOutcome {
    type V = OutcomeView;

    open spec fn view(&self) -> OutcomeView {
        match self {
            VerificationOutcome::Verified => OutcomeView::Verified,
            VerificationOutcome::Rejected(reason) => OutcomeView::Rejected(*reason),
            VerificationOutcome::TimedOut => OutcomeView::TimedOut,
            VerificationOutcome::ExecutionFailed => OutcomeView::ExecutionFailed,
            VerificationOutcome::DeliveryError(detail) => OutcomeView::DeliveryError(detail@),
        }
    }
}

/// The payload in which a verification reports its result.
#[derive(Clone, Debug, PartialEq, Eq)]
pub struct CaptchaResponse {
    pub verified: bool,
    pub session_id: String,
    pub error: Option<String>,
    /// One of `timeout`, `wrong_answer`, `network_error`, `system_error`.
    pub error_type: Option<String>,
}

/// A `CaptchaResponse` with its texts as sequences of characters.
pub struct ResponseView {
    pub verified: bool,
    pub session_id: Seq<char>,
    pub error: Option<Seq<char>>,
    pub error_type: Option<Seq<char>>,
}

impl View for CaptchaResponse {
    type V = ResponseView;

    open spec fn view(&self) -> ResponseView {
        ResponseView {
            verified: self.verified,
            session_id: self.session_id@,
            error: text_of(self.error),
            error_type: text_of(self.error_type),
        }
    }
}

/// The payload that reports `outcome` for the session `session_id`: only
/// `Verified` sets the flag, every other outcome carries its label, and a
/// delivery error also its diagnostic.
pub open spec fn response_of(outcome: OutcomeView, session_id: Seq<char>) -> ResponseView {
    match outcome {
        OutcomeView::Verified => ResponseView {
            verified: true,
            session_id,
            error: None,
            error_type: None,
        },
        OutcomeView::Rejected(RejectReason::WrongAnswer) => ResponseView {
            verified: false,
            session_id,
            error: None,
            error_type: Some("wrong_answer"@),
        },
        OutcomeView::TimedOut => ResponseView {
            verified: false,
            session_id,
            error: None,
            error_type: Some("timeout"@),
        },
        OutcomeView::ExecutionFailed => ResponseView {
            verified: false,
            session_id,
            error: None,
            error_type: Some("system_error"@),
        },
        OutcomeView::DeliveryError(detail) => ResponseView {
            verified: false,
            session_id,
            error: Some("Verification failed: "@ + detail),
            error_type: Some("system_error"@),
        },
    }
}

impl VerificationOutcome {
    /// Reports this outcome for the session `session_id`.
    pub fn into_response(self, session_id: String) -> (response: CaptchaResponse)
        ensures
            response@ == response_of(self@, session_id@),
    {
        match self {
            VerificationOutcome::Verified => CaptchaResponse {
                verified: true,
                session_id,
                error: None,
                error_type: None,
            },
            VerificationOutcome::Rejected(RejectReason::WrongAnswer) => CaptchaResponse {
                verified: false,
                session_id,
                error: None,
                error_type: Some(String::from_str("wrong_answer")),
            },
            VerificationOutcome::TimedOut => CaptchaResponse {
                verified: false,
                session_id,
                error: None,
                error_type: Some(String::from_str("timeout")),
            },
            VerificationOutcome::ExecutionFailed => CaptchaResponse {
                verified: false,
                session_id,
                error: None,
                error_type: Some(String::from_str("system_error")),
            },
            VerificationOutcome::DeliveryError(detail) => {
                let mut error: String = String::from_str("Verification failed: ");
                error.append(detail.as_str());
                CaptchaResponse {
                    verified: false,
                    session_id,
                    error: Some(error),
                    error_type: Some(String::from_str("system_error")),
                }
            },
        }
    }
}

/// A payload sets its flag for `Verified` and for no other outcome.
pub proof fn only_verified_sets_the_flag(outcome: OutcomeView, session_id: Seq<char>)
    ensures
        response_of(outcome, session_id).verified <==> outcome is Verified,
        response_of(outcome, session_id).session_id == session_id,
        !(outcome is Verified) ==> response_of(outcome, session_id).error_type is Some,
{
}

} // verus!
