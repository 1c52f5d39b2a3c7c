//! What holds of every verification and of every settlement.

use vstd::prelude::*;
use crate::outcome::{response_of, OutcomeView, RejectReason, ResponseView};
use crate::protocol::{
    after_creation, after_pause, after_wait, answer_in, fits, is_reply, readable_body, reading_of,
    retry_outcome, step_of, CommandView, EventView, InputView, StageView,
    CLIENT_WAIT_SECS, SERVER_WAIT_SECS,
};
use crate::sale::{
    commits, dispatch_of, min_total, purchase_amount_of, purchase_refusal, refund_reason_of,
    settlement_of, sold_after, tokens_of, verifies, EffectView, LedgerView, PurchaseError,
    RefundReason, EXECUTION_RESERVE,
};
use crate::units::{tokens_fit, tokens_for};

verus! {

/// The most moves that a verification still makes from a stage.
pub open spec fn moves_left(stage: StageView) -> nat {
    match stage {
        StageView::Idle => 5,
        StageView::Creating => 4,
        StageView::Waiting { .. } => 3,
        StageView::Pausing { .. } => 2,
        StageView::Rechecking => 1,
        StageView::Finished => 0,
    }
}

/// Every move brings the verification nearer to its end, and a move hands
/// out an outcome exactly when it reaches the end: a verification is over
/// after five moves at most, with one outcome.
pub proof fn every_move_nears_the_end(input: InputView, stage: StageView, event: EventView)
    requires
        fits(stage, event),
    ensures
        step_of(input, stage, event) is Some,
        moves_left(step_of(input, stage, event)->Some_0.stage) < moves_left(stage),
        step_of(input, stage, event)->Some_0.command is Finish <==> step_of(
            input,
            stage,
            event,
        )->Some_0.stage is Finished,
{
}

/// The five readings of an answer to the long poll: a solved challenge
/// verifies or rejects by its flag, a timeout is a timeout, an undecided
/// poll has no outcome yet, and any other status is a failed execution.
pub proof fn classification_is_total(status: Seq<char>, verified: bool)
    ensures
        status == "solved"@ && verified ==> reading_of(status, verified) == Some(
            OutcomeView::Verified,
        ),
        status == "solved"@ && !verified ==> reading_of(status, verified) == Some(
            OutcomeView::Rejected(RejectReason::WrongAnswer),
        ),
        status == "timeout"@ ==> reading_of(status, verified) == Some(OutcomeView::TimedOut),
        status == "pending"@ ==> reading_of(status, verified).is_none(),
        status != "solved"@ && status != "timeout"@ && status != "pending"@ ==> reading_of(
            status,
            verified,
        ) == Some(OutcomeView::ExecutionFailed),
{
    reveal_strlit("solved");
    reveal_strlit("timeout");
    reveal_strlit("pending");
    assert("timeout"@.len() != "solved"@.len());
    assert("pending"@.len() != "solved"@.len());
    assert("pending"@[0] != "timeout"@[0]);
}

/// The one retry ends the verification, and with one of three outcomes:
/// verified, rejected for a wrong answer, or timed out.
pub proof fn the_retry_decides(event: EventView)
    ensures
        retry_outcome(event) is Verified || retry_outcome(event) == OutcomeView::Rejected(
            RejectReason::WrongAnswer,
        ) || retry_outcome(event) is TimedOut,
        readable_body(event).is_none() ==> retry_outcome(event) is TimedOut,
{
}

/// A long poll that the service answers with `pending` is followed by the
/// pause, the pause by the one retry, and the retry by the end.
pub proof fn an_undecided_poll_is_retried_once(
    input: InputView,
    challenge_id: Seq<char>,
    poll: EventView,
    retry: EventView,
)
    requires
        readable_body(poll) matches Some(body) && (answer_in(body) matches Some(answer)
            && answer.0 == "pending"@),
        is_reply(retry),
    ensures
        after_wait(challenge_id, poll).stage == (StageView::Pausing { challenge_id }),
        after_wait(challenge_id, poll).command is Pause,
        after_pause(input, challenge_id).stage is Rechecking,
        after_pause(input, challenge_id).command is Get,
        step_of(input, StageView::Rechecking, retry)->Some_0.stage is Finished,
{
    let answer = answer_in(readable_body(poll)->Some_0)->Some_0;
    classification_is_total(answer.0, answer.1);
}

/// A reply to the creation request that brings no readable successful
/// response ends the verification with a delivery error, which is reported
/// with the flag unset and the label `system_error`.
pub proof fn a_failed_creation_is_a_delivery_error(
    input: InputView,
    event: EventView,
    session_id: Seq<char>,
)
    requires
        is_reply(event),
        readable_body(event).is_none(),
    ensures
        after_creation(input, event).stage is Finished,
        after_creation(input, event).command matches CommandView::Finish(outcome) && outcome
            is DeliveryError && !response_of(outcome, session_id).verified && response_of(
            outcome,
            session_id,
        ).error_type == Some("system_error"@),
{
}

/// The client gives the long poll more time than the service takes to answer it.
pub proof fn the_long_poll_outlasts_the_service(input: InputView, event: EventView)
    requires
        after_creation(input, event).command is Get,
    ensures
        after_creation(input, event).command->Get_connect_timeout_secs == CLIENT_WAIT_SECS,
        CLIENT_WAIT_SECS > SERVER_WAIT_SECS,
{
}

/// A purchase with less attached than the floor is refused for its deposit,
/// whatever the ledger holds.
pub proof fn a_deposit_under_the_floor_is_refused(ledger: LedgerView, attached: u128)
    requires
        attached < min_total(),
    ensures
        purchase_refusal(ledger, attached) matches Some(error) && error is InsufficientDeposit,
{
}

/// A ledger that has sold its whole supply refuses every purchase that would
/// buy a token.
pub proof fn an_exhausted_supply_is_refused(ledger: LedgerView, attached: u128)
    requires
        ledger.tokens_sold == ledger.total_supply,
        attached >= min_total(),
        tokens_of(attached) >= 1,
    ensures
        purchase_refusal(ledger, attached) == Some(
            PurchaseError::InsufficientSupply {
                sold: ledger.tokens_sold,
                requested: tokens_of(attached) as u128,
                total: ledger.total_supply,
            },
        ),
{
}

/// A purchase that a ledger accepts funds the job with all that was attached
/// and keys the continuation to all of it; the tokens that it derives are
/// those of what is attached beyond the reserve, and the ledger holds them.
pub proof fn an_accepted_purchase_is_keyed_to_what_was_attached(
    ledger: LedgerView,
    buyer: Seq<char>,
    attached: u128,
    session_id: Seq<char>,
)
    requires
        purchase_refusal(ledger, attached).is_none(),
    ensures
        dispatch_of(ledger, buyer, attached, session_id).deposit == attached,
        dispatch_of(ledger, buyer, attached, session_id).attached == attached,
        dispatch_of(ledger, buyer, attached, session_id).buyer == buyer,
        dispatch_of(ledger, buyer, attached, session_id).amount + EXECUTION_RESERVE == attached,
        dispatch_of(ledger, buyer, attached, session_id).tokens == tokens_for(
            attached - EXECUTION_RESERVE,
        ),
        ledger.tokens_sold + dispatch_of(ledger, buyer, attached, session_id).tokens
            <= ledger.total_supply,
{
    tokens_fit(purchase_amount_of(attached as int) as u128);
}

/// A purchase that was dispatched is settled in one of two ways, whatever
/// the executor delivers and whatever the ledger has sold by then: its
/// tokens are counted, or the buyer gets back all that was attached.
pub proof fn a_dispatched_purchase_is_committed_or_refunded_in_full(
    dispatching: LedgerView,
    settling: LedgerView,
    buyer: Seq<char>,
    attached: u128,
    session_id: Seq<char>,
    delivery: Result<Option<ResponseView>, Seq<char>>,
)
    requires
        purchase_refusal(dispatching, attached).is_none(),
    ensures
        ({
            let dispatch = dispatch_of(dispatching, buyer, attached, session_id);
            let settlement = settlement_of(settling, dispatch.buyer, dispatch.attached, delivery);
            if commits(settling, dispatch.attached, delivery) {
                settlement.effect == (EffectView::Committed { tokens: dispatch.tokens })
            } else {
                settlement.effect == (EffectView::Refunded {
                    receiver: buyer,
                    amount: attached,
                    reason: refund_reason_of(delivery),
                })
            }
        }),
{
}

/// A continuation counts all the tokens that the purchase derives or none
/// of them: all where it commits, none where it does not.
pub proof fn a_settlement_counts_all_or_nothing(
    ledger: LedgerView,
    attached: u128,
    delivery: Result<Option<ResponseView>, Seq<char>>,
)
    ensures
        commits(ledger, attached, delivery) ==> sold_after(ledger, attached, delivery)
            == ledger.tokens_sold + tokens_of(attached),
        !commits(ledger, attached, delivery) ==> sold_after(ledger, attached, delivery)
            == ledger.tokens_sold,
{
    tokens_fit(purchase_amount_of(attached as int) as u128);
}

/// Whatever is delivered, for whatever purchase, the number of tokens sold
/// never goes down and never passes the supply.
pub proof fn the_tokens_sold_stay_within_the_supply(
    ledger: LedgerView,
    attached: u128,
    delivery: Result<Option<ResponseView>, Seq<char>>,
)
    requires
        ledger.tokens_sold <= ledger.total_supply,
    ensures
        ledger.tokens_sold <= sold_after(ledger, attached, delivery) <= ledger.total_supply,
{
    tokens_fit(purchase_amount_of(attached as int) as u128);
}

/// A continuation either commits or refunds, never both and never neither,
/// and a refund is of all that was attached, to the buyer.
pub proof fn a_settlement_commits_or_refunds_in_full(
    ledger: LedgerView,
    buyer: Seq<char>,
    attached: u128,
    delivery: Result<Option<ResponseView>, Seq<char>>,
)
    ensures
        commits(ledger, attached, delivery) <==> settlement_of(
            ledger,
            buyer,
            attached,
            delivery,
        ).effect is Committed,
        !commits(ledger, attached, delivery) <==> settlement_of(
            ledger,
            buyer,
            attached,
            delivery,
        ).effect is Refunded,
        !commits(ledger, attached, delivery) ==> settlement_of(
            ledger,
            buyer,
            attached,
            delivery,
        ).effect == (EffectView::Refunded {
            receiver: buyer,
            amount: attached,
            reason: refund_reason_of(delivery),
        }),
{
}

/// A buyer who was verified after the supply ran out is refunded in full,
/// and the ledger stays as it was.
pub proof fn a_verified_buyer_beyond_the_supply_is_refunded(
    ledger: LedgerView,
    buyer: Seq<char>,
    attached: u128,
    delivery: Result<Option<ResponseView>, Seq<char>>,
)
    requires
        verifies(delivery),
        ledger.tokens_sold + tokens_of(attached) > ledger.total_supply,
    ensures
        sold_after(ledger, attached, delivery) == ledger.tokens_sold,
        settlement_of(ledger, buyer, attached, delivery).effect == (EffectView::Refunded {
            receiver: buyer,
            amount: attached,
            reason: RefundReason::SupplyExhausted,
        }),
{
}

/// A continuation is not idempotent: run a second time on the same inputs,
/// one that commits again counts the tokens a second time.
pub proof fn a_second_commit_counts_again(
    ledger: LedgerView,
    attached: u128,
    delivery: Result<Option<ResponseView>, Seq<char>>,
)
    requires
        commits(ledger, attached, delivery),
        commits(
            LedgerView { tokens_sold: sold_after(ledger, attached, delivery), ..ledger },
            attached,
            delivery,
        ),
    ensures
        sold_after(
            LedgerView { tokens_sold: sold_after(ledger, attached, delivery), ..ledger },
            attached,
            delivery,
        ) == ledger.tokens_sold + 2 * tokens_of(attached),
{
    tokens_fit(purchase_amount_of(attached as int) as u128);
}

/// What the client reports decides what the ledger does: only the payload of
/// `Verified` can commit, and it does wherever the supply holds the tokens;
/// the payload of every other outcome refunds, for the reason that the
/// outcome gives.
pub proof fn only_a_verified_outcome_commits(
    ledger: LedgerView,
    attached: u128,
    outcome: OutcomeView,
    session_id: Seq<char>,
)
    ensures
        verifies(Ok(Some(response_of(outcome, session_id)))) <==> outcome is Verified,
        commits(ledger, attached, Ok(Some(response_of(outcome, session_id)))) <==> outcome
            is Verified && ledger.tokens_sold + tokens_of(attached) <= ledger.total_supply,
        outcome == OutcomeView::Rejected(RejectReason::WrongAnswer) ==> refund_reason_of(
            Ok(Some(response_of(outcome, session_id))),
        ) == RefundReason::WrongAnswer,
        outcome is TimedOut ==> refund_reason_of(Ok(Some(response_of(outcome, session_id))))
            == RefundReason::Timeout,
        outcome is ExecutionFailed || outcome is DeliveryError ==> refund_reason_of(
            Ok(Some(response_of(outcome, session_id))),
        ) == RefundReason::Unverified,
{
    reveal_strlit("wrong_answer");
    reveal_strlit("timeout");
    reveal_strlit("network_error");
    reveal_strlit("system_error");
    assert("timeout"@.len() != "wrong_answer"@.len());
    assert("system_error"@.len() == "wrong_answer"@.len());
    assert("system_error"@[0] != "wrong_answer"@[0]);
    assert("system_error"@.len() != "timeout"@.len());
    assert("system_error"@.len() != "network_error"@.len());
}

} // verus!
