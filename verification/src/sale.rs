//! The settlement coordinator: the sale ledger, the dispatch of a funded
//! purchase to the external executor, and the continuation that commits the
//! sale or refunds the buyer.
//!
//! The ledger moves no value and schedules nothing itself. `buy_tokens` hands
//! out the `Dispatch` that its caller is to schedule, and
//! `on_captcha_verified` the one effect that its caller is to apply. The host
//! runs the continuation at most once for each dispatch: running it again on
//! the same inputs is a second settlement, not a repetition of the first.

use vstd::prelude::*;
use vstd::string::*;
use crate::json::{fields_view, json_object_of, object_text};
use crate::outcome::{CaptchaResponse, ResponseView};
use crate::text::{debug_quoted, decimal, decimal_text, quoted, same_text, text_of};
use crate::units::{
    tokens_amount, tokens_fit, tokens_for, whole_near, whole_near_of, TOKENS_PER_NEAR,
};

verus! {

/// The least amount that buys anything, in yoctoNEAR.
pub const MIN_PURCHASE: u128 = 100_000_000_000_000_000;

/// The least amount that must come on top of `MIN_PURCHASE` to fund the
/// verification, in yoctoNEAR.
pub const EXECUTION_FLOOR: u128 = 110_000_000_000_000_000_000_000;

/// The part of the attached value that is set aside for the verification and
/// buys no tokens, in yoctoNEAR.
pub const EXECUTION_RESERVE: u128 = 100_000_000_000_000_000_000_000;

/// Gas given to the continuation.
pub const CALLBACK_GAS: u64 = 10_000_000_000_000;

/// The share of the unused gas that goes to the executor's job.
pub const UNUSED_GAS_WEIGHT: u64 = 1;

/// The least attached value that a purchase is accepted with.
pub open spec fn min_total() -> int {
    MIN_PURCHASE + EXECUTION_FLOOR
}

/// The amount that buys tokens out of an attached value: what it holds
/// beyond the reserve.
pub open spec fn purchase_amount_of(attached: int) -> int {
    if attached >= EXECUTION_RESERVE {
        attached - EXECUTION_RESERVE
    } else {
        0
    }
}

/// The tokens that a purchase with `attached` derives.
pub open spec fn tokens_of(attached: u128) -> int {
    tokens_for(purchase_amount_of(attached as int))
}

/// The sale ledger.
#[derive(Clone, Debug, PartialEq, Eq)]
pub struct TokenSaleContract {
    owner: String,
    tokens_sold: u128,
    total_supply: u128,
    launchpad_url: String,
}

/// What a ledger holds.
pub struct LedgerView {
    pub owner: Seq<char>,
    pub tokens_sold: u128,
    pub total_supply: u128,
    pub launchpad_url: Seq<char>,
}

impl View for TokenSaleContract {
    type V = LedgerView;

    closed spec fn view(&self) -> LedgerView {
        LedgerView {
            owner: self.owner@,
            tokens_sold: self.tokens_sold,
            total_supply: self.total_supply,
            launchpad_url: self.launchpad_url@,
        }
    }
}

/// Why a purchase is not dispatched.
#[derive(Clone, Copy, Debug, PartialEq, Eq, Structural)]
pub enum PurchaseError {
    /// The attached value is under the least that is accepted.
    InsufficientDeposit { attached: u128, required: u128 },
    /// The tokens asked for are more than are left.
    InsufficientSupply { sold: u128, requested: u128, total: u128 },
}

/// The text that tells a buyer why the purchase was not dispatched.
pub open spec fn purchase_error_text(error: PurchaseError) -> Seq<char> {
    match error {
        PurchaseError::InsufficientDeposit { .. } =>
            "Attach at least 0.11 NEAR (0.0001 NEAR minimum purchase + 0.11 NEAR for OutLayer execution)"@,
        PurchaseError::InsufficientSupply { sold, requested, total } =>
            "Not enough tokens available. Sold: "@ + decimal(sold as nat) + ", Requested: "@
                + decimal(requested as nat) + ", Total: "@ + decimal(total as nat),
    }
}

impl PurchaseError {
    /// Tells a buyer why the purchase was not dispatched.
    pub fn message(&self) -> (text: String)
        ensures
            text@ == purchase_error_text(*self),
    {
        match self {
            PurchaseError::InsufficientDeposit { .. } => String::from_str(
                "Attach at least 0.11 NEAR (0.0001 NEAR minimum purchase + 0.11 NEAR for OutLayer execution)",
            ),
            PurchaseError::InsufficientSupply { sold, requested, total } => {
                let mut text: String = String::from_str("Not enough tokens available. Sold: ");
                text.append(decimal_text(*sold).as_str());
                text.append(", Requested: ");
                text.append(decimal_text(*requested).as_str());
                text.append(", Total: ");
                text.append(decimal_text(*total).as_str());
                text
            },
        }
    }
}

/// One buyer's funded request to purchase, pending verification.
#[derive(Clone, Debug, PartialEq, Eq)]
pub struct PurchaseIntent {
    pub buyer: String,
    /// The whole value that came with the request. The continuation is keyed
    /// to it, and a refund returns it in full.
    pub attached: u128,
    /// The part of it that buys tokens: what it holds beyond the reserve.
    pub amount: u128,
    /// The tokens that `amount` buys.
    pub tokens: u128,
    pub session_id: String,
}

/// The limits that the executor holds the job to.
#[derive(Clone, Copy, Debug, PartialEq, Eq, Structural)]
pub struct ResourceLimits {
    pub max_instructions: u64,
    pub max_memory_mb: u32,
    pub max_execution_seconds: u64,
}

/// What the caller of `buy_tokens` is to schedule: the executor's job, its
/// funding, and the continuation that settles the purchase.
#[derive(Clone, Debug, PartialEq, Eq)]
pub struct Dispatch {
    /// The account of the external executor.
    pub executor: String,
    /// The funding of the job: the whole attached value.
    pub deposit: u128,
    pub unused_gas_weight: u64,
    /// Where the code of the verification client is found.
    pub repo: String,
    pub commit: String,
    pub build_target: String,
    pub resource_limits: ResourceLimits,
    /// The input of the job: the purchase as a JSON object.
    pub input_data: String,
    pub response_format: String,
    /// Who the executor returns unspent funding to: the buyer.
    pub payer: String,
    pub callback_gas: u64,
    pub intent: PurchaseIntent,
}

/// A `Dispatch` with its texts as sequences of characters.
pub struct DispatchView {
    pub executor: Seq<char>,
    pub deposit: u128,
    pub unused_gas_weight: u64,
    pub repo: Seq<char>,
    pub commit: Seq<char>,
    pub build_target: Seq<char>,
    pub resource_limits: ResourceLimits,
    pub input_data: Seq<char>,
    pub response_format: Seq<char>,
    pub payer: Seq<char>,
    pub callback_gas: u64,
    pub buyer: Seq<char>,
    pub attached: u128,
    pub amount: u128,
    pub tokens: u128,
    pub session_id: Seq<char>,
}

impl View for Dispatch {
    type V = DispatchView;

    open spec fn view(&self) -> DispatchView {
        DispatchView {
            executor: self.executor@,
            deposit: self.deposit,
            unused_gas_weight: self.unused_gas_weight,
            repo: self.repo@,
            commit: self.commit@,
            build_target: self.build_target@,
            resource_limits: self.resource_limits,
            input_data: self.input_data@,
            response_format: self.response_format@,
            payer: self.payer@,
            callback_gas: self.callback_gas,
            buyer: self.intent.buyer@,
            attached: self.intent.attached,
            amount: self.intent.amount,
            tokens: self.intent.tokens,
            session_id: self.intent.session_id@,
        }
    }
}

/// The limits of the verification job.
pub open spec fn job_limits() -> ResourceLimits {
    ResourceLimits {
        max_instructions: 50_000_000_000,
        max_memory_mb: 128,
        max_execution_seconds: 40,
    }
}

/// The members of the job's input.
pub open spec fn job_fields(
    session_id: Seq<char>,
    buyer: Seq<char>,
    amount: nat,
    launchpad_url: Seq<char>,
) -> Seq<(Seq<char>, Seq<char>)> {
    seq![
        ("session_id"@, session_id),
        ("buyer"@, buyer),
        ("amount"@, decimal(amount)),
        ("launchpad_url"@, launchpad_url),
    ]
}

/// Why `ledger` does not dispatch a purchase with `attached`: a deposit under
/// the floor first, then a supply that does not hold the tokens asked for;
/// `None` where it dispatches.
pub open spec fn purchase_refusal(ledger: LedgerView, attached: u128) -> Option<PurchaseError> {
    if attached < min_total() {
        Some(
            PurchaseError::InsufficientDeposit {
                attached,
                required: (MIN_PURCHASE + EXECUTION_FLOOR) as u128,
            },
        )
    } else if ledger.tokens_sold + tokens_of(attached) > ledger.total_supply {
        Some(
            PurchaseError::InsufficientSupply {
                sold: ledger.tokens_sold,
                requested: tokens_of(attached) as u128,
                total: ledger.total_supply,
            },
        )
    } else {
        None
    }
}

/// What `ledger` dispatches for a purchase that it accepts.
pub open spec fn dispatch_of(
    ledger: LedgerView,
    buyer: Seq<char>,
    attached: u128,
    session_id: Seq<char>,
) -> DispatchView {
    DispatchView {
        executor: "outlayer.testnet"@,
        deposit: attached,
        unused_gas_weight: UNUSED_GAS_WEIGHT,
        repo: "https://github.com/zavodil/captcha-ark"@,
        commit: "main"@,
        build_target: "wasm32-wasip1"@,
        resource_limits: job_limits(),
        input_data: json_object_of(
            job_fields(
                session_id,
                buyer,
                purchase_amount_of(attached as int) as nat,
                ledger.launchpad_url,
            ),
        ),
        response_format: "Json"@,
        payer: buyer,
        callback_gas: CALLBACK_GAS,
        buyer,
        attached,
        amount: purchase_amount_of(attached as int) as u128,
        tokens: tokens_of(attached) as u128,
        session_id,
    }
}

/// The executor could not deliver a result; the text says what it reported.
#[derive(Clone, Debug, PartialEq, Eq)]
pub struct ExecutorFault {
    pub detail: String,
}

/// What the executor brings to the continuation, with its texts as sequences
/// of characters: a payload, no payload, or a fault of its own.
pub open spec fn delivery_of(
    result: Result<Option<CaptchaResponse>, ExecutorFault>,
) -> Result<Option<ResponseView>, Seq<char>> {
    match result {
        Ok(Some(response)) => Ok(Some(response@)),
        Ok(None) => Ok(None),
        Err(fault) => Err(fault.detail@),
    }
}

/// Why a purchase is refunded.
#[derive(Clone, Copy, Debug, PartialEq, Eq, Structural)]
pub enum RefundReason {
    /// The challenge was answered wrongly.
    WrongAnswer,
    /// The challenge was not answered in time.
    Timeout,
    /// The challenge service could not be reached.
    NetworkError,
    /// The verification failed for another reason, or for none that it names.
    Unverified,
    /// The executor produced no result.
    ExecutionFailed,
    /// The executor itself failed to deliver.
    SystemError,
    /// The buyer was verified, but the supply no longer holds the tokens.
    SupplyExhausted,
}

/// The one effect of a settlement.
#[derive(Clone, Debug, PartialEq, Eq)]
pub enum Effect {
    /// The sale was committed: the ledger counts `tokens` more as sold.
    Committed { tokens: u128 },
    /// The sale was called off: `amount` is to be transferred to `receiver`.
    Refunded { receiver: String, amount: u128, reason: RefundReason },
}

/// An `Effect` with its text as a sequence of characters.
pub enum EffectView {
    Committed { tokens: u128 },
    Refunded { receiver: Seq<char>, amount: u128, reason: RefundReason },
}

impl View for Effect {
    type V = EffectView;

    open spec fn view(&self) -> EffectView {
        match self {
            Effect::Committed { tokens } => EffectView::Committed { tokens: *tokens },
            Effect::Refunded { receiver, amount, reason } => EffectView::Refunded {
                receiver: receiver@,
                amount: *amount,
                reason: *reason,
            },
        }
    }
}

/// What a continuation did and what it tells the buyer.
#[derive(Clone, Debug, PartialEq, Eq)]
pub struct Settlement {
    pub effect: Effect,
    pub message: String,
}

/// A `Settlement` by the views of its parts.
pub struct SettlementView {
    pub effect: EffectView,
    pub message: Seq<char>,
}

impl View for Settlement {
    type V = SettlementView;

    open spec fn view(&self) -> SettlementView {
        SettlementView { effect: self.effect@, message: self.message@ }
    }
}

/// The delivery verifies the buyer: a payload came and its flag is set.
pub open spec fn verifies(delivery: Result<Option<ResponseView>, Seq<char>>) -> bool {
    delivery matches Ok(Some(response)) && response.verified
}

/// The continuation commits the sale: the delivery verifies the buyer, and
/// the ledger, as it is when the continuation runs, holds the tokens that
/// the purchase derives.
pub open spec fn commits(
    ledger: LedgerView,
    attached: u128,
    delivery: Result<Option<ResponseView>, Seq<char>>,
) -> bool {
    verifies(delivery) && ledger.tokens_sold + tokens_of(attached) <= ledger.total_supply
}

/// Why a continuation that does not commit refunds.
pub open spec fn refund_reason_of(delivery: Result<Option<ResponseView>, Seq<char>>) -> RefundReason {
    match delivery {
        Ok(Some(response)) => if response.verified {
            RefundReason::SupplyExhausted
        } else if response.error_type == Some("wrong_answer"@) {
            RefundReason::WrongAnswer
        } else if response.error_type == Some("timeout"@) {
            RefundReason::Timeout
        } else if response.error_type == Some("network_error"@) {
            RefundReason::NetworkError
        } else {
            RefundReason::Unverified
        },
        Ok(None) => RefundReason::ExecutionFailed,
        Err(_) => RefundReason::SystemError,
    }
}

/// The diagnostic that a refund quotes: the error that the payload carries,
/// or the fault that the executor reported.
pub open spec fn refund_detail_of(delivery: Result<Option<ResponseView>, Seq<char>>) -> Seq<char> {
    match delivery {
        Ok(Some(response)) => match response.error {
            Some(error) => error,
            None => "Unknown error"@,
        },
        Ok(None) => Seq::empty(),
        Err(detail) => detail,
    }
}

/// The message of a committed sale: the tokens bought, the whole NEAR that
/// bought them, and the session.
pub open spec fn success_text(attached: u128, session_id: Seq<char>) -> Seq<char> {
    "Success! You bought "@ + decimal(tokens_of(attached) as nat) + " tokens for "@ + decimal(
        whole_near_of(purchase_amount_of(attached as int)) as nat,
    ) + " NEAR. Session: "@ + session_id
}

/// The message of a refund of `attached` for `reason`; `detail` is the
/// diagnostic that the reasons `Unverified` and `SystemError` quote.
pub open spec fn refund_text(reason: RefundReason, attached: u128, detail: Seq<char>) -> Seq<char> {
    let near = decimal(whole_near_of(attached as int) as nat);
    match reason {
        RefundReason::WrongAnswer => "❌ CAPTCHA failed: Wrong answer. Transaction cancelled. Refunded "@
            + near + " NEAR."@,
        RefundReason::Timeout =>
            "⏱ CAPTCHA timeout: You didn't complete CAPTCHA in time. Transaction cancelled. Refunded "@
                + near + " NEAR."@,
        RefundReason::NetworkError =>
            "🌐 Network error during CAPTCHA verification. Transaction cancelled. Refunded "@ + near
                + " NEAR."@,
        RefundReason::Unverified => "❌ CAPTCHA verification failed. Transaction cancelled. Refunded "@
            + near + " NEAR. Error: "@ + debug_quoted(detail),
        RefundReason::ExecutionFailed => "Verification error (execution failed). Refunded "@ + near
            + " NEAR."@,
        RefundReason::SystemError => "System error. Refunded "@ + near + " NEAR. Error: "@ + detail,
        RefundReason::SupplyExhausted =>
            "Not enough tokens available. Transaction cancelled. Refunded "@ + near + " NEAR."@,
    }
}

/// The number of tokens sold after a continuation for a purchase with
/// `attached` ran on `ledger`.
pub open spec fn sold_after(
    ledger: LedgerView,
    attached: u128,
    delivery: Result<Option<ResponseView>, Seq<char>>,
) -> u128 {
    if commits(ledger, attached, delivery) {
        (ledger.tokens_sold + tokens_of(attached)) as u128
    } else {
        ledger.tokens_sold
    }
}

/// What a continuation for `buyer` and a purchase with `attached` does on
/// `delivery`, run on `ledger`.
pub open spec fn settlement_of(
    ledger: LedgerView,
    buyer: Seq<char>,
    attached: u128,
    delivery: Result<Option<ResponseView>, Seq<char>>,
) -> SettlementView {
    if commits(ledger, attached, delivery) {
        SettlementView {
            effect: EffectView::Committed { tokens: tokens_of(attached) as u128 },
            message: success_text(attached, delivery->Ok_0->Some_0.session_id),
        }
    } else {
        SettlementView {
            effect: EffectView::Refunded {
                receiver: buyer,
                amount: attached,
                reason: refund_reason_of(delivery),
            },
            message: refund_text(refund_reason_of(delivery), attached, refund_detail_of(delivery)),
        }
    }
}

/// The amount that buys tokens out of `attached`.
pub fn purchase_amount(attached: u128) -> (amount: u128)
    ensures
        amount as int == purchase_amount_of(attached as int),
{
    if attached >= EXECUTION_RESERVE {
        attached - EXECUTION_RESERVE
    } else {
        0
    }
}

/// The tokens that a purchase with `attached` derives.
pub fn derive_tokens(attached: u128) -> (tokens: u128)
    ensures
        tokens as int == tokens_of(attached),
{
    tokens_amount(purchase_amount(attached))
}

/// Whether an optional label is `label`.
fn is_labelled(error_type: &Option<String>, label: &str) -> (yes: bool)
    ensures
        yes == (text_of(*error_type) == Some(label@)),
{
    match error_type {
        Some(text) => same_text(text.as_str(), label),
        None => false,
    }
}

/// Writes the message of a refund.
fn refund_message(reason: RefundReason, attached: u128, detail: &str) -> (text: String)
    ensures
        text@ == refund_text(reason, attached, detail@),
{
    let near: String = decimal_text(whole_near(attached));
    match reason {
        RefundReason::WrongAnswer => {
            let mut text: String = String::from_str(
                "❌ CAPTCHA failed: Wrong answer. Transaction cancelled. Refunded ",
            );
            text.append(near.as_str());
            text.append(" NEAR.");
            text
        },
        RefundReason::Timeout => {
            let mut text: String = String::from_str(
                "⏱ CAPTCHA timeout: You didn't complete CAPTCHA in time. Transaction cancelled. Refunded ",
            );
            text.append(near.as_str());
            text.append(" NEAR.");
            text
        },
        RefundReason::NetworkError => {
            let mut text: String = String::from_str(
                "🌐 Network error during CAPTCHA verification. Transaction cancelled. Refunded ",
            );
            text.append(near.as_str());
            text.append(" NEAR.");
            text
        },
        RefundReason::Unverified => {
            let mut text: String = String::from_str(
                "❌ CAPTCHA verification failed. Transaction cancelled. Refunded ",
            );
            text.append(near.as_str());
            text.append(" NEAR. Error: ");
            text.append(quoted(detail).as_str());
            text
        },
        RefundReason::ExecutionFailed => {
            let mut text: String = String::from_str("Verification error (execution failed). Refunded ");
            text.append(near.as_str());
            text.append(" NEAR.");
            text
        },
        RefundReason::SystemError => {
            let mut text: String = String::from_str("System error. Refunded ");
            text.append(near.as_str());
            text.append(" NEAR. Error: ");
            text.append(detail);
            text
        },
        RefundReason::SupplyExhausted => {
            let mut text: String = String::from_str(
                "Not enough tokens available. Transaction cancelled. Refunded ",
            );
            text.append(near.as_str());
            text.append(" NEAR.");
            text
        },
    }
}

impl TokenSaleContract {
    /// The ledger never counts more tokens as sold than there are.
    pub open spec fn wf(&self) -> bool {
        self@.tokens_sold <= self@.total_supply
    }

    /// A ledger for a sale of `total_supply` tokens, none of them sold.
    pub fn new(owner: String, total_supply: u128, launchpad_url: String) -> (ledger: Self)
        ensures
            ledger.wf(),
            ledger@ == (LedgerView {
                owner: owner@,
                tokens_sold: 0,
                total_supply,
                launchpad_url: launchpad_url@,
            }),
    {
        TokenSaleContract { owner, tokens_sold: 0, total_supply, launchpad_url }
    }

    /// A ledger in a state that was recorded before: `None` where that state
    /// counts more tokens as sold than there are.
    pub fn restore(
        owner: String,
        tokens_sold: u128,
        total_supply: u128,
        launchpad_url: String,
    ) -> (ledger: Option<Self>)
        ensures
            ledger is Some <==> tokens_sold <= total_supply,
            ledger matches Some(l) ==> l.wf() && l@ == (LedgerView {
                owner: owner@,
                tokens_sold,
                total_supply,
                launchpad_url: launchpad_url@,
            }),
    {
        if tokens_sold <= total_supply {
            Some(TokenSaleContract { owner, tokens_sold, total_supply, launchpad_url })
        } else {
            None
        }
    }

    /// Accepts or refuses a purchase by `buyer` that came with `attached`
    /// yoctoNEAR. A refused purchase dispatches nothing; an accepted one hands
    /// out what is to be scheduled. The ledger is the same afterwards either way.
    pub fn buy_tokens(&mut self, buyer: String, attached: u128, session_id: String) -> (dispatched:
        Result<Dispatch, PurchaseError>)
        requires
            old(self).wf(),
        ensures
            *final(self) == *old(self),
            attached < min_total() ==> dispatched is Err,
            match dispatched {
                Ok(dispatch) => purchase_refusal(old(self)@, attached).is_none() && dispatch@
                    == dispatch_of(old(self)@, buyer@, attached, session_id@),
                Err(error) => purchase_refusal(old(self)@, attached) == Some(error),
            },
    {
        let required: u128 = MIN_PURCHASE + EXECUTION_FLOOR;
        if attached < required {
            return Err(PurchaseError::InsufficientDeposit { attached, required });
        }
        let amount: u128 = purchase_amount(attached);
        let tokens: u128 = derive_tokens(attached);
        if tokens > self.total_supply - self.tokens_sold {
            return Err(
                PurchaseError::InsufficientSupply {
                    sold: self.tokens_sold,
                    requested: tokens,
                    total: self.total_supply,
                },
            );
        }
        let mut fields: Vec<(String, String)> = Vec::new();
        fields.push((String::from_str("session_id"), session_id.clone()));
        fields.push((String::from_str("buyer"), buyer.clone()));
        fields.push((String::from_str("amount"), decimal_text(amount)));
        fields.push((String::from_str("launchpad_url"), self.launchpad_url.clone()));
        assert(fields_view(fields@) =~= job_fields(
            session_id@,
            buyer@,
            amount as nat,
            self.launchpad_url@,
        ));
        let input_data: String = object_text(&fields);
        Ok(
            Dispatch {
                executor: String::from_str("outlayer.testnet"),
                deposit: attached,
                unused_gas_weight: UNUSED_GAS_WEIGHT,
                repo: String::from_str("https://github.com/zavodil/captcha-ark"),
                commit: String::from_str("main"),
                build_target: String::from_str("wasm32-wasip1"),
                resource_limits: ResourceLimits {
                    max_instructions: 50_000_000_000,
                    max_memory_mb: 128,
                    max_execution_seconds: 40,
                },
                input_data,
                response_format: String::from_str("Json"),
                payer: buyer.clone(),
                callback_gas: CALLBACK_GAS,
                intent: PurchaseIntent { buyer, attached, amount, tokens, session_id },
            },
        )
    }

    /// Whether the ledger holds the tokens that a purchase with `attached` derives.
    pub fn can_commit(&self, attached: u128) -> (yes: bool)
        requires
            self.wf(),
        ensures
            yes == (self@.tokens_sold + tokens_of(attached) <= self@.total_supply),
    {
        derive_tokens(attached) <= self.total_supply - self.tokens_sold
    }

    /// Settles the purchase of `buyer` that came with `attached` yoctoNEAR on
    /// what the executor delivered, on the ledger as it is now. Exactly one
    /// thing happens. A payload that verifies the buyer commits the sale where
    /// the supply still holds the tokens that the purchase derives: the ledger
    /// counts them as sold. Anything else leaves the ledger as it was and
    /// refunds `attached`, all of it, to `buyer`.
    pub fn on_captcha_verified(
        &mut self,
        buyer: String,
        attached: u128,
        result: Result<Option<CaptchaResponse>, ExecutorFault>,
    ) -> (settlement: Settlement)
        requires
            old(self).wf(),
        ensures
            final(self).wf(),
            old(self)@.tokens_sold <= final(self)@.tokens_sold <= final(self)@.total_supply,
            final(self)@ == (LedgerView {
                tokens_sold: sold_after(old(self)@, attached, delivery_of(result)),
                ..old(self)@
            }),
            settlement@ == settlement_of(old(self)@, buyer@, attached, delivery_of(result)),
            commits(old(self)@, attached, delivery_of(result)) ==> settlement.effect
                is Committed && final(self)@.tokens_sold == old(self)@.tokens_sold + tokens_of(
                attached,
            ),
            !commits(old(self)@, attached, delivery_of(result)) ==> final(self)@ == old(self)@
                && settlement.effect@ == (EffectView::Refunded {
                receiver: buyer@,
                amount: attached,
                reason: refund_reason_of(delivery_of(result)),
            }),
    {
        proof {
            tokens_fit(purchase_amount_of(attached as int) as u128);
        }
        match result {
            Ok(Some(response)) => {
                if response.verified {
                    let tokens: u128 = derive_tokens(attached);
                    if tokens <= self.total_supply - self.tokens_sold {
                        self.tokens_sold = self.tokens_sold + tokens;
                        let mut message: String = String::from_str("Success! You bought ");
                        message.append(decimal_text(tokens).as_str());
                        message.append(" tokens for ");
                        message.append(decimal_text(whole_near(purchase_amount(attached))).as_str());
                        message.append(" NEAR. Session: ");
                        message.append(response.session_id.as_str());
                        Settlement { effect: Effect::Committed { tokens }, message }
                    } else {
                        let reason: RefundReason = RefundReason::SupplyExhausted;
                        let message: String = refund_message(reason, attached, "");
                        Settlement {
                            effect: Effect::Refunded { receiver: buyer, amount: attached, reason },
                            message,
                        }
                    }
                } else {
                    let reason: RefundReason = if is_labelled(&response.error_type, "wrong_answer") {
                        RefundReason::WrongAnswer
                    } else if is_labelled(&response.error_type, "timeout") {
                        RefundReason::Timeout
                    } else if is_labelled(&response.error_type, "network_error") {
                        RefundReason::NetworkError
                    } else {
                        RefundReason::Unverified
                    };
                    let detail: String = match response.error {
                        Some(error) => error,
                        None => String::from_str("Unknown error"),
                    };
                    let message: String = refund_message(reason, attached, detail.as_str());
                    Settlement {
                        effect: Effect::Refunded { receiver: buyer, amount: attached, reason },
                        message,
                    }
                }
            },
            Ok(None) => {
                let message: String = refund_message(RefundReason::ExecutionFailed, attached, "");
                proof {
                    reveal_strlit("");
                    assert(""@ =~= Seq::<char>::empty());
                }
                Settlement {
                    effect: Effect::Refunded {
                        receiver: buyer,
                        amount: attached,
                        reason: RefundReason::ExecutionFailed,
                    },
                    message,
                }
            },
            Err(fault) => {
                let message: String = refund_message(
                    RefundReason::SystemError,
                    attached,
                    fault.detail.as_str(),
                );
                Settlement {
                    effect: Effect::Refunded {
                        receiver: buyer,
                        amount: attached,
                        reason: RefundReason::SystemError,
                    },
                    message,
                }
            },
        }
    }

    /// The tokens sold so far and the tokens that the sale holds in all.
    pub fn get_stats(&self) -> (stats: (u128, u128))
        ensures
            stats.0 == self@.tokens_sold,
            stats.1 == self@.total_supply,
    {
        (self.tokens_sold, self.total_supply)
    }

    /// The price, in words.
    pub fn get_price(&self) -> (price: String)
        ensures
            price@ == decimal(TOKENS_PER_NEAR as nat) + " tokens per 1 NEAR"@,
    {
        let mut price: String = decimal_text(TOKENS_PER_NEAR);
        price.append(" tokens per 1 NEAR");
        price
    }

    /// Where the challenge service is found.
    pub fn get_launchpad_url(&self) -> (url: String)
        ensures
            url@ == self@.launchpad_url,
    {
        self.launchpad_url.clone()
    }

    /// The owner of the sale.
    pub fn get_owner(&self) -> (owner: String)
        ensures
            owner@ == self@.owner,
    {
        self.owner.clone()
    }
}

} // verus!
