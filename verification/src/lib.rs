//! Human-verified token sale: a challenge-verification protocol and the
//! settlement ledger that commits or refunds each purchase.

pub mod json;
pub mod laws;
pub mod outcome;
pub mod protocol;
pub mod sale;
pub mod text;
pub mod units;
