//! Amounts: yoctoNEAR, whole NEAR and sale tokens.

use vstd::prelude::*;

verus! {

/// The number of yoctoNEAR in one NEAR.
pub const YOCTO_PER_NEAR: u128 = 1_000_000_000_000_000_000_000_000;

/// Tokens sold per whole NEAR paid.
pub const TOKENS_PER_NEAR: u128 = 100;

/// The whole NEAR contained in `yocto`, rounded down.
pub open spec fn whole_near_of(yocto: int) -> int {
    yocto / (YOCTO_PER_NEAR as int)
}

/// The tokens that `yocto` buys: a fixed number for each whole NEAR, none for a fraction.
pub open spec fn tokens_for(yocto: int) -> int {
    whole_near_of(yocto) * (TOKENS_PER_NEAR as int)
}

/// Makes a `near_sdk::NearToken` of the amount with `from_yoctonear` and asks
/// it for its whole NEAR with `as_near`. The contract claims that the result
/// is the amount divided by ten to the twenty-fourth, rounded down.
#[verifier::external_body]
pub(crate) fn whole_near(yocto: u128) -> (near: u128)
    ensures
        near as int == whole_near_of(yocto as int),
{
    near_sdk::NearToken::from_yoctonear(yocto).as_near()
}

/// The tokens that any amount buys are counted without overflow.
pub proof fn tokens_fit(yocto: u128)
    ensures
        0 <= whole_near_of(yocto as int) <= 340_282_366_920_938,
        0 <= tokens_for(yocto as int) <= 34_028_236_692_093_800,
{
    assert(0 <= yocto as int / 1_000_000_000_000_000_000_000_000int <= 340_282_366_920_938)
        by (nonlinear_arith)
        requires
            0 <= yocto <= u128::MAX,
    ;
}

/// The tokens bought for `yocto`.
pub fn tokens_amount(yocto: u128) -> (tokens: u128)
    ensures
        tokens as int == tokens_for(yocto as int),
{
    proof {
        tokens_fit(yocto);
    }
    let near: u128 = yocto / YOCTO_PER_NEAR;
    near * TOKENS_PER_NEAR
}

} // verus!
