use vstd::prelude::*;

verus! {

/// Why a repayment was refused.
#[derive(Clone, Copy, Debug, PartialEq, Eq, Structural)]
pub enum RepaymentError {
    /// What was already paid plus the payment exceeds the approved principal.
    Overpayment,
    /// A sum left the range of its accumulator, or the loan's fee divisor is zero.
    ArithmeticOverflow,
    /// The broker has less principal outstanding than the payment returns.
    Underflow,
    /// The client's balance does not cover principal plus interest.
    InsufficientFunds,
}

} // verus!
