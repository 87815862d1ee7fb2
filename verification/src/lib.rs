//! Repayment leg of a fixed-fee lending ledger.
//!
//! A client pays down a [`state::Loan`]; the engine checks the payment against
//! the loan's cap, charges the loan's fixed interest, books the payment in the
//! lender's [`state::Broker`] ledger and says how much value has to move from
//! the client to the broker. Every function is total: a payment that cannot be
//! booked is refused with a [`error::RepaymentError`] and changes nothing.

pub mod error;
pub mod state;
pub mod repayment;
pub mod settlement;
pub mod theorems;
