//! What holds of the repayment engine over several payments.

use vstd::prelude::*;
use crate::error::RepaymentError;
use crate::state::{Broker, Loan, LoanStatus};
use crate::repayment::{broker_after, loan_after, repay_error, transfer_for};

verus! {

/// The sum of the payments `amounts`.
pub open spec fn total_paid(amounts: Seq<u64>) -> int
    decreases amounts.len(),
{
    if amounts.len() == 0 {
        0
    } else {
        total_paid(amounts.drop_last()) + amounts.last()
    }
}

/// The two records after the payments `amounts` were booked one after
/// another, or `None` where one of them is refused.
pub open spec fn repay_all(loan: Loan, broker: Broker, amounts: Seq<u64>) -> Option<(Loan, Broker)>
    decreases amounts.len(),
{
    if amounts.len() == 0 {
        Some((loan, broker))
    } else {
        match repay_all(loan, broker, amounts.drop_last()) {
            Some((l, b)) => if repay_error(l, b, amounts.last()) is None {
                Some((loan_after(l, amounts.last()), broker_after(l, b, amounts.last())))
            } else {
                None
            },
            None => None,
        }
    }
}

/// After any run of accepted payments the repaid principal is within the
/// approved principal, and the loan's terms are what they were. The loan
/// need not have been within its cap before, as long as one payment was made.
pub proof fn theorem_payed_within_cap(loan: Loan, broker: Broker, amounts: Seq<u64>)
    requires
        loan.well_formed() || amounts.len() > 0,
    ensures
        repay_all(loan, broker, amounts) matches Some((l, b)) ==> {
            &&& l.well_formed()
            &&& l.amount == loan.amount
            &&& l.fee == loan.fee
        },
    decreases amounts.len(),
{
    if amounts.len() > 1 {
        theorem_payed_within_cap(loan, broker, amounts.drop_last());
    } else if amounts.len() == 1 {
        assert(repay_all(loan, broker, amounts.drop_last()) == Some((loan, broker)));
    }
}

/// A run of accepted payments adds their sum to the repaid principal and to
/// the broker's capital, takes it from the broker's outstanding principal,
/// and adds the loan's interest to the broker's revenue once for each
/// payment, whatever the payments were.
pub proof fn theorem_payments_accumulate(loan: Loan, broker: Broker, amounts: Seq<u64>)
    ensures
        repay_all(loan, broker, amounts) matches Some((l, b)) ==> {
            &&& l.amount == loan.amount
            &&& l.fee == loan.fee
            &&& l.payed == loan.payed + total_paid(amounts)
            &&& b.capital == broker.capital + total_paid(amounts)
            &&& b.lended == broker.lended - total_paid(amounts)
            &&& b.revenue == broker.revenue + amounts.len() * loan.interest_spec()
        },
    decreases amounts.len(),
{
    if amounts.len() > 0 {
        let earlier = amounts.drop_last();
        theorem_payments_accumulate(loan, broker, earlier);
        let charged = loan.interest_spec();
        assert(earlier.len() * charged + charged == amounts.len() * charged)
            by (nonlinear_arith)
            requires
                earlier.len() + 1 == amounts.len(),
        ;
    }
}

/// The interest of a payment depends on the loan's approved principal and
/// fee alone: two payments of different size on one loan, the second made
/// after the first was booked, are charged the same.
pub proof fn theorem_interest_is_fixed(loan: Loan, broker: Broker, first: u64, second: u64)
    requires
        repay_error(loan, broker, first) is None,
        repay_error(loan_after(loan, first), broker_after(loan, broker, first), second) is None,
    ensures
        transfer_for(loan, first).interest == loan.amount as int / loan.fee as int,
        transfer_for(loan_after(loan, first), second).interest == transfer_for(
            loan,
            first,
        ).interest,
        transfer_for(loan, second).interest == transfer_for(loan, first).interest,
{
}

/// Paying `amount` twice is not paying twice `amount` once, where the
/// loan's interest is not zero: the single payment, if it is accepted at
/// all, leaves the loan as the two do, but earns the broker the interest
/// once where the two earn it twice.
pub proof fn theorem_two_payments_are_not_one(loan: Loan, broker: Broker, amount: u64)
    requires
        repay_error(loan, broker, amount) is None,
        repay_error(loan_after(loan, amount), broker_after(loan, broker, amount), amount) is None,
        loan.interest_spec() > 0,
    ensures
        2 * amount <= u64::MAX,
        ({
            let twice_loan = loan_after(loan_after(loan, amount), amount);
            let twice_broker = broker_after(
                loan_after(loan, amount),
                broker_after(loan, broker, amount),
                amount,
            );
            let double = (2 * amount) as u64;
            match repay_error(loan, broker, double) {
                None => {
                    &&& loan_after(loan, double) == twice_loan
                    &&& broker_after(loan, broker, double) != twice_broker
                    &&& broker_after(loan, broker, double).capital == twice_broker.capital
                    &&& broker_after(loan, broker, double).lended == twice_broker.lended
                    &&& broker_after(loan, broker, double).revenue + loan.interest_spec()
                        == twice_broker.revenue
                    &&& transfer_for(loan, double).total + loan.interest_spec() == 2
                        * transfer_for(loan, amount).total
                },
                Some(e) => e == RepaymentError::ArithmeticOverflow,
            }
        }),
{
}

/// A loan that is repaid in full takes no further principal: the one
/// payment that is still accepted is of nothing, and leaves the loan as it
/// is.
pub proof fn theorem_repaid_is_terminal(loan: Loan, broker: Broker, amount: u64)
    requires
        loan.status_spec() == LoanStatus::Repaid,
        repay_error(loan, broker, amount) is None,
    ensures
        amount == 0,
        loan_after(loan, amount) == loan,
{
}

/// An accepted payment never moves a loan back: a loan that was active is
/// not new afterwards, and one that was repaid stays repaid.
pub proof fn theorem_status_advances(loan: Loan, broker: Broker, amount: u64)
    requires
        repay_error(loan, broker, amount) is None,
    ensures
        loan.status_spec() == LoanStatus::Repaid ==> loan_after(loan, amount).status_spec()
            == LoanStatus::Repaid,
        loan.status_spec() == LoanStatus::Active ==> loan_after(loan, amount).status_spec()
            != LoanStatus::New,
        amount > 0 ==> loan_after(loan, amount).status_spec() != LoanStatus::New,
{
}

} // verus!
