use vstd::prelude::*;
use crate::error::RepaymentError;
use crate::state::{Broker, Loan};

verus! {

/// The value that one accepted payment moves from the client to the broker.
#[derive(Clone, Copy, Debug, PartialEq, Eq, Structural)]
pub struct Transfer {
    /// Principal paid.
    pub amount: u64,
    /// Interest charged on this payment.
    pub interest: u64,
    /// What the client is debited and the broker credited.
    pub total: u64,
}

impl Transfer {
    /// The total is principal plus interest.
    pub open spec fn well_formed(&self) -> bool {
        self.total == self.amount + self.interest
    }
}

/// The reason for which a payment of `amount` on `loan`, booked in `broker`,
/// is refused, or `None` where it is accepted. The tests are made in this
/// order: the loan's cap, the fee divisor, the broker's revenue, its
/// capital, its outstanding principal, and last the sum to transfer.
pub open spec fn repay_error(loan: Loan, broker: Broker, amount: u64) -> Option<RepaymentError> {
    if loan.payed + amount > loan.amount {
        Some(RepaymentError::Overpayment)
    } else if loan.fee == 0 {
        Some(RepaymentError::ArithmeticOverflow)
    } else if broker.revenue + loan.interest_spec() > u128::MAX {
        Some(RepaymentError::ArithmeticOverflow)
    } else if broker.capital + amount > u128::MAX {
        Some(RepaymentError::ArithmeticOverflow)
    } else if broker.lended < amount {
        Some(RepaymentError::Underflow)
    } else if amount + loan.interest_spec() > u64::MAX {
        Some(RepaymentError::ArithmeticOverflow)
    } else {
        None
    }
}

/// The loan after an accepted payment of `amount`.
pub open spec fn loan_after(loan: Loan, amount: u64) -> Loan {
    Loan { amount: loan.amount, payed: (loan.payed + amount) as u64, fee: loan.fee }
}

/// The broker's ledger after an accepted payment of `amount` on `loan`.
pub open spec fn broker_after(loan: Loan, broker: Broker, amount: u64) -> Broker {
    Broker {
        revenue: (broker.revenue + loan.interest_spec()) as u128,
        capital: (broker.capital + amount) as u128,
        lended: (broker.lended - amount) as u128,
    }
}

/// The transfer that an accepted payment of `amount` on `loan` asks for.
pub open spec fn transfer_for(loan: Loan, amount: u64) -> Transfer {
    Transfer {
        amount,
        interest: loan.interest_spec() as u64,
        total: (amount + loan.interest_spec()) as u64,
    }
}

/// Books a payment of `amount` on `loan` in `broker` and returns the transfer
/// that settles it. A refused payment leaves both records as they were.
pub fn repay(loan: &mut Loan, broker: &mut Broker, amount: u64) -> (result: Result<
    Transfer,
    RepaymentError,
>)
    ensures
        match result {
            Ok(transfer) => {
                &&& repay_error(*old(loan), *old(broker), amount) is None
                &&& *final(loan) == loan_after(*old(loan), amount)
                &&& *final(broker) == broker_after(*old(loan), *old(broker), amount)
                &&& transfer == transfer_for(*old(loan), amount)
            },
            Err(e) => {
                &&& repay_error(*old(loan), *old(broker), amount) == Some(e)
                &&& *final(loan) == *old(loan)
                &&& *final(broker) == *old(broker)
            },
        },
        (result matches Err(e) && e == RepaymentError::Overpayment) <==> old(loan).payed + amount
            > old(loan).amount,
        result matches Ok(transfer) ==> {
            &&& final(loan).amount == old(loan).amount
            &&& final(loan).fee == old(loan).fee
            &&& final(loan).payed == old(loan).payed + amount
            &&& final(loan).well_formed()
            &&& final(broker).revenue == old(broker).revenue + old(loan).interest_spec()
            &&& final(broker).capital == old(broker).capital + amount
            &&& final(broker).lended == old(broker).lended - amount
            &&& transfer.amount == amount
            &&& transfer.interest == old(loan).interest_spec()
            &&& transfer.well_formed()
        },
{
    let payed: u64 = match loan.payed.checked_add(amount) {
        Some(sum) => sum,
        None => {
            return Err(RepaymentError::Overpayment);
        },
    };
    if payed > loan.amount {
        return Err(RepaymentError::Overpayment);
    }
    let interest: u64 = match loan.interest() {
        Some(charged) => charged,
        None => {
            return Err(RepaymentError::ArithmeticOverflow);
        },
    };
    let revenue: u128 = match broker.revenue.checked_add(interest as u128) {
        Some(sum) => sum,
        None => {
            return Err(RepaymentError::ArithmeticOverflow);
        },
    };
    let capital: u128 = match broker.capital.checked_add(amount as u128) {
        Some(sum) => sum,
        None => {
            return Err(RepaymentError::ArithmeticOverflow);
        },
    };
    let lended: u128 = match broker.lended.checked_sub(amount as u128) {
        Some(rest) => rest,
        None => {
            return Err(RepaymentError::Underflow);
        },
    };
    let total: u64 = match amount.checked_add(interest) {
        Some(sum) => sum,
        None => {
            return Err(RepaymentError::ArithmeticOverflow);
        },
    };
    broker.revenue = revenue;
    broker.capital = capital;
    broker.lended = lended;
    loan.payed = payed;
    Ok(Transfer { amount, interest, total })
}

} // verus!
