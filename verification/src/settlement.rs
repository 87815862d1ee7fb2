use vstd::prelude::*;
use crate::error::RepaymentError;
use crate::state::{Broker, Loan};
use crate::repayment::{Transfer, broker_after, loan_after, repay, repay_error, transfer_for};

verus! {

/// The reason for which `total` cannot move from a client holding
/// `client_balance` to a broker holding `broker_balance`, or `None` where it
/// can.
pub open spec fn settle_error(total: u64, client_balance: u64, broker_balance: u64) -> Option<
    RepaymentError,
> {
    if client_balance < total {
        Some(RepaymentError::InsufficientFunds)
    } else if broker_balance + total > u64::MAX {
        Some(RepaymentError::ArithmeticOverflow)
    } else {
        None
    }
}

/// The reason for which a payment of `amount` is refused as a whole: the
/// reason for which it cannot be booked, else the reason for which its
/// transfer cannot be settled.
pub open spec fn pay_loan_error(
    client_balance: u64,
    loan: Loan,
    broker: Broker,
    broker_balance: u64,
    amount: u64,
) -> Option<RepaymentError> {
    match repay_error(loan, broker, amount) {
        Some(e) => Some(e),
        None => settle_error(transfer_for(loan, amount).total, client_balance, broker_balance),
    }
}

impl Transfer {
    /// Debits the transfer's total from the client's balance and credits it
    /// to the broker's. Where the client cannot cover it, or the broker's
    /// balance would leave its range, neither balance changes.
    pub fn settle(&self, client_balance: &mut u64, broker_balance: &mut u64) -> (result: Result<
        (),
        RepaymentError,
    >)
        ensures
            match result {
                Ok(_) => {
                    &&& settle_error(self.total, *old(client_balance), *old(broker_balance))
                        is None
                    &&& *final(client_balance) == *old(client_balance) - self.total
                    &&& *final(broker_balance) == *old(broker_balance) + self.total
                },
                Err(e) => {
                    &&& settle_error(self.total, *old(client_balance), *old(broker_balance))
                        == Some(e)
                    &&& *final(client_balance) == *old(client_balance)
                    &&& *final(broker_balance) == *old(broker_balance)
                },
            },
            *final(client_balance) + *final(broker_balance) == *old(client_balance) + *old(
                broker_balance,
            ),
    {
        let debited: u64 = match client_balance.checked_sub(self.total) {
            Some(rest) => rest,
            None => {
                return Err(RepaymentError::InsufficientFunds);
            },
        };
        let credited: u64 = match broker_balance.checked_add(self.total) {
            Some(sum) => sum,
            None => {
                return Err(RepaymentError::ArithmeticOverflow);
            },
        };
        *client_balance = debited;
        *broker_balance = credited;
        Ok(())
    }
}

/// A client pays `amount` of principal on `loan`. The interest of the loan's
/// fixed fee is charged on top, the payment is booked in `broker`, and
/// principal plus interest move from the client's balance to the broker's.
/// The four values change together or not at all.
pub fn pay_loan(
    client_balance: &mut u64,
    loan: &mut Loan,
    broker: &mut Broker,
    broker_balance: &mut u64,
    amount: u64,
) -> (result: Result<(), RepaymentError>)
    ensures
        match result {
            Ok(_) => {
                &&& pay_loan_error(
                    *old(client_balance),
                    *old(loan),
                    *old(broker),
                    *old(broker_balance),
                    amount,
                ) is None
                &&& *final(loan) == loan_after(*old(loan), amount)
                &&& *final(broker) == broker_after(*old(loan), *old(broker), amount)
                &&& *final(client_balance) == *old(client_balance) - transfer_for(
                    *old(loan),
                    amount,
                ).total
                &&& *final(broker_balance) == *old(broker_balance) + transfer_for(
                    *old(loan),
                    amount,
                ).total
            },
            Err(e) => {
                &&& pay_loan_error(
                    *old(client_balance),
                    *old(loan),
                    *old(broker),
                    *old(broker_balance),
                    amount,
                ) == Some(e)
                &&& *final(loan) == *old(loan)
                &&& *final(broker) == *old(broker)
                &&& *final(client_balance) == *old(client_balance)
                &&& *final(broker_balance) == *old(broker_balance)
            },
        },
        result is Ok ==> {
            &&& final(loan).payed == old(loan).payed + amount
            &&& final(loan).well_formed()
            &&& *old(client_balance) - *final(client_balance) == amount + old(
                loan,
            ).interest_spec()
            &&& *final(broker_balance) - *old(broker_balance) == amount + old(
                loan,
            ).interest_spec()
        },
        *final(client_balance) + *final(broker_balance) == *old(client_balance) + *old(
            broker_balance,
        ),
{
    let mut booked_loan: Loan = *loan;
    let mut booked_broker: Broker = *broker;
    let transfer: Transfer = match repay(&mut booked_loan, &mut booked_broker, amount) {
        Ok(transfer) => transfer,
        Err(e) => {
            return Err(e);
        },
    };
    match transfer.settle(client_balance, broker_balance) {
        Ok(_) => {},
        Err(e) => {
            return Err(e);
        },
    }
    *loan = booked_loan;
    *broker = booked_broker;
    Ok(())
}

} // verus!
