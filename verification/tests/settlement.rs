use informal_lender::error::RepaymentError;
use informal_lender::repayment::Transfer;
use informal_lender::settlement::pay_loan;
use informal_lender::state::{Broker, Loan};

#[test]
fn pay_loan_moves_principal_and_interest() {
    let mut loan = Loan { amount: 1000, payed: 0, fee: 10 };
    let mut broker = Broker { revenue: 0, capital: 0, lended: 1000 };
    let mut client_balance = 5000u64;
    let mut broker_balance = 20u64;
    let result = pay_loan(&mut client_balance, &mut loan, &mut broker, &mut broker_balance, 1000);
    assert_eq!(result, Ok(()));
    assert_eq!(loan, Loan { amount: 1000, payed: 1000, fee: 10 });
    assert_eq!(broker, Broker { revenue: 100, capital: 1000, lended: 0 });
    assert_eq!(client_balance, 3900);
    assert_eq!(broker_balance, 1120);
}

#[test]
fn pay_loan_refuses_overpayment_and_moves_nothing() {
    let mut loan = Loan { amount: 1000, payed: 0, fee: 10 };
    let mut broker = Broker { revenue: 0, capital: 0, lended: 1000 };
    let mut client_balance = 5000u64;
    let mut broker_balance = 20u64;
    let result = pay_loan(&mut client_balance, &mut loan, &mut broker, &mut broker_balance, 1001);
    assert_eq!(result, Err(RepaymentError::Overpayment));
    assert_eq!(loan, Loan { amount: 1000, payed: 0, fee: 10 });
    assert_eq!(broker, Broker { revenue: 0, capital: 0, lended: 1000 });
    assert_eq!(client_balance, 5000);
    assert_eq!(broker_balance, 20);
}

#[test]
fn pay_loan_rolls_back_when_the_client_cannot_pay() {
    let mut loan = Loan { amount: 1000, payed: 200, fee: 10 };
    let mut broker = Broker { revenue: 100, capital: 200, lended: 800 };
    let mut client_balance = 399u64;
    let mut broker_balance = 20u64;
    let result = pay_loan(&mut client_balance, &mut loan, &mut broker, &mut broker_balance, 300);
    assert_eq!(result, Err(RepaymentError::InsufficientFunds));
    assert_eq!(loan, Loan { amount: 1000, payed: 200, fee: 10 });
    assert_eq!(broker, Broker { revenue: 100, capital: 200, lended: 800 });
    assert_eq!(client_balance, 399);
    assert_eq!(broker_balance, 20);
    client_balance = 400;
    let result = pay_loan(&mut client_balance, &mut loan, &mut broker, &mut broker_balance, 300);
    assert_eq!(result, Ok(()));
    assert_eq!(loan.payed, 500);
    assert_eq!(broker, Broker { revenue: 200, capital: 500, lended: 500 });
    assert_eq!(client_balance, 0);
    assert_eq!(broker_balance, 420);
}

#[test]
fn pay_loan_rolls_back_when_the_broker_balance_is_full() {
    let mut loan = Loan { amount: 1000, payed: 0, fee: 10 };
    let mut broker = Broker { revenue: 0, capital: 0, lended: 1000 };
    let mut client_balance = 5000u64;
    let mut broker_balance = u64::MAX - 109;
    let result = pay_loan(&mut client_balance, &mut loan, &mut broker, &mut broker_balance, 10);
    assert_eq!(result, Err(RepaymentError::ArithmeticOverflow));
    assert_eq!(loan, Loan { amount: 1000, payed: 0, fee: 10 });
    assert_eq!(broker, Broker { revenue: 0, capital: 0, lended: 1000 });
    assert_eq!(client_balance, 5000);
    assert_eq!(broker_balance, u64::MAX - 109);
}

#[test]
fn pay_loan_reports_the_booking_error_before_the_balance() {
    let mut loan = Loan { amount: 1000, payed: 0, fee: 0 };
    let mut broker = Broker { revenue: 0, capital: 0, lended: 0 };
    let mut client_balance = 0u64;
    let mut broker_balance = 0u64;
    let result = pay_loan(&mut client_balance, &mut loan, &mut broker, &mut broker_balance, 10);
    assert_eq!(result, Err(RepaymentError::ArithmeticOverflow));
    loan.fee = 10;
    let result = pay_loan(&mut client_balance, &mut loan, &mut broker, &mut broker_balance, 10);
    assert_eq!(result, Err(RepaymentError::Underflow));
    broker.lended = 10;
    let result = pay_loan(&mut client_balance, &mut loan, &mut broker, &mut broker_balance, 10);
    assert_eq!(result, Err(RepaymentError::InsufficientFunds));
    assert_eq!(loan.payed, 0);
}

#[test]
fn settle_conserves_the_sum_of_the_balances() {
    let transfer = Transfer { amount: 40, interest: 2, total: 42 };
    let mut client_balance = 100u64;
    let mut broker_balance = 58u64;
    assert_eq!(transfer.settle(&mut client_balance, &mut broker_balance), Ok(()));
    assert_eq!(client_balance, 58);
    assert_eq!(broker_balance, 100);
}

#[test]
fn settle_refuses_what_the_client_cannot_cover() {
    let transfer = Transfer { amount: 40, interest: 2, total: 42 };
    let mut client_balance = 41u64;
    let mut broker_balance = 0u64;
    assert_eq!(
        transfer.settle(&mut client_balance, &mut broker_balance),
        Err(RepaymentError::InsufficientFunds)
    );
    assert_eq!(client_balance, 41);
    assert_eq!(broker_balance, 0);
}

#[test]
fn settle_refuses_what_the_broker_cannot_hold() {
    let transfer = Transfer { amount: 40, interest: 2, total: 42 };
    let mut client_balance = 42u64;
    let mut broker_balance = u64::MAX - 41;
    assert_eq!(
        transfer.settle(&mut client_balance, &mut broker_balance),
        Err(RepaymentError::ArithmeticOverflow)
    );
    assert_eq!(client_balance, 42);
    assert_eq!(broker_balance, u64::MAX - 41);
    broker_balance = u64::MAX - 42;
    assert_eq!(transfer.settle(&mut client_balance, &mut broker_balance), Ok(()));
    assert_eq!(client_balance, 0);
    assert_eq!(broker_balance, u64::MAX);
}
