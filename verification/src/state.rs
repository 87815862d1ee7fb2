use vstd::prelude::*;

verus! {

/// One credit extended to a client.
#[derive(Clone, Copy, Debug, PartialEq, Eq, Structural)]
pub struct Loan {
    /// Principal approved.
    pub amount: u64,
    /// Principal repaid so far.
    pub payed: u64,
    /// Divisor of the fixed interest: every payment is charged `amount / fee`.
    pub fee: u32,
}

/// The lender's aggregate ledger over all of its loans.
#[derive(Clone, Copy, Debug, PartialEq, Eq, Structural)]
pub struct Broker {
    /// Interest earned.
    pub revenue: u128,
    /// Principal recovered.
    pub capital: u128,
    /// Principal still outstanding.
    pub lended: u128,
}

/// Where a loan stands between origination and full repayment.
#[derive(Clone, Copy, Debug, PartialEq, Eq, Structural)]
pub enum LoanStatus {
    /// Nothing has been repaid.
    New,
    /// Part of the principal has been repaid.
    Active,
    /// The whole principal has been repaid.
    Repaid,
}

impl Loan {
    /// The repaid principal never exceeds the approved principal.
    pub open spec fn well_formed(&self) -> bool {
        self.payed <= self.amount
    }

    /// The interest charged on each payment: the approved principal divided
    /// by the fee, rounded down. Meaningful only for a non-zero fee.
    pub open spec fn interest_spec(&self) -> int
        recommends
            self.fee > 0,
    {
        (self.amount as int) / (self.fee as int)
    }

    /// The status that the repaid principal stands for.
    pub open spec fn status_spec(&self) -> LoanStatus {
        if self.payed >= self.amount {
            LoanStatus::Repaid
        } else if self.payed == 0 {
            LoanStatus::New
        } else {
            LoanStatus::Active
        }
    }

    /// The interest charged on each payment, or `None` where the fee divisor
    /// is zero.
    pub fn interest(&self) -> (result: Option<u64>)
        ensures
            result is None <==> self.fee == 0,
            result matches Some(charged) ==> charged == self.interest_spec() && charged
                <= self.amount,
    {
        if self.fee == 0 {
            None
        } else {
            let divisor: u64 = self.fee as u64;
            let charged: u64 = self.amount / divisor;
            proof {
                lemma_quotient_bounded(self.amount as int, self.fee as int);
            }
            Some(charged)
        }
    }

    /// Where the loan stands.
    pub fn status(&self) -> (result: LoanStatus)
        ensures
            result == self.status_spec(),
    {
        if self.payed >= self.amount {
            LoanStatus::Repaid
        } else if self.payed == 0 {
            LoanStatus::New
        } else {
            LoanStatus::Active
        }
    }
}

/// A non-negative number divided by a positive one lies between zero and
/// the number itself.
pub proof fn lemma_quotient_bounded(n: int, d: int)
    requires
        0 <= n,
        0 < d,
    ensures
        0 <= n / d <= n,
{
    assert(0 <= n / d <= n) by (nonlinear_arith)
        requires
            0 <= n,
            0 < d,
    ;
}

} // verus!
