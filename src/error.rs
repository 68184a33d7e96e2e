use vstd::prelude::*;

verus! {

/// Why an operation was refused. A refused operation changes nothing.
#[derive(Debug, Clone, Copy, PartialEq, Eq, Structural)]
pub enum Error {
    /// The party whose consent the operation needs did not sign it.
    NotAuthorized,
    /// An amount is not strictly positive where it must be, or a withdrawal
    /// asks for more than the receipt holds.
    NegativeAmount,
    /// The receipt's time bound does not hold at the current ledger time.
    TimePredicateUnfulfilled,
    /// No escrow receipt exists at the given recipient and index.
    NoReceiptsFound,
    /// A bill was submitted for a pair that was never funded.
    NoRetainedBalance,
    /// A bill asks for more than the pair's retained balance.
    InsufficientRetainedBalance,
    /// A bill is already pending for the pair.
    PendingPaymentAlreadyExists,
    /// There is no pending bill to resolve.
    NoPendingPayment,
    /// The pair's balance is held in another token.
    TokenMismatch,
    /// A balance or a counter would exceed its range. (A payout cannot take a
    /// balance below zero: a pending bill is always covered by its balance.)
    Overflow,
}

/// Accepts strictly positive amounts only.
pub fn check_positive_amount(amount: i128) -> (r: Result<(), Error>)
    ensures
        r is Ok <==> amount > 0,
        r is Err ==> r == Err::<(), Error>(Error::NegativeAmount),
{
    if amount <= 0 {
        Err(Error::NegativeAmount)
    } else {
        Ok(())
    }
}

} // verus!
