//! Properties that span several operations, or that single out one aspect of
//! an operation's contract, proved over the specifications the operations
//! themselves are verified against.
use vstd::prelude::*;

use crate::address::Address;
use crate::context::{CallContext, Transfer};
use crate::error::Error;
use crate::escrow::{deposit_spec, withdraw_spec, EscrowView, ReceiptConfig};
use crate::retainer::{
    add_retainer_balance_spec, resolve_bill_spec, submit_bill_spec, ApprovalStatus, Bill, Receipt,
    RetainerBalance, RetainerView,
};
use crate::time_bound::{TimeBound, TimeBoundKind};

verus! {

/// A successful deposit stores a receipt with a strictly positive amount at
/// the next index, and the recipient's receipt count grows by exactly one.
pub proof fn lemma_deposit_counts_once(
    s: EscrowView,
    ctx: CallContext,
    depositor: Address,
    recipient: Address,
    token: Address,
    amount: i128,
    time_bound: TimeBound,
)
    requires
        deposit_spec(s, ctx, depositor, recipient, token, amount, time_bound) is Ok,
    ensures
        ({
            let (next, (receipt, _, _)) = deposit_spec(s, ctx, depositor, recipient, token, amount, time_bound)->Ok_0;
            &&& receipt.amount > 0
            &&& next.receipt_count(recipient@) == s.receipt_count(recipient@) + 1
            &&& next.receipts.contains_key((recipient@, next.receipt_count(recipient@)))
            &&& next.receipts[(recipient@, next.receipt_count(recipient@))] == receipt
        }),
{
}

/// Withdrawing a receipt in full removes it; withdrawing part of it leaves the
/// rest under the same depositor, token and time bound.
pub proof fn lemma_withdraw_full_or_partial(
    s: EscrowView,
    ctx: CallContext,
    recipient: Address,
    index: u32,
    amount: Option<i128>,
)
    requires
        withdraw_spec(s, ctx, recipient, index, amount) is Ok,
    ensures
        ({
            let before = s.receipts[(recipient@, index)];
            let (next, (returned, _, transfer)) = withdraw_spec(s, ctx, recipient, index, amount)->Ok_0;
            let taken = match amount {
                Some(a) => a,
                None => before.amount,
            };
            &&& returned == before
            &&& transfer.amount == taken
            &&& taken == before.amount ==> !next.receipts.contains_key((recipient@, index))
            &&& taken < before.amount ==> next.receipts.contains_key((recipient@, index)) && next.receipts[(
                recipient@,
                index,
            )] == (ReceiptConfig { amount: (before.amount - taken) as i128, ..before })
        }),
{
}

/// A receipt bound by `After(t)` cannot be withdrawn before `t`, and can be
/// withdrawn in full at or after `t`.
pub proof fn lemma_after_bound_gates_withdrawal(
    s: EscrowView,
    ctx: CallContext,
    recipient: Address,
    index: u32,
)
    requires
        ctx.authorizes(recipient@),
        s.receipts.contains_key((recipient@, index)),
        s.receipts[(recipient@, index)].time_bound.kind == TimeBoundKind::After,
    ensures
        ctx.timestamp < s.receipts[(recipient@, index)].time_bound.timestamp ==> withdraw_spec(
            s,
            ctx,
            recipient,
            index,
            None,
        ) == Err::<(EscrowView, (ReceiptConfig, u32, Transfer)), Error>(
            Error::TimePredicateUnfulfilled,
        ),
        ctx.timestamp >= s.receipts[(recipient@, index)].time_bound.timestamp ==> withdraw_spec(
            s,
            ctx,
            recipient,
            index,
            None,
        ) is Ok,
{
}

/// Approving a freshly submitted bill pays exactly its amount out of the
/// balance to the retainee and appends one approved receipt at the next
/// history index.
pub proof fn lemma_submit_then_approve(
    s: RetainerView,
    submit_ctx: CallContext,
    resolve_ctx: CallContext,
    retainor: Address,
    retainee: Address,
    amount: i128,
    notes: String,
    date: String,
    resolve_notes: String,
    resolve_date: String,
)
    requires
        s.pair(retainor@, retainee@).consistent(),
        resolve_ctx.authorizes(retainor@),
        s.pair(retainor@, retainee@).history.len() < u32::MAX,
        submit_bill_spec(s, submit_ctx, retainor, retainee, amount, notes, date) is Ok,
    ensures
        ({
            let before = s.pair(retainor@, retainee@);
            let held = before.balance->Some_0;
            let s1 = submit_bill_spec(s, submit_ctx, retainor, retainee, amount, notes, date)->Ok_0;
            let bill = Bill { amount, token: held.token, notes, date };
            let outcome = resolve_bill_spec(
                s1,
                resolve_ctx,
                retainor,
                retainee,
                ApprovalStatus::Approved,
                resolve_notes,
                resolve_date,
            );
            &&& outcome is Ok
            &&& ({
                let (s2, payout) = outcome->Ok_0;
                let after = s2.pair(retainor@, retainee@);
                &&& after.balance == Some(
                    RetainerBalance { amount: (held.amount - amount) as i128, token: held.token },
                )
                &&& payout == Some(
                    Transfer { token: held.token, from: s.custody, to: retainee, amount },
                )
                &&& after.pending is None
                &&& after.history.len() == before.history.len() + 1
                &&& after.history == before.history.push(
                    Receipt {
                        bill,
                        notes: resolve_notes,
                        date: resolve_date,
                        status: ApprovalStatus::Approved,
                    },
                )
            })
        }),
{
}

/// Denying a freshly submitted bill moves no funds and leaves the balance as
/// it was, yet clears the bill and appends one denied receipt.
pub proof fn lemma_submit_then_deny(
    s: RetainerView,
    submit_ctx: CallContext,
    resolve_ctx: CallContext,
    retainor: Address,
    retainee: Address,
    amount: i128,
    notes: String,
    date: String,
    resolve_notes: String,
    resolve_date: String,
)
    requires
        resolve_ctx.authorizes(retainor@),
        s.pair(retainor@, retainee@).history.len() < u32::MAX,
        submit_bill_spec(s, submit_ctx, retainor, retainee, amount, notes, date) is Ok,
    ensures
        ({
            let before = s.pair(retainor@, retainee@);
            let s1 = submit_bill_spec(s, submit_ctx, retainor, retainee, amount, notes, date)->Ok_0;
            let bill = Bill { amount, token: before.balance->Some_0.token, notes, date };
            let outcome = resolve_bill_spec(
                s1,
                resolve_ctx,
                retainor,
                retainee,
                ApprovalStatus::Denied,
                resolve_notes,
                resolve_date,
            );
            &&& outcome is Ok
            &&& ({
                let (s2, payout) = outcome->Ok_0;
                let after = s2.pair(retainor@, retainee@);
                &&& after.balance == before.balance
                &&& payout is None
                &&& after.pending is None
                &&& after.history == before.history.push(
                    Receipt {
                        bill,
                        notes: resolve_notes,
                        date: resolve_date,
                        status: ApprovalStatus::Denied,
                    },
                )
            })
        }),
{
}

/// While a bill is pending, another submission for the same pair is refused
/// and changes nothing.
pub proof fn lemma_one_pending_bill(
    s: RetainerView,
    ctx: CallContext,
    retainor: Address,
    retainee: Address,
    amount: i128,
    notes: String,
    date: String,
    second_ctx: CallContext,
    second_amount: i128,
    second_notes: String,
    second_date: String,
)
    requires
        submit_bill_spec(s, ctx, retainor, retainee, amount, notes, date) is Ok,
        second_ctx.authorizes(retainee@),
        second_amount > 0,
    ensures
        submit_bill_spec(
            submit_bill_spec(s, ctx, retainor, retainee, amount, notes, date)->Ok_0,
            second_ctx,
            retainor,
            retainee,
            second_amount,
            second_notes,
            second_date,
        ) == Err::<RetainerView, Error>(Error::PendingPaymentAlreadyExists),
{
}

/// Once a pair is funded in one token, funding it in another is refused;
/// funding it again in the same token adds the amounts exactly.
pub proof fn lemma_fund_twice(
    s: RetainerView,
    ctx: CallContext,
    retainor: Address,
    retainee: Address,
    first: i128,
    token: Address,
    second: i128,
    second_token: Address,
)
    requires
        add_retainer_balance_spec(s, ctx, retainor, retainee, first, token) is Ok,
        second > 0,
    ensures
        ({
            let s1 = add_retainer_balance_spec(s, ctx, retainor, retainee, first, token)->Ok_0.0;
            let held = s1.pair(retainor@, retainee@).balance->Some_0;
            let again = add_retainer_balance_spec(s1, ctx, retainor, retainee, second, second_token);
            &&& second_token@ != token@ ==> again == Err::<(RetainerView, Transfer), Error>(
                Error::TokenMismatch,
            )
            &&& second_token@ == token@ && held.amount + second <= i128::MAX ==> {
                &&& again is Ok
                &&& again->Ok_0.0.pair(retainor@, retainee@).balance->Some_0.amount == held.amount
                    + second
                &&& held.amount == (match s.pair(retainor@, retainee@).balance {
                    Some(b) => b.amount,
                    None => 0,
                }) + first
            }
        }),
{
}

} // verus!
