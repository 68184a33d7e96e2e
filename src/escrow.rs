use vstd::prelude::*;

use crate::address::Address;
use crate::context::{CallContext, Transfer};
use crate::error::Error;
use crate::table::{Table, TableKey};
use crate::time_bound::{check_time_bound, TimeBound, TimeBoundKind};

verus! {

/// A time-locked claim on deposited funds, held for a recipient.
#[derive(Debug, Clone, PartialEq, Eq)]
pub struct ReceiptConfig {
    pub amount: i128,
    pub depositor: Address,
    pub token: Address,
    pub time_bound: TimeBound,
}

impl ReceiptConfig {
    pub fn duplicate(&self) -> (r: ReceiptConfig)
        ensures
            r == *self,
    {
        ReceiptConfig {
            amount: self.amount,
            depositor: self.depositor.duplicate(),
            token: self.token.duplicate(),
            time_bound: self.time_bound,
        }
    }
}

/// Receipts are keyed by their recipient and their sequence index.
pub struct ReceiptKey {
    pub recipient: Address,
    pub index: u32,
}

impl View for ReceiptKey {
    type V = (Seq<char>, u32);

    open spec fn view(&self) -> (Seq<char>, u32) {
        (self.recipient@, self.index)
    }
}

impl TableKey for ReceiptKey {
    fn same_key(&self, other: &ReceiptKey) -> (r: bool) {
        self.index == other.index && self.recipient.same_as(&other.recipient)
    }
}

impl TableKey for Address {
    fn same_key(&self, other: &Address) -> (r: bool) {
        self.same_as(other)
    }
}

/// The abstract state of an escrow ledger.
pub struct EscrowView {
    pub admin: Address,
    /// The ledger's own custody account.
    pub custody: Address,
    /// Live receipts, by recipient and index.
    pub receipts: Map<(Seq<char>, u32), ReceiptConfig>,
    /// The last index handed out to each recipient.
    pub counts: Map<Seq<char>, u32>,
}

impl EscrowView {
    /// How many deposits `recipient` has received so far (0 if none).
    pub open spec fn receipt_count(self, recipient: Seq<char>) -> u32 {
        if self.counts.contains_key(recipient) {
            self.counts[recipient]
        } else {
            0
        }
    }
}

/// What a deposit does to the ledger: the new state together with the stored
/// receipt, the epoch and the transfer into custody, or why it is refused.
pub open spec fn deposit_spec(
    s: EscrowView,
    ctx: CallContext,
    depositor: Address,
    recipient: Address,
    token: Address,
    amount: i128,
    time_bound: TimeBound,
) -> Result<(EscrowView, (ReceiptConfig, u32, Transfer)), Error> {
    let count = s.receipt_count(recipient@);
    if !ctx.authorizes(depositor@) {
        Err(Error::NotAuthorized)
    } else if amount <= 0 {
        Err(Error::NegativeAmount)
    } else if count == u32::MAX {
        Err(Error::Overflow)
    } else {
        let index = (count + 1) as u32;
        let receipt = ReceiptConfig { amount, depositor, token, time_bound };
        let transfer = Transfer { token, from: depositor, to: s.custody, amount };
        let next = EscrowView {
            admin: s.admin,
            custody: s.custody,
            receipts: s.receipts.insert((recipient@, index), receipt),
            counts: s.counts.insert(recipient@, index),
        };
        Ok((next, (receipt, ctx.sequence, transfer)))
    }
}

/// What a withdrawal does to the ledger: the new state together with the
/// receipt as it stood before, the epoch and the transfer out of custody, or
/// why it is refused. `None` asks for the whole receipt.
pub open spec fn withdraw_spec(
    s: EscrowView,
    ctx: CallContext,
    recipient: Address,
    index: u32,
    amount: Option<i128>,
) -> Result<(EscrowView, (ReceiptConfig, u32, Transfer)), Error> {
    let key = (recipient@, index);
    if !ctx.authorizes(recipient@) {
        Err(Error::NotAuthorized)
    } else if amount is Some && amount->Some_0 < 0 {
        Err(Error::NegativeAmount)
    } else if !s.receipts.contains_key(key) {
        Err(Error::NoReceiptsFound)
    } else {
        let receipt = s.receipts[key];
        if !receipt.time_bound.holds(ctx.timestamp) {
            Err(Error::TimePredicateUnfulfilled)
        } else if amount is Some && amount->Some_0 > receipt.amount {
            Err(Error::NegativeAmount)
        } else {
            let taken = match amount {
                Some(a) => a,
                None => receipt.amount,
            };
            let receipts = if taken < receipt.amount {
                s.receipts.insert(
                    key,
                    ReceiptConfig {
                        amount: (receipt.amount - taken) as i128,
                        depositor: receipt.depositor,
                        token: receipt.token,
                        time_bound: receipt.time_bound,
                    },
                )
            } else {
                s.receipts.remove(key)
            };
            let transfer = Transfer { token: receipt.token, from: s.custody, to: recipient, amount: taken };
            let next = EscrowView { admin: s.admin, custody: s.custody, receipts, counts: s.counts };
            Ok((next, (receipt, ctx.sequence, transfer)))
        }
    }
}

/// A time-locked escrow: depositors fund receipts for recipients, who may
/// withdraw them while the receipt's time bound holds.
pub struct EscrowContract {
    admin: Address,
    custody: Address,
    receipts: Table<ReceiptKey, ReceiptConfig>,
    counts: Table<Address, u32>,
}

impl View for EscrowContract {
    type V = EscrowView;

    closed spec fn view(&self) -> EscrowView {
        EscrowView {
            admin: self.admin,
            custody: self.custody,
            receipts: self.receipts@,
            counts: self.counts@,
        }
    }
}

impl EscrowContract {
    /// The tables are well formed and every live receipt holds a strictly
    /// positive amount.
    pub closed spec fn wf(&self) -> bool {
        &&& self.receipts.wf()
        &&& self.counts.wf()
        &&& forall|k: (Seq<char>, u32)|
            #[trigger] self.receipts@.contains_key(k) ==> self.receipts@[k].amount > 0
    }

    /// An empty escrow whose funds are held by `custody`.
    pub fn new(custody: Address, admin: Address) -> (r: EscrowContract)
        ensures
            r.wf(),
            r@.admin == admin,
            r@.custody == custody,
            r@.receipts == Map::<(Seq<char>, u32), ReceiptConfig>::empty(),
            r@.counts == Map::<Seq<char>, u32>::empty(),
    {
        EscrowContract { admin, custody, receipts: Table::new(), counts: Table::new() }
    }

    pub fn admin(&self) -> (r: Address)
        ensures
            r == self@.admin,
    {
        self.admin.duplicate()
    }

    /// Replaces the admin; the current admin must sign.
    pub fn set_admin(&mut self, ctx: &CallContext, new_admin: Address) -> (r: Result<(), Error>)
        requires
            old(self).wf(),
        ensures
            final(self).wf(),
            ctx.authorizes(old(self)@.admin@) ==> r is Ok && final(self)@ == (EscrowView {
                admin: new_admin,
                ..old(self)@
            }),
            !ctx.authorizes(old(self)@.admin@) ==> r == Err::<(), Error>(Error::NotAuthorized)
                && final(self)@ == old(self)@,
    {
        if !ctx.is_authorized(&self.admin) {
            return Err(Error::NotAuthorized);
        }
        self.admin = new_admin;
        Ok(())
    }

    /// The receipt at `(recipient, index)`, if it is still live.
    pub fn deposit_info(&self, recipient: &Address, index: u32) -> (r: Option<ReceiptConfig>)
        requires
            self.wf(),
        ensures
            r == (if self@.receipts.contains_key((recipient@, index)) {
                Some(self@.receipts[(recipient@, index)])
            } else {
                None
            }),
    {
        let key = ReceiptKey { recipient: recipient.duplicate(), index };
        match self.receipts.get(&key) {
            Some(receipt) => Some(receipt.duplicate()),
            None => None,
        }
    }

    /// The number of deposits made so far for `recipient`.
    pub fn deposit_index(&self, recipient: &Address) -> (r: u32)
        requires
            self.wf(),
        ensures
            r == self@.receipt_count(recipient@),
    {
        match self.counts.get(recipient) {
            Some(count) => *count,
            None => 0,
        }
    }

    /// Places a stored receipt into the ledger, as when it is read back from
    /// persistent storage. A receipt without a strictly positive amount is
    /// refused and changes nothing.
    pub fn restore_receipt(&mut self, recipient: Address, index: u32, receipt: ReceiptConfig) -> (r: Result<
        (),
        Error,
    >)
        requires
            old(self).wf(),
        ensures
            final(self).wf(),
            receipt.amount > 0 ==> r is Ok && final(self)@ == (EscrowView {
                receipts: old(self)@.receipts.insert((recipient@, index), receipt),
                ..old(self)@
            }),
            receipt.amount <= 0 ==> r == Err::<(), Error>(Error::NegativeAmount) && final(self)@
                == old(self)@,
    {
        if receipt.amount <= 0 {
            return Err(Error::NegativeAmount);
        }
        self.receipts.set(ReceiptKey { recipient, index }, receipt);
        Ok(())
    }

    /// Places a recipient's stored receipt count into the ledger.
    pub fn restore_count(&mut self, recipient: Address, count: u32)
        requires
            old(self).wf(),
        ensures
            final(self).wf(),
            final(self)@ == (EscrowView { counts: old(self)@.counts.insert(recipient@, count), ..old(self)@ }),
    {
        self.counts.set(recipient, count);
    }

    /// Funds a new receipt for `recipient` at the next index. The host moves
    /// `amount` of `token` from the depositor into custody, as the returned
    /// transfer says, before it keeps the new state.
    pub fn deposit(
        &mut self,
        ctx: &CallContext,
        depositor: Address,
        recipient: Address,
        token: Address,
        amount: i128,
        time_bound: TimeBound,
    ) -> (r: Result<(ReceiptConfig, u32, Transfer), Error>)
        requires
            old(self).wf(),
        ensures
            final(self).wf(),
            match deposit_spec(old(self)@, *ctx, depositor, recipient, token, amount, time_bound) {
                Ok((next, out)) => r == Ok::<(ReceiptConfig, u32, Transfer), Error>(out)
                    && final(self)@ == next,
                Err(e) => r == Err::<(ReceiptConfig, u32, Transfer), Error>(e) && final(self)@
                    == old(self)@,
            },
    {
        if !ctx.is_authorized(&depositor) {
            return Err(Error::NotAuthorized);
        }
        if amount <= 0 {
            return Err(Error::NegativeAmount);
        }
        let count = self.deposit_index(&recipient);
        if count == u32::MAX {
            return Err(Error::Overflow);
        }
        let index = count + 1;
        let receipt = ReceiptConfig {
            amount,
            depositor: depositor.duplicate(),
            token: token.duplicate(),
            time_bound,
        };
        let transfer = Transfer { token, from: depositor, to: self.custody.duplicate(), amount };
        self.receipts.set(ReceiptKey { recipient: recipient.duplicate(), index }, receipt.duplicate());
        self.counts.set(recipient, index);
        Ok((receipt, ctx.sequence, transfer))
    }

    /// Takes `amount` (everything if `None`) out of the receipt at
    /// `(recipient, index)`. A receipt taken in full is removed; otherwise it
    /// keeps the rest. Returns the receipt as it stood before, the epoch, and
    /// the transfer out of custody that the host must carry out.
    pub fn withdraw(
        &mut self,
        ctx: &CallContext,
        recipient: Address,
        index: u32,
        amount: Option<i128>,
    ) -> (r: Result<(ReceiptConfig, u32, Transfer), Error>)
        requires
            old(self).wf(),
        ensures
            final(self).wf(),
            match withdraw_spec(old(self)@, *ctx, recipient, index, amount) {
                Ok((next, out)) => r == Ok::<(ReceiptConfig, u32, Transfer), Error>(out)
                    && final(self)@ == next,
                Err(e) => r == Err::<(ReceiptConfig, u32, Transfer), Error>(e) && final(self)@
                    == old(self)@,
            },
    {
        if !ctx.is_authorized(&recipient) {
            return Err(Error::NotAuthorized);
        }
        if let Some(a) = amount {
            if a < 0 {
                return Err(Error::NegativeAmount);
            }
        }
        let key = ReceiptKey { recipient: recipient.duplicate(), index };
        let receipt = match self.receipts.get(&key) {
            Some(receipt) => receipt.duplicate(),
            None => {
                return Err(Error::NoReceiptsFound);
            },
        };
        if !check_time_bound(&receipt.time_bound, ctx.timestamp) {
            return Err(Error::TimePredicateUnfulfilled);
        }
        let taken = match amount {
            Some(a) => {
                if a > receipt.amount {
                    return Err(Error::NegativeAmount);
                }
                a
            },
            None => receipt.amount,
        };
        let transfer = Transfer {
            token: receipt.token.duplicate(),
            from: self.custody.duplicate(),
            to: recipient,
            amount: taken,
        };
        if taken < receipt.amount {
            let rest = ReceiptConfig {
                amount: receipt.amount - taken,
                depositor: receipt.depositor.duplicate(),
                token: receipt.token.duplicate(),
                time_bound: receipt.time_bound,
            };
            self.receipts.set(key, rest);
        } else {
            let _ = self.receipts.take(&key);
        }
        Ok((receipt, ctx.sequence, transfer))
    }
}

} // verus!
