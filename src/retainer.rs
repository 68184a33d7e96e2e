use vstd::prelude::*;

use crate::address::Address;
use crate::context::{CallContext, Transfer};
use crate::error::Error;
use crate::table::{Table, TableKey};

verus! {

#[derive(Debug, Clone, Copy, PartialEq, Eq, Structural)]
pub enum ApprovalStatus {
    Approved,
    Denied,
}

/// The funds a retainor holds in custody for one retainee.
#[derive(Debug, Clone, PartialEq, Eq)]
pub struct RetainerBalance {
    pub amount: i128,
    pub token: Address,
}

/// A claim a retainee has submitted and the retainor has not yet resolved.
#[derive(Debug, Clone, PartialEq, Eq)]
pub struct Bill {
    pub amount: i128,
    pub token: Address,
    pub notes: String,
    pub date: String,
}

/// The record of a resolved bill.
#[derive(Debug, Clone, PartialEq, Eq)]
pub struct Receipt {
    pub bill: Bill,
    pub notes: String,
    pub date: String,
    pub status: ApprovalStatus,
}

/// Directory record a retainee keeps about itself.
#[derive(Debug, Clone, PartialEq, Eq)]
pub struct RetaineeInfo {
    pub name: String,
    pub retainors: Vec<Address>,
}

/// Directory record a retainor keeps about itself.
#[derive(Debug, Clone, PartialEq, Eq)]
pub struct RetainorInfo {
    pub name: String,
    pub retainees: Vec<Address>,
}

impl RetainerBalance {
    pub fn duplicate(&self) -> (r: RetainerBalance)
        ensures
            r == *self,
    {
        RetainerBalance { amount: self.amount, token: self.token.duplicate() }
    }
}

impl Bill {
    pub fn duplicate(&self) -> (r: Bill)
        ensures
            r == *self,
    {
        Bill {
            amount: self.amount,
            token: self.token.duplicate(),
            notes: self.notes.clone(),
            date: self.date.clone(),
        }
    }
}

impl Receipt {
    pub fn duplicate(&self) -> (r: Receipt)
        ensures
            r == *self,
    {
        Receipt {
            bill: self.bill.duplicate(),
            notes: self.notes.clone(),
            date: self.date.clone(),
            status: self.status,
        }
    }
}

fn duplicate_addresses(v: &Vec<Address>) -> (r: Vec<Address>)
    ensures
        r@ == v@,
{
    let mut r: Vec<Address> = Vec::new();
    let mut i: usize = 0;
    while i < v.len()
        invariant
            0 <= i <= v@.len(),
            r@ == v@.subrange(0, i as int),
        decreases v@.len() - i,
    {
        r.push(v[i].duplicate());
        i = i + 1;
    }
    assert(r@ =~= v@);
    r
}

impl View for RetaineeInfo {
    type V = (Seq<char>, Seq<Address>);

    open spec fn view(&self) -> (Seq<char>, Seq<Address>) {
        (self.name@, self.retainors@)
    }
}

impl View for RetainorInfo {
    type V = (Seq<char>, Seq<Address>);

    open spec fn view(&self) -> (Seq<char>, Seq<Address>) {
        (self.name@, self.retainees@)
    }
}

impl RetaineeInfo {
    pub fn duplicate(&self) -> (r: RetaineeInfo)
        ensures
            r@ == self@,
    {
        RetaineeInfo { name: self.name.clone(), retainors: duplicate_addresses(&self.retainors) }
    }
}

impl RetainorInfo {
    pub fn duplicate(&self) -> (r: RetainorInfo)
        ensures
            r@ == self@,
    {
        RetainorInfo { name: self.name.clone(), retainees: duplicate_addresses(&self.retainees) }
    }
}

/// Records of one (retainor, retainee) pair are keyed by both parties.
pub struct PairKey {
    pub retainor: Address,
    pub retainee: Address,
}

impl View for PairKey {
    type V = (Seq<char>, Seq<char>);

    open spec fn view(&self) -> (Seq<char>, Seq<char>) {
        (self.retainor@, self.retainee@)
    }
}

impl TableKey for PairKey {
    fn same_key(&self, other: &PairKey) -> (r: bool) {
        self.retainor.same_as(&other.retainor) && self.retainee.same_as(&other.retainee)
    }
}

impl PairKey {
    pub fn new(retainor: &Address, retainee: &Address) -> (r: PairKey)
        ensures
            r.retainor == *retainor,
            r.retainee == *retainee,
    {
        PairKey { retainor: retainor.duplicate(), retainee: retainee.duplicate() }
    }
}

/// Everything the ledger holds for one (retainor, retainee) pair.
pub struct PairView {
    /// Funds in custody; absent until the pair is first funded.
    pub balance: Option<RetainerBalance>,
    /// The single bill awaiting resolution, if any.
    pub pending: Option<Bill>,
    /// Resolved bills in order; the entry at position `i` has index `i + 1`.
    pub history: Seq<Receipt>,
}

impl PairView {
    pub open spec fn empty() -> PairView {
        PairView { balance: None, pending: None, history: Seq::empty() }
    }

    /// The history index fits its counter, no balance is negative, and a
    /// pending bill is positive, in the balance's token, and covered by it.
    pub open spec fn consistent(self) -> bool {
        &&& self.history.len() <= u32::MAX
        &&& self.balance is Some ==> self.balance->Some_0.amount >= 0
        &&& self.pending is Some ==> {
            &&& self.balance is Some
            &&& 0 < self.pending->Some_0.amount <= self.balance->Some_0.amount
            &&& self.pending->Some_0.token@ == self.balance->Some_0.token@
        }
    }
}

struct PairLedger {
    balance: Option<RetainerBalance>,
    pending: Option<Bill>,
    history: Vec<Receipt>,
}

impl View for PairLedger {
    type V = PairView;

    closed spec fn view(&self) -> PairView {
        PairView { balance: self.balance, pending: self.pending, history: self.history@ }
    }
}

/// The abstract state of a retainer ledger.
pub struct RetainerView {
    /// The ledger's own custody account.
    pub custody: Address,
    pub pairs: Map<(Seq<char>, Seq<char>), PairView>,
    pub retainees: Map<Seq<char>, RetaineeInfo>,
    pub retainors: Map<Seq<char>, RetainorInfo>,
}

impl RetainerView {
    /// The records of a pair; a pair never touched has none.
    pub open spec fn pair(self, retainor: Seq<char>, retainee: Seq<char>) -> PairView {
        if self.pairs.contains_key((retainor, retainee)) {
            self.pairs[(retainor, retainee)]
        } else {
            PairView::empty()
        }
    }

    pub open spec fn with_pair(self, retainor: Seq<char>, retainee: Seq<char>, p: PairView) -> RetainerView {
        RetainerView { pairs: self.pairs.insert((retainor, retainee), p), ..self }
    }

    /// Replacing a pair's records does not depend on what was there before.
    pub proof fn lemma_replace_pair(self, key: (Seq<char>, Seq<char>), p: PairView)
        ensures
            (RetainerView { pairs: self.pairs.remove(key), ..self }).with_pair(key.0, key.1, p)
                == self.with_pair(key.0, key.1, p),
    {
        assert(self.pairs.remove(key).insert(key, p) =~= self.pairs.insert(key, p));
    }
}

/// Funding: the new state and the transfer into custody, or why it is refused.
pub open spec fn add_retainer_balance_spec(
    s: RetainerView,
    ctx: CallContext,
    retainor: Address,
    retainee: Address,
    additional_amount: i128,
    token: Address,
) -> Result<(RetainerView, Transfer), Error> {
    let p = s.pair(retainor@, retainee@);
    let current = match p.balance {
        Some(b) => b,
        None => RetainerBalance { amount: 0, token },
    };
    if !ctx.authorizes(retainor@) {
        Err(Error::NotAuthorized)
    } else if additional_amount <= 0 {
        Err(Error::NegativeAmount)
    } else if current.token@ != token@ {
        Err(Error::TokenMismatch)
    } else if current.amount + additional_amount > i128::MAX {
        Err(Error::Overflow)
    } else {
        let balance = RetainerBalance {
            amount: (current.amount + additional_amount) as i128,
            token: current.token,
        };
        let transfer = Transfer {
            token: current.token,
            from: retainor,
            to: s.custody,
            amount: additional_amount,
        };
        Ok((s.with_pair(retainor@, retainee@, PairView { balance: Some(balance), ..p }), transfer))
    }
}

/// Submitting a bill: the new state, or why it is refused.
pub open spec fn submit_bill_spec(
    s: RetainerView,
    ctx: CallContext,
    retainor: Address,
    retainee: Address,
    amount: i128,
    notes: String,
    date: String,
) -> Result<RetainerView, Error> {
    let p = s.pair(retainor@, retainee@);
    if !ctx.authorizes(retainee@) {
        Err(Error::NotAuthorized)
    } else if amount <= 0 {
        Err(Error::NegativeAmount)
    } else if p.pending is Some {
        Err(Error::PendingPaymentAlreadyExists)
    } else if p.balance is None {
        Err(Error::NoRetainedBalance)
    } else if p.balance->Some_0.amount < amount {
        Err(Error::InsufficientRetainedBalance)
    } else {
        let bill = Bill { amount, token: p.balance->Some_0.token, notes, date };
        Ok(s.with_pair(retainor@, retainee@, PairView { pending: Some(bill), ..p }))
    }
}

/// Withdrawing a bill: the new state, or why it is refused.
pub open spec fn unsubmit_bill_spec(
    s: RetainerView,
    ctx: CallContext,
    retainor: Address,
    retainee: Address,
) -> Result<RetainerView, Error> {
    let p = s.pair(retainor@, retainee@);
    if !ctx.authorizes(retainee@) {
        Err(Error::NotAuthorized)
    } else {
        Ok(s.with_pair(retainor@, retainee@, PairView { pending: None, ..p }))
    }
}

/// Resolving the pending bill: the new state and, when it is approved, the
/// payout to the retainee; or why it is refused.
pub open spec fn resolve_bill_spec(
    s: RetainerView,
    ctx: CallContext,
    retainor: Address,
    retainee: Address,
    status: ApprovalStatus,
    notes: String,
    date: String,
) -> Result<(RetainerView, Option<Transfer>), Error> {
    let p = s.pair(retainor@, retainee@);
    if !ctx.authorizes(retainor@) {
        Err(Error::NotAuthorized)
    } else if p.pending is None {
        Err(Error::NoPendingPayment)
    } else if p.history.len() >= u32::MAX {
        Err(Error::Overflow)
    } else {
        let bill = p.pending->Some_0;
        let receipt = Receipt { bill, notes, date, status };
        let history = p.history.push(receipt);
        if status == ApprovalStatus::Approved {
            let held = p.balance->Some_0;
            let balance = RetainerBalance { amount: (held.amount - bill.amount) as i128, token: held.token };
            let payout = Transfer { token: bill.token, from: s.custody, to: retainee, amount: bill.amount };
            let next = PairView { balance: Some(balance), pending: None, history };
            Ok((s.with_pair(retainor@, retainee@, next), Some(payout)))
        } else {
            let next = PairView { balance: p.balance, pending: None, history };
            Ok((s.with_pair(retainor@, retainee@, next), None))
        }
    }
}

/// The entries of `history` whose index `i` (counting from 1) lies in
/// `start..=end`, in order.
pub open spec fn history_range(history: Seq<Receipt>, start: u32, end: u32) -> Seq<Receipt> {
    let lo: int = if start == 0 { 0 } else { start - 1 };
    let hi: int = if end < history.len() { end as int } else { history.len() as int };
    if lo < hi {
        history.subrange(lo, hi)
    } else {
        Seq::empty()
    }
}

/// A retainer billing ledger: retainors fund balances for retainees, who bill
/// against them; each bill is approved or denied before funds move.
pub struct Contract {
    custody: Address,
    pairs: Table<PairKey, PairLedger>,
    retainees: Table<Address, RetaineeInfo>,
    retainors: Table<Address, RetainorInfo>,
}

impl View for Contract {
    type V = RetainerView;

    closed spec fn view(&self) -> RetainerView {
        RetainerView {
            custody: self.custody,
            pairs: self.pairs@.map_values(|p: PairLedger| p@),
            retainees: self.retainees@,
            retainors: self.retainors@,
        }
    }
}

impl Contract {
    /// The tables are well formed and every pair's records are consistent.
    pub closed spec fn wf(&self) -> bool {
        &&& self.pairs.wf()
        &&& self.retainees.wf()
        &&& self.retainors.wf()
        &&& forall|k: (Seq<char>, Seq<char>)|
            #[trigger] self@.pairs.contains_key(k) ==> self@.pairs[k].consistent()
    }

    /// An empty ledger whose funds are held by `custody`.
    pub fn new(custody: Address) -> (r: Contract)
        ensures
            r.wf(),
            r@.custody == custody,
            r@.pairs == Map::<(Seq<char>, Seq<char>), PairView>::empty(),
            r@.retainees == Map::<Seq<char>, RetaineeInfo>::empty(),
            r@.retainors == Map::<Seq<char>, RetainorInfo>::empty(),
    {
        let r = Contract {
            custody,
            pairs: Table::new(),
            retainees: Table::new(),
            retainors: Table::new(),
        };
        assert(r@.pairs =~= Map::<(Seq<char>, Seq<char>), PairView>::empty());
        r
    }

    fn peek(&self, key: &PairKey) -> (r: Option<&PairLedger>)
        requires
            self.wf(),
        ensures
            match r {
                Some(p) => self@.pairs.contains_key(key@) && p@ == self@.pair(key@.0, key@.1),
                None => !self@.pairs.contains_key(key@) && self@.pair(key@.0, key@.1)
                    == PairView::empty(),
            },
            self@.pair(key@.0, key@.1).consistent(),
    {
        self.pairs.get(key)
    }

    fn take_pair(&mut self, key: &PairKey) -> (r: PairLedger)
        requires
            old(self).wf(),
        ensures
            final(self).pairs.wf(),
            final(self).retainees.wf(),
            final(self).retainors.wf(),
            r@ == old(self)@.pair(key@.0, key@.1),
            r@.consistent(),
            final(self)@ == (RetainerView { pairs: old(self)@.pairs.remove(key@), ..old(self)@ }),
            forall|p: PairView|
                #[trigger] final(self)@.with_pair(key@.0, key@.1, p) == old(self)@.with_pair(key@.0, key@.1, p),
            forall|k: (Seq<char>, Seq<char>)|
                #[trigger] final(self)@.pairs.contains_key(k) ==> final(self)@.pairs[k].consistent(),
    {
        let taken = self.pairs.take(key);
        proof {
            assert(self@.pairs =~= old(self)@.pairs.remove(key@));
            assert forall|p: PairView|
                #[trigger] self@.with_pair(key@.0, key@.1, p) == old(self)@.with_pair(key@.0, key@.1, p) by {
                old(self)@.lemma_replace_pair(key@, p);
            }
        }
        match taken {
            Some(p) => p,
            None => PairLedger { balance: None, pending: None, history: Vec::new() },
        }
    }

    fn put_pair(&mut self, key: PairKey, p: PairLedger)
        requires
            old(self).pairs.wf(),
            old(self).retainees.wf(),
            old(self).retainors.wf(),
            forall|k: (Seq<char>, Seq<char>)|
                #[trigger] old(self)@.pairs.contains_key(k) ==> old(self)@.pairs[k].consistent(),
            p@.consistent(),
        ensures
            final(self).wf(),
            final(self)@ == old(self)@.with_pair(key@.0, key@.1, p@),
    {
        let ghost k = key@;
        let ghost v = p@;
        self.pairs.set(key, p);
        proof {
            assert(self@.pairs =~= old(self)@.pairs.insert(k, v));
        }
    }

    /// Places a pair's stored records into the ledger, as when they are read
    /// back from persistent storage. Records that break the pair invariant
    /// (see [`PairView::consistent`]) are refused and change nothing.
    pub fn restore_pair(
        &mut self,
        retainor: &Address,
        retainee: &Address,
        balance: Option<RetainerBalance>,
        pending: Option<Bill>,
        history: Vec<Receipt>,
    ) -> (r: bool)
        requires
            old(self).wf(),
        ensures
            final(self).wf(),
            r == (PairView { balance, pending, history: history@ }).consistent(),
            r ==> final(self)@ == old(self)@.with_pair(
                retainor@,
                retainee@,
                PairView { balance, pending, history: history@ },
            ),
            !r ==> final(self)@ == old(self)@,
    {
        if history.len() > u32::MAX as usize {
            return false;
        }
        match &balance {
            Some(b) => {
                if b.amount < 0 {
                    return false;
                }
            },
            None => {},
        }
        match &pending {
            Some(bill) => match &balance {
                Some(b) => {
                    if bill.amount <= 0 || bill.amount > b.amount || !bill.token.same_as(&b.token) {
                        return false;
                    }
                },
                None => {
                    return false;
                },
            },
            None => {},
        }
        let key = PairKey::new(retainor, retainee);
        let _ = self.take_pair(&key);
        self.put_pair(key, PairLedger { balance, pending, history });
        true
    }

    /// Places a retainee's stored directory record into the ledger.
    pub fn restore_retainee_info(&mut self, retainee: Address, info: RetaineeInfo)
        requires
            old(self).wf(),
        ensures
            final(self).wf(),
            final(self)@ == (RetainerView { retainees: old(self)@.retainees.insert(retainee@, info), ..old(self)@ }),
    {
        self.retainees.set(retainee, info);
        assert(self@.pairs == old(self)@.pairs);
    }

    /// Places a retainor's stored directory record into the ledger.
    pub fn restore_retainor_info(&mut self, retainor: Address, info: RetainorInfo)
        requires
            old(self).wf(),
        ensures
            final(self).wf(),
            final(self)@ == (RetainerView { retainors: old(self)@.retainors.insert(retainor@, info), ..old(self)@ }),
    {
        self.retainors.set(retainor, info);
        assert(self@.pairs == old(self)@.pairs);
    }

    /// Adds `additional_amount` of `token` to the pair's balance, creating it
    /// on first funding. The host moves the funds into custody as the returned
    /// transfer says.
    pub fn add_retainer_balance(
        &mut self,
        ctx: &CallContext,
        retainor: Address,
        retainee: Address,
        additional_amount: i128,
        token: Address,
    ) -> (r: Result<Transfer, Error>)
        requires
            old(self).wf(),
        ensures
            final(self).wf(),
            match add_retainer_balance_spec(old(self)@, *ctx, retainor, retainee, additional_amount, token) {
                Ok((next, out)) => r == Ok::<Transfer, Error>(out) && final(self)@ == next,
                Err(e) => r == Err::<Transfer, Error>(e) && final(self)@ == old(self)@,
            },
    {
        if !ctx.is_authorized(&retainor) {
            return Err(Error::NotAuthorized);
        }
        if additional_amount <= 0 {
            return Err(Error::NegativeAmount);
        }
        let key = PairKey::new(&retainor, &retainee);
        let (current_amount, current_token) = match self.peek(&key) {
            Some(p) => match &p.balance {
                Some(b) => (b.amount, b.token.duplicate()),
                None => (0i128, token.duplicate()),
            },
            None => (0i128, token.duplicate()),
        };
        if !current_token.same_as(&token) {
            return Err(Error::TokenMismatch);
        }
        if current_amount > i128::MAX - additional_amount {
            return Err(Error::Overflow);
        }
        let transfer = Transfer {
            token: current_token.duplicate(),
            from: retainor,
            to: self.custody.duplicate(),
            amount: additional_amount,
        };
        let mut p = self.take_pair(&key);
        p.balance = Some(RetainerBalance { amount: current_amount + additional_amount, token: current_token });
        self.put_pair(key, p);
        Ok(transfer)
    }

    /// Records a bill from the retainee against the pair's balance, in the
    /// balance's token.
    pub fn submit_bill(
        &mut self,
        ctx: &CallContext,
        retainor: Address,
        retainee: Address,
        amount: i128,
        notes: String,
        date: String,
    ) -> (r: Result<(), Error>)
        requires
            old(self).wf(),
        ensures
            final(self).wf(),
            match submit_bill_spec(old(self)@, *ctx, retainor, retainee, amount, notes, date) {
                Ok(next) => r is Ok && final(self)@ == next,
                Err(e) => r == Err::<(), Error>(e) && final(self)@ == old(self)@,
            },
    {
        if !ctx.is_authorized(&retainee) {
            return Err(Error::NotAuthorized);
        }
        if amount <= 0 {
            return Err(Error::NegativeAmount);
        }
        let key = PairKey::new(&retainor, &retainee);
        let token = match self.peek(&key) {
            None => {
                return Err(Error::NoRetainedBalance);
            },
            Some(p) => {
                if p.pending.is_some() {
                    return Err(Error::PendingPaymentAlreadyExists);
                }
                match &p.balance {
                    None => {
                        return Err(Error::NoRetainedBalance);
                    },
                    Some(b) => {
                        if b.amount < amount {
                            return Err(Error::InsufficientRetainedBalance);
                        }
                        b.token.duplicate()
                    },
                }
            },
        };
        let mut p = self.take_pair(&key);
        p.pending = Some(Bill { amount, token, notes, date });
        self.put_pair(key, p);
        Ok(())
    }

    /// Withdraws the pending bill, if there is one.
    pub fn unsubmit_bill(&mut self, ctx: &CallContext, retainor: Address, retainee: Address) -> (r:
        Result<(), Error>)
        requires
            old(self).wf(),
        ensures
            final(self).wf(),
            match unsubmit_bill_spec(old(self)@, *ctx, retainor, retainee) {
                Ok(next) => r is Ok && final(self)@ == next,
                Err(e) => r == Err::<(), Error>(e) && final(self)@ == old(self)@,
            },
    {
        if !ctx.is_authorized(&retainee) {
            return Err(Error::NotAuthorized);
        }
        let key = PairKey::new(&retainor, &retainee);
        let mut p = self.take_pair(&key);
        p.pending = None;
        self.put_pair(key, p);
        Ok(())
    }

    /// Approves or denies the pending bill. Either way the bill is cleared and
    /// a receipt is appended to the pair's history; an approved bill is paid
    /// out of the balance, through the returned transfer.
    pub fn resolve_bill(
        &mut self,
        ctx: &CallContext,
        retainor: Address,
        retainee: Address,
        status: ApprovalStatus,
        notes: String,
        date: String,
    ) -> (r: Result<Option<Transfer>, Error>)
        requires
            old(self).wf(),
        ensures
            final(self).wf(),
            match resolve_bill_spec(old(self)@, *ctx, retainor, retainee, status, notes, date) {
                Ok((next, out)) => r == Ok::<Option<Transfer>, Error>(out) && final(self)@ == next,
                Err(e) => r == Err::<Option<Transfer>, Error>(e) && final(self)@ == old(self)@,
            },
    {
        if !ctx.is_authorized(&retainor) {
            return Err(Error::NotAuthorized);
        }
        let key = PairKey::new(&retainor, &retainee);
        match self.peek(&key) {
            None => {
                return Err(Error::NoPendingPayment);
            },
            Some(p) => {
                if p.pending.is_none() {
                    return Err(Error::NoPendingPayment);
                }
                if p.history.len() >= u32::MAX as usize {
                    return Err(Error::Overflow);
                }
            },
        }
        let mut p = self.take_pair(&key);
        let bill = p.pending.take().unwrap();
        let payout = if status == ApprovalStatus::Approved {
            // A pending bill is always covered by the balance, so this
            // subtraction cannot go below zero.
            let held = p.balance.take().unwrap();
            p.balance = Some(RetainerBalance { amount: held.amount - bill.amount, token: held.token });
            Some(Transfer {
                token: bill.token.duplicate(),
                from: self.custody.duplicate(),
                to: retainee,
                amount: bill.amount,
            })
        } else {
            None
        };
        p.history.push(Receipt { bill, notes, date, status });
        self.put_pair(key, p);
        Ok(payout)
    }

    /// The pending bill of the pair, if any.
    pub fn view_bill(&self, retainor: &Address, retainee: &Address) -> (r: Option<Bill>)
        requires
            self.wf(),
        ensures
            r == self@.pair(retainor@, retainee@).pending,
    {
        match self.peek(&PairKey::new(retainor, retainee)) {
            Some(p) => match &p.pending {
                Some(bill) => Some(bill.duplicate()),
                None => None,
            },
            None => None,
        }
    }

    /// The receipt with the given history index (counting from 1), if any.
    pub fn view_receipt(&self, retainor: &Address, retainee: &Address, index: u32) -> (r: Option<Receipt>)
        requires
            self.wf(),
        ensures
            r == (if 1 <= index <= self@.pair(retainor@, retainee@).history.len() {
                Some(self@.pair(retainor@, retainee@).history[index - 1])
            } else {
                None
            }),
    {
        match self.peek(&PairKey::new(retainor, retainee)) {
            Some(p) => {
                if 1 <= index && (index as usize) <= p.history.len() {
                    Some(p.history[(index - 1) as usize].duplicate())
                } else {
                    None
                }
            },
            None => None,
        }
    }

    /// The index of the pair's latest receipt; 0 before any resolution.
    pub fn history_index(&self, retainor: &Address, retainee: &Address) -> (r: u32)
        requires
            self.wf(),
        ensures
            r == self@.pair(retainor@, retainee@).history.len(),
    {
        match self.peek(&PairKey::new(retainor, retainee)) {
            Some(p) => p.history.len() as u32,
            None => 0,
        }
    }

    /// The receipts with index in `start..=end`, in order; indices with no
    /// receipt are skipped.
    pub fn view_receipt_history_range(&self, retainor: &Address, retainee: &Address, start: u32, end: u32) -> (r:
        Vec<Receipt>)
        requires
            self.wf(),
        ensures
            r@ == history_range(self@.pair(retainor@, retainee@).history, start, end),
    {
        let mut r: Vec<Receipt> = Vec::new();
        match self.peek(&PairKey::new(retainor, retainee)) {
            None => {
                assert(r@ =~= history_range(Seq::empty(), start, end));
            },
            Some(p) => {
                let lo: usize = if start == 0 { 0 } else { (start - 1) as usize };
                let hi: usize = if (end as usize) < p.history.len() { end as usize } else { p.history.len() };
                if lo < hi {
                    let mut i: usize = lo;
                    while i < hi
                        invariant
                            lo <= i <= hi,
                            hi <= p.history@.len(),
                            r@ == p.history@.subrange(lo as int, i as int),
                        decreases hi - i,
                    {
                        r.push(p.history[i].duplicate());
                        i = i + 1;
                    }
                }
                assert(r@ =~= history_range(p.history@, start, end));
            },
        }
        r
    }

    /// The most recent `limit` receipts in order, or the whole history when
    /// `limit` is 0 or covers it.
    pub fn view_receipt_history(&self, retainor: &Address, retainee: &Address, limit: u32) -> (r: Vec<Receipt>)
        requires
            self.wf(),
        ensures
            ({
                let history = self@.pair(retainor@, retainee@).history;
                &&& limit == 0 ==> r@ == history
                &&& 0 < limit < history.len() ==> r@ == history.subrange(
                    history.len() - limit,
                    history.len() as int,
                )
                &&& limit >= history.len() ==> r@ == history
            }),
    {
        let index = self.history_index(retainor, retainee);
        if index < 1 {
            let r = Vec::new();
            assert(r@ =~= self@.pair(retainor@, retainee@).history);
            return r;
        }
        let r = if limit > 0 && index > limit {
            self.view_receipt_history_range(retainor, retainee, index - limit + 1, index)
        } else {
            self.view_receipt_history_range(retainor, retainee, 1, index)
        };
        assert(self@.pair(retainor@, retainee@).history.subrange(
            0,
            self@.pair(retainor@, retainee@).history.len() as int,
        ) =~= self@.pair(retainor@, retainee@).history);
        r
    }

    /// The pair's balance, if it was ever funded.
    pub fn retainer_balance(&self, retainor: &Address, retainee: &Address) -> (r: Option<RetainerBalance>)
        requires
            self.wf(),
        ensures
            r == self@.pair(retainor@, retainee@).balance,
    {
        match self.peek(&PairKey::new(retainor, retainee)) {
            Some(p) => match &p.balance {
                Some(b) => Some(b.duplicate()),
                None => None,
            },
            None => None,
        }
    }

    /// The retainee's directory record, if it was ever set.
    pub fn retainee_info(&self, retainee: &Address) -> (r: Option<RetaineeInfo>)
        requires
            self.wf(),
        ensures
            match r {
                Some(info) => self@.retainees.contains_key(retainee@) && info@ == self@.retainees[retainee@]@,
                None => !self@.retainees.contains_key(retainee@),
            },
    {
        match self.retainees.get(retainee) {
            Some(info) => Some(info.duplicate()),
            None => None,
        }
    }

    /// Replaces the retainee's directory record; the retainee must sign.
    pub fn set_retainee_info(&mut self, ctx: &CallContext, retainee: Address, name: String, retainors: Vec<
        Address,
    >) -> (r: Result<(), Error>)
        requires
            old(self).wf(),
        ensures
            final(self).wf(),
            ctx.authorizes(retainee@) ==> r is Ok && final(self)@ == (RetainerView {
                retainees: old(self)@.retainees.insert(retainee@, RetaineeInfo { name, retainors }),
                ..old(self)@
            }),
            !ctx.authorizes(retainee@) ==> r == Err::<(), Error>(Error::NotAuthorized) && final(self)@
                == old(self)@,
    {
        if !ctx.is_authorized(&retainee) {
            return Err(Error::NotAuthorized);
        }
        self.retainees.set(retainee, RetaineeInfo { name, retainors });
        assert(self@.pairs == old(self)@.pairs);
        Ok(())
    }

    /// The retainor's directory record, if it was ever set.
    pub fn retainor_info(&self, retainor: &Address) -> (r: Option<RetainorInfo>)
        requires
            self.wf(),
        ensures
            match r {
                Some(info) => self@.retainors.contains_key(retainor@) && info@ == self@.retainors[retainor@]@,
                None => !self@.retainors.contains_key(retainor@),
            },
    {
        match self.retainors.get(retainor) {
            Some(info) => Some(info.duplicate()),
            None => None,
        }
    }

    /// Replaces the retainor's directory record; the retainor must sign.
    pub fn set_retainor_info(&mut self, ctx: &CallContext, retainor: Address, name: String, retainees: Vec<
        Address,
    >) -> (r: Result<(), Error>)
        requires
            old(self).wf(),
        ensures
            final(self).wf(),
            ctx.authorizes(retainor@) ==> r is Ok && final(self)@ == (RetainerView {
                retainors: old(self)@.retainors.insert(retainor@, RetainorInfo { name, retainees }),
                ..old(self)@
            }),
            !ctx.authorizes(retainor@) ==> r == Err::<(), Error>(Error::NotAuthorized) && final(self)@
                == old(self)@,
    {
        if !ctx.is_authorized(&retainor) {
            return Err(Error::NotAuthorized);
        }
        self.retainors.set(retainor, RetainorInfo { name, retainees });
        assert(self@.pairs == old(self)@.pairs);
        Ok(())
    }
}

} // verus!
