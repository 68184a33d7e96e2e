use vstd::prelude::*;

use crate::address::Address;

verus! {

/// What the host knows about the invocation being served: which parties
/// signed it, and the ledger clock at that moment.
#[derive(Debug, Clone)]
pub struct CallContext {
    /// The parties whose authorization accompanies the call.
    pub signers: Vec<Address>,
    /// Wall-clock-like ledger time.
    pub timestamp: u64,
    /// Monotonic ledger sequence number (the epoch).
    pub sequence: u32,
}

impl CallContext {
    /// `who` is among the signers of this invocation.
    pub open spec fn authorizes(&self, who: Seq<char>) -> bool {
        exists|i: int| 0 <= i < self.signers@.len() && (#[trigger] self.signers@[i])@ == who
    }

    pub fn new(signers: Vec<Address>, timestamp: u64, sequence: u32) -> (r: CallContext)
        ensures
            r.signers@ == signers@,
            r.timestamp == timestamp,
            r.sequence == sequence,
    {
        CallContext { signers, timestamp, sequence }
    }

    /// Whether `who` authorized this invocation.
    pub fn is_authorized(&self, who: &Address) -> (r: bool)
        ensures
            r == self.authorizes(who@),
    {
        let mut i: usize = 0;
        while i < self.signers.len()
            invariant
                0 <= i <= self.signers@.len(),
                forall|j: int| 0 <= j < i ==> (#[trigger] self.signers@[j])@ != who@,
            decreases self.signers@.len() - i,
        {
            if self.signers[i].same_as(who) {
                return true;
            }
            i = i + 1;
        }
        false
    }
}

/// A movement of `amount` units of the asset `token` from `from` to `to`,
/// which the host carries out through the token's own contract.
#[derive(Debug, Clone, PartialEq, Eq)]
pub struct Transfer {
    pub token: Address,
    pub from: Address,
    pub to: Address,
    pub amount: i128,
}

} // verus!
