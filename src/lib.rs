//! A value-custody ledger: a time-locked escrow and a retainer billing ledger,
//! written as verified state machines over plain values.
//!
//! Everything that touches the outside world (signature checks, the clock,
//! moving assets, persistent storage) is left to the host: each operation takes
//! a [`CallContext`] describing the invocation and returns the [`Transfer`] the
//! host must carry out before it keeps the new state.
pub mod address;
pub mod context;
pub mod error;
pub mod table;
pub mod time_bound;
pub mod escrow;
pub mod retainer;
pub mod laws;

pub use address::Address;
pub use context::{CallContext, Transfer};
pub use error::{check_positive_amount, Error};
pub use time_bound::{check_time_bound, TimeBound, TimeBoundKind};
pub use escrow::{deposit_spec, withdraw_spec, EscrowContract, EscrowView, ReceiptConfig, ReceiptKey};
pub use retainer::{
    add_retainer_balance_spec, history_range, resolve_bill_spec, submit_bill_spec, unsubmit_bill_spec, ApprovalStatus,
    Bill, Contract, PairKey, PairView, Receipt, RetaineeInfo, RetainerBalance, RetainerView, RetainorInfo,
};
