//! A governance-controlled budget ledger.
//!
//! One signed value, the current budget, starts between a fixed floor and a
//! fixed ceiling. A single owner decides who the operators are, and only
//! operators move the budget. Raising it is checked against the ceiling and
//! lowering it against the floor, so it stays between the two as long as the
//! amounts are not negative. Every operation validates first and changes
//! state afterwards, so a rejected call leaves the ledger exactly as it was.
//!
//! The ledger does not authenticate anybody itself: whoever drives it must
//! have established that the `caller` handed to an operation really made
//! the call.

pub mod principal;
pub mod budget;
pub mod sequences;
pub mod ledger;
pub mod laws;

pub use crate::budget::BudgetError;
pub use crate::budget::BudgetState;
pub use crate::ledger::DataKey;
pub use crate::ledger::GovernanceBudgetAllocator;
pub use crate::ledger::Records;
pub use crate::principal::Principal;
