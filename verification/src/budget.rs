//! The budget record and the ways an operation can fail.

use vstd::prelude::*;

verus! {

/// The budget record: the live value and its two fixed, inclusive bounds.
#[derive(Clone, Copy, Debug, PartialEq, Eq, Structural)]
pub struct BudgetState {
    pub current: i128,
    pub min: i128,
    pub max: i128,
}

impl BudgetState {
    /// The live value lies between the bounds, both ends included.
    pub open spec fn in_bounds(self) -> bool {
        self.min <= self.current <= self.max
    }

    /// The same record with `value` as its live value.
    pub open spec fn with_current(self, value: i128) -> BudgetState {
        BudgetState { current: value, min: self.min, max: self.max }
    }
}

/// Why an operation was rejected.
#[derive(Clone, Copy, Debug, PartialEq, Eq, PartialOrd, Ord, Structural)]
pub enum BudgetError {
    /// The caller of an owner-only operation is not the owner.
    NotOwner,
    /// The caller of an operator-only operation is not an operator.
    NotOperator,
    /// The principal to add is an operator already.
    AlreadyOperator,
    /// The principal to remove is not an operator.
    NotOperatorFound,
    /// The sum does not fit in 128 signed bits.
    Overflow,
    /// The difference does not fit in 128 signed bits.
    Underflow,
    /// The new value would lie above the ceiling.
    ExceedsMax,
    /// The new value would lie below the floor.
    BelowMin,
    /// The initial value does not lie between the bounds.
    InvalidLimits,
}

impl BudgetError {
    /// The number under which this failure is reported.
    pub open spec fn spec_code(self) -> u32 {
        match self {
            BudgetError::NotOwner => 1,
            BudgetError::NotOperator => 2,
            BudgetError::AlreadyOperator => 3,
            BudgetError::NotOperatorFound => 4,
            BudgetError::Overflow => 5,
            BudgetError::Underflow => 6,
            BudgetError::ExceedsMax => 7,
            BudgetError::BelowMin => 8,
            BudgetError::InvalidLimits => 9,
        }
    }

    /// The number under which this failure is reported.
    pub fn code(&self) -> (n: u32)
        ensures
            n == self.spec_code(),
    {
        match self {
            BudgetError::NotOwner => 1,
            BudgetError::NotOperator => 2,
            BudgetError::AlreadyOperator => 3,
            BudgetError::NotOperatorFound => 4,
            BudgetError::Overflow => 5,
            BudgetError::Underflow => 6,
            BudgetError::ExceedsMax => 7,
            BudgetError::BelowMin => 8,
            BudgetError::InvalidLimits => 9,
        }
    }
}

/// What adding `amount` to `current` under the ceiling `max` yields.
pub open spec fn raised(current: i128, amount: i128, max: i128) -> Result<i128, BudgetError> {
    let sum = current + amount;
    if sum < i128::MIN || sum > i128::MAX {
        Err(BudgetError::Overflow)
    } else if sum > max {
        Err(BudgetError::ExceedsMax)
    } else {
        Ok(sum as i128)
    }
}

/// What taking `amount` from `current` above the floor `min` yields.
pub open spec fn lowered(current: i128, amount: i128, min: i128) -> Result<i128, BudgetError> {
    let difference = current - amount;
    if difference < i128::MIN || difference > i128::MAX {
        Err(BudgetError::Underflow)
    } else if difference < min {
        Err(BudgetError::BelowMin)
    } else {
        Ok(difference as i128)
    }
}

} // verus!
