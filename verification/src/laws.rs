//! What holds of the ledger across its operations.
//!
//! The operations are spoken of through their outcomes on [`Records`], the
//! same functions in which the contracts of the executable operations are
//! written.

use vstd::prelude::*;
use crate::budget::BudgetError;
use crate::ledger::{other_than, GovernanceBudgetAllocator, Records};
use crate::sequences::{
    lemma_filter_keeps_all, lemma_filter_members, lemma_filter_no_duplicates, lemma_filter_push,
    lemma_push_members, lemma_push_no_duplicates,
};

verus! {

/// Initialization with limits that enclose the initial value yields
/// well-formed records whose budget lies within its bounds.
pub proof fn law_fresh_within_bounds(owner: Seq<u8>, initial: i128, min: i128, max: i128)
    requires
        min <= initial <= max,
    ensures
        Records::fresh(owner, initial, min, max).wf(),
        Records::fresh(owner, initial, min, max).budget.in_bounds(),
{
}

/// Appointing an operator keeps the records well formed, and touches
/// neither the owner nor the budget.
pub proof fn law_add_operator_keeps_invariant(r: Records, caller: Seq<u8>, operator: Seq<u8>)
    requires
        r.wf(),
        r.add_operator(caller, operator) is Ok,
    ensures
        r.add_operator(caller, operator).unwrap().wf(),
        r.add_operator(caller, operator).unwrap().owner == r.owner,
        r.add_operator(caller, operator).unwrap().budget == r.budget,
{
    lemma_push_no_duplicates(r.operators, operator);
}

/// Dismissing an operator keeps the records well formed, and touches
/// neither the owner nor the budget.
pub proof fn law_remove_operator_keeps_invariant(r: Records, caller: Seq<u8>, operator: Seq<u8>)
    requires
        r.wf(),
        r.remove_operator(caller, operator) is Ok,
    ensures
        r.remove_operator(caller, operator).unwrap().wf(),
        r.remove_operator(caller, operator).unwrap().owner == r.owner,
        r.remove_operator(caller, operator).unwrap().budget == r.budget,
{
    lemma_filter_no_duplicates(r.operators, other_than(operator));
}

/// Raising or lowering the budget never touches the owner, the operators
/// or the bounds, so the records stay well formed.
pub proof fn law_budget_moves_keep_invariant(r: Records, caller: Seq<u8>, amount: i128)
    requires
        r.wf(),
    ensures
        r.increase_budget(caller, amount) is Ok ==> {
            let next = r.increase_budget(caller, amount).unwrap();
            &&& next.wf()
            &&& next.owner == r.owner
            &&& next.operators == r.operators
            &&& next.budget.min == r.budget.min
            &&& next.budget.max == r.budget.max
        },
        r.decrease_budget(caller, amount) is Ok ==> {
            let next = r.decrease_budget(caller, amount).unwrap();
            &&& next.wf()
            &&& next.owner == r.owner
            &&& next.operators == r.operators
            &&& next.budget.min == r.budget.min
            &&& next.budget.max == r.budget.max
        },
{
}

/// A raised budget never lies above the ceiling, and lies within its bounds
/// exactly when the sum is not below the floor. So a budget within its
/// bounds stays within them when the amount added is not negative.
pub proof fn law_increase_within_bounds(r: Records, caller: Seq<u8>, amount: i128)
    requires
        r.increase_budget(caller, amount) is Ok,
    ensures
        r.increase_budget(caller, amount).unwrap().budget.current <= r.budget.max,
        r.increase_budget(caller, amount).unwrap().budget.in_bounds() <==> r.budget.current
            + amount >= r.budget.min,
        r.budget.in_bounds() && amount >= 0 ==> r.increase_budget(
            caller,
            amount,
        ).unwrap().budget.in_bounds(),
{
}

/// A lowered budget never lies below the floor, and lies within its bounds
/// exactly when the difference is not above the ceiling. So a budget within
/// its bounds stays within them when the amount taken is not negative.
pub proof fn law_decrease_within_bounds(r: Records, caller: Seq<u8>, amount: i128)
    requires
        r.decrease_budget(caller, amount) is Ok,
    ensures
        r.decrease_budget(caller, amount).unwrap().budget.current >= r.budget.min,
        r.decrease_budget(caller, amount).unwrap().budget.in_bounds() <==> r.budget.current
            - amount <= r.budget.max,
        r.budget.in_bounds() && amount >= 0 ==> r.decrease_budget(
            caller,
            amount,
        ).unwrap().budget.in_bounds(),
{
}

/// What a read returns depends on the records alone: ledgers with the same
/// records give the same answers, so asking again without a change in
/// between gives the same answer again.
pub proof fn law_reads_depend_on_records(
    a: GovernanceBudgetAllocator,
    b: GovernanceBudgetAllocator,
    who: Seq<u8>,
)
    requires
        a.is_active(),
        a@ == b@,
    ensures
        b.is_active(),
        a.records().is_operator(who) == b.records().is_operator(who),
        a.records().budget == b.records().budget,
        a.records().owner == b.records().owner,
        a.records().operators == b.records().operators,
{
}

/// Whoever has just been appointed is an operator.
pub proof fn law_added_is_operator(r: Records, caller: Seq<u8>, operator: Seq<u8>)
    requires
        r.add_operator(caller, operator) is Ok,
    ensures
        r.add_operator(caller, operator).unwrap().is_operator(operator),
{
    lemma_push_members(r.operators, operator);
}

/// Whoever has just been dismissed is no operator, and everybody else is
/// one exactly if they were before.
pub proof fn law_removed_is_no_operator(r: Records, caller: Seq<u8>, operator: Seq<u8>)
    requires
        r.remove_operator(caller, operator) is Ok,
    ensures
        !r.remove_operator(caller, operator).unwrap().is_operator(operator),
        forall|other: Seq<u8>|
            other != operator ==> (#[trigger] r.remove_operator(
                caller,
                operator,
            ).unwrap().is_operator(other) <==> r.is_operator(other)),
{
    lemma_filter_members(r.operators, other_than(operator));
}

/// Appointing a principal and then dismissing them succeeds, leaves them no
/// operator, and gives back the records from before the appointment.
pub proof fn law_add_then_remove(r: Records, caller: Seq<u8>, operator: Seq<u8>)
    requires
        r.add_operator(caller, operator) is Ok,
    ensures
        r.add_operator(caller, operator).unwrap().is_operator(operator),
        r.add_operator(caller, operator).unwrap().remove_operator(caller, operator) is Ok,
        !r.add_operator(caller, operator).unwrap().remove_operator(
            caller,
            operator,
        ).unwrap().is_operator(operator),
        r.add_operator(caller, operator).unwrap().remove_operator(caller, operator).unwrap() == r,
{
    let added = r.add_operator(caller, operator).unwrap();
    law_added_is_operator(r, caller, operator);
    law_removed_is_no_operator(added, caller, operator);
    lemma_filter_keeps_all(r.operators, other_than(operator));
    lemma_filter_push(r.operators, operator, other_than(operator));
}

/// Raising the budget exactly to the ceiling succeeds; raising it to one
/// above the ceiling is rejected as exceeding it, provided that one above
/// the ceiling is a value of 128 signed bits at all.
pub proof fn law_increase_boundary(r: Records, caller: Seq<u8>, amount: i128)
    requires
        r.is_operator(caller),
    ensures
        r.budget.current + amount == r.budget.max ==> r.increase_budget(caller, amount) == Ok::<
            Records,
            BudgetError,
        >(Records { budget: r.budget.with_current(r.budget.max), ..r }),
        r.budget.current + amount == r.budget.max + 1 && r.budget.max < i128::MAX
            ==> r.increase_budget(caller, amount) == Err::<Records, BudgetError>(
            BudgetError::ExceedsMax,
        ),
{
}

/// Lowering the budget exactly to the floor succeeds; lowering it to one
/// below the floor is rejected as falling below it, provided that one below
/// the floor is a value of 128 signed bits at all.
pub proof fn law_decrease_boundary(r: Records, caller: Seq<u8>, amount: i128)
    requires
        r.is_operator(caller),
    ensures
        r.budget.current - amount == r.budget.min ==> r.decrease_budget(caller, amount) == Ok::<
            Records,
            BudgetError,
        >(Records { budget: r.budget.with_current(r.budget.min), ..r }),
        r.budget.current - amount == r.budget.min - 1 && r.budget.min > i128::MIN
            ==> r.decrease_budget(caller, amount) == Err::<Records, BudgetError>(
            BudgetError::BelowMin,
        ),
{
}

} // verus!
