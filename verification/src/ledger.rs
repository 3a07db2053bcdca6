//! The ledger: an owner, the operators the owner has appointed, and the
//! budget they move.

use vstd::prelude::*;
use crate::budget::{lowered, raised, BudgetError, BudgetState};
use crate::principal::Principal;
use crate::sequences::{
    lemma_filter_members, lemma_filter_no_duplicates, lemma_filter_push, lemma_push_members,
    lemma_push_no_duplicates,
};

verus! {

/// The names under which the three records of a ledger are persisted.
#[derive(Clone, Copy, Debug, PartialEq, Eq, Structural)]
pub enum DataKey {
    /// The owner: one principal.
    Owner,
    /// The operators: a sequence of principals.
    Operators,
    /// The budget: live value, floor and ceiling.
    Budget,
}

/// The three records of an active ledger, as mathematics sees them.
pub ghost struct Records {
    /// The principal who appoints and dismisses operators.
    pub owner: Seq<u8>,
    /// The operators, in the order in which they were appointed.
    pub operators: Seq<Seq<u8>>,
    /// The live value and its bounds.
    pub budget: BudgetState,
}

impl Records {
    /// What holds of the records of every ledger: the floor is not above
    /// the ceiling, and nobody is listed as an operator twice.
    pub open spec fn wf(self) -> bool {
        &&& self.budget.min <= self.budget.max
        &&& self.operators.no_duplicates()
    }

    /// The records right after initialization.
    pub open spec fn fresh(owner: Seq<u8>, initial: i128, min: i128, max: i128) -> Records {
        Records {
            owner,
            operators: Seq::empty(),
            budget: BudgetState { current: initial, min, max },
        }
    }

    /// Whether `who` is one of the operators.
    pub open spec fn is_operator(self, who: Seq<u8>) -> bool {
        self.operators.contains(who)
    }

    /// The outcome of `caller` appointing `operator`.
    pub open spec fn add_operator(self, caller: Seq<u8>, operator: Seq<u8>) -> Result<
        Records,
        BudgetError,
    > {
        if caller != self.owner {
            Err(BudgetError::NotOwner)
        } else if self.operators.contains(operator) {
            Err(BudgetError::AlreadyOperator)
        } else {
            Ok(Records { operators: self.operators.push(operator), ..self })
        }
    }

    /// The outcome of `caller` dismissing `operator`.
    pub open spec fn remove_operator(self, caller: Seq<u8>, operator: Seq<u8>) -> Result<
        Records,
        BudgetError,
    > {
        if caller != self.owner {
            Err(BudgetError::NotOwner)
        } else if !self.operators.contains(operator) {
            Err(BudgetError::NotOperatorFound)
        } else {
            Ok(Records { operators: self.operators.filter(other_than(operator)), ..self })
        }
    }

    /// The outcome of `caller` adding `amount` to the budget.
    pub open spec fn increase_budget(self, caller: Seq<u8>, amount: i128) -> Result<
        Records,
        BudgetError,
    > {
        if !self.operators.contains(caller) {
            Err(BudgetError::NotOperator)
        } else {
            match raised(self.budget.current, amount, self.budget.max) {
                Ok(value) => Ok(Records { budget: self.budget.with_current(value), ..self }),
                Err(e) => Err(e),
            }
        }
    }

    /// The outcome of `caller` taking `amount` from the budget.
    pub open spec fn decrease_budget(self, caller: Seq<u8>, amount: i128) -> Result<
        Records,
        BudgetError,
    > {
        if !self.operators.contains(caller) {
            Err(BudgetError::NotOperator)
        } else {
            match lowered(self.budget.current, amount, self.budget.min) {
                Ok(value) => Ok(Records { budget: self.budget.with_current(value), ..self }),
                Err(e) => Err(e),
            }
        }
    }
}

/// A budget ledger.
///
/// A ledger starts out uninitialized, with no records at all, and becomes
/// active through [`GovernanceBudgetAllocator::initialize`]. Initializing an
/// active ledger replaces its three records together.
///
/// Every operation that names a `caller` takes it as authenticated: that
/// the caller is who they claim to be is settled before the ledger is asked.
pub struct GovernanceBudgetAllocator {
    /// `None` until the ledger is initialized.
    owner: Option<Principal>,
    operators: Vec<Principal>,
    budget: BudgetState,
}

impl View for GovernanceBudgetAllocator {
    type V = Option<Records>;

    closed spec fn view(&self) -> Option<Records> {
        match self.owner {
            None => None,
            Some(owner) => Some(
                Records { owner: owner@, operators: ids(self.operators@), budget: self.budget },
            ),
        }
    }
}

impl GovernanceBudgetAllocator {
    /// The ledger has been initialized.
    pub open spec fn is_active(&self) -> bool {
        self@ is Some
    }

    /// The records of an active ledger.
    pub open spec fn records(&self) -> Records
        recommends
            self.is_active(),
    {
        self@.unwrap()
    }

    /// The ledger is uninitialized, or its records are well formed. This
    /// holds of every ledger there is.
    pub open spec fn wf(&self) -> bool {
        self.is_active() ==> self.records().wf()
    }

    #[verifier::type_invariant]
    spec fn always_well_formed(&self) -> bool {
        self.wf()
    }

    /// An uninitialized ledger.
    pub fn new() -> (ledger: GovernanceBudgetAllocator)
        ensures
            ledger@ is None,
            ledger.wf(),
    {
        GovernanceBudgetAllocator {
            owner: None,
            operators: Vec::new(),
            budget: BudgetState { current: 0, min: 0, max: 0 },
        }
    }

    /// Whether the ledger has been initialized. Whoever holds a ledger
    /// learns here that it is well formed.
    pub fn is_initialized(&self) -> (active: bool)
        ensures
            active == self.is_active(),
            self.wf(),
    {
        proof {
            use_type_invariant(self);
        }
        self.owner.is_some()
    }

    /// Makes the ledger active, owned by `owner`, with no operators and the
    /// budget `initial` between `min` and `max`.
    ///
    /// Limits that do not enclose `initial` are rejected with
    /// [`BudgetError::InvalidLimits`], and nothing is written. Anyone may
    /// initialize; an active ledger is overwritten.
    pub fn initialize(&mut self, owner: Principal, initial: i128, min: i128, max: i128) -> (res:
        Result<(), BudgetError>)
        ensures
            min <= initial <= max ==> res is Ok && final(self)@ == Some(
                Records::fresh(owner@, initial, min, max),
            ),
            !(min <= initial <= max) ==> res == Err::<(), BudgetError>(BudgetError::InvalidLimits)
                && final(self)@ == old(self)@,
            final(self).wf(),
            res is Ok ==> final(self).records().budget.in_bounds(),
    {
        proof {
            use_type_invariant(&*self);
        }
        if min > initial || initial > max {
            return Err(BudgetError::InvalidLimits);
        }
        self.operators = Vec::new();
        assert(ids(self.operators@) =~= Seq::<Seq<u8>>::empty());
        self.budget = BudgetState { current: initial, min, max };
        self.owner = Some(owner);
        Ok(())
    }

    /// Rebuilds an active ledger from its three persisted records.
    ///
    /// The records are taken exactly when they are well formed: the floor
    /// is not above the ceiling and no operator is listed twice.
    pub fn restore(owner: Principal, operators: Vec<Principal>, budget: BudgetState) -> (ledger:
        Option<GovernanceBudgetAllocator>)
        ensures
            ledger is Some <==> (Records {
                owner: owner@,
                operators: ids(operators@),
                budget,
            }).wf(),
            ledger is Some ==> ledger.unwrap().wf() && ledger.unwrap()@ == Some(
                Records { owner: owner@, operators: ids(operators@), budget },
            ),
    {
        if budget.min > budget.max || !all_distinct(&operators) {
            return None;
        }
        Some(GovernanceBudgetAllocator { owner: Some(owner), operators, budget })
    }

    /// Appoints `operator`, at the end of the list of operators.
    ///
    /// Fails with [`BudgetError::NotOwner`] unless `caller` is the owner,
    /// and with [`BudgetError::AlreadyOperator`] if `operator` is listed
    /// already. A failure changes nothing.
    pub fn add_operator(&mut self, caller: Principal, operator: Principal) -> (res: Result<
        (),
        BudgetError,
    >)
        requires
            old(self).is_active(),
        ensures
            final(self).wf(),
            match old(self).records().add_operator(caller@, operator@) {
                Ok(next) => res is Ok && final(self)@ == Some(next),
                Err(e) => res == Err::<(), BudgetError>(e) && final(self)@ == old(self)@,
            },
            res is Ok ==> final(self).records().is_operator(operator@),
    {
        proof {
            use_type_invariant(&*self);
        }
        if !caller.same_as(self.owner.as_ref().unwrap()) {
            return Err(BudgetError::NotOwner);
        }
        if listed(&self.operators, &operator) {
            return Err(BudgetError::AlreadyOperator);
        }
        proof {
            assert(ids(self.operators@.push(operator)) =~= ids(self.operators@).push(operator@));
            lemma_push_no_duplicates(ids(self.operators@), operator@);
            lemma_push_members(ids(self.operators@), operator@);
        }
        let mut operators: Vec<Principal> = Vec::new();
        core::mem::swap(&mut self.operators, &mut operators);
        operators.push(operator);
        self.operators = operators;
        Ok(())
    }

    /// Dismisses `operator`; the others keep their order.
    ///
    /// Fails with [`BudgetError::NotOwner`] unless `caller` is the owner,
    /// and with [`BudgetError::NotOperatorFound`] if `operator` is not
    /// listed. A failure changes nothing.
    pub fn remove_operator(&mut self, caller: Principal, operator: Principal) -> (res: Result<
        (),
        BudgetError,
    >)
        requires
            old(self).is_active(),
        ensures
            final(self).wf(),
            match old(self).records().remove_operator(caller@, operator@) {
                Ok(next) => res is Ok && final(self)@ == Some(next),
                Err(e) => res == Err::<(), BudgetError>(e) && final(self)@ == old(self)@,
            },
            res is Ok ==> !final(self).records().is_operator(operator@),
    {
        proof {
            use_type_invariant(&*self);
        }
        if !caller.same_as(self.owner.as_ref().unwrap()) {
            return Err(BudgetError::NotOwner);
        }
        let ghost before = ids(self.operators@);
        let ghost pred = other_than(operator@);
        let n: usize = self.operators.len();
        let mut found = false;
        let mut kept: Vec<Principal> = Vec::new();
        let mut i: usize = 0;
        assert(before.take(0) =~= Seq::<Seq<u8>>::empty());
        assert(ids(kept@) =~= before.take(0).filter(pred)) by {
            reveal(Seq::filter);
        }
        while i < n
            invariant
                n == self.operators.len(),
                i <= n,
                before == ids(self.operators@),
                pred == other_than(operator@),
                ids(kept@) == before.take(i as int).filter(pred),
                found == before.take(i as int).contains(operator@),
            decreases n - i,
        {
            proof {
                let seen = before.take(i as int);
                assert(before.take(i + 1) =~= seen.push(before[i as int]));
                lemma_filter_push(seen, before[i as int], pred);
                lemma_push_members(seen, before[i as int]);
            }
            if self.operators[i].same_as(&operator) {
                found = true;
            } else {
                let copy = self.operators[i].clone();
                assert(ids(kept@.push(copy)) =~= ids(kept@).push(copy@));
                kept.push(copy);
            }
            i += 1;
        }
        assert(before.take(n as int) =~= before);
        if !found {
            return Err(BudgetError::NotOperatorFound);
        }
        proof {
            lemma_filter_no_duplicates(before, pred);
            lemma_filter_members(before, pred);
        }
        self.operators = kept;
        Ok(())
    }

    /// Adds `amount` to the budget and returns the new value.
    ///
    /// Fails with [`BudgetError::NotOperator`] unless `caller` is an
    /// operator, with [`BudgetError::Overflow`] if the sum does not fit in
    /// 128 signed bits, and with [`BudgetError::ExceedsMax`] if it lies
    /// above the ceiling. A failure changes nothing. The sign of `amount`
    /// is not looked at, and the floor is not consulted: a negative amount
    /// lowers the budget.
    pub fn increase_budget(&mut self, caller: Principal, amount: i128) -> (res: Result<
        i128,
        BudgetError,
    >)
        requires
            old(self).is_active(),
        ensures
            final(self).wf(),
            match old(self).records().increase_budget(caller@, amount) {
                Ok(next) => res == Ok::<i128, BudgetError>(next.budget.current) && final(self)@
                    == Some(next),
                Err(e) => res == Err::<i128, BudgetError>(e) && final(self)@ == old(self)@,
            },
            old(self).records().budget.in_bounds() && amount >= 0
                ==> final(self).records().budget.in_bounds(),
    {
        proof {
            use_type_invariant(&*self);
        }
        if !listed(&self.operators, &caller) {
            return Err(BudgetError::NotOperator);
        }
        let value = match self.budget.current.checked_add(amount) {
            Some(value) => value,
            None => {
                return Err(BudgetError::Overflow);
            },
        };
        if value > self.budget.max {
            return Err(BudgetError::ExceedsMax);
        }
        self.budget.current = value;
        Ok(value)
    }

    /// Takes `amount` from the budget and returns the new value.
    ///
    /// Fails with [`BudgetError::NotOperator`] unless `caller` is an
    /// operator, with [`BudgetError::Underflow`] if the difference does not
    /// fit in 128 signed bits, and with [`BudgetError::BelowMin`] if it lies
    /// below the floor. A failure changes nothing. The sign of `amount` is
    /// not looked at, and the ceiling is not consulted: a negative amount
    /// raises the budget.
    pub fn decrease_budget(&mut self, caller: Principal, amount: i128) -> (res: Result<
        i128,
        BudgetError,
    >)
        requires
            old(self).is_active(),
        ensures
            final(self).wf(),
            match old(self).records().decrease_budget(caller@, amount) {
                Ok(next) => res == Ok::<i128, BudgetError>(next.budget.current) && final(self)@
                    == Some(next),
                Err(e) => res == Err::<i128, BudgetError>(e) && final(self)@ == old(self)@,
            },
            old(self).records().budget.in_bounds() && amount >= 0
                ==> final(self).records().budget.in_bounds(),
    {
        proof {
            use_type_invariant(&*self);
        }
        if !listed(&self.operators, &caller) {
            return Err(BudgetError::NotOperator);
        }
        let value = match self.budget.current.checked_sub(amount) {
            Some(value) => value,
            None => {
                return Err(BudgetError::Underflow);
            },
        };
        if value < self.budget.min {
            return Err(BudgetError::BelowMin);
        }
        self.budget.current = value;
        Ok(value)
    }

    /// The budget record.
    pub fn get_budget(&self) -> (budget: BudgetState)
        requires
            self.is_active(),
        ensures
            budget == self.records().budget,
            budget.min <= budget.max,
    {
        proof {
            use_type_invariant(self);
        }
        self.budget
    }

    /// The owner.
    pub fn get_owner(&self) -> (owner: Principal)
        requires
            self.is_active(),
        ensures
            owner@ == self.records().owner,
    {
        self.owner.as_ref().unwrap().clone()
    }

    /// The operators, in the order in which they were appointed.
    pub fn get_operators(&self) -> (operators: Vec<Principal>)
        requires
            self.is_active(),
        ensures
            ids(operators@) == self.records().operators,
            ids(operators@).no_duplicates(),
    {
        proof {
            use_type_invariant(self);
        }
        let n: usize = self.operators.len();
        let mut copies: Vec<Principal> = Vec::new();
        let mut i: usize = 0;
        while i < n
            invariant
                n == self.operators.len(),
                i <= n,
                copies.len() == i,
                forall|k: int| 0 <= k < i ==> copies@[k]@ == self.operators@[k]@,
            decreases n - i,
        {
            copies.push(self.operators[i].clone());
            i += 1;
        }
        assert(ids(copies@) =~= ids(self.operators@));
        copies
    }

    /// Whether `address` is one of the operators.
    pub fn is_operator(&self, address: Principal) -> (listed: bool)
        requires
            self.is_active(),
        ensures
            listed == self.records().is_operator(address@),
    {
        listed(&self.operators, &address)
    }
}

/// Whether `who` occurs among `principals`: a scan from the front that
/// stops at the first match.
pub fn listed(principals: &Vec<Principal>, who: &Principal) -> (found: bool)
    ensures
        found == ids(principals@).contains(who@),
{
    let n: usize = principals.len();
    let mut i: usize = 0;
    while i < n
        invariant
            n == principals.len(),
            i <= n,
            forall|k: int| 0 <= k < i ==> ids(principals@)[k] != who@,
        decreases n - i,
    {
        if principals[i].same_as(who) {
            assert(ids(principals@)[i as int] == who@);
            return true;
        }
        i += 1;
    }
    false
}

/// Whether no principal occurs twice among `principals`.
pub fn all_distinct(principals: &Vec<Principal>) -> (distinct: bool)
    ensures
        distinct == ids(principals@).no_duplicates(),
{
    let n: usize = principals.len();
    let mut i: usize = 0;
    while i < n
        invariant
            n == principals.len(),
            i <= n,
            forall|a: int, b: int| 0 <= a < b < i ==> ids(principals@)[a] != ids(principals@)[b],
        decreases n - i,
    {
        let mut j: usize = 0;
        while j < i
            invariant
                n == principals.len(),
                i < n,
                j <= i,
                forall|a: int| 0 <= a < j ==> ids(principals@)[a] != ids(principals@)[i as int],
            decreases i - j,
        {
            if principals[j].same_as(&principals[i]) {
                assert(ids(principals@)[j as int] == ids(principals@)[i as int]);
                return false;
            }
            j += 1;
        }
        i += 1;
    }
    assert forall|a: int, b: int| 0 <= a < n && 0 <= b < n && a != b implies ids(principals@)[a]
        != ids(principals@)[b] by {
        if a < b {
            assert(ids(principals@)[a] != ids(principals@)[b]);
        } else {
            assert(ids(principals@)[b] != ids(principals@)[a]);
        }
    }
    true
}

/// The test that every identifier but `who` passes.
pub open spec fn other_than(who: Seq<u8>) -> spec_fn(Seq<u8>) -> bool {
    |p: Seq<u8>| p != who
}

/// The identifiers of `principals`, in the same order.
pub open spec fn ids(principals: Seq<Principal>) -> Seq<Seq<u8>> {
    principals.map_values(|p: Principal| p@)
}

} // verus!
