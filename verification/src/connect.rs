//! Which of a host's addresses is tried, and whose failure counts. The
//! addresses are tried in their order; a failure is passed over while
//! another address is left, and the failure of the last one is the failure
//! of the connection.

use vstd::prelude::*;

verus! {

/// A connection under way, to contracts: how many addresses there are and
/// which one is tried now.
pub struct PlanView {
    pub count: nat,
    pub index: nat,
}

/// A connection under way: the address that is tried now, out of how many.
#[derive(Clone, Copy, Debug)]
pub struct ConnectPlan {
    count: usize,
    index: usize,
}

impl View for ConnectPlan {
    type V = PlanView;

    closed spec fn view(&self) -> PlanView {
        PlanView { count: self.count as nat, index: self.index as nat }
    }
}

/// What follows when the address that a plan tries cannot be reached: the
/// next address, or nothing where it was the last.
pub open spec fn after_failure(plan: PlanView) -> Option<PlanView> {
    if plan.index + 1 < plan.count {
        Some(PlanView { count: plan.count, index: plan.index + 1 })
    } else {
        None
    }
}

/// The plan that a connection has reached after `failures` failures in a
/// row, or `None` once the connection has failed.
pub open spec fn after_failures(plan: PlanView, failures: nat) -> Option<PlanView>
    decreases failures,
{
    if failures == 0 {
        Some(plan)
    } else {
        match after_failure(plan) {
            Some(next) => after_failures(next, (failures - 1) as nat),
            None => None,
        }
    }
}

impl ConnectPlan {
    /// The address that is tried is one of those there are.
    #[verifier::type_invariant]
    spec fn in_range(self) -> bool {
        self.index < self.count
    }

    /// The plan for a host with `count` addresses, which starts at the first
    /// of them. A host without an address has no plan.
    pub fn new(count: usize) -> (plan: Option<ConnectPlan>)
        ensures
            match plan {
                Some(p) => count > 0 && p@ == (PlanView { count: count as nat, index: 0 }),
                None => count == 0,
            },
    {
        if count > 0 {
            Some(ConnectPlan { count, index: 0 })
        } else {
            None
        }
    }

    /// Which address is tried now, counted from zero.
    pub fn index(&self) -> (index: usize)
        ensures
            index == self@.index,
            index < self@.count,
    {
        proof {
            use_type_invariant(self);
        }
        self.index
    }

    /// Whether the address that is tried now is the last one, whose failure
    /// is handed on.
    pub fn is_last(&self) -> (last: bool)
        ensures
            last == (self@.index + 1 == self@.count),
            last == (after_failure(self@) is None),
    {
        proof {
            use_type_invariant(self);
        }
        self.index == self.count - 1
    }

    /// What follows when the address that is tried now cannot be reached:
    /// the plan for the next address, whose failure is passed over, or
    /// nothing where this was the last address and its failure counts.
    pub fn next(self) -> (plan: Option<ConnectPlan>)
        ensures
            match plan {
                Some(p) => after_failure(self@) == Some(p@),
                None => after_failure(self@) is None,
            },
    {
        proof {
            use_type_invariant(&self);
        }
        if self.index < self.count - 1 {
            Some(ConnectPlan { count: self.count, index: self.index + 1 })
        } else {
            None
        }
    }
}

/// The addresses are tried in their order, each once: after `failures`
/// failures in a row the connection is at address `failures` where there is
/// one, and has failed where there is none. So every address but the last
/// may fail unseen, and a connection fails only with its last address.
pub proof fn lemma_tried_in_order(count: nat, failures: nat)
    requires
        count > 0,
    ensures
        after_failures(PlanView { count, index: 0 }, failures) == if failures < count {
            Some(PlanView { count, index: failures })
        } else {
            None
        },
{
    lemma_tried_from(PlanView { count, index: 0 }, failures);
}

/// What `lemma_tried_in_order` says, from any address on.
pub proof fn lemma_tried_from(plan: PlanView, failures: nat)
    requires
        plan.index < plan.count,
    ensures
        after_failures(plan, failures) == if plan.index + failures < plan.count {
            Some(PlanView { count: plan.count, index: plan.index + failures })
        } else {
            None
        },
    decreases failures,
{
    if failures > 0 {
        match after_failure(plan) {
            Some(next) => {
                lemma_tried_from(next, (failures - 1) as nat);
            },
            None => {},
        }
    }
}

} // verus!
