use vstd::prelude::*;

verus! {

/// The record kept for one identity: a savings target and the running total
/// saved towards it.
#[derive(Clone, Copy, Debug, PartialEq, Eq, Structural)]
pub struct GoalData {
    pub goal: i128,
    pub saved: i128,
}

/// The record of an identity that was never written.
pub open spec fn empty_record() -> GoalData {
    GoalData { goal: 0, saved: 0 }
}

/// Whether `amount` can be added to the saved total of `d` without leaving `i128`.
pub open spec fn can_add(d: GoalData, amount: i128) -> bool {
    i128::MIN <= d.saved + amount <= i128::MAX
}

impl GoalData {
    pub open spec fn spec_with_goal(self, goal: i128) -> GoalData {
        GoalData { goal, saved: self.saved }
    }

    pub open spec fn spec_with_added(self, amount: i128) -> GoalData {
        GoalData { goal: self.goal, saved: (self.saved + amount) as i128 }
    }

    /// The record of an identity that was never written: nothing aimed at,
    /// nothing saved.
    pub fn empty() -> (r: GoalData)
        ensures
            r == empty_record(),
    {
        GoalData { goal: 0, saved: 0 }
    }

    /// The record with its goal replaced by `goal`; the saved total is kept.
    pub fn with_goal(self, goal: i128) -> (r: GoalData)
        ensures
            r == self.spec_with_goal(goal),
    {
        GoalData { goal, saved: self.saved }
    }

    /// Whether `amount` can be added to the saved total without overflow.
    pub fn can_add(self, amount: i128) -> (r: bool)
        ensures
            r == can_add(self, amount),
    {
        self.saved.checked_add(amount).is_some()
    }

    /// The record with `amount` added to its saved total (a negative amount
    /// lowers it); the goal is kept.
    pub fn with_added(self, amount: i128) -> (r: GoalData)
        requires
            can_add(self, amount),
        ensures
            r == self.spec_with_added(amount),
            r.saved == self.saved + amount,
    {
        GoalData { goal: self.goal, saved: self.saved + amount }
    }
}

} // verus!
