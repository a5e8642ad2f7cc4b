use vstd::prelude::*;
use crate::identity::Identity;

verus! {

/// The kind of mutation an event reports.
#[derive(Clone, Copy, Debug, PartialEq, Eq, Structural)]
pub enum Topic {
    GoalSet,
    SavingsAdded,
}

/// What an event says: its topic, the identity concerned and the amount.
pub struct EventView {
    pub topic: Topic,
    pub user: Seq<u8>,
    pub value: i128,
}

/// A notification appended to the log after each successful mutation.
#[derive(Debug)]
pub struct Event {
    pub topic: Topic,
    pub user: Identity,
    pub value: i128,
}

impl View for Event {
    type V = EventView;

    open spec fn view(&self) -> EventView {
        EventView { topic: self.topic, user: self.user@, value: self.value }
    }
}

impl Topic {
    /// The short tag under which events of this topic are published.
    pub fn tag(&self) -> (r: &'static str)
        ensures
            *self == Topic::GoalSet ==> r@ == "goal"@,
            *self == Topic::SavingsAdded ==> r@ == "save"@,
    {
        match self {
            Topic::GoalSet => "goal",
            Topic::SavingsAdded => "save",
        }
    }
}

} // verus!
