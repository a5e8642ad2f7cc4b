use vstd::prelude::*;
use crate::event::{Event, EventView, Topic};
use crate::identity::Identity;
use crate::record::{can_add, empty_record, GoalData};

verus! {

/// The one way a mutation can be refused: the caller did not prove that it
/// is the identity whose record it targets.
#[derive(Clone, Copy, Debug, PartialEq, Eq, Structural)]
pub enum SavingsError {
    Unauthorized,
}

/// The abstract state of a tracker: the stored record of each identity that
/// has been written, and the events emitted so far, oldest first.
pub struct TrackerView {
    pub records: Map<Seq<u8>, GoalData>,
    pub events: Seq<EventView>,
}

/// The record that reads return for `u`: the stored one, or the empty record
/// when `u` was never written.
pub open spec fn record_of(records: Map<Seq<u8>, GoalData>, u: Seq<u8>) -> GoalData {
    if records.contains_key(u) {
        records[u]
    } else {
        empty_record()
    }
}

/// The records after `u` sets its goal to `goal`.
pub open spec fn after_set_goal(records: Map<Seq<u8>, GoalData>, u: Seq<u8>, goal: i128) -> Map<
    Seq<u8>,
    GoalData,
> {
    records.insert(u, record_of(records, u).spec_with_goal(goal))
}

/// The records after `u` adds `amount` to its savings.
pub open spec fn after_add_savings(
    records: Map<Seq<u8>, GoalData>,
    u: Seq<u8>,
    amount: i128,
) -> Map<Seq<u8>, GoalData> {
    records.insert(u, record_of(records, u).spec_with_added(amount))
}

/// The event that a successful mutation of `u`'s record appends.
pub open spec fn event_of(topic: Topic, u: Seq<u8>, value: i128) -> EventView {
    EventView { topic, user: u, value }
}

/// An in-memory ledger of goal records keyed by identity, with its event log.
pub struct SavingsTracker {
    users: Vec<Identity>,
    data: Vec<GoalData>,
    records: Ghost<Map<Seq<u8>, GoalData>>,
    events: Vec<Event>,
}

impl View for SavingsTracker {
    type V = TrackerView;

    closed spec fn view(&self) -> TrackerView {
        TrackerView { records: self.records@, events: self.events@.map_values(|e: Event| e@) }
    }
}

impl SavingsTracker {
    /// The stored keys are distinct, and position `i` of `data` is the record
    /// of the identity at position `i` of `users`.
    pub closed spec fn wf(&self) -> bool {
        &&& self.users@.len() == self.data@.len()
        &&& forall|i: int|
            0 <= i < self.users@.len() ==> #[trigger] self.records@.contains_key(self.users@[i]@)
                && self.records@[self.users@[i]@] == self.data@[i]
        &&& forall|k: Seq<u8>| #[trigger]
            self.records@.contains_key(k) ==> exists|i: int|
                0 <= i < self.users@.len() && #[trigger] self.users@[i]@ == k
        &&& forall|i: int, j: int|
            0 <= i < self.users@.len() && 0 <= j < self.users@.len() && i != j
                ==> #[trigger] self.users@[i]@ != #[trigger] self.users@[j]@
    }

    /// A tracker in which no identity has been written and no event emitted.
    pub fn new() -> (r: SavingsTracker)
        ensures
            r.wf(),
            r@.records == Map::<Seq<u8>, GoalData>::empty(),
            r@.events == Seq::<EventView>::empty(),
    {
        let r = SavingsTracker {
            users: Vec::new(),
            data: Vec::new(),
            records: Ghost(Map::empty()),
            events: Vec::new(),
        };
        assert(r@.events =~= Seq::<EventView>::empty());
        r
    }

    /// The position at which `user`'s record is kept, if it was ever written.
    fn find(&self, user: &Identity) -> (r: Option<usize>)
        requires
            self.wf(),
        ensures
            r is None ==> !self@.records.contains_key(user@),
            r matches Some(i) ==> i < self.users@.len() && self.users@[i as int]@ == user@,
    {
        let mut i: usize = 0;
        while i < self.users.len()
            invariant
                self.wf(),
                i <= self.users@.len(),
                forall|j: int| 0 <= j < i ==> self.users@[j]@ != user@,
            decreases self.users@.len() - i,
        {
            if self.users[i].same_as(user) {
                return Some(i);
            }
            i = i + 1;
        }
        None
    }

    /// The record of `user`, or the empty record if it was never written.
    pub fn load(&self, user: &Identity) -> (r: GoalData)
        requires
            self.wf(),
        ensures
            r == record_of(self@.records, user@),
    {
        match self.find(user) {
            Some(i) => self.data[i],
            None => GoalData::empty(),
        }
    }

    /// Overwrites the whole record of `user` with `d`.
    fn store(&mut self, user: &Identity, d: GoalData)
        requires
            old(self).wf(),
        ensures
            final(self).wf(),
            final(self)@.records == old(self)@.records.insert(user@, d),
            final(self).events == old(self).events,
    {
        let ghost old_records = self.records@;
        match self.find(user) {
            Some(i) => {
                self.data.set(i, d);
                self.records = Ghost(old_records.insert(user@, d));
                assert forall|k: Seq<u8>| #[trigger]
                    self.records@.contains_key(k) implies exists|j: int|
                        0 <= j < self.users@.len() && #[trigger] self.users@[j]@ == k by {
                    if k == user@ {
                        assert(self.users@[i as int]@ == k);
                    }
                }
            },
            None => {
                let key = user.duplicate();
                self.users.push(key);
                self.data.push(d);
                self.records = Ghost(old_records.insert(user@, d));
                let n = self.users.len() - 1;
                assert forall|k: Seq<u8>| #[trigger]
                    self.records@.contains_key(k) implies exists|j: int|
                        0 <= j < self.users@.len() && #[trigger] self.users@[j]@ == k by {
                    if k == user@ {
                        assert(self.users@[n as int]@ == k);
                    } else {
                        let j = choose|j: int|
                            0 <= j < old(self).users@.len() && #[trigger] old(self).users@[j]@ == k;
                        assert(self.users@[j]@ == k);
                    }
                }
            },
        }
    }

    /// Sets the goal of `user` to `goal_amount`, leaving its saved total as it
    /// was, and emits a goal-set event. `authorized` is whether the caller
    /// proved that it is `user`; without that proof nothing changes.
    pub fn set_goal(&mut self, user: &Identity, goal_amount: i128, authorized: bool) -> (r: Result<
        (),
        SavingsError,
    >)
        requires
            old(self).wf(),
        ensures
            final(self).wf(),
            r is Ok <==> authorized,
            !authorized ==> r == Err::<(), SavingsError>(SavingsError::Unauthorized),
            !authorized ==> final(self)@ == old(self)@,
            authorized ==> final(self)@.records == after_set_goal(
                old(self)@.records,
                user@,
                goal_amount,
            ),
            authorized ==> final(self)@.events == old(self)@.events.push(
                event_of(Topic::GoalSet, user@, goal_amount),
            ),
    {
        if !authorized {
            return Err(SavingsError::Unauthorized);
        }
        let d = self.load(user).with_goal(goal_amount);
        self.store(user, d);
        self.emit(Topic::GoalSet, user, goal_amount);
        Ok(())
    }

    /// Adds `amount` (which may be negative) to the saved total of `user`,
    /// leaving its goal as it was, and emits a savings-added event.
    /// `authorized` is whether the caller proved that it is `user`; without
    /// that proof nothing changes.
    pub fn add_savings(&mut self, user: &Identity, amount: i128, authorized: bool) -> (r: Result<
        (),
        SavingsError,
    >)
        requires
            old(self).wf(),
            authorized ==> can_add(record_of(old(self)@.records, user@), amount),
        ensures
            final(self).wf(),
            r is Ok <==> authorized,
            !authorized ==> r == Err::<(), SavingsError>(SavingsError::Unauthorized),
            !authorized ==> final(self)@ == old(self)@,
            authorized ==> final(self)@.records == after_add_savings(
                old(self)@.records,
                user@,
                amount,
            ),
            authorized ==> final(self)@.events == old(self)@.events.push(
                event_of(Topic::SavingsAdded, user@, amount),
            ),
    {
        if !authorized {
            return Err(SavingsError::Unauthorized);
        }
        let d = self.load(user).with_added(amount);
        self.store(user, d);
        self.emit(Topic::SavingsAdded, user, amount);
        Ok(())
    }

    /// Appends the event for a mutation of `user`'s record.
    fn emit(&mut self, topic: Topic, user: &Identity, value: i128)
        requires
            old(self).wf(),
        ensures
            final(self).wf(),
            final(self)@.records == old(self)@.records,
            final(self)@.events == old(self)@.events.push(event_of(topic, user@, value)),
    {
        let e = Event { topic, user: user.duplicate(), value };
        self.events.push(e);
        assert(self@.events =~= old(self)@.events.push(event_of(topic, user@, value)));
    }

    /// The goal of `user`; 0 if it was never written.
    pub fn get_goal(&self, user: &Identity) -> (r: i128)
        requires
            self.wf(),
        ensures
            r == record_of(self@.records, user@).goal,
    {
        self.load(user).goal
    }

    /// The saved total of `user`; 0 if it was never written.
    pub fn get_saved(&self, user: &Identity) -> (r: i128)
        requires
            self.wf(),
        ensures
            r == record_of(self@.records, user@).saved,
    {
        self.load(user).saved
    }

    /// How many events have been emitted.
    pub fn event_count(&self) -> (r: usize)
        ensures
            r == self@.events.len(),
    {
        self.events.len()
    }

    /// The event emitted at position `i`, oldest first.
    pub fn event_at(&self, i: usize) -> (r: &Event)
        requires
            i < self@.events.len(),
        ensures
            r@ == self@.events[i as int],
    {
        &self.events[i]
    }
}

} // verus!
