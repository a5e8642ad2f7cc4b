//! Properties of the ledger, stated over the model that the operations'
//! contracts use.
use vstd::prelude::*;
use crate::ledger::{after_add_savings, after_set_goal, record_of};
use crate::record::{can_add, GoalData};

verus! {

/// An identity that was never written reads a goal of 0 and a saved total of 0.
pub proof fn lemma_unwritten_reads_zero(records: Map<Seq<u8>, GoalData>, u: Seq<u8>)
    requires
        !records.contains_key(u),
    ensures
        record_of(records, u).goal == 0,
        record_of(records, u).saved == 0,
{
}

/// Setting a goal twice leaves the second goal: the last write wins, and
/// the first leaves no trace.
pub proof fn lemma_goal_last_write_wins(
    records: Map<Seq<u8>, GoalData>,
    u: Seq<u8>,
    g1: i128,
    g2: i128,
)
    ensures
        record_of(after_set_goal(after_set_goal(records, u, g1), u, g2), u).goal == g2,
        after_set_goal(after_set_goal(records, u, g1), u, g2) == after_set_goal(records, u, g2),
{
    assert(after_set_goal(after_set_goal(records, u, g1), u, g2) =~= after_set_goal(
        records,
        u,
        g2,
    ));
}

/// Adding `a` and then `b` to the savings of `u` adds `a + b`, and a fresh
/// identity ends with exactly `a + b`. The order of the two additions does
/// not matter.
pub proof fn lemma_savings_accumulate(
    records: Map<Seq<u8>, GoalData>,
    u: Seq<u8>,
    a: i128,
    b: i128,
)
    requires
        can_add(record_of(records, u), a),
        can_add(record_of(after_add_savings(records, u, a), u), b),
    ensures
        record_of(after_add_savings(after_add_savings(records, u, a), u, b), u).saved
            == record_of(records, u).saved + a + b,
        !records.contains_key(u) ==> record_of(
            after_add_savings(after_add_savings(records, u, a), u, b),
            u,
        ).saved == a + b,
        can_add(record_of(records, u), b) ==> after_add_savings(
            after_add_savings(records, u, a),
            u,
            b,
        ) == after_add_savings(after_add_savings(records, u, b), u, a),
{
    if can_add(record_of(records, u), b) {
        assert(after_add_savings(after_add_savings(records, u, a), u, b) =~= after_add_savings(
            after_add_savings(records, u, b),
            u,
            a,
        ));
    }
}

/// Setting a goal keeps the saved total, and adding savings keeps the goal.
pub proof fn lemma_fields_independent(
    records: Map<Seq<u8>, GoalData>,
    u: Seq<u8>,
    goal: i128,
    amount: i128,
)
    ensures
        record_of(after_set_goal(records, u, goal), u).saved == record_of(records, u).saved,
        record_of(after_add_savings(records, u, amount), u).goal == record_of(records, u).goal,
{
}

/// A mutation of one identity's record leaves every other identity's record
/// as it was.
pub proof fn lemma_identities_independent(
    records: Map<Seq<u8>, GoalData>,
    u: Seq<u8>,
    v: Seq<u8>,
    goal: i128,
    amount: i128,
)
    requires
        u != v,
    ensures
        record_of(after_set_goal(records, u, goal), v) == record_of(records, v),
        record_of(after_add_savings(records, u, amount), v) == record_of(records, v),
{
}

} // verus!
