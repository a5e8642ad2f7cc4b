use savings_tracker::{GoalData, Identity, SavingsError, SavingsTracker, Topic};

fn id(s: &str) -> Identity {
    Identity::from_bytes(s.as_bytes().to_vec())
}

const ALICE: &str = "GAALICEAAAAAAAAAAAAAAAAAAAAAAAAAAAAAAAAAAAAAAAAAAAAAAAAA";
const BOB: &str = "GABOBAAAAAAAAAAAAAAAAAAAAAAAAAAAAAAAAAAAAAAAAAAAAAAAAAAA";

#[test]
fn fresh_identity_reads_zero() {
    let t = SavingsTracker::new();
    assert_eq!(t.get_goal(&id(ALICE)), 0);
    assert_eq!(t.get_saved(&id(ALICE)), 0);
    assert_eq!(t.event_count(), 0);
}

#[test]
fn goal_last_write_wins() {
    let mut t = SavingsTracker::new();
    let a = id(ALICE);
    assert_eq!(t.set_goal(&a, 500, true), Ok(()));
    assert_eq!(t.set_goal(&a, 300, true), Ok(()));
    assert_eq!(t.get_goal(&a), 300);
}

#[test]
fn savings_accumulate() {
    let mut t = SavingsTracker::new();
    let a = id(ALICE);
    assert_eq!(t.add_savings(&a, 40, true), Ok(()));
    assert_eq!(t.add_savings(&a, 2, true), Ok(()));
    assert_eq!(t.get_saved(&a), 42);
}

#[test]
fn negative_amounts_are_accepted() {
    let mut t = SavingsTracker::new();
    let a = id(ALICE);
    assert_eq!(t.set_goal(&a, -10, true), Ok(()));
    assert_eq!(t.add_savings(&a, 100, true), Ok(()));
    assert_eq!(t.add_savings(&a, -130, true), Ok(()));
    assert_eq!(t.get_goal(&a), -10);
    assert_eq!(t.get_saved(&a), -30);
}

#[test]
fn fields_are_independent() {
    let mut t = SavingsTracker::new();
    let a = id(ALICE);
    t.add_savings(&a, 75, true).unwrap();
    t.set_goal(&a, 1, true).unwrap();
    assert_eq!(t.get_saved(&a), 75);
    t.add_savings(&a, 5, true).unwrap();
    assert_eq!(t.get_goal(&a), 1);
}

#[test]
fn unauthorized_mutation_changes_nothing() {
    let mut t = SavingsTracker::new();
    let a = id(ALICE);
    t.set_goal(&a, 100, true).unwrap();
    t.add_savings(&a, 20, true).unwrap();
    assert_eq!(t.set_goal(&a, 999, false), Err(SavingsError::Unauthorized));
    assert_eq!(t.add_savings(&a, 999, false), Err(SavingsError::Unauthorized));
    assert_eq!(t.get_goal(&a), 100);
    assert_eq!(t.get_saved(&a), 20);
    assert_eq!(t.event_count(), 2);
}

#[test]
fn each_mutation_emits_one_event() {
    let mut t = SavingsTracker::new();
    let a = id(ALICE);
    t.set_goal(&a, 1000, true).unwrap();
    assert_eq!(t.event_count(), 1);
    let e = t.event_at(0);
    assert_eq!(e.topic, Topic::GoalSet);
    assert_eq!(e.user.as_bytes(), ALICE.as_bytes());
    assert_eq!(e.value, 1000);
    t.add_savings(&a, 200, true).unwrap();
    assert_eq!(t.event_count(), 2);
    let e = t.event_at(1);
    assert_eq!(e.topic, Topic::SavingsAdded);
    assert_eq!(e.user.as_bytes(), ALICE.as_bytes());
    assert_eq!(e.value, 200);
}

#[test]
fn scenario_goal_and_savings() {
    let mut t = SavingsTracker::new();
    let a = id(ALICE);
    t.set_goal(&a, 1000, true).unwrap();
    assert_eq!(t.get_goal(&a), 1000);
    assert_eq!(t.get_saved(&a), 0);
    t.add_savings(&a, 200, true).unwrap();
    assert_eq!(t.get_saved(&a), 200);
    t.add_savings(&a, 150, true).unwrap();
    assert_eq!(t.get_saved(&a), 350);
    t.set_goal(&a, 2000, true).unwrap();
    assert_eq!(t.get_goal(&a), 2000);
    assert_eq!(t.get_saved(&a), 350);
}

#[test]
fn identities_do_not_interfere() {
    let mut t = SavingsTracker::new();
    let a = id(ALICE);
    let b = id(BOB);
    t.set_goal(&b, 70, true).unwrap();
    t.add_savings(&b, 7, true).unwrap();
    t.set_goal(&a, 1000, true).unwrap();
    t.add_savings(&a, 200, true).unwrap();
    assert_eq!(t.get_goal(&b), 70);
    assert_eq!(t.get_saved(&b), 7);
    assert_eq!(t.get_goal(&a), 1000);
    assert_eq!(t.get_saved(&a), 200);
}

#[test]
fn record_steps() {
    let d = GoalData::empty();
    assert_eq!(d, GoalData { goal: 0, saved: 0 });
    let d = d.with_goal(9).with_added(4).with_added(-1);
    assert_eq!(d, GoalData { goal: 9, saved: 3 });
    assert!(d.can_add(i128::MAX - 3));
    assert!(!d.can_add(i128::MAX - 2));
    assert!(GoalData { goal: 0, saved: i128::MIN }.can_add(0));
    assert!(!GoalData { goal: 0, saved: i128::MIN }.can_add(-1));
}

#[test]
fn largest_amounts() {
    let mut t = SavingsTracker::new();
    let a = id(ALICE);
    t.set_goal(&a, i128::MAX, true).unwrap();
    t.add_savings(&a, i128::MAX, true).unwrap();
    t.add_savings(&a, i128::MIN, true).unwrap();
    assert_eq!(t.get_goal(&a), i128::MAX);
    assert_eq!(t.get_saved(&a), -1);
}

#[test]
fn identity_comparison() {
    assert!(id(ALICE).same_as(&id(ALICE)));
    assert!(!id(ALICE).same_as(&id(BOB)));
    assert!(!id("GA").same_as(&id("GAB")));
    assert!(id("").same_as(&id("")));
    assert_eq!(id(BOB).duplicate().as_bytes(), BOB.as_bytes());
}

#[test]
fn topic_tags() {
    assert_eq!(Topic::GoalSet.tag(), "goal");
    assert_eq!(Topic::SavingsAdded.tag(), "save");
}
