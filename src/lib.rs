//! Per-identity savings goals: a keyed ledger of goal records whose
//! mutations are gated by proof of identity and recorded in an event log.
pub mod event;
pub mod identity;
pub mod laws;
pub mod ledger;
pub mod record;

pub use event::{Event, EventView, Topic};
pub use identity::Identity;
pub use ledger::{SavingsError, SavingsTracker, TrackerView};
pub use record::GoalData;
