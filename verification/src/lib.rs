//! An in-memory points ledger: accounts ("users") and assignable reward
//! tasks, with a points-based incentive mechanic. Completing an assigned
//! task credits the task's point value to the assignee's balance.
//!
//! The store validates its inputs, allocates strictly increasing
//! identifiers starting at 1, and derives a leaderboard ordered by
//! descending points (ties broken by ascending id, i.e. creation order).

pub mod errors;
pub mod laws;
pub mod model;
pub mod records;
pub mod store;

pub use errors::Entity;
pub use errors::Field;
pub use errors::StoreError;
pub use records::Task;
pub use records::User;
pub use store::Database;
