//! The closed set of errors the ledger store can report. Every operation
//! either fully succeeds or fails with one of these and leaves the store
//! unchanged.

use vstd::prelude::*;

verus! {

/// The caller-supplied field that failed validation.
#[derive(Clone, Copy, Debug, PartialEq, Eq, Structural)]
pub enum Field {
    /// A username was empty.
    Username,
    /// An email was empty or held no `@`.
    Email,
    /// A task title was empty.
    Title,
    /// A task point value was negative.
    Points,
}

/// The kind of record a missing identifier was looked up in.
#[derive(Clone, Copy, Debug, PartialEq, Eq, Structural)]
pub enum Entity {
    User,
    Task,
}

/// An error returned by a ledger store operation. All variants are
/// recoverable by the caller; none leaves the store partially mutated.
#[derive(Clone, Copy, Debug, PartialEq, Eq, Structural)]
pub enum StoreError {
    /// A caller-supplied field fails a stated precondition.
    Validation(Field),
    /// The identifier does not exist in the named collection.
    NotFound(Entity, u32),
    /// The task with this id was already completed.
    Conflict(u32),
}

impl StoreError {
    /// The human-readable reason for this error.
    pub open spec fn spec_message(self) -> Seq<char> {
        match self {
            StoreError::Validation(Field::Username) => "Username cannot be empty"@,
            StoreError::Validation(Field::Email) => "Invalid email address"@,
            StoreError::Validation(Field::Title) => "Task title cannot be empty"@,
            StoreError::Validation(Field::Points) => "Task points cannot be negative"@,
            StoreError::NotFound(Entity::User, _) => "User not found"@,
            StoreError::NotFound(Entity::Task, _) => "Task not found"@,
            StoreError::Conflict(_) => "Task is already completed"@,
        }
    }

    /// A human-readable reason string, distinguishing the exact violated
    /// condition.
    pub fn message(&self) -> (r: String)
        ensures
            r@ == self.spec_message(),
    {
        match self {
            StoreError::Validation(Field::Username) => "Username cannot be empty".to_owned(),
            StoreError::Validation(Field::Email) => "Invalid email address".to_owned(),
            StoreError::Validation(Field::Title) => "Task title cannot be empty".to_owned(),
            StoreError::Validation(Field::Points) => "Task points cannot be negative".to_owned(),
            StoreError::NotFound(Entity::User, _) => "User not found".to_owned(),
            StoreError::NotFound(Entity::Task, _) => "Task not found".to_owned(),
            StoreError::Conflict(_) => "Task is already completed".to_owned(),
        }
    }
}

} // verus!
