//! The two record types the ledger store owns: user accounts and reward
//! tasks. Records handed out by the store are copies; stored records can
//! only be changed through the store's own operations.

use vstd::prelude::*;

verus! {

/// A user account. `id` is assigned by the store, never reused or changed;
/// `points` starts at 0 and only grows, through task completion.
#[derive(Clone, Debug)]
pub struct User {
    pub id: u32,
    pub username: String,
    pub email: String,
    pub role: String,
    pub points: i32,
}

/// A reward task. `id` is assigned by the store; `points` is validated to
/// be non-negative at creation; `assigned_to` is absent until assignment;
/// `completed` goes from `false` to `true` exactly once.
#[derive(Clone, Debug)]
pub struct Task {
    pub id: u32,
    pub title: String,
    pub description: String,
    pub points: i32,
    pub assigned_to: Option<u32>,
    pub completed: bool,
}

/// An exact copy of a user record (copy-on-read semantics).
pub fn copy_of_user(u: &User) -> (r: User)
    ensures
        r == *u,
{
    User {
        id: u.id,
        username: u.username.clone(),
        email: u.email.clone(),
        role: u.role.clone(),
        points: u.points,
    }
}

/// An exact copy of a task record (copy-on-read semantics).
pub fn copy_of_task(t: &Task) -> (r: Task)
    ensures
        r == *t,
{
    Task {
        id: t.id,
        title: t.title.clone(),
        description: t.description.clone(),
        points: t.points,
        assigned_to: t.assigned_to,
        completed: t.completed,
    }
}

} // verus!
