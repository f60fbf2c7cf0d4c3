//! The mathematical model of the ledger store: its state as two sequences
//! of records, the store invariant, and one transition function per
//! mutating operation. The executable store's contracts state that each
//! operation's effect and result equal the corresponding transition.

use vstd::prelude::*;

use crate::errors::Entity;
use crate::errors::Field;
use crate::errors::StoreError;
use crate::records::Task;
use crate::records::User;

verus! {

/// Whether the character `c` occurs in `s`.
pub open spec fn contains_char(s: Seq<char>, c: char) -> bool {
    exists|i: int| 0 <= i < s.len() && s[i] == c
}

/// Whether `email` passes the store's syntactic check: non-empty and
/// holding at least one `@`.
pub open spec fn valid_email(email: Seq<char>) -> bool {
    email.len() > 0 && contains_char(email, '@')
}

/// The leaderboard order: `a` ranks strictly before `b` when `a` has more
/// points, or the same points and the smaller id (accounts created
/// earlier rank first among ties).
pub open spec fn ranks_before(a: User, b: User) -> bool {
    a.points > b.points || (a.points == b.points && a.id < b.id)
}

/// The abstract state of a ledger store: the stored user accounts and
/// tasks, each in order of creation.
#[verifier::ext_equal]
pub struct StoreModel {
    pub users: Seq<User>,
    pub tasks: Seq<Task>,
}

impl StoreModel {
    /// The store invariant: record ids equal their position plus one (so
    /// ids are unique, strictly increasing and start at 1), user balances
    /// and task rewards are non-negative, and every assignment references
    /// a stored user.
    pub open spec fn inv(self) -> bool {
        &&& forall|i: int|
            0 <= i < self.users.len() ==> {
                &&& (#[trigger] self.users[i]).id as int == i + 1
                &&& self.users[i].points >= 0
            }
        &&& forall|i: int|
            0 <= i < self.tasks.len() ==> {
                &&& (#[trigger] self.tasks[i]).id as int == i + 1
                &&& self.tasks[i].points >= 0
                &&& match self.tasks[i].assigned_to {
                    Some(uid) => 1 <= uid && uid as int <= self.users.len(),
                    None => true,
                }
            }
    }

    /// Whether a user with this id is stored.
    pub open spec fn has_user(self, id: u32) -> bool {
        1 <= id && id as int <= self.users.len()
    }

    /// The stored user with this id.
    pub open spec fn user_at(self, id: u32) -> User
        recommends
            self.has_user(id),
    {
        self.users[id as int - 1]
    }

    /// Whether a task with this id is stored.
    pub open spec fn has_task(self, id: u32) -> bool {
        1 <= id && id as int <= self.tasks.len()
    }

    /// The stored task with this id.
    pub open spec fn task_at(self, id: u32) -> Task
        recommends
            self.has_task(id),
    {
        self.tasks[id as int - 1]
    }

    /// Whether completing the task with this id cannot overflow the
    /// assignee's balance. Holds trivially when the completion would be
    /// rejected or the task is unassigned.
    pub open spec fn complete_fits(self, task_id: u32) -> bool {
        if self.has_task(task_id) {
            let t = self.task_at(task_id);
            if !t.completed {
                match t.assigned_to {
                    Some(uid) => self.user_at(uid).points + t.points <= i32::MAX,
                    None => true,
                }
            } else {
                true
            }
        } else {
            true
        }
    }
}

/// The effect of `create_user`: validates the username, then the email;
/// on success stores and returns a user with the next id (one more than
/// the count of stored users) and zero points. A failed call changes
/// nothing and consumes no id.
pub open spec fn create_user_step(
    s: StoreModel,
    username: String,
    email: String,
    role: String,
) -> (StoreModel, Result<User, StoreError>) {
    if username@.len() == 0 {
        (s, Err(StoreError::Validation(Field::Username)))
    } else if !valid_email(email@) {
        (s, Err(StoreError::Validation(Field::Email)))
    } else {
        let user = User {
            id: (s.users.len() + 1) as u32,
            username,
            email,
            role,
            points: 0,
        };
        (StoreModel { users: s.users.push(user), tasks: s.tasks }, Ok(user))
    }
}

/// The effect of `create_task`: validates the title, then the point
/// value; on success stores and returns an unassigned, uncompleted task
/// with the next id. A failed call changes nothing and consumes no id.
pub open spec fn create_task_step(
    s: StoreModel,
    title: String,
    description: String,
    points: i32,
) -> (StoreModel, Result<Task, StoreError>) {
    if title@.len() == 0 {
        (s, Err(StoreError::Validation(Field::Title)))
    } else if points < 0 {
        (s, Err(StoreError::Validation(Field::Points)))
    } else {
        let task = Task {
            id: (s.tasks.len() + 1) as u32,
            title,
            description,
            points,
            assigned_to: None,
            completed: false,
        };
        (StoreModel { users: s.users, tasks: s.tasks.push(task) }, Ok(task))
    }
}

/// The effect of `assign_task`: the user is checked before the task, so a
/// missing user is reported even when the task is missing too. On success
/// the task's assignee is set, silently replacing any prior assignee with
/// no point adjustment.
pub open spec fn assign_task_step(s: StoreModel, task_id: u32, user_id: u32) -> (
    StoreModel,
    Result<(), StoreError>,
) {
    if !s.has_user(user_id) {
        (s, Err(StoreError::NotFound(Entity::User, user_id)))
    } else if !s.has_task(task_id) {
        (s, Err(StoreError::NotFound(Entity::Task, task_id)))
    } else {
        let t = s.task_at(task_id);
        let assigned = Task {
            id: t.id,
            title: t.title,
            description: t.description,
            points: t.points,
            assigned_to: Some(user_id),
            completed: t.completed,
        };
        (
            StoreModel { users: s.users, tasks: s.tasks.update(task_id as int - 1, assigned) },
            Ok(()),
        )
    }
}

/// The effect of `complete_task`: a missing task or an already completed
/// one is rejected with no state change; otherwise the task is marked
/// completed and, if it has an assignee, exactly that user's balance
/// grows by the task's point value. An unassigned task completes with no
/// balance changed anywhere.
pub open spec fn complete_task_step(s: StoreModel, task_id: u32) -> (
    StoreModel,
    Result<(), StoreError>,
) {
    if !s.has_task(task_id) {
        (s, Err(StoreError::NotFound(Entity::Task, task_id)))
    } else {
        let t = s.task_at(task_id);
        if t.completed {
            (s, Err(StoreError::Conflict(task_id)))
        } else {
            let done = Task {
                id: t.id,
                title: t.title,
                description: t.description,
                points: t.points,
                assigned_to: t.assigned_to,
                completed: true,
            };
            let tasks = s.tasks.update(task_id as int - 1, done);
            match t.assigned_to {
                Some(uid) => {
                    let u = s.user_at(uid);
                    let credited = User {
                        id: u.id,
                        username: u.username,
                        email: u.email,
                        role: u.role,
                        points: (u.points + t.points) as i32,
                    };
                    (
                        StoreModel { users: s.users.update(uid as int - 1, credited), tasks },
                        Ok(()),
                    )
                },
                None => (StoreModel { users: s.users, tasks }, Ok(())),
            }
        }
    }
}

} // verus!
