//! The ledger store: owns all user accounts and tasks, is the sole
//! mutator of identifiers, balances and assignment/completion state, and
//! the sole source of the leaderboard. Every operation either fully
//! succeeds or fails with a [`StoreError`] and leaves the store unchanged.

use vstd::prelude::*;
use vstd::pervasive::VecAdditionalExecFns;
use vstd::string::StrSliceExecFns;

use crate::errors::Entity;
use crate::errors::Field;
use crate::errors::StoreError;
use crate::model::assign_task_step;
use crate::model::complete_task_step;
use crate::model::contains_char;
use crate::model::create_task_step;
use crate::model::create_user_step;
use crate::model::ranks_before;
use crate::model::StoreModel;
use crate::records::copy_of_task;
use crate::records::copy_of_user;
use crate::records::Task;
use crate::records::User;

verus! {

/// Whether the character `c` occurs in `s`.
fn has_char(s: &str, c: char) -> (b: bool)
    ensures
        b == contains_char(s@, c),
{
    let n: usize = s.unicode_len();
    let mut i: usize = 0;
    while i < n
        invariant
            n == s@.len(),
            i <= n,
            forall|j: int| 0 <= j < i ==> s@[j] != c,
        decreases n - i,
    {
        if s.get_char(i) == c {
            return true;
        }
        i += 1;
    }
    false
}

/// The in-memory ledger store. Records are kept in creation order, so the
/// record with id `n` sits at position `n - 1`; the next id to allocate
/// is always one more than the count of stored records, and failed calls
/// consume no id.
pub struct Database {
    users: Vec<User>,
    tasks: Vec<Task>,
}

impl View for Database {
    type V = StoreModel;

    closed spec fn view(&self) -> StoreModel {
        StoreModel { users: self.users@, tasks: self.tasks@ }
    }
}

impl Database {
    /// The store invariant; established by [`Database::new`] and
    /// preserved by every operation.
    pub open spec fn wf(&self) -> bool {
        self@.inv()
    }

    /// An empty store. Ids in both collections start at 1.
    pub fn new() -> (db: Database)
        ensures
            db.wf(),
            db@.users == Seq::<User>::empty(),
            db@.tasks == Seq::<Task>::empty(),
    {
        Database { users: Vec::new(), tasks: Vec::new() }
    }

    /// Validates and stores a new user account, returning a copy of it.
    /// An empty username is rejected first, then an invalid email; a
    /// rejected call leaves the store unchanged. On success the new user
    /// carries the next id (one more than the previously assigned user
    /// id) and a balance of zero points. Ids are `u32`, so the store must
    /// hold fewer than `u32::MAX` users for another to be allocated.
    pub fn create_user(&mut self, username: String, email: String, role: String) -> (result:
        Result<User, StoreError>)
        requires
            old(self).wf(),
            old(self)@.users.len() < u32::MAX as nat,
        ensures
            final(self).wf(),
            ({
                let (post, r) = create_user_step(old(self)@, username, email, role);
                final(self)@ == post && result == r
            }),
            result is Err ==> final(self)@ == old(self)@,
            result matches Ok(u) ==> u.points == 0 && u.id as int == old(self)@.users.len() + 1
                && final(self)@.users.len() == old(self)@.users.len() + 1,
    {
        if username.as_str().is_empty() {
            return Err(StoreError::Validation(Field::Username));
        }
        if email.as_str().is_empty() || !has_char(email.as_str(), '@') {
            return Err(StoreError::Validation(Field::Email));
        }
        let id: u32 = (self.users.len() + 1) as u32;
        let user = User { id, username, email, role, points: 0 };
        let stored = copy_of_user(&user);
        self.users.push(stored);
        Ok(user)
    }

    /// A copy-free lookup of the user with this id; no side effects.
    pub fn get_user(&self, id: u32) -> (r: Option<&User>)
        requires
            self.wf(),
        ensures
            match r {
                Some(u) => self@.has_user(id) && *u == self@.user_at(id),
                None => !self@.has_user(id),
            },
    {
        if id >= 1 && (id as usize) <= self.users.len() {
            Some(&self.users[(id as usize) - 1])
        } else {
            None
        }
    }

    /// A copy-free lookup of the task with this id; no side effects.
    pub fn get_task(&self, id: u32) -> (r: Option<&Task>)
        requires
            self.wf(),
        ensures
            match r {
                Some(t) => self@.has_task(id) && *t == self@.task_at(id),
                None => !self@.has_task(id),
            },
    {
        if id >= 1 && (id as usize) <= self.tasks.len() {
            Some(&self.tasks[(id as usize) - 1])
        } else {
            None
        }
    }

    /// Validates and stores a new task, returning a copy of it. An empty
    /// title is rejected first, then a negative point value; a rejected
    /// call leaves the store unchanged. On success the new task carries
    /// the next id, no assignee, and `completed == false`. Ids are `u32`,
    /// so the store must hold fewer than `u32::MAX` tasks for another to
    /// be allocated.
    pub fn create_task(&mut self, title: String, description: String, points: i32) -> (result:
        Result<Task, StoreError>)
        requires
            old(self).wf(),
            old(self)@.tasks.len() < u32::MAX as nat,
        ensures
            final(self).wf(),
            ({
                let (post, r) = create_task_step(old(self)@, title, description, points);
                final(self)@ == post && result == r
            }),
            result is Err ==> final(self)@ == old(self)@,
            result matches Ok(t) ==> t.assigned_to is None && !t.completed && t.id as int == old(
                self,
            )@.tasks.len() + 1 && final(self)@.tasks.len() == old(self)@.tasks.len() + 1,
    {
        if title.as_str().is_empty() {
            return Err(StoreError::Validation(Field::Title));
        }
        if points < 0 {
            return Err(StoreError::Validation(Field::Points));
        }
        let id: u32 = (self.tasks.len() + 1) as u32;
        let task = Task { id, title, description, points, assigned_to: None, completed: false };
        let stored = copy_of_task(&task);
        self.tasks.push(stored);
        Ok(task)
    }

    /// Assigns the task to the user. The user's existence is checked
    /// before the task's, so a missing user is reported even when the
    /// task is missing too. On success the task's assignee is set,
    /// silently replacing any prior assignee with no point adjustment; a
    /// failed call leaves the store unchanged.
    pub fn assign_task(&mut self, task_id: u32, user_id: u32) -> (result: Result<
        (),
        StoreError,
    >)
        requires
            old(self).wf(),
        ensures
            final(self).wf(),
            ({
                let (post, r) = assign_task_step(old(self)@, task_id, user_id);
                final(self)@ == post && result == r
            }),
            result is Err ==> final(self)@ == old(self)@,
            !old(self)@.has_user(user_id) ==> result == Err::<(), StoreError>(
                StoreError::NotFound(Entity::User, user_id),
            ),
    {
        if !(user_id >= 1 && (user_id as usize) <= self.users.len()) {
            return Err(StoreError::NotFound(Entity::User, user_id));
        }
        if !(task_id >= 1 && (task_id as usize) <= self.tasks.len()) {
            return Err(StoreError::NotFound(Entity::Task, task_id));
        }
        let idx: usize = (task_id as usize) - 1;
        let t = &self.tasks[idx];
        let assigned = Task {
            id: t.id,
            title: t.title.clone(),
            description: t.description.clone(),
            points: t.points,
            assigned_to: Some(user_id),
            completed: t.completed,
        };
        self.tasks.set(idx, assigned);
        Ok(())
    }

    /// Completes the task: rejects a missing task or one already
    /// completed (checked before any state change); otherwise marks it
    /// completed and, if it has an assignee, credits the task's point
    /// value to exactly that user's balance. Completing an unassigned
    /// task succeeds and changes no balance anywhere. This is the only
    /// operation that mutates user balances. Balances are `i32`, so a
    /// caller must first make sure the credit cannot overflow (see
    /// [`StoreModel::complete_fits`]); the read operations expose
    /// everything needed to check that.
    pub fn complete_task(&mut self, task_id: u32) -> (result: Result<(), StoreError>)
        requires
            old(self).wf(),
            old(self)@.complete_fits(task_id),
        ensures
            final(self).wf(),
            ({
                let (post, r) = complete_task_step(old(self)@, task_id);
                final(self)@ == post && result == r
            }),
            result is Err ==> final(self)@ == old(self)@,
    {
        if !(task_id >= 1 && (task_id as usize) <= self.tasks.len()) {
            return Err(StoreError::NotFound(Entity::Task, task_id));
        }
        let idx: usize = (task_id as usize) - 1;
        let t = &self.tasks[idx];
        if t.completed {
            return Err(StoreError::Conflict(task_id));
        }
        let assignee = t.assigned_to;
        let reward: i32 = t.points;
        let done = Task {
            id: t.id,
            title: t.title.clone(),
            description: t.description.clone(),
            points: t.points,
            assigned_to: t.assigned_to,
            completed: true,
        };
        self.tasks.set(idx, done);
        if let Some(uid) = assignee {
            let uidx: usize = (uid as usize) - 1;
            let u = &self.users[uidx];
            let credited = User {
                id: u.id,
                username: u.username.clone(),
                email: u.email.clone(),
                role: u.role.clone(),
                points: u.points + reward,
            };
            self.users.set(uidx, credited);
        }
        Ok(())
    }

    /// All stored users, as copies, ordered by descending points; users
    /// with equal points appear in ascending id order (creation order),
    /// which keeps the leaderboard deterministic. Read-only.
    pub fn get_leaderboard(&self) -> (board: Vec<User>)
        requires
            self.wf(),
        ensures
            board@.len() == self@.users.len(),
            board@.to_multiset() == self@.users.to_multiset(),
            forall|i: int, j: int|
                0 <= i < j < board@.len() ==> ranks_before(board@[i], board@[j]),
    {
        let mut board: Vec<User> = Vec::new();
        let mut idx: usize = 0;
        proof {
            assert(board@ =~= self.users@.take(0));
        }
        while idx < self.users.len()
            invariant
                self.wf(),
                idx <= self.users@.len(),
                board@.len() == idx,
                board@.to_multiset() == self.users@.take(idx as int).to_multiset(),
                forall|i: int, j: int|
                    0 <= i < j < board@.len() ==> ranks_before(board@[i], board@[j]),
                forall|k: int| 0 <= k < board@.len() ==> (#[trigger] board@[k]).id <= idx,
            decreases self.users@.len() - idx,
        {
            let u = copy_of_user(&self.users[idx]);
            let mut pos: usize = 0;
            while pos < board.len() && board[pos].points >= u.points
                invariant
                    pos <= board@.len(),
                    forall|k: int| 0 <= k < pos ==> (#[trigger] board@[k]).points >= u.points,
                decreases board@.len() - pos,
            {
                pos += 1;
            }
            let ghost prev = board@;
            proof {
                assert(self@.users[idx as int].id as int == idx + 1);
                assert forall|k: int| pos <= k < prev.len() implies (#[trigger] prev[k]).points
                    < u.points by {
                    if pos < k {
                        assert(ranks_before(prev[pos as int], prev[k]));
                    }
                }
            }
            board.insert(pos, u);
            proof {
                broadcast use vstd::seq_lib::group_to_multiset_ensures;

                let nb = board@;
                assert(nb.len() == prev.len() + 1);
                assert forall|i: int, j: int|
                    0 <= i < j < nb.len() implies ranks_before(nb[i], nb[j]) by {
                    if j < pos {
                        assert(nb[i] == prev[i]);
                        assert(nb[j] == prev[j]);
                    } else if j == pos {
                        assert(nb[i] == prev[i]);
                        assert(nb[j] == u);
                    } else {
                        assert(nb[j] == prev[j - 1]);
                        if i < pos {
                            assert(nb[i] == prev[i]);
                            if i < j - 1 {
                                assert(ranks_before(prev[i], prev[j - 1]));
                            }
                        } else if i == pos {
                            assert(nb[i] == u);
                        } else {
                            assert(nb[i] == prev[i - 1]);
                            assert(ranks_before(prev[i - 1], prev[j - 1]));
                        }
                    }
                }
                assert forall|k: int| 0 <= k < nb.len() implies (#[trigger] nb[k]).id <= idx
                    + 1 by {
                    if k < pos {
                        assert(nb[k] == prev[k]);
                    } else if k == pos {
                        assert(nb[k] == u);
                    } else {
                        assert(nb[k] == prev[k - 1]);
                    }
                }
                assert(prev.insert(pos as int, u).to_multiset() == prev.to_multiset().insert(u));
                assert(self.users@.take(idx as int).push(u).to_multiset() == self.users@.take(
                    idx as int,
                ).to_multiset().insert(u));
                assert(self.users@.take(idx as int).push(u) =~= self.users@.take(idx as int + 1));
                assert(nb.to_multiset() == self.users@.take(idx as int + 1).to_multiset());
            }
            idx += 1;
        }
        proof {
            assert(self.users@.take(self.users@.len() as int) =~= self.users@);
        }
        board
    }
}

} // verus!
