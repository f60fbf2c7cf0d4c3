//! Laws relating several store operations, proved over the model's
//! transition functions. The executable operations' contracts equate
//! their effect with those transitions, so these laws hold of any
//! sequence of store calls.

use vstd::prelude::*;

use crate::errors::StoreError;
use crate::model::assign_task_step;
use crate::model::complete_task_step;
use crate::model::create_task_step;
use crate::model::create_user_step;
use crate::model::valid_email;
use crate::model::StoreModel;

verus! {

/// Creating a user, creating a task, then assigning that task to that
/// user always succeeds on valid inputs, and leaves the task's assignee
/// equal to the new user's id.
pub proof fn lemma_created_task_assignable(
    s: StoreModel,
    username: String,
    email: String,
    role: String,
    title: String,
    description: String,
    points: i32,
)
    requires
        s.inv(),
        s.users.len() < u32::MAX as nat,
        s.tasks.len() < u32::MAX as nat,
        username@.len() > 0,
        valid_email(email@),
        title@.len() > 0,
        points >= 0,
    ensures
        ({
            let (s1, r1) = create_user_step(s, username, email, role);
            r1 matches Ok(user) && ({
                let (s2, r2) = create_task_step(s1, title, description, points);
                r2 matches Ok(task) && ({
                    let (s3, r3) = assign_task_step(s2, task.id, user.id);
                    r3 is Ok && s3.has_task(task.id) && s3.task_at(task.id).assigned_to == Some(
                        user.id,
                    )
                })
            })
        }),
{
}

/// Assigning a task to a user and then completing it marks the task
/// completed and grows exactly that user's balance by exactly the task's
/// point value.
pub proof fn lemma_assign_then_complete_credits(s: StoreModel, task_id: u32, user_id: u32)
    requires
        s.inv(),
        s.has_user(user_id),
        s.has_task(task_id),
        !s.task_at(task_id).completed,
        s.user_at(user_id).points + s.task_at(task_id).points <= i32::MAX,
    ensures
        ({
            let (s1, r1) = assign_task_step(s, task_id, user_id);
            let (s2, r2) = complete_task_step(s1, task_id);
            r1 is Ok && r2 is Ok && s2.has_task(task_id) && s2.task_at(task_id).completed
                && s2.user_at(user_id).points == s.user_at(user_id).points + s.task_at(
                task_id,
            ).points
        }),
{
}

/// Completing the same task twice: the first call succeeds, the second
/// is rejected as a conflict and changes nothing, and an assignee's
/// balance is credited exactly once.
pub proof fn lemma_complete_twice_rejected(s: StoreModel, task_id: u32)
    requires
        s.inv(),
        s.has_task(task_id),
        !s.task_at(task_id).completed,
        s.complete_fits(task_id),
    ensures
        ({
            let (s1, r1) = complete_task_step(s, task_id);
            let (s2, r2) = complete_task_step(s1, task_id);
            r1 is Ok && r2 == Err::<(), StoreError>(StoreError::Conflict(task_id)) && s2 == s1 && (
            s.task_at(task_id).assigned_to matches Some(uid) ==> s2.user_at(uid).points == s.user_at(
                uid,
            ).points + s.task_at(task_id).points)
        }),
{
}

/// Whether `s2` is reachable from `s` by one mutating store operation,
/// called under that operation's precondition (room for another id, and
/// a credit that fits the balance).
pub open spec fn steps_to(s: StoreModel, s2: StoreModel) -> bool {
    ||| (exists|username: String, email: String, role: String|
        s.users.len() < u32::MAX as nat && s2 == (#[trigger] create_user_step(
            s,
            username,
            email,
            role,
        )).0)
    ||| (exists|title: String, description: String, points: i32|
        s.tasks.len() < u32::MAX as nat && s2 == (#[trigger] create_task_step(
            s,
            title,
            description,
            points,
        )).0)
    ||| (exists|task_id: u32, user_id: u32|
        s2 == (#[trigger] assign_task_step(s, task_id, user_id)).0)
    ||| (exists|task_id: u32|
        s.complete_fits(task_id) && s2 == (#[trigger] complete_task_step(s, task_id)).0)
}

/// Ledger history only grows: no operation removes a record or changes
/// its id, none reverses a completion, and none lowers a balance — there
/// is no decrement operation.
pub proof fn lemma_history_is_monotone(s: StoreModel, s2: StoreModel)
    requires
        s.inv(),
        steps_to(s, s2),
    ensures
        s.users.len() <= s2.users.len(),
        s.tasks.len() <= s2.tasks.len(),
        forall|i: int|
            0 <= i < s.users.len() ==> (#[trigger] s2.users[i]).id == s.users[i].id
                && s2.users[i].points >= s.users[i].points,
        forall|i: int|
            0 <= i < s.tasks.len() ==> (#[trigger] s2.tasks[i]).id == s.tasks[i].id && (
            s.tasks[i].completed ==> s2.tasks[i].completed),
{
    if exists|username: String, email: String, role: String|
        s.users.len() < u32::MAX as nat && s2 == (#[trigger] create_user_step(
            s,
            username,
            email,
            role,
        )).0 {
        let (username, email, role) = choose|username: String, email: String, role: String|
            s.users.len() < u32::MAX as nat && s2 == (#[trigger] create_user_step(
                s,
                username,
                email,
                role,
            )).0;
        assert(s2 == create_user_step(s, username, email, role).0);
        assert forall|i: int| 0 <= i < s.users.len() implies #[trigger] s2.users[i]
            == s.users[i] by {}
    } else if exists|title: String, description: String, points: i32|
        s.tasks.len() < u32::MAX as nat && s2 == (#[trigger] create_task_step(
            s,
            title,
            description,
            points,
        )).0 {
        let (title, description, points) = choose|title: String, description: String, points: i32|
            s.tasks.len() < u32::MAX as nat && s2 == (#[trigger] create_task_step(
                s,
                title,
                description,
                points,
            )).0;
        assert(s2 == create_task_step(s, title, description, points).0);
        assert forall|i: int| 0 <= i < s.tasks.len() implies #[trigger] s2.tasks[i]
            == s.tasks[i] by {}
    } else if exists|task_id: u32, user_id: u32|
        s2 == (#[trigger] assign_task_step(s, task_id, user_id)).0 {
        let (task_id, user_id) = choose|task_id: u32, user_id: u32|
            s2 == (#[trigger] assign_task_step(s, task_id, user_id)).0;
        assert(s2 == assign_task_step(s, task_id, user_id).0);
    } else {
        let task_id = choose|task_id: u32|
            s.complete_fits(task_id) && s2 == (#[trigger] complete_task_step(s, task_id)).0;
        assert(s.complete_fits(task_id) && s2 == complete_task_step(s, task_id).0);
    }
}

/// Completing a task with no assignee succeeds and leaves every stored
/// user — in particular every balance — unchanged.
pub proof fn lemma_complete_unassigned_changes_no_balance(s: StoreModel, task_id: u32)
    requires
        s.inv(),
        s.has_task(task_id),
        !s.task_at(task_id).completed,
        s.task_at(task_id).assigned_to is None,
    ensures
        ({
            let (s1, r1) = complete_task_step(s, task_id);
            r1 is Ok && s1.users == s.users
        }),
{
}

} // verus!
