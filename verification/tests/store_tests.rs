use points_ledger::Database;
use points_ledger::Entity;
use points_ledger::Field;
use points_ledger::StoreError;

#[test]
fn test_create_user_success() {
    let mut db = Database::new();
    let result = db.create_user(
        "john_doe".to_string(),
        "john@example.com".to_string(),
        "child".to_string(),
    );

    assert!(result.is_ok());
    let user = result.unwrap();
    assert_eq!(user.username, "john_doe");
    assert_eq!(user.email, "john@example.com");
    assert_eq!(user.role, "child");
    assert_eq!(user.points, 0);
    assert_eq!(user.id, 1);
}

#[test]
fn test_create_user_empty_username() {
    let mut db = Database::new();
    let result = db.create_user(
        "".to_string(),
        "john@example.com".to_string(),
        "child".to_string(),
    );

    assert!(result.is_err());
    assert_eq!(result.unwrap_err().message(), "Username cannot be empty");
}

#[test]
fn test_create_user_invalid_email() {
    let mut db = Database::new();
    let result = db.create_user(
        "john_doe".to_string(),
        "invalid-email".to_string(),
        "child".to_string(),
    );

    assert!(result.is_err());
    assert_eq!(result.unwrap_err().message(), "Invalid email address");
}

#[test]
fn test_create_task_success() {
    let mut db = Database::new();
    let result = db.create_task(
        "Clean room".to_string(),
        "Clean and organize bedroom".to_string(),
        10,
    );

    assert!(result.is_ok());
    let task = result.unwrap();
    assert_eq!(task.title, "Clean room");
    assert_eq!(task.description, "Clean and organize bedroom");
    assert_eq!(task.points, 10);
    assert_eq!(task.id, 1);
    assert!(!task.completed);
    assert!(task.assigned_to.is_none());
}

#[test]
fn test_create_task_empty_title() {
    let mut db = Database::new();
    let result = db.create_task("".to_string(), "Some description".to_string(), 10);

    assert!(result.is_err());
    assert_eq!(result.unwrap_err().message(), "Task title cannot be empty");
}

#[test]
fn test_create_task_negative_points() {
    let mut db = Database::new();
    let result = db.create_task(
        "Clean room".to_string(),
        "Clean and organize bedroom".to_string(),
        -5,
    );

    assert!(result.is_err());
    assert_eq!(result.unwrap_err().message(), "Task points cannot be negative");
}

#[test]
fn test_assign_task_success() {
    let mut db = Database::new();

    let user = db
        .create_user("john".to_string(), "john@example.com".to_string(), "child".to_string())
        .unwrap();
    let task = db
        .create_task("Clean room".to_string(), "Description".to_string(), 10)
        .unwrap();

    let result = db.assign_task(task.id, user.id);
    assert!(result.is_ok());

    let assigned_task = db.get_task(task.id).unwrap();
    assert_eq!(assigned_task.assigned_to, Some(user.id));
}

#[test]
fn test_assign_task_user_not_found() {
    let mut db = Database::new();
    let task = db
        .create_task("Clean room".to_string(), "Description".to_string(), 10)
        .unwrap();

    let result = db.assign_task(task.id, 999);
    assert!(result.is_err());
    assert_eq!(result.unwrap_err().message(), "User not found");
}

#[test]
fn test_complete_task_success() {
    let mut db = Database::new();

    let user = db
        .create_user("john".to_string(), "john@example.com".to_string(), "child".to_string())
        .unwrap();
    let task = db
        .create_task("Clean room".to_string(), "Description".to_string(), 10)
        .unwrap();

    db.assign_task(task.id, user.id).unwrap();
    let result = db.complete_task(task.id);

    assert!(result.is_ok());

    let completed_task = db.get_task(task.id).unwrap();
    assert!(completed_task.completed);

    let updated_user = db.get_user(user.id).unwrap();
    assert_eq!(updated_user.points, 10);
}

#[test]
fn test_complete_task_already_completed() {
    let mut db = Database::new();
    let task = db
        .create_task("Clean room".to_string(), "Description".to_string(), 10)
        .unwrap();

    db.complete_task(task.id).unwrap();
    let result = db.complete_task(task.id);

    assert!(result.is_err());
    assert_eq!(result.unwrap_err().message(), "Task is already completed");
}

#[test]
fn test_leaderboard() {
    let mut db = Database::new();

    let user1 = db
        .create_user("alice".to_string(), "alice@example.com".to_string(), "child".to_string())
        .unwrap();
    let user2 = db
        .create_user("bob".to_string(), "bob@example.com".to_string(), "child".to_string())
        .unwrap();

    // Give different points, through the store's own mechanic.
    let t1 = db.create_task("t1".to_string(), "d".to_string(), 20).unwrap();
    let t2 = db.create_task("t2".to_string(), "d".to_string(), 30).unwrap();
    db.assign_task(t1.id, user1.id).unwrap();
    db.assign_task(t2.id, user2.id).unwrap();
    db.complete_task(t1.id).unwrap();
    db.complete_task(t2.id).unwrap();

    let leaderboard = db.get_leaderboard();

    assert_eq!(leaderboard.len(), 2);
    assert_eq!(leaderboard[0].username, "bob"); // Higher points first
    assert_eq!(leaderboard[1].username, "alice");
}

#[test]
fn test_user_ids_increment_and_failed_calls_consume_no_id() {
    let mut db = Database::new();
    let u1 = db
        .create_user("a".to_string(), "a@x.com".to_string(), "child".to_string())
        .unwrap();
    assert_eq!(u1.id, 1);

    // A rejected call must not consume an id.
    assert!(db
        .create_user("".to_string(), "b@x.com".to_string(), "child".to_string())
        .is_err());

    let u2 = db
        .create_user("b".to_string(), "b@x.com".to_string(), "parent".to_string())
        .unwrap();
    assert_eq!(u2.id, 2);
}

#[test]
fn test_task_ids_increment_and_failed_calls_consume_no_id() {
    let mut db = Database::new();
    let t1 = db.create_task("one".to_string(), "d".to_string(), 1).unwrap();
    assert_eq!(t1.id, 1);

    assert!(db.create_task("".to_string(), "d".to_string(), 1).is_err());
    assert!(db.create_task("bad".to_string(), "d".to_string(), -1).is_err());

    let t2 = db.create_task("two".to_string(), "d".to_string(), 2).unwrap();
    assert_eq!(t2.id, 2);
}

#[test]
fn test_create_user_empty_email() {
    let mut db = Database::new();
    let result = db.create_user("x".to_string(), "".to_string(), "child".to_string());
    assert_eq!(result.unwrap_err(), StoreError::Validation(Field::Email));
}

#[test]
fn test_error_variants_are_structured() {
    let mut db = Database::new();
    assert_eq!(
        db.create_user("".to_string(), "a@b.com".to_string(), "child".to_string())
            .unwrap_err(),
        StoreError::Validation(Field::Username)
    );
    assert_eq!(
        db.create_task("t".to_string(), "d".to_string(), -5).unwrap_err(),
        StoreError::Validation(Field::Points)
    );
    assert_eq!(
        db.assign_task(1, 999).unwrap_err(),
        StoreError::NotFound(Entity::User, 999)
    );
    assert_eq!(
        db.complete_task(7).unwrap_err(),
        StoreError::NotFound(Entity::Task, 7)
    );
}

#[test]
fn test_assign_task_task_not_found() {
    let mut db = Database::new();
    let user = db
        .create_user("john".to_string(), "john@example.com".to_string(), "child".to_string())
        .unwrap();

    let result = db.assign_task(42, user.id);
    assert_eq!(result.unwrap_err(), StoreError::NotFound(Entity::Task, 42));
    assert_eq!(result.unwrap_err().message(), "Task not found");
}

#[test]
fn test_complete_task_not_found() {
    let mut db = Database::new();
    let result = db.complete_task(1);
    assert_eq!(result.unwrap_err(), StoreError::NotFound(Entity::Task, 1));
    assert_eq!(result.unwrap_err().message(), "Task not found");
}

#[test]
fn test_complete_unassigned_task_changes_no_balance() {
    let mut db = Database::new();
    let user = db
        .create_user("ann".to_string(), "ann@x.com".to_string(), "child".to_string())
        .unwrap();
    let task = db.create_task("chore".to_string(), "d".to_string(), 50).unwrap();

    assert!(db.complete_task(task.id).is_ok());

    assert!(db.get_task(task.id).unwrap().completed);
    assert_eq!(db.get_user(user.id).unwrap().points, 0);
}

#[test]
fn test_complete_twice_credits_once() {
    let mut db = Database::new();
    let user = db
        .create_user("ann".to_string(), "ann@x.com".to_string(), "child".to_string())
        .unwrap();
    let task = db.create_task("chore".to_string(), "d".to_string(), 5).unwrap();
    db.assign_task(task.id, user.id).unwrap();

    assert!(db.complete_task(task.id).is_ok());
    assert_eq!(db.complete_task(task.id).unwrap_err(), StoreError::Conflict(task.id));

    assert_eq!(db.get_user(user.id).unwrap().points, 5);
}

#[test]
fn test_reassignment_overwrites_silently() {
    let mut db = Database::new();
    let u1 = db
        .create_user("ann".to_string(), "ann@x.com".to_string(), "child".to_string())
        .unwrap();
    let u2 = db
        .create_user("ben".to_string(), "ben@x.com".to_string(), "child".to_string())
        .unwrap();
    let task = db.create_task("chore".to_string(), "d".to_string(), 5).unwrap();

    db.assign_task(task.id, u1.id).unwrap();
    db.assign_task(task.id, u2.id).unwrap();

    assert_eq!(db.get_task(task.id).unwrap().assigned_to, Some(u2.id));

    // Completion credits only the current assignee; no adjustment for the
    // earlier one.
    db.complete_task(task.id).unwrap();
    assert_eq!(db.get_user(u1.id).unwrap().points, 0);
    assert_eq!(db.get_user(u2.id).unwrap().points, 5);
}

#[test]
fn test_leaderboard_tie_breaks_by_creation_order() {
    let mut db = Database::new();
    let u1 = db
        .create_user("ann".to_string(), "ann@x.com".to_string(), "child".to_string())
        .unwrap();
    let u2 = db
        .create_user("ben".to_string(), "ben@x.com".to_string(), "child".to_string())
        .unwrap();
    let u3 = db
        .create_user("cam".to_string(), "cam@x.com".to_string(), "child".to_string())
        .unwrap();

    // ann and cam tie on 5 points; ben has 9.
    for (points, uid) in [(5, u1.id), (9, u2.id), (5, u3.id)] {
        let t = db.create_task("chore".to_string(), "d".to_string(), points).unwrap();
        db.assign_task(t.id, uid).unwrap();
        db.complete_task(t.id).unwrap();
    }

    let board = db.get_leaderboard();
    assert_eq!(board.len(), 3);
    assert_eq!(board[0].username, "ben");
    assert_eq!(board[1].username, "ann"); // created before cam
    assert_eq!(board[2].username, "cam");
}

#[test]
fn test_leaderboard_empty_store() {
    let db = Database::new();
    assert!(db.get_leaderboard().is_empty());
}

#[test]
fn test_get_user_lookup() {
    let mut db = Database::new();
    assert!(db.get_user(1).is_none());
    let user = db
        .create_user("ann".to_string(), "ann@x.com".to_string(), "child".to_string())
        .unwrap();
    let found = db.get_user(user.id).unwrap();
    assert_eq!(found.username, "ann");
    assert_eq!(found.email, "ann@x.com");
    assert_eq!(found.role, "child");
    assert_eq!(found.points, 0);
    assert!(db.get_user(0).is_none());
    assert!(db.get_user(2).is_none());
}

#[test]
fn test_get_task_lookup() {
    let mut db = Database::new();
    assert!(db.get_task(1).is_none());
    let task = db.create_task("chore".to_string(), "desc".to_string(), 3).unwrap();
    let found = db.get_task(task.id).unwrap();
    assert_eq!(found.title, "chore");
    assert_eq!(found.description, "desc");
    assert_eq!(found.points, 3);
    assert_eq!(found.assigned_to, None);
    assert!(!found.completed);
    assert!(db.get_task(2).is_none());
}

#[test]
fn test_email_needs_at_sign_anywhere() {
    let mut db = Database::new();
    assert!(db
        .create_user("a".to_string(), "@".to_string(), "child".to_string())
        .is_ok());
    assert!(db
        .create_user("b".to_string(), "b.example.com".to_string(), "child".to_string())
        .is_err());
    assert!(db
        .create_user("c".to_string(), "c@example.com".to_string(), "child".to_string())
        .is_ok());
}

#[test]
fn test_zero_point_task_completion() {
    let mut db = Database::new();
    let user = db
        .create_user("ann".to_string(), "ann@x.com".to_string(), "child".to_string())
        .unwrap();
    let task = db.create_task("freebie".to_string(), "d".to_string(), 0).unwrap();
    db.assign_task(task.id, user.id).unwrap();
    db.complete_task(task.id).unwrap();
    assert_eq!(db.get_user(user.id).unwrap().points, 0);
    assert!(db.get_task(task.id).unwrap().completed);
}
