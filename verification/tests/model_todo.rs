use todo_backend::model::{handle_fetch_one_result, Error, Store, StoreFault, TodoMac};
use todo_backend::security::UserCtx;
use todo_backend::todo::{Todo, TodoPatch, TodoStatus};
use todo_backend::web::status_for_error;

fn seeded_store() -> Store {
    let mut db = Store::new(1000);
    db.seed(101, 123, String::from("todo 101"), TodoStatus::Open);
    db.seed(100, 123, String::from("todo 100"), TodoStatus::Close);
    db
}

#[test]
fn model_todo_create_defaults_title_and_status() {
    let mut db = seeded_store();
    let utx = UserCtx { user_id: 123 };

    let todo = TodoMac::create(&mut db, &utx, TodoPatch { title: None, status: None })
        .expect("create should succeed");

    assert_eq!("untitled", todo.title);
    assert_eq!(TodoStatus::Open, todo.status);
    assert_eq!(123, todo.id_creator);
}

#[test]
fn model_todo_create_keeps_given_title_and_id_is_fetchable() {
    let mut db = seeded_store();
    let utx = UserCtx { user_id: 123 };

    let todo = TodoMac::create(
        &mut db,
        &utx,
        TodoPatch { title: Some(String::from("fresh")), status: None },
    )
    .expect("create should succeed");

    assert_eq!("fresh", todo.title);
    assert_eq!(TodoStatus::Open, todo.status);

    let fetched = TodoMac::get(&db, &utx, todo.id_todo).expect("new id should fetch");
    assert_eq!(todo.id_todo, fetched.id_todo);
    assert_eq!("fresh", fetched.title);
    assert_eq!(TodoStatus::Open, fetched.status);
}

#[test]
fn model_todo_create_assigns_fresh_ids() {
    let mut db = seeded_store();
    let utx = UserCtx { user_id: 123 };

    let first = TodoMac::create(&mut db, &utx, TodoPatch { title: None, status: None })
        .expect("create should succeed");
    let second = TodoMac::create(&mut db, &utx, TodoPatch { title: None, status: None })
        .expect("create should succeed");

    assert!(first.id_todo >= 1000, "fresh ids start at the watermark");
    assert!(second.id_todo > first.id_todo);
    assert_ne!(first.id_todo, 100);
    assert_ne!(first.id_todo, 101);
}

#[test]
fn model_todo_list_descends_by_id() {
    let mut db = seeded_store();
    let utx = UserCtx { user_id: 123 };
    TodoMac::create(&mut db, &utx, TodoPatch { title: None, status: None })
        .expect("create should succeed");

    let todos = TodoMac::list(&db, &utx).expect("list should succeed");

    assert_eq!(3, todos.len());
    for w in todos.windows(2) {
        assert!(w[0].id_todo > w[1].id_todo, "strictly descending ids");
    }
}

#[test]
fn model_todo_update_without_title_resets_to_untitled() {
    // A patch carrying only a status resets the title to the placeholder:
    // pinned, if surprising, behavior.
    let mut db = seeded_store();
    let utx = UserCtx { user_id: 123 };

    let todo = TodoMac::update(
        &mut db,
        &utx,
        100,
        TodoPatch { title: None, status: Some(TodoStatus::Open) },
    )
    .expect("update should succeed");

    assert_eq!(100, todo.id_todo);
    assert_eq!("untitled", todo.title);
    assert_eq!(TodoStatus::Open, todo.status);
}

#[test]
fn model_todo_update_without_status_keeps_status() {
    let mut db = seeded_store();
    let utx = UserCtx { user_id: 123 };

    let todo = TodoMac::update(
        &mut db,
        &utx,
        100,
        TodoPatch { title: Some(String::from("renamed")), status: None },
    )
    .expect("update should succeed");

    assert_eq!("renamed", todo.title);
    assert_eq!(TodoStatus::Close, todo.status, "status is kept when absent");
}

#[test]
fn model_todo_missing_ids_are_not_found() {
    let mut db = seeded_store();
    let utx = UserCtx { user_id: 123 };

    let err = TodoMac::get(&db, &utx, 999).expect_err("no such id");
    assert!(matches!(err, Error::EntityNotFound("todo", ref id) if id == "999"));

    let err = TodoMac::update(&mut db, &utx, 999, TodoPatch { title: None, status: None })
        .expect_err("no such id");
    assert!(matches!(err, Error::EntityNotFound("todo", ref id) if id == "999"));

    let err = TodoMac::delete(&mut db, &utx, 999).expect_err("no such id");
    assert!(matches!(err, Error::EntityNotFound("todo", ref id) if id == "999"));

    // Nothing was removed or rewritten along the way.
    assert_eq!(2, TodoMac::list(&db, &utx).expect("list").len());
}

#[test]
fn model_todo_delete_returns_last_state_and_removes() {
    let mut db = seeded_store();
    let utx = UserCtx { user_id: 123 };

    let todo = TodoMac::delete(&mut db, &utx, 100).expect("delete should succeed");
    assert_eq!(100, todo.id_todo);
    assert_eq!("todo 100", todo.title);
    assert_eq!(TodoStatus::Close, todo.status);

    let todos = TodoMac::list(&db, &utx).expect("list should succeed");
    assert_eq!(1, todos.len());
    assert_eq!(101, todos[0].id_todo);
}

#[test]
fn model_fetch_outcome_mapping() {
    let row = Todo {
        id_todo: 7,
        id_creator: 1,
        title: String::from("kept"),
        status: TodoStatus::Open,
    };
    let ok = handle_fetch_one_result(Ok(row), "todo", 7).expect("row passes through");
    assert_eq!(7, ok.id_todo);
    assert_eq!("kept", ok.title);

    let err = handle_fetch_one_result(Err(StoreFault::RowNotFound), "todo", 7)
        .expect_err("no row is not found");
    assert!(matches!(err, Error::EntityNotFound("todo", ref id) if id == "7"));

    let err = handle_fetch_one_result(
        Err(StoreFault::Other(String::from("connection reset"))),
        "todo",
        7,
    )
    .expect_err("driver fault is a store error");
    assert!(matches!(err, Error::StoreError(ref cause) if cause == "connection reset"));
}

#[test]
fn model_error_messages_and_statuses() {
    let not_found = Error::EntityNotFound("todo", String::from("100"));
    assert_eq!("Entity Not Found - todo[100] ", not_found.message());
    assert_eq!(404, status_for_error(&not_found));

    let store = Error::StoreError(String::from("connection reset"));
    assert_eq!("connection reset", store.message());
    assert_eq!(500, status_for_error(&store));
}

#[test]
fn model_status_codes_round_trip() {
    assert_eq!(1, TodoStatus::Open.get_id_status());
    assert_eq!(2, TodoStatus::Close.get_id_status());
    assert_eq!(Some(TodoStatus::Open), TodoStatus::from_id_status(1));
    assert_eq!(Some(TodoStatus::Close), TodoStatus::from_id_status(2));
    assert_eq!(None, TodoStatus::from_id_status(3));
    assert_eq!("Open", TodoStatus::Open.name());
    assert_eq!("Close", TodoStatus::Close.name());
}

#[test]
fn model_default_patch_is_empty() {
    let patch = TodoPatch::default();
    assert!(patch.title.is_none());
    assert!(patch.status.is_none());
}
