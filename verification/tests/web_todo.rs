use todo_backend::model::{Store, TodoMac};
use todo_backend::security::utx_from_token;
use todo_backend::todo::{TodoPatch, TodoStatus};
use todo_backend::web::{handle_todo_request, TodoRequest};

/// The fixture the schema files seed: two todos under a fresh-id
/// watermark of 1000.
fn seeded_store() -> Store {
    let mut db = Store::new(1000);
    db.seed(101, 123, String::from("todo 101"), TodoStatus::Open);
    db.seed(100, 123, String::from("todo 100"), TodoStatus::Close);
    db
}

fn body_data(body: &str) -> serde_json::Value {
    let mut v: serde_json::Value = serde_json::from_str(body).expect("body should be JSON");
    v["data"].take()
}

#[test]
fn web_todo_list_no_x_auth() {
    let mut db = seeded_store();

    let resp = handle_todo_request(&mut db, None, TodoRequest::List);

    assert_eq!(400, resp.status, "http status: bad request");
}

#[test]
fn web_todo_list() {
    let mut db = seeded_store();

    let resp = handle_todo_request(&mut db, Some("123"), TodoRequest::List);

    assert_eq!(200, resp.status, "http status");

    let todos = body_data(&resp.body);
    let todos = todos.as_array().expect("data should be an array");
    assert_eq!(2, todos.len(), "number of todos");
    assert_eq!(101, todos[0]["id_todo"]);
    assert_eq!("todo 101", todos[0]["title"]);
    assert_eq!("Open", todos[0]["status"]);
}

#[test]
fn web_todo_get_ok() {
    let mut db = seeded_store();

    let resp = handle_todo_request(&mut db, Some("123"), TodoRequest::Get(100));

    assert_eq!(200, resp.status, "http status");

    let todo = body_data(&resp.body);
    assert_eq!(100, todo["id_todo"]);
    assert_eq!("todo 100", todo["title"]);
    assert_eq!("Close", todo["status"]);
}

#[test]
fn web_todo_create_ok() {
    let mut db = seeded_store();
    const TITLE: &str = "test - web_todo_create_ok";
    let patch = TodoPatch {
        title: Some(String::from(TITLE)),
        status: None,
    };

    let resp = handle_todo_request(&mut db, Some("123"), TodoRequest::Create(patch));

    assert_eq!(200, resp.status, "http status");

    let todo = body_data(&resp.body);
    let id = todo["id_todo"].as_i64().expect("id_todo should be a number");
    assert!(id >= 1000, "todo.id_todo should be >= to 1000");
    assert_eq!(TITLE, todo["title"]);
    assert_eq!("Open", todo["status"]);
}

#[test]
fn web_todo_update_ok() {
    let mut db = seeded_store();
    const TITLE: &str = "test - todo_100_updated";
    let patch = TodoPatch {
        title: Some(String::from(TITLE)),
        status: Some(TodoStatus::Open),
    };

    let resp = handle_todo_request(&mut db, Some("123"), TodoRequest::Update(100, patch));

    assert_eq!(200, resp.status, "http status");

    let todo = body_data(&resp.body);
    assert_eq!(100, todo["id_todo"], "todo.id_todo");
    assert_eq!(TITLE, todo["title"]);
    assert_eq!("Open", todo["status"]);
}

#[test]
fn web_todo_delete_ok() {
    let mut db = seeded_store();

    let resp = handle_todo_request(&mut db, Some("123"), TodoRequest::Delete(100));

    assert_eq!(200, resp.status, "http status");

    let todo = body_data(&resp.body);
    assert_eq!(100, todo["id_todo"], "todo.id_todo");
    assert_eq!("todo 100", todo["title"]);
    assert_eq!("Close", todo["status"]);

    let utx = utx_from_token(&db, "123").expect("123 should resolve");
    let todos = TodoMac::list(&db, &utx).expect("list should succeed");
    assert_eq!(1, todos.len(), "todos length");
    assert_eq!(101, todos[0].id_todo, "Todo remaining should be 101");
}

#[test]
fn web_todo_missing_header_performs_no_store_access() {
    let mut db = seeded_store();

    for req in [
        TodoRequest::List,
        TodoRequest::Get(100),
        TodoRequest::Create(TodoPatch { title: None, status: None }),
        TodoRequest::Update(100, TodoPatch { title: None, status: None }),
        TodoRequest::Delete(100),
    ] {
        let resp = handle_todo_request(&mut db, None, req);
        assert_eq!(400, resp.status);
        assert_eq!(r#"{"message":"Missing X-Auth-Token header"}"#, resp.body);
    }

    // The store is untouched: both fixture rows are still there.
    let resp = handle_todo_request(&mut db, Some("123"), TodoRequest::List);
    let todos = body_data(&resp.body);
    assert_eq!(2, todos.as_array().expect("array").len());
}

#[test]
fn web_todo_bad_token_is_400() {
    let mut db = seeded_store();

    let resp = handle_todo_request(&mut db, Some("not-a-number"), TodoRequest::List);

    assert_eq!(400, resp.status);
    assert_eq!(r#"{"message":"Invalid Token not-a-number"}"#, resp.body);
}

#[test]
fn web_todo_get_missing_is_404_not_500() {
    let mut db = seeded_store();

    let resp = handle_todo_request(&mut db, Some("123"), TodoRequest::Get(999));
    assert_eq!(404, resp.status);
    assert_eq!(r#"{"message":"Entity Not Found - todo[999] "}"#, resp.body);

    let resp = handle_todo_request(
        &mut db,
        Some("123"),
        TodoRequest::Update(999, TodoPatch { title: None, status: None }),
    );
    assert_eq!(404, resp.status);

    let resp = handle_todo_request(&mut db, Some("123"), TodoRequest::Delete(999));
    assert_eq!(404, resp.status);
}

#[test]
fn web_todo_end_to_end_seeded_flow() {
    let mut db = seeded_store();

    // Both seeded todos come back, descending by id: 101 before 100.
    let resp = handle_todo_request(&mut db, Some("123"), TodoRequest::List);
    assert_eq!(200, resp.status);
    let todos = body_data(&resp.body);
    let todos = todos.as_array().expect("array").clone();
    assert_eq!(2, todos.len());
    assert_eq!(101, todos[0]["id_todo"]);
    assert_eq!(100, todos[1]["id_todo"]);

    // Delete 100, then exactly one todo remains: 101.
    let resp = handle_todo_request(&mut db, Some("123"), TodoRequest::Delete(100));
    assert_eq!(200, resp.status);

    let resp = handle_todo_request(&mut db, Some("123"), TodoRequest::List);
    assert_eq!(200, resp.status);
    let todos = body_data(&resp.body);
    let todos = todos.as_array().expect("array").clone();
    assert_eq!(1, todos.len());
    assert_eq!(101, todos[0]["id_todo"]);
}

#[test]
fn web_todo_exact_list_body() {
    let mut db = seeded_store();

    let resp = handle_todo_request(&mut db, Some("123"), TodoRequest::List);

    assert_eq!(
        r#"{"data":[{"id_todo":101,"id_creator":123,"title":"todo 101","status":"Open"},{"id_todo":100,"id_creator":123,"title":"todo 100","status":"Close"}]}"#,
        resp.body
    );
}
