//! The request handlers: one operation per variant, each behind the
//! auth gate. A handler requires the `X-Auth-Token` header, resolves it
//! to a user context, invokes the store access layer, and shapes the
//! JSON envelope; domain and auth errors go through the error-to-HTTP
//! mapper. The HTTP runtime outside the library does route matching and
//! body deserialization and hands in plain values.

use vstd::prelude::*;

use crate::json::{
    data_envelope, error_body, json_array_of_todos, json_data_envelope, json_error_body,
    json_of_todo, todo_json, todos_json,
};
use crate::model::{title_or_untitled, Error, Store, TodoMac};
use crate::num::{dec_str_of_i64, is_i64_token, i64_token_val};
use crate::security;
use crate::security::utx_from_token;
use crate::todo::{TodoPatch, TodoStatus, TodoView};

verus! {

/// An HTTP response: a status code and a JSON body.
pub struct HttpResponse {
    pub status: u16,
    pub body: String,
}

/// One todo operation, as the router extracts it from method, path and
/// body: the id from the path, the patch from the JSON body.
pub enum TodoRequest {
    List,
    Get(i64),
    Create(TodoPatch),
    Update(i64, TodoPatch),
    Delete(i64),
}

/// The HTTP status a domain error maps to: a missing entity is 404,
/// any other store failure 500.
pub open spec fn spec_status_for_error(e: Error) -> int {
    match e {
        Error::EntityNotFound(_, _) => 404,
        Error::StoreError(_) => 500,
    }
}

/// Map a domain error to its HTTP status.
pub fn status_for_error(e: &Error) -> (r: u16)
    ensures
        r as int == spec_status_for_error(*e),
{
    match e {
        Error::EntityNotFound(_, _) => 404,
        Error::StoreError(_) => 500,
    }
}

/// Map an auth error to its HTTP status: always 400.
pub fn status_for_auth_error(e: &security::Error) -> (r: u16)
    ensures
        r == 400,
{
    match e {
        security::Error::InvalidToken(_) => 400,
    }
}

/// The message a request without the auth header is rejected with.
pub open spec fn spec_missing_auth_message() -> Seq<char> {
    "Missing X-Auth-Token header"@
}

/// The message shown when no todo has the id.
pub open spec fn spec_not_found_message(id: int) -> Seq<char> {
    "Entity Not Found - "@ + "todo"@ + "["@ + dec_str_of_i64(id) + "] "@
}

/// Whether some record in the table bears the id.
pub open spec fn has_id(s: Seq<TodoView>, id: int) -> bool {
    exists|i: int| 0 <= i < s.len() && #[trigger] s[i].id_todo == id
}

/// What an authorized operation does to the table and what it answers:
/// the relation between the table before (`pre`, watermark `pre_next`),
/// the caller (`uid`), the request, the table after, and the response.
pub open spec fn todo_request_outcome(
    pre: Seq<TodoView>,
    pre_next: int,
    uid: int,
    req: TodoRequest,
    post: Seq<TodoView>,
    post_next: int,
    status: int,
    body: Seq<char>,
) -> bool {
    match req {
        TodoRequest::List => {
            &&& post == pre
            &&& post_next == pre_next
            &&& status == 200
            &&& body == json_data_envelope(json_array_of_todos(pre))
        },
        TodoRequest::Get(id) => {
            &&& post == pre
            &&& post_next == pre_next
            &&& if has_id(pre, id as int) {
                &&& status == 200
                &&& exists|i: int|
                    0 <= i < pre.len() && #[trigger] pre[i].id_todo == id as int && body
                        == json_data_envelope(json_of_todo(pre[i]))
            } else {
                &&& status == 404
                &&& body == json_error_body(spec_not_found_message(id as int))
            }
        },
        TodoRequest::Create(patch) => {
            let t = TodoView {
                id_todo: pre_next,
                id_creator: uid,
                title: title_or_untitled(patch@.title),
                status: TodoStatus::Open,
            };
            &&& post == seq![t] + pre
            &&& post_next == pre_next + 1
            &&& status == 200
            &&& body == json_data_envelope(json_of_todo(t))
        },
        TodoRequest::Update(id, patch) => {
            &&& post_next == pre_next
            &&& if has_id(pre, id as int) {
                &&& status == 200
                &&& exists|i: int|
                    0 <= i < pre.len() && #[trigger] pre[i].id_todo == id as int && post
                        == pre.update(
                        i,
                        (TodoView {
                            id_todo: id as int,
                            id_creator: pre[i].id_creator,
                            title: title_or_untitled(patch@.title),
                            status: (match patch@.status {
                                Some(st) => st,
                                None => pre[i].status,
                            }),
                        }),
                    ) && body == json_data_envelope(json_of_todo(post[i]))
            } else {
                &&& post == pre
                &&& status == 404
                &&& body == json_error_body(spec_not_found_message(id as int))
            }
        },
        TodoRequest::Delete(id) => {
            &&& post_next == pre_next
            &&& if has_id(pre, id as int) {
                &&& status == 200
                &&& exists|i: int|
                    0 <= i < pre.len() && #[trigger] pre[i].id_todo == id as int && post
                        == pre.remove(i) && body == json_data_envelope(json_of_todo(pre[i]))
            } else {
                &&& post == pre
                &&& status == 404
                &&& body == json_error_body(spec_not_found_message(id as int))
            }
        },
    }
}

/// Handle one routed request. Without the auth header nothing touches
/// the store and the answer is 400; an unresolvable token likewise; an
/// authorized request performs its operation, answering 200 with the
/// `{"data": ...}` envelope or 404 with the not-found body — a missing
/// id is never a 500.
pub fn handle_todo_request(db: &mut Store, auth_header: Option<&str>, req: TodoRequest) -> (r:
    HttpResponse)
    requires
        old(db).wf(),
        req is Create ==> old(db).spec_next_id() < i64::MAX,
    ensures
        final(db).wf(),
        match auth_header {
            None => {
                &&& final(db)@ == old(db)@
                &&& final(db).spec_next_id() == old(db).spec_next_id()
                &&& r.status == 400
                &&& r.body@ == json_error_body(spec_missing_auth_message())
            },
            Some(tok) => {
                if is_i64_token(tok@) {
                    todo_request_outcome(
                        old(db)@,
                        old(db).spec_next_id(),
                        i64_token_val(tok@),
                        req,
                        final(db)@,
                        final(db).spec_next_id(),
                        r.status as int,
                        r.body@,
                    )
                } else {
                    &&& final(db)@ == old(db)@
                    &&& final(db).spec_next_id() == old(db).spec_next_id()
                    &&& r.status == 400
                    &&& r.body@ == json_error_body("Invalid Token "@ + tok@)
                }
            },
        },
{
    let token = match auth_header {
        None => {
            let body = error_body("Missing X-Auth-Token header");
            return HttpResponse { status: 400, body };
        },
        Some(t) => t,
    };
    let utx = match utx_from_token(db, token) {
        Ok(u) => u,
        Err(e) => {
            let status = status_for_auth_error(&e);
            let msg = e.message();
            let body = error_body(msg.as_str());
            return HttpResponse { status, body };
        },
    };
    match req {
        TodoRequest::List => {
            match TodoMac::list(db, &utx) {
                Ok(todos) => {
                    let payload = todos_json(&todos);
                    let body = data_envelope(payload.as_str());
                    HttpResponse { status: 200, body }
                },
                Err(e) => {
                    let status = status_for_error(&e);
                    let msg = e.message();
                    let body = error_body(msg.as_str());
                    HttpResponse { status, body }
                },
            }
        },
        TodoRequest::Get(id) => {
            match TodoMac::get(db, &utx, id) {
                Ok(t) => {
                    let payload = todo_json(&t);
                    let body = data_envelope(payload.as_str());
                    HttpResponse { status: 200, body }
                },
                Err(e) => {
                    let status = status_for_error(&e);
                    let msg = e.message();
                    let body = error_body(msg.as_str());
                    HttpResponse { status, body }
                },
            }
        },
        TodoRequest::Create(patch) => {
            match TodoMac::create(db, &utx, patch) {
                Ok(t) => {
                    let payload = todo_json(&t);
                    let body = data_envelope(payload.as_str());
                    HttpResponse { status: 200, body }
                },
                Err(e) => {
                    let status = status_for_error(&e);
                    let msg = e.message();
                    let body = error_body(msg.as_str());
                    HttpResponse { status, body }
                },
            }
        },
        TodoRequest::Update(id, patch) => {
            match TodoMac::update(db, &utx, id, patch) {
                Ok(t) => {
                    let payload = todo_json(&t);
                    let body = data_envelope(payload.as_str());
                    HttpResponse { status: 200, body }
                },
                Err(e) => {
                    let status = status_for_error(&e);
                    let msg = e.message();
                    let body = error_body(msg.as_str());
                    HttpResponse { status, body }
                },
            }
        },
        TodoRequest::Delete(id) => {
            match TodoMac::delete(db, &utx, id) {
                Ok(t) => {
                    let payload = todo_json(&t);
                    let body = data_envelope(payload.as_str());
                    HttpResponse { status: 200, body }
                },
                Err(e) => {
                    let status = status_for_error(&e);
                    let msg = e.message();
                    let body = error_body(msg.as_str());
                    HttpResponse { status, body }
                },
            }
        },
    }
}

} // verus!
