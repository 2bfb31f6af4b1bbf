use vstd::prelude::*;

use crate::http::{
    BAD_REQUEST, INTERNAL_ERROR, Method, NOT_FOUND, OK, Response, Route, route, route_of,
};
use crate::json::{list_text, user_json, user_text, users_json};
use crate::store::{MAX_ID, StoreError, UserTable};
use crate::user::{NewUser, User, rows_of};

verus! {

/// The body of every health response.
pub open spec fn health_text() -> Seq<char> {
    "{\"status\":\"ok\"}"@
}

/// What the create-user handler owes for a decoded body.
pub enum CreateStep {
    /// Insert a user with this name, then answer with `user_response`.
    Insert(String),
    /// Answer at once with this response; the store is not touched.
    Reply(Response),
}

/// The response to a body that is absent or has no `name` text.
pub open spec fn is_bad_request(r: Response) -> bool {
    r.status == BAD_REQUEST && r.body@ == Seq::<char>::empty()
}

/// The response to a failed store operation.
pub open spec fn is_store_failure(r: Response) -> bool {
    r.status == INTERNAL_ERROR && r.body@ == Seq::<char>::empty()
}

/// What the create-user handler does to the table and answers, given the
/// decoded body (`None` when it is absent or malformed).
pub open spec fn add_user_done(
    before: UserTable,
    after: UserTable,
    body: Option<NewUser>,
    r: Response,
) -> bool {
    match body {
        None => is_bad_request(r) && after == before,
        Some(u) => {
            let id = before.last_id() + 1;
            if before.last_id() < MAX_ID {
                &&& r.status == OK
                &&& r.body@ == user_text((id, u.name@))
                &&& after.view() == before.view().push((id, u.name@))
                &&& after.last_id() == id
            } else {
                is_store_failure(r) && after.view() == before.view() && after.last_id()
                    == before.last_id()
            }
        },
    }
}

/// The health check: always the same status payload; the store is not used.
pub fn health() -> (r: Response)
    ensures
        r.status == OK,
        r.body@ == health_text(),
{
    Response { status: OK, body: String::from_str("{\"status\":\"ok\"}") }
}

/// The response to a request that neither a handler nor a static file serves.
pub fn not_found() -> (r: Response)
    ensures
        r.status == NOT_FOUND,
        r.body@ == Seq::<char>::empty(),
{
    Response { status: NOT_FOUND, body: String::new() }
}

/// The response to a listing of the users, or to its failure.
pub fn users_response(result: Result<Vec<User>, StoreError>) -> (r: Response)
    ensures
        match result {
            Ok(users) => r.status == OK && r.body@ == list_text(rows_of(users@)),
            Err(_) => is_store_failure(r),
        },
{
    match result {
        Ok(users) => Response { status: OK, body: users_json(&users) },
        Err(_) => Response { status: INTERNAL_ERROR, body: String::new() },
    }
}

/// The response to the insertion of a user, or to its failure.
pub fn user_response(result: Result<User, StoreError>) -> (r: Response)
    ensures
        match result {
            Ok(user) => r.status == OK && r.body@ == user_text(user.row()),
            Err(_) => is_store_failure(r),
        },
{
    match result {
        Ok(user) => Response { status: OK, body: user_json(&user) },
        Err(_) => Response { status: INTERNAL_ERROR, body: String::new() },
    }
}

/// The first step of a create-user request: reject a body that is absent or
/// malformed (`None`), else name the user to insert.
pub fn begin_create_user(body: Option<NewUser>) -> (r: CreateStep)
    ensures
        match body {
            None => r matches CreateStep::Reply(resp) && is_bad_request(resp),
            Some(u) => r matches CreateStep::Insert(name) && name@ == u.name@,
        },
{
    match body {
        None => CreateStep::Reply(Response { status: BAD_REQUEST, body: String::new() }),
        Some(u) => CreateStep::Insert(u.name),
    }
}

/// Lists every user of the table as a JSON array.
pub fn get_users(table: &UserTable) -> (r: Response)
    ensures
        r.status == OK,
        r.body@ == list_text(table.view()),
{
    let users = table.list_users();
    users_response(Ok(users))
}

/// Creates a user from the decoded body (`None` when it is absent or
/// malformed) and answers with the stored record.
pub fn add_user(table: &mut UserTable, body: Option<NewUser>) -> (r: Response)
    requires
        old(table).wf(),
    ensures
        final(table).wf(),
        add_user_done(*old(table), *final(table), body, r),
{
    match begin_create_user(body) {
        CreateStep::Reply(resp) => resp,
        CreateStep::Insert(name) => {
            let result = table.create_user(name);
            user_response(result)
        },
    }
}

/// Serves one request against the table. `None` means that no handler
/// matches, and the request goes to the static files.
pub fn handle(table: &mut UserTable, method: Method, path: &str, body: Option<NewUser>) -> (r:
    Option<Response>)
    requires
        old(table).wf(),
    ensures
        final(table).wf(),
        match route_of(method, path@) {
            Route::Health => r matches Some(resp) && resp.status == OK && resp.body@
                == health_text() && *final(table) == *old(table),
            Route::ListUsers => r matches Some(resp) && resp.status == OK && resp.body@
                == list_text(old(table).view()) && *final(table) == *old(table),
            Route::CreateUser => r matches Some(resp) && add_user_done(
                *old(table),
                *final(table),
                body,
                resp,
            ),
            Route::Static => r is None && *final(table) == *old(table),
        },
{
    match route(method, path) {
        Route::Health => Some(health()),
        Route::ListUsers => Some(get_users(table)),
        Route::CreateUser => Some(add_user(table, body)),
        Route::Static => None,
    }
}

} // verus!
