use backend::handlers::{
    add_user, begin_create_user, get_users, handle, health, not_found, user_response, users_response,
    CreateStep,
};
use backend::http::{route, Method, Route};
use backend::json::{user_json, users_json};
use backend::store::{StoreError, UserTable};
use backend::user::{NewUser, User};

fn new_user(name: &str) -> Option<NewUser> {
    Some(NewUser { name: name.to_string() })
}

#[test]
fn post_then_get_ada() {
    let mut table = UserTable::new();
    let created = handle(&mut table, Method::Post, "/api/users", new_user("Ada")).unwrap();
    assert_eq!(created.status, 200);
    assert_eq!(created.body, r#"{"id":1,"name":"Ada"}"#);
    let listed = handle(&mut table, Method::Get, "/api/users", None).unwrap();
    assert_eq!(listed.status, 200);
    assert_eq!(listed.body, r#"[{"id":1,"name":"Ada"}]"#);
}

#[test]
fn created_user_is_listed_with_positive_id() {
    let mut table = UserTable::new();
    let u = table.create_user("Grace".to_string()).unwrap();
    assert!(u.id > 0);
    assert_eq!(u.name, "Grace");
    let all = table.list_users();
    let matching: Vec<&User> = all.iter().filter(|x| x.id == u.id).collect();
    assert_eq!(matching.len(), 1);
    assert_eq!(matching[0].name, "Grace");
}

#[test]
fn same_name_twice_makes_two_records() {
    let mut table = UserTable::new();
    let a = table.create_user("Ada".to_string()).unwrap();
    let b = table.create_user("Ada".to_string()).unwrap();
    assert_eq!(a.id, 1);
    assert_eq!(b.id, 2);
    assert_eq!(table.list_users().len(), 2);
    assert_eq!(get_users(&table).body, r#"[{"id":1,"name":"Ada"},{"id":2,"name":"Ada"}]"#);
}

#[test]
fn empty_table_lists_empty_array() {
    let table = UserTable::new();
    assert!(table.list_users().is_empty());
    let r = get_users(&table);
    assert_eq!(r.status, 200);
    assert_eq!(r.body, "[]");
}

#[test]
fn missing_name_is_bad_request_and_creates_nothing() {
    let mut table = UserTable::new();
    table.create_user("Ada".to_string()).unwrap();
    let r = add_user(&mut table, None);
    assert_eq!(r.status, 400);
    assert_eq!(r.body, "");
    assert_eq!(table.list_users().len(), 1);
    let next = table.create_user("Bob".to_string()).unwrap();
    assert_eq!(next.id, 2);
}

#[test]
fn health_is_fixed_payload() {
    let r = health();
    assert_eq!(r.status, 200);
    assert_eq!(r.body, r#"{"status":"ok"}"#);
    let mut table = UserTable::new();
    let h = handle(&mut table, Method::Get, "/health", None).unwrap();
    assert_eq!(h.status, 200);
    assert_eq!(h.body, r#"{"status":"ok"}"#);
}

#[test]
fn unregistered_paths_go_to_static_files() {
    assert_eq!(route(Method::Get, "/health"), Route::Health);
    assert_eq!(route(Method::Get, "/api/users"), Route::ListUsers);
    assert_eq!(route(Method::Post, "/api/users"), Route::CreateUser);
    assert_eq!(route(Method::Get, "/"), Route::Static);
    assert_eq!(route(Method::Get, "/missing.html"), Route::Static);
    assert_eq!(route(Method::Post, "/health"), Route::Static);
    assert_eq!(route(Method::Get, "/api/users/"), Route::Static);
    assert_eq!(route(Method::Other, "/api/users"), Route::Static);
    let mut table = UserTable::new();
    assert!(handle(&mut table, Method::Get, "/nothing/here", None).is_none());
    assert!(handle(&mut table, Method::Post, "/api/user", new_user("Ada")).is_none());
    assert!(table.list_users().is_empty());
    let r = not_found();
    assert_eq!(r.status, 404);
    assert_eq!(r.body, "");
}

#[test]
fn names_are_escaped_as_json_strings() {
    let u = User { id: 7, name: "A\"b\\c\n".to_string() };
    assert_eq!(user_json(&u), r#"{"id":7,"name":"A\"b\\c\n"}"#);
    let plain = User { id: 3, name: "Ada".to_string() };
    assert_eq!(user_json(&plain), r#"{"id":3,"name":"Ada"}"#);
}

#[test]
fn ids_render_in_decimal() {
    let cases = [
        (0, "0"),
        (9, "9"),
        (10, "10"),
        (1234567, "1234567"),
        (-42, "-42"),
        (i32::MAX, "2147483647"),
        (i32::MIN, "-2147483648"),
    ];
    for (id, text) in cases {
        let u = User { id, name: String::new() };
        assert_eq!(user_json(&u), format!("{{\"id\":{},\"name\":\"\"}}", text));
    }
}

#[test]
fn user_arrays_join_with_commas() {
    assert_eq!(users_json(&Vec::new()), "[]");
    let users = vec![
        User { id: 1, name: "a".to_string() },
        User { id: 5, name: "b".to_string() },
        User { id: 9, name: "c".to_string() },
    ];
    assert_eq!(
        users_json(&users),
        r#"[{"id":1,"name":"a"},{"id":5,"name":"b"},{"id":9,"name":"c"}]"#
    );
}

#[test]
fn store_failures_become_server_errors() {
    let r = users_response(Err(StoreError::Unavailable));
    assert_eq!(r.status, 500);
    assert_eq!(r.body, "");
    let r = user_response(Err(StoreError::Rejected));
    assert_eq!(r.status, 500);
    let ok = user_response(Ok(User { id: 2, name: "Lin".to_string() }));
    assert_eq!(ok.status, 200);
    assert_eq!(ok.body, r#"{"id":2,"name":"Lin"}"#);
    let list = users_response(Ok(vec![User { id: 4, name: "Kay".to_string() }]));
    assert_eq!(list.body, r#"[{"id":4,"name":"Kay"}]"#);
}

#[test]
fn create_step_follows_the_body() {
    match begin_create_user(None) {
        CreateStep::Reply(r) => assert_eq!(r.status, 400),
        CreateStep::Insert(_) => panic!("an absent body must be rejected"),
    }
    match begin_create_user(new_user("Ada")) {
        CreateStep::Insert(name) => assert_eq!(name, "Ada"),
        CreateStep::Reply(_) => panic!("a named body must be inserted"),
    }
}
