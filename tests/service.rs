use user_service::{
    echo, hello, manual_hello, on_insert, on_lease, Body, LeaseStep, Method, NewUser, Reply,
    Route, User, BIND_PORT, STATUS_OK, STATUS_SERVER_ERROR,
};

fn text_reply(status: u16, text: &str) -> Reply {
    Reply { status, body: Body::Text(text.to_string()) }
}

fn alice() -> NewUser {
    NewUser { name: "Alice".to_string(), email: "a@example.com".to_string() }
}

#[test]
fn root_greets_hello_world() {
    assert_eq!(hello(), text_reply(200, "Hello world!"));
}

#[test]
fn root_greets_the_same_on_every_call() {
    for _ in 0..100 {
        assert_eq!(hello(), text_reply(STATUS_OK, "Hello world!"));
    }
}

#[test]
fn hey_greets_hey_there() {
    assert_eq!(manual_hello(), text_reply(200, "Hey there!"));
}

#[test]
fn echo_returns_abc() {
    assert_eq!(echo("abc".to_string()), text_reply(200, "abc"));
}

#[test]
fn echo_keeps_empty_and_unicode_bodies() {
    assert_eq!(echo(String::new()), text_reply(200, ""));
    assert_eq!(echo("h\u{e9}llo \u{1F600}\n".to_string()), text_reply(200, "h\u{e9}llo \u{1F600}\n"));
}

#[test]
fn leased_connection_inserts_the_payload() {
    assert_eq!(on_lease(alice(), true), LeaseStep::Insert(alice()));
}

#[test]
fn failed_lease_answers_connection_error() {
    assert_eq!(
        on_lease(alice(), false),
        LeaseStep::Respond(text_reply(500, "Database connection error"))
    );
}

#[test]
fn inserted_row_is_returned() {
    let row = User { id: 1, name: "Alice".to_string(), email: "a@example.com".to_string() };
    let reply = on_insert(Some(row));
    assert_eq!(reply.status, 200);
    match reply.body {
        Body::Json(u) => {
            assert!(u.id > 0);
            assert_eq!(u.name, "Alice");
            assert_eq!(u.email, "a@example.com");
        }
        Body::Text(t) => panic!("expected a user, got text {}", t),
    }
}

#[test]
fn failed_insert_answers_generic_error() {
    assert_eq!(on_insert(None), text_reply(STATUS_SERVER_ERROR, "Could not create user"));
}

#[test]
fn create_user_runs_lease_then_insert() {
    let payload = alice();
    let inserted = match on_lease(payload, true) {
        LeaseStep::Insert(p) => User { id: 7, name: p.name, email: p.email },
        LeaseStep::Respond(r) => panic!("unexpected reply {:?}", r),
    };
    let expected = User { id: 7, name: "Alice".to_string(), email: "a@example.com".to_string() };
    assert_eq!(on_insert(Some(inserted)), Reply { status: 200, body: Body::Json(expected) });
}

#[test]
fn route_table_matches_the_service() {
    assert_eq!(Route::Hello.path(), "/");
    assert_eq!(Route::Hello.method(), Method::Get);
    assert_eq!(Route::Hey.path(), "/hey");
    assert_eq!(Route::Hey.method(), Method::Get);
    assert_eq!(Route::Echo.path(), "/echo");
    assert_eq!(Route::Echo.method(), Method::Post);
    assert_eq!(Route::CreateUser.path(), "/user");
    assert_eq!(Route::CreateUser.method(), Method::Post);
    assert_eq!(BIND_PORT, 8080);
}
