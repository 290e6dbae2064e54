use user_service::auth::{auth, get_token, starts_with, str_equal, token_is_valid};
use user_service::blobs::{download_file, upload_file, BlobCommand};
use user_service::handlers::{
    create_user_handler, delete_user_handler, download_command, download_file_handler,
    health_handler, hello_content, list_users_handler, new_user, no_route_response,
    retrieve_user_handler, unauthorized_response, upload_command, upload_file_handler, Body,
    ErrorKind, Response,
};
use user_service::models::{Config, CreateUser, User};
use user_service::routes::{dispatch, match_route, requires_auth, Dispatch, Method, Route};
use user_service::store::{
    delete_user, list_outcome, list_users, retrieve_outcome, retrieve_user, store_user,
    EntityCommand, Record, StoreError,
};

fn config() -> Config {
    Config { auth_token: "s3cret".to_string() }
}

fn user(id: &str, name: &str) -> User {
    User { id: id.to_string(), username: name.to_string() }
}

fn error_of(r: &Response) -> (ErrorKind, String) {
    match &r.body {
        Body::Error(e) => (e.kind, e.message.clone()),
        _ => panic!("not an error body"),
    }
}

#[test]
fn token_is_taken_after_bearer_prefix() {
    assert_eq!(get_token(Some("Bearer abc")), Some("abc"));
    assert_eq!(get_token(Some("Bearer ")), Some(""));
    assert_eq!(get_token(Some("bearer abc")), None);
    assert_eq!(get_token(Some("Bearerabc")), None);
    assert_eq!(get_token(Some("Basic abc")), None);
    assert_eq!(get_token(None), None);
}

#[test]
fn token_must_match_exactly() {
    let c = config();
    assert!(token_is_valid("s3cret", &c));
    assert!(!token_is_valid("s3cre", &c));
    assert!(!token_is_valid("s3cret ", &c));
    assert!(!token_is_valid("S3cret", &c));
    assert!(!token_is_valid("", &c));
}

#[test]
fn string_helpers() {
    assert!(str_equal("", ""));
    assert!(str_equal("héllo", "héllo"));
    assert!(!str_equal("abc", "abd"));
    assert!(starts_with("/users/7", "/users/"));
    assert!(!starts_with("/user", "/users/"));
}

#[test]
fn auth_filter_outcomes() {
    let c = config();
    assert_eq!(auth(Some("Bearer s3cret"), &c), Ok(()));
    assert_eq!(auth(None, &c), Err(401));
    assert_eq!(auth(Some("s3cret"), &c), Err(401));
    assert_eq!(auth(Some("Bearer  s3cret"), &c), Err(401));
    assert_eq!(auth(Some("Bearer wrong"), &c), Err(401));
}

#[test]
fn route_table_matches() {
    assert!(matches!(match_route(Method::Get, "/health"), Some(Route::Health)));
    assert!(matches!(match_route(Method::Get, "/users"), Some(Route::ListUsers)));
    assert!(matches!(match_route(Method::Post, "/users"), Some(Route::CreateUser)));
    assert!(matches!(match_route(Method::Get, "/users/42"), Some(Route::RetrieveUser(id)) if id == "42"));
    assert!(matches!(match_route(Method::Delete, "/users/42"), Some(Route::DeleteUser(id)) if id == "42"));
    assert!(matches!(match_route(Method::Get, "/download"), Some(Route::Download)));
    assert!(matches!(match_route(Method::Post, "/upload"), Some(Route::Upload)));
    assert!(match_route(Method::Post, "/health").is_none());
    assert!(match_route(Method::Delete, "/users").is_none());
    assert!(match_route(Method::Get, "/users/").is_none());
    assert!(match_route(Method::Get, "/users/a/b").is_none());
    assert!(match_route(Method::Other, "/users/a").is_none());
    assert!(match_route(Method::Get, "/nowhere").is_none());
}

#[test]
fn gated_routes_are_the_writes() {
    assert!(!requires_auth(&Route::Health));
    assert!(!requires_auth(&Route::ListUsers));
    assert!(!requires_auth(&Route::RetrieveUser("1".to_string())));
    assert!(requires_auth(&Route::CreateUser));
    assert!(requires_auth(&Route::DeleteUser("1".to_string())));
    assert!(!requires_auth(&Route::Download));
    assert!(requires_auth(&Route::Upload));
}

#[test]
fn gated_route_refuses_bad_headers() {
    let c = config();
    let gated = [(Method::Post, "/users"), (Method::Delete, "/users/9"), (Method::Post, "/upload")];
    let mut handled = 0;
    for (m, p) in gated {
        for h in [None, Some("s3cret"), Some("Token s3cret"), Some("Bearer nope"), Some("Bearer s3cret2")] {
            match dispatch(m, p, h, &c) {
                Dispatch::Unauthorized => {}
                Dispatch::Handle(_) => handled += 1,
                Dispatch::NoRoute => panic!("route expected"),
            }
        }
    }
    assert_eq!(handled, 0);
}

#[test]
fn gated_route_admits_exact_token() {
    let c = config();
    assert!(matches!(dispatch(Method::Post, "/users", Some("Bearer s3cret"), &c), Dispatch::Handle(Route::CreateUser)));
    assert!(matches!(dispatch(Method::Post, "/upload", Some("Bearer s3cret"), &c), Dispatch::Handle(Route::Upload)));
    assert!(matches!(
        dispatch(Method::Delete, "/users/9", Some("Bearer s3cret"), &c),
        Dispatch::Handle(Route::DeleteUser(id)) if id == "9"
    ));
}

#[test]
fn open_routes_need_no_header() {
    let c = config();
    assert!(matches!(dispatch(Method::Get, "/health", None, &c), Dispatch::Handle(Route::Health)));
    assert!(matches!(dispatch(Method::Get, "/users", Some("junk"), &c), Dispatch::Handle(Route::ListUsers)));
    assert!(matches!(dispatch(Method::Get, "/download", None, &c), Dispatch::Handle(Route::Download)));
    assert!(matches!(dispatch(Method::Get, "/missing", None, &c), Dispatch::NoRoute));
}

#[test]
fn store_commands_address_the_id() {
    assert!(matches!(list_users(), EntityCommand::ListAll));
    assert!(matches!(retrieve_user("a".to_string()), EntityCommand::Fetch(id) if id == "a"));
    assert!(matches!(delete_user("b".to_string()), EntityCommand::Remove(id) if id == "b"));
    match store_user(&user("c", "carol")) {
        EntityCommand::Put(u) => {
            assert_eq!(u.id, "c");
            assert_eq!(u.username, "carol");
        }
        _ => panic!("put expected"),
    }
}

#[test]
fn list_outcome_decodes_in_order() {
    let recs = vec![Record::Valid(user("1", "ann")), Record::Valid(user("2", "bob"))];
    let users = list_outcome(Ok(recs)).ok().unwrap();
    assert_eq!(users.len(), 2);
    assert_eq!(users[0].username, "ann");
    assert_eq!(users[1].id, "2");
    assert_eq!(list_outcome(Ok(vec![])).ok().unwrap().len(), 0);
}

#[test]
fn list_outcome_fails_on_corrupt_record() {
    let recs = vec![Record::Valid(user("1", "ann")), Record::Corrupt];
    assert!(matches!(list_outcome(Ok(recs)), Err(StoreError::Unavailable)));
    assert!(matches!(list_outcome(Err(StoreError::Unavailable)), Err(StoreError::Unavailable)));
}

#[test]
fn retrieve_outcome_keeps_absence_apart_from_failure() {
    assert!(matches!(retrieve_outcome(Ok(None)), Ok(None)));
    assert!(matches!(retrieve_outcome(Ok(Some(Record::Valid(user("1", "ann"))))), Ok(Some(u)) if u.username == "ann"));
    assert!(matches!(retrieve_outcome(Ok(Some(Record::Corrupt))), Err(StoreError::Unavailable)));
    assert!(matches!(retrieve_outcome(Err(StoreError::Unavailable)), Err(StoreError::Unavailable)));
}

#[test]
fn health_responds_fixed_text() {
    let r = health_handler();
    assert_eq!(r.status, 200);
    assert!(matches!(r.body, Body::Text(t) if t == "All systems operational!"));
}

#[test]
fn list_handler_statuses() {
    let r = list_users_handler(Ok(vec![user("1", "ann")]));
    assert_eq!(r.status, 200);
    assert!(matches!(r.body, Body::Many(v) if v.len() == 1 && v[0].username == "ann"));
    let r = list_users_handler(Err(StoreError::Unavailable));
    assert_eq!(r.status, 500);
    assert_eq!(error_of(&r), (ErrorKind::Internal, "Failed to list users".to_string()));
}

#[test]
fn retrieve_handler_statuses() {
    let r = retrieve_user_handler(Ok(Some(user("1", "ann"))));
    assert_eq!(r.status, 200);
    let r = retrieve_user_handler(Ok(None));
    assert_eq!(r.status, 404);
    assert_eq!(error_of(&r), (ErrorKind::NotFound, "User not found".to_string()));
    let r = retrieve_user_handler(Err(StoreError::Unavailable));
    assert_eq!(r.status, 500);
    assert_eq!(error_of(&r), (ErrorKind::Internal, "Failed to retrieve user".to_string()));
}

#[test]
fn new_user_gets_fresh_id() {
    let a = new_user(CreateUser { username: "alice".to_string() });
    let b = new_user(CreateUser { username: "alice".to_string() });
    assert_eq!(a.username, "alice");
    assert_eq!(a.id.len(), 36);
    assert!(!a.id.is_empty());
    assert_ne!(a.id, b.id);
    assert_eq!(a.id.matches('-').count(), 4);
}

#[test]
fn create_handler_statuses() {
    let r = create_user_handler(user("1", "ann"), Ok(()));
    assert_eq!(r.status, 201);
    assert!(matches!(r.body, Body::One(u) if u.id == "1" && u.username == "ann"));
    let r = create_user_handler(user("1", "ann"), Err(StoreError::Unavailable));
    assert_eq!(r.status, 500);
    assert_eq!(error_of(&r), (ErrorKind::Internal, "Failed to store user".to_string()));
}

#[test]
fn delete_handler_statuses() {
    let r = delete_user_handler(Ok(()));
    assert_eq!(r.status, 204);
    assert!(matches!(r.body, Body::Empty));
    let r = delete_user_handler(Err(StoreError::Unavailable));
    assert_eq!(r.status, 500);
    assert_eq!(error_of(&r), (ErrorKind::Internal, "Failed to delete user".to_string()));
}

#[test]
fn blob_commands_and_handlers() {
    assert!(matches!(upload_file("/a", &[1, 2, 3]), BlobCommand::Put(n, b) if n == "/a" && b == vec![1, 2, 3]));
    assert!(matches!(download_file("/a"), BlobCommand::Get(n) if n == "/a"));
    assert_eq!(hello_content(), b"Hello, world!\n".to_vec());
    assert!(matches!(upload_command(), BlobCommand::Put(n, b) if n == "/hello.txt" && b == b"Hello, world!\n".to_vec()));
    assert!(matches!(download_command(), BlobCommand::Get(n) if n == "/hello.txt"));
    let r = download_file_handler(Ok(vec![9, 8]));
    assert_eq!(r.status, 200);
    assert!(matches!(r.body, Body::Bytes(b) if b == vec![9, 8]));
    assert_eq!(download_file_handler(Err(StoreError::Unavailable)).status, 500);
    let r = upload_file_handler(Ok(()));
    assert_eq!(r.status, 201);
    assert!(matches!(r.body, Body::Text(t) if t == "File uploaded!"));
    let r = upload_file_handler(Err(StoreError::Unavailable));
    assert_eq!(error_of(&r), (ErrorKind::Internal, "Failed to upload file".to_string()));
}

#[test]
fn refusal_responses() {
    assert_eq!(unauthorized_response().status, 401);
    assert_eq!(no_route_response().status, 404);
}

#[test]
fn create_retrieve_delete_scenario() {
    let c = config();
    let auth = Some("Bearer s3cret");
    assert!(matches!(dispatch(Method::Post, "/users", auth, &c), Dispatch::Handle(Route::CreateUser)));
    let u = new_user(CreateUser { username: "alice".to_string() });
    let id = u.id.clone();
    let stored = store_user(&u);
    let created = create_user_handler(u, Ok(()));
    assert_eq!(created.status, 201);
    assert!(matches!(&created.body, Body::One(x) if x.id == id && x.username == "alice"));

    let path = format!("/users/{}", id);
    let looked_up = match dispatch(Method::Get, &path, None, &c) {
        Dispatch::Handle(Route::RetrieveUser(x)) => x,
        _ => panic!("retrieve route expected"),
    };
    assert_eq!(looked_up, id);
    let stored_user = match stored {
        EntityCommand::Put(x) => x,
        _ => panic!("put expected"),
    };
    let r = retrieve_user_handler(retrieve_outcome(Ok(Some(Record::Valid(stored_user)))));
    assert_eq!(r.status, 200);
    assert!(matches!(&r.body, Body::One(x) if x.id == id && x.username == "alice"));

    assert!(matches!(dispatch(Method::Delete, &path, auth, &c), Dispatch::Handle(Route::DeleteUser(x)) if x == id));
    assert_eq!(delete_user_handler(Ok(())).status, 204);

    let r = retrieve_user_handler(retrieve_outcome(Ok(None)));
    assert_eq!(r.status, 404);
    assert_eq!(error_of(&r), (ErrorKind::NotFound, "User not found".to_string()));
}
