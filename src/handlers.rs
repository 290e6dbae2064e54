use vstd::prelude::*;
use crate::blobs::{download_file, upload_file, BlobCommand, BlobCommandView};
use crate::models::{CreateUser, User};
use crate::store::{views, StoreError};

verus! {

pub const OK: u16 = 200;
pub const CREATED: u16 = 201;
pub const NO_CONTENT: u16 = 204;
pub const UNAUTHORIZED: u16 = 401;
pub const NOT_FOUND: u16 = 404;
pub const INTERNAL_SERVER_ERROR: u16 = 500;

pub const HEALTH_TEXT: &'static str = "All systems operational!";
pub const UPLOADED_TEXT: &'static str = "File uploaded!";
pub const USER_NOT_FOUND: &'static str = "User not found";
pub const LIST_FAILED: &'static str = "Failed to list users";
pub const RETRIEVE_FAILED: &'static str = "Failed to retrieve user";
pub const STORE_FAILED: &'static str = "Failed to store user";
pub const DELETE_FAILED: &'static str = "Failed to delete user";
pub const DOWNLOAD_FAILED: &'static str = "Failed to download file";
pub const UPLOAD_FAILED: &'static str = "Failed to upload file";

/// The name of the blob that the upload and download routes use.
pub const HELLO_BLOB: &'static str = "/hello.txt";

/// The kind of an error response.
#[derive(PartialEq, Eq, Structural, Clone, Copy, Debug)]
pub enum ErrorKind {
    NotFound,
    Internal,
}

/// An error response body: its kind and a message for the caller.
pub struct ApiError {
    pub kind: ErrorKind,
    pub message: String,
}

/// A response body, before it is put on the wire.
pub enum Body {
    Text(String),
    One(User),
    Many(Vec<User>),
    Error(ApiError),
    Bytes(Vec<u8>),
    Empty,
}

pub struct Response {
    pub status: u16,
    pub body: Body,
}

/// The response is an error of this kind and message.
pub open spec fn is_error(r: Response, status: u16, kind: ErrorKind, message: Seq<char>) -> bool {
    &&& r.status == status
    &&& r.body is Error
    &&& r.body->Error_0.kind == kind
    &&& r.body->Error_0.message@ == message
}

/// The response carries this text.
pub open spec fn is_text(r: Response, status: u16, text: Seq<char>) -> bool {
    r.status == status && r.body is Text && r.body->Text_0@ == text
}

fn error_response(status: u16, kind: ErrorKind, message: &str) -> (r: Response)
    ensures
        is_error(r, status, kind, message@),
{
    Response { status, body: Body::Error(ApiError { kind, message: message.to_string() }) }
}

fn text_response(status: u16, text: &str) -> (r: Response)
    ensures
        is_text(r, status, text@),
{
    Response { status, body: Body::Text(text.to_string()) }
}

/// Relies on uuid::Uuid::new_v4 for a random version-4 identifier and on its
/// `Display` impl, which writes the hyphenated form: 36 characters.
#[verifier::external_body]
fn fresh_user_id() -> (r: String)
    ensures
        r@.len() == 36,
{
    uuid::Uuid::new_v4().to_string()
}

/// The response of the health route.
pub fn health_handler() -> (r: Response)
    ensures
        is_text(r, OK, HEALTH_TEXT@),
{
    text_response(OK, HEALTH_TEXT)
}

/// The response of the list route, from the outcome of listing.
pub fn list_users_handler(outcome: Result<Vec<User>, StoreError>) -> (r: Response)
    ensures
        match outcome {
            Ok(users) => r.status == OK && r.body is Many && views(r.body->Many_0@) == views(users@),
            Err(_) => is_error(r, INTERNAL_SERVER_ERROR, ErrorKind::Internal, LIST_FAILED@),
        },
{
    match outcome {
        Ok(users) => Response { status: OK, body: Body::Many(users) },
        Err(_) => error_response(INTERNAL_SERVER_ERROR, ErrorKind::Internal, LIST_FAILED),
    }
}

/// The response of the retrieve route, from the outcome of the lookup.
pub fn retrieve_user_handler(outcome: Result<Option<User>, StoreError>) -> (r: Response)
    ensures
        match outcome {
            Ok(Some(u)) => r.status == OK && r.body is One && r.body->One_0@ == u@,
            Ok(None) => is_error(r, NOT_FOUND, ErrorKind::NotFound, USER_NOT_FOUND@),
            Err(_) => is_error(r, INTERNAL_SERVER_ERROR, ErrorKind::Internal, RETRIEVE_FAILED@),
        },
{
    match outcome {
        Ok(Some(u)) => Response { status: OK, body: Body::One(u) },
        Ok(None) => error_response(NOT_FOUND, ErrorKind::NotFound, USER_NOT_FOUND),
        Err(_) => error_response(INTERNAL_SERVER_ERROR, ErrorKind::Internal, RETRIEVE_FAILED),
    }
}

/// The user that a create request makes: a fresh id of its own and the
/// requested name.
pub fn new_user(payload: CreateUser) -> (r: User)
    ensures
        r.username@ == payload.username@,
        r.id@.len() == 36,
{
    User { id: fresh_user_id(), username: payload.username }
}

/// The response of the create route, from the outcome of storing `user`.
/// A failed store is never reported as a success.
pub fn create_user_handler(user: User, stored: Result<(), StoreError>) -> (r: Response)
    ensures
        match stored {
            Ok(_) => r.status == CREATED && r.body is One && r.body->One_0@ == user@,
            Err(_) => is_error(r, INTERNAL_SERVER_ERROR, ErrorKind::Internal, STORE_FAILED@),
        },
{
    match stored {
        Ok(()) => Response { status: CREATED, body: Body::One(user) },
        Err(_) => error_response(INTERNAL_SERVER_ERROR, ErrorKind::Internal, STORE_FAILED),
    }
}

/// The response of the delete route, from the outcome of the removal.
pub fn delete_user_handler(outcome: Result<(), StoreError>) -> (r: Response)
    ensures
        match outcome {
            Ok(_) => r.status == NO_CONTENT && r.body is Empty,
            Err(_) => is_error(r, INTERNAL_SERVER_ERROR, ErrorKind::Internal, DELETE_FAILED@),
        },
{
    match outcome {
        Ok(()) => Response { status: NO_CONTENT, body: Body::Empty },
        Err(_) => error_response(INTERNAL_SERVER_ERROR, ErrorKind::Internal, DELETE_FAILED),
    }
}

/// The text `Hello, world!` and a newline, as bytes.
pub open spec fn hello_bytes() -> Seq<u8> {
    seq![72u8, 101, 108, 108, 111, 44, 32, 119, 111, 114, 108, 100, 33, 10]
}

/// The bytes that the upload route writes.
pub fn hello_content() -> (r: Vec<u8>)
    ensures
        r@ == hello_bytes(),
{
    vec![72u8, 101, 108, 108, 111, 44, 32, 119, 111, 114, 108, 100, 33, 10]
}

/// The command that the upload route sends to the object store.
pub fn upload_command() -> (r: BlobCommand)
    ensures
        r@ == BlobCommandView::Put(HELLO_BLOB@, hello_bytes()),
{
    let content = hello_content();
    upload_file(HELLO_BLOB, content.as_slice())
}

/// The command that the download route sends to the object store.
pub fn download_command() -> (r: BlobCommand)
    ensures
        r@ == BlobCommandView::Get(HELLO_BLOB@),
{
    download_file(HELLO_BLOB)
}

/// The response of the download route, from the outcome of the read.
pub fn download_file_handler(outcome: Result<Vec<u8>, StoreError>) -> (r: Response)
    ensures
        match outcome {
            Ok(bytes) => r.status == OK && r.body is Bytes && r.body->Bytes_0@ == bytes@,
            Err(_) => is_error(r, INTERNAL_SERVER_ERROR, ErrorKind::Internal, DOWNLOAD_FAILED@),
        },
{
    match outcome {
        Ok(bytes) => Response { status: OK, body: Body::Bytes(bytes) },
        Err(_) => error_response(INTERNAL_SERVER_ERROR, ErrorKind::Internal, DOWNLOAD_FAILED),
    }
}

/// The response of the upload route, from the outcome of the write.
pub fn upload_file_handler(outcome: Result<(), StoreError>) -> (r: Response)
    ensures
        match outcome {
            Ok(_) => is_text(r, CREATED, UPLOADED_TEXT@),
            Err(_) => is_error(r, INTERNAL_SERVER_ERROR, ErrorKind::Internal, UPLOAD_FAILED@),
        },
{
    match outcome {
        Ok(()) => text_response(CREATED, UPLOADED_TEXT),
        Err(_) => error_response(INTERNAL_SERVER_ERROR, ErrorKind::Internal, UPLOAD_FAILED),
    }
}

/// The response to a request that a gated route refused.
pub fn unauthorized_response() -> (r: Response)
    ensures
        r.status == UNAUTHORIZED && r.body is Empty,
{
    Response { status: UNAUTHORIZED, body: Body::Empty }
}

/// The response to a request that no route matched.
pub fn no_route_response() -> (r: Response)
    ensures
        r.status == NOT_FOUND && r.body is Empty,
{
    Response { status: NOT_FOUND, body: Body::Empty }
}

} // verus!
