use vstd::prelude::*;

verus! {

/// HTTP status: 400 Bad Request.
pub const BAD_REQUEST: u16 = 400;
/// HTTP status: 401 Unauthorized.
pub const UNAUTHORIZED: u16 = 401;
/// HTTP status: 404 Not Found.
pub const NOT_FOUND: u16 = 404;
/// HTTP status: 409 Conflict.
pub const CONFLICT: u16 = 409;
/// HTTP status: 500 Internal Server Error.
pub const INTERNAL_SERVER_ERROR: u16 = 500;

/// Error code sent with a failed database operation or a missing connection.
pub const CODE_SERVER: u8 = 50;
/// Error code sent when a looked-up user or post does not exist.
pub const CODE_NOT_FOUND: u8 = 44;
/// Error code sent when a caller is not authorized.
pub const CODE_UNAUTHORIZED: u8 = 41;
/// Error code sent for a bad request: a missing token, or a refused insert.
pub const CODE_BAD_INPUT: u8 = 40;

/// The error a handler answers with: a message, an HTTP status and an
/// application error code.
#[derive(Debug, Clone)]
pub struct APIError {
    pub message: String,
    pub status_code: u16,
    pub error_code: Option<u8>,
}

/// An error whose fields are the given message, status and code.
pub open spec fn is_error(e: APIError, message: Seq<char>, status: u16, code: u8) -> bool {
    &&& e.message@ == message
    &&& e.status_code == status
    &&& e.error_code == Some(code)
}

/// The (status, code) pairs that the service answers with.
pub open spec fn known_error(e: APIError) -> bool {
    ||| e.status_code == INTERNAL_SERVER_ERROR && e.error_code == Some(CODE_SERVER)
    ||| e.status_code == NOT_FOUND && e.error_code == Some(CODE_NOT_FOUND)
    ||| e.status_code == UNAUTHORIZED && e.error_code == Some(CODE_UNAUTHORIZED)
    ||| e.status_code == CONFLICT && e.error_code == Some(CODE_BAD_INPUT)
    ||| e.status_code == BAD_REQUEST && e.error_code == Some(CODE_BAD_INPUT)
}

impl APIError {
    /// A failed database operation: its message, 500, code 50.
    pub fn server(message: String) -> (e: APIError)
        ensures
            is_error(e, message@, INTERNAL_SERVER_ERROR, CODE_SERVER),
            e.message == message,
    {
        APIError { message, status_code: INTERNAL_SERVER_ERROR, error_code: Some(CODE_SERVER) }
    }

    /// A user or post that does not exist: the message, 404, code 44.
    pub fn not_found(message: String) -> (e: APIError)
        ensures
            is_error(e, message@, NOT_FOUND, CODE_NOT_FOUND),
    {
        APIError { message, status_code: NOT_FOUND, error_code: Some(CODE_NOT_FOUND) }
    }

    /// A caller that is not authorized: the message, 401, code 41.
    pub fn unauthorized(message: String) -> (e: APIError)
        ensures
            is_error(e, message@, UNAUTHORIZED, CODE_UNAUTHORIZED),
    {
        APIError { message, status_code: UNAUTHORIZED, error_code: Some(CODE_UNAUTHORIZED) }
    }

    /// An insert that the database refused: its message, 409, code 40.
    pub fn conflict(message: String) -> (e: APIError)
        ensures
            is_error(e, message@, CONFLICT, CODE_BAD_INPUT),
            e.message == message,
    {
        APIError { message, status_code: CONFLICT, error_code: Some(CODE_BAD_INPUT) }
    }

    /// A request that lacks what it must carry: the message, 400, code 40.
    pub fn bad_request(message: String) -> (e: APIError)
        ensures
            is_error(e, message@, BAD_REQUEST, CODE_BAD_INPUT),
    {
        APIError { message, status_code: BAD_REQUEST, error_code: Some(CODE_BAD_INPUT) }
    }
}

} // verus!
