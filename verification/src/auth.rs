use crate::error::{
    is_error, known_error, APIError, CODE_BAD_INPUT, CODE_SERVER, CODE_UNAUTHORIZED, CONFLICT,
    INTERNAL_SERVER_ERROR, UNAUTHORIZED,
};
use crate::ids::{is_random_uuid, new_uuid_v4, utc_now};
use crate::models::{LoginResponse, NewUser, Timestamp, User, UserCreateModel, UserRecord};
use crate::text::{debug_string, debug_text};
use vstd::prelude::*;

verus! {

/// The message that refuses a registration: `User {:?} exists`, with the
/// debug text of the existing user's name.
pub open spec fn user_exists_message(name: Seq<char>) -> Seq<char> {
    "User "@ + debug_text(name) + " exists"@
}

/// Decides, from the lookup of the requested email, whether a registration
/// may go on: a failed lookup gives its message with 500 and code 50; an
/// existing user with that email refuses it with `User {:?} exists`, 500
/// and code 50; only when no user has the email may the new row be written.
pub fn check_email_free(lookup: Result<Option<UserRecord>, String>) -> (r: Result<(), APIError>)
    ensures
        match lookup {
            Err(m) => r matches Err(e) && is_error(e, m@, INTERNAL_SERVER_ERROR, CODE_SERVER),
            Ok(Some(u)) => r matches Err(e) && is_error(
                e,
                user_exists_message(u.name@),
                INTERNAL_SERVER_ERROR,
                CODE_SERVER,
            ),
            Ok(None) => r is Ok,
        },
        r matches Err(e) ==> known_error(e),
{
    match lookup {
        Err(m) => Err(APIError::server(m)),
        Ok(Some(existing)) => {
            let mut message = String::from_str("User ");
            let quoted = debug_string(existing.name.as_str());
            message.append(quoted.as_str());
            message.append(" exists");
            Err(APIError::server(message))
        },
        Ok(None) => Ok(()),
    }
}

/// The row that a registration writes, given its UUID and creation time.
pub open spec fn new_user_row(data: UserCreateModel, uuid: u128, created_at: Timestamp) -> NewUser {
    NewUser { name: data.name, email: data.email, password: data.password, uuid, created_at }
}

/// The row that a registration writes: the requested name, email and
/// password, with the given UUID and creation time.
pub fn new_user_from(data: UserCreateModel, uuid: u128, created_at: Timestamp) -> (r: NewUser)
    ensures
        r == new_user_row(data, uuid, created_at),
{
    NewUser { name: data.name, email: data.email, password: data.password, uuid, created_at }
}

/// The row that a registration writes, with a fresh random UUID and the
/// current time.
pub fn new_user(data: UserCreateModel) -> (r: NewUser)
    ensures
        r == new_user_row(data, r.uuid, r.created_at),
        is_random_uuid(r.uuid),
        r.created_at.secs >= 0,
        r.created_at.nanos < 1_000_000_000,
{
    let uuid = new_uuid_v4();
    let created_at = utc_now().time();
    new_user_from(data, uuid, created_at)
}

/// The user that a written row shows.
pub open spec fn user_of_new(n: NewUser) -> User {
    User { name: n.name, email: n.email, password: n.password, uuid: n.uuid, created_at: n.created_at }
}

/// The answer to a registration once the insert ran: a refused insert gives
/// its message with 409 and code 40; otherwise exactly the row written.
pub fn registered_user(insert: Result<(), String>, new_user: NewUser) -> (r: Result<User, APIError>)
    ensures
        match insert {
            Err(m) => r matches Err(e) && is_error(e, m@, CONFLICT, CODE_BAD_INPUT),
            Ok(()) => r == Ok::<User, APIError>(user_of_new(new_user)),
        },
        r matches Err(e) ==> known_error(e),
{
    match insert {
        Err(m) => Err(APIError::conflict(m)),
        Ok(()) => Ok(
            User {
                name: new_user.name,
                email: new_user.email,
                password: new_user.password,
                uuid: new_user.uuid,
                created_at: new_user.created_at,
            },
        ),
    }
}

/// The answer to a login once a token was asked for the found user: a token
/// that could not be made gives "login failed" with 401 and code 41;
/// otherwise the token.
pub fn login_response<E>(token: Result<String, E>) -> (r: Result<LoginResponse, APIError>)
    ensures
        match token {
            Err(_) => r matches Err(e) && is_error(e, "login failed"@, UNAUTHORIZED, CODE_UNAUTHORIZED),
            Ok(t) => r matches Ok(resp) && resp.token == t,
        },
        r matches Err(e) ==> known_error(e),
{
    match token {
        Err(_) => Err(APIError::unauthorized(String::from_str("login failed"))),
        Ok(t) => Ok(LoginResponse { token: t }),
    }
}

} // verus!
