use crate::error::{
    is_error, known_error, APIError, CODE_NOT_FOUND, CODE_SERVER, INTERNAL_SERVER_ERROR, NOT_FOUND,
};
use crate::models::{user_of_record, User, UserRecord, UserUpdateModel};
use vstd::prelude::*;

verus! {

/// The user row that a lookup found, or the error the service answers:
/// a failed lookup gives its message with 500 and code 50; no row gives
/// "User not Found" with 404 and code 44. Registration excepted, every
/// handler that looks a user up (login, update, delete) answers so.
pub fn found_user(lookup: Result<Option<UserRecord>, String>) -> (r: Result<UserRecord, APIError>)
    ensures
        match lookup {
            Err(m) => r matches Err(e) && is_error(e, m@, INTERNAL_SERVER_ERROR, CODE_SERVER),
            Ok(None) => r matches Err(e) && is_error(e, "User not Found"@, NOT_FOUND, CODE_NOT_FOUND),
            Ok(Some(u)) => r == Ok::<UserRecord, APIError>(u),
        },
        r matches Err(e) ==> known_error(e),
{
    match lookup {
        Err(m) => Err(APIError::server(m)),
        Ok(None) => Err(APIError::not_found(String::from_str("User not Found"))),
        Ok(Some(u)) => Ok(u),
    }
}

/// The stored row with the name that an update request carries.
pub open spec fn renamed_record(user: UserRecord, data: UserUpdateModel) -> UserRecord {
    UserRecord { name: data.name, ..user }
}

/// The row to write back for an update: the found row with its name
/// replaced; every other column is kept.
pub fn renamed(user: UserRecord, data: UserUpdateModel) -> (r: UserRecord)
    ensures
        r == renamed_record(user, data),
{
    UserRecord { name: data.name, ..user }
}

/// The answer to an update once the write is done: a failed write gives
/// its message with 500 and code 50; otherwise the user that the written
/// row shows.
pub fn updated_user(update: Result<(), String>, user: UserRecord) -> (r: Result<User, APIError>)
    ensures
        match update {
            Err(m) => r matches Err(e) && is_error(e, m@, INTERNAL_SERVER_ERROR, CODE_SERVER),
            Ok(()) => r == Ok::<User, APIError>(user_of_record(user)),
        },
        r matches Err(e) ==> known_error(e),
{
    match update {
        Err(m) => Err(APIError::server(m)),
        Ok(()) => Ok(User::from_record(user)),
    }
}

/// The answer to a delete once the row's deletion ran: a failure gives its
/// message with 500 and code 50; otherwise an empty success.
pub fn deleted_user(exec: Result<(), String>) -> (r: Result<(), APIError>)
    ensures
        match exec {
            Err(m) => r matches Err(e) && is_error(e, m@, INTERNAL_SERVER_ERROR, CODE_SERVER),
            Ok(()) => r is Ok,
        },
        r matches Err(e) ==> known_error(e),
{
    match exec {
        Err(m) => Err(APIError::server(m)),
        Ok(()) => Ok(()),
    }
}

fn user_of(r: &UserRecord) -> (u: User)
    ensures
        u == user_of_record(*r),
{
    User {
        name: r.name.clone(),
        email: r.email.clone(),
        password: r.password.clone(),
        uuid: r.uuid,
        created_at: r.created_at,
    }
}

/// The answer to a listing: a failed read gives its message with 500 and
/// code 50; otherwise every stored user, in the order read, each without
/// its id.
pub fn users_response(all: Result<Vec<UserRecord>, String>) -> (r: Result<Vec<User>, APIError>)
    ensures
        match all {
            Err(m) => r matches Err(e) && is_error(e, m@, INTERNAL_SERVER_ERROR, CODE_SERVER),
            Ok(rows) => r matches Ok(users) && users@ == rows@.map_values(|row: UserRecord| user_of_record(row)),
        },
        r matches Err(e) ==> known_error(e),
{
    match all {
        Err(m) => Err(APIError::server(m)),
        Ok(rows) => {
            let mut users: Vec<User> = Vec::new();
            let n = rows.len();
            for i in 0..n
                invariant
                    n == rows@.len(),
                    users@ == rows@.take(i as int).map_values(|row: UserRecord| user_of_record(row)),
            {
                users.push(user_of(&rows[i]));
                assert(rows@.take(i + 1) =~= rows@.take(i as int).push(rows@[i as int]));
            }
            assert(rows@.take(n as int) =~= rows@);
            Ok(users)
        },
    }
}

} // verus!
