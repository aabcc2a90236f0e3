use crate::error::{
    is_error, known_error, APIError, BAD_REQUEST, CODE_BAD_INPUT, CODE_SERVER, CODE_UNAUTHORIZED,
    INTERNAL_SERVER_ERROR, UNAUTHORIZED,
};
use crate::models::{Claims, UserRecord};
use crate::text::{lowercase_text, to_lowercase};
use vstd::prelude::*;

verus! {

/// The first check of a guarded request: it must carry a bearer token;
/// without one it is refused with "No Auth token found", 400 and code 40.
pub fn bearer_token(token: Option<String>) -> (r: Result<String, APIError>)
    ensures
        match token {
            None => r matches Err(e) && is_error(e, "No Auth token found"@, BAD_REQUEST, CODE_BAD_INPUT),
            Some(t) => r matches Ok(s) && s == t,
        },
        r matches Err(e) ==> known_error(e),
{
    match token {
        None => Err(APIError::bad_request(String::from_str("No Auth token found"))),
        Some(t) => Ok(t),
    }
}

/// The second check: the token must decode to claims; a token that does
/// not is refused with "Unauthorized", 401 and code 41.
pub fn token_claims<E>(decoded: Result<Claims, E>) -> (r: Result<Claims, APIError>)
    ensures
        match decoded {
            Err(_) => r matches Err(e) && is_error(e, "Unauthorized"@, UNAUTHORIZED, CODE_UNAUTHORIZED),
            Ok(c) => r matches Ok(d) && d == c,
        },
        r matches Err(e) ==> known_error(e),
{
    match decoded {
        Err(_) => Err(APIError::unauthorized(String::from_str("Unauthorized"))),
        Ok(c) => Ok(c),
    }
}

/// The third check: the request must come with a database connection;
/// without one it fails with "Could not connect to database", 500 and code 50.
pub fn require_database(connected: bool) -> (r: Result<(), APIError>)
    ensures
        connected ==> r is Ok,
        !connected ==> (r matches Err(e) && is_error(
            e,
            "Could not connect to database"@,
            INTERNAL_SERVER_ERROR,
            CODE_SERVER,
        )),
        r matches Err(e) ==> known_error(e),
{
    if connected {
        Ok(())
    } else {
        Err(APIError::server(String::from_str("Could not connect to database")))
    }
}

/// The email by which the caller is looked up: the claimed email in lower case.
pub fn identity_email(claims: &Claims) -> (r: String)
    ensures
        r@ == lowercase_text(claims.email@),
{
    to_lowercase(claims.email.as_str())
}

/// The last check: the user row found by that email is the caller's
/// identity; a failed lookup gives its message with 500 and code 50, and
/// no such user is refused with "Unauthorized", 401 and code 41.
pub fn identity(lookup: Result<Option<UserRecord>, String>) -> (r: Result<UserRecord, APIError>)
    ensures
        match lookup {
            Err(m) => r matches Err(e) && is_error(e, m@, INTERNAL_SERVER_ERROR, CODE_SERVER),
            Ok(None) => r matches Err(e) && is_error(e, "Unauthorized"@, UNAUTHORIZED, CODE_UNAUTHORIZED),
            Ok(Some(u)) => r == Ok::<UserRecord, APIError>(u),
        },
        r matches Err(e) ==> known_error(e),
{
    match lookup {
        Err(m) => Err(APIError::server(m)),
        Ok(None) => Err(APIError::unauthorized(String::from_str("Unauthorized"))),
        Ok(Some(u)) => Ok(u),
    }
}

/// How far a guarded request has got.
pub enum GuardState {
    /// Waiting for the request's bearer token, if it has one.
    AwaitToken,
    /// Waiting for the token's decoding.
    AwaitClaims,
    /// The token decoded to these claims; waiting to learn whether a
    /// database connection came with the request.
    AwaitConnection(Claims),
    /// Waiting for the lookup of the caller by email.
    AwaitIdentity,
    /// Finished: the next handler was let run, or the request was refused.
    Done,
}

/// What the surroundings report to the guard.
pub enum GuardEvent<E> {
    /// The request's bearer token, if it has one.
    Token(Option<String>),
    /// The token's decoding.
    Decoded(Result<Claims, E>),
    /// Whether a database connection came with the request.
    Connection(bool),
    /// The lookup of the caller by email.
    Lookup(Result<Option<UserRecord>, String>),
}

/// What the guard asks of its surroundings next.
pub enum GuardAction {
    /// Decode this token.
    Decode(String),
    /// Tell whether a database connection came with the request.
    CheckConnection,
    /// Look the caller up by this email.
    LookUp(String),
    /// Run the next handler with this identity.
    Run(UserRecord),
    /// Answer the request with this error; the next handler does not run.
    Refuse(APIError),
}

/// Whether an event is the one that a state waits for.
pub open spec fn event_fits<E>(state: GuardState, event: GuardEvent<E>) -> bool {
    match (state, event) {
        (GuardState::AwaitToken, GuardEvent::Token(_)) => true,
        (GuardState::AwaitClaims, GuardEvent::Decoded(_)) => true,
        (GuardState::AwaitConnection(_), GuardEvent::Connection(_)) => true,
        (GuardState::AwaitIdentity, GuardEvent::Lookup(_)) => true,
        _ => false,
    }
}

/// The state after an event: the next wait when the check passes, `Done`
/// when it fails, when the guard finishes, or when the event is not the
/// awaited one.
pub open spec fn guard_next<E>(state: GuardState, event: GuardEvent<E>) -> GuardState {
    match (state, event) {
        (GuardState::AwaitToken, GuardEvent::Token(Some(_))) => GuardState::AwaitClaims,
        (GuardState::AwaitClaims, GuardEvent::Decoded(Ok(c))) => GuardState::AwaitConnection(c),
        (GuardState::AwaitConnection(_), GuardEvent::Connection(true)) => GuardState::AwaitIdentity,
        _ => GuardState::Done,
    }
}

/// The identity with which the next handler runs after an event, if it runs:
/// only the lookup that the last wait expects, when it found a user.
pub open spec fn runs_next<E>(state: GuardState, event: GuardEvent<E>) -> Option<UserRecord> {
    match (state, event) {
        (GuardState::AwaitIdentity, GuardEvent::Lookup(Ok(Some(u)))) => Some(u),
        _ => None,
    }
}

/// One step of the guard in front of a handler: given the state and the
/// awaited event, the next state and what to do. The checks come in order:
/// a bearer token, its decoding, a database connection, and the caller's
/// row found by the lowercased claimed email; the first that fails refuses
/// the request with its error, and the next handler runs only after all pass.
pub fn guard_step<E>(state: GuardState, event: GuardEvent<E>) -> (r: (GuardState, GuardAction))
    requires
        event_fits(state, event),
    ensures
        r.0 == guard_next(state, event),
        match r.1 {
            GuardAction::Run(u) => runs_next(state, event) == Some(u),
            _ => runs_next(state, event) is None,
        },
        r.1 matches GuardAction::Refuse(e) ==> known_error(e) && r.0 is Done,
        match (state, event) {
            (GuardState::AwaitToken, GuardEvent::Token(None)) => r.1 matches GuardAction::Refuse(e)
                && is_error(e, "No Auth token found"@, BAD_REQUEST, CODE_BAD_INPUT),
            (GuardState::AwaitToken, GuardEvent::Token(Some(t))) => r.1 == GuardAction::Decode(t),
            (GuardState::AwaitClaims, GuardEvent::Decoded(Err(_))) => r.1 matches GuardAction::Refuse(e)
                && is_error(e, "Unauthorized"@, UNAUTHORIZED, CODE_UNAUTHORIZED),
            (GuardState::AwaitClaims, GuardEvent::Decoded(Ok(_))) => r.1 is CheckConnection,
            (GuardState::AwaitConnection(_), GuardEvent::Connection(false)) => r.1 matches GuardAction::Refuse(e)
                && is_error(e, "Could not connect to database"@, INTERNAL_SERVER_ERROR, CODE_SERVER),
            (GuardState::AwaitConnection(c), GuardEvent::Connection(true)) => r.1 matches GuardAction::LookUp(k)
                && k@ == lowercase_text(c.email@),
            (GuardState::AwaitIdentity, GuardEvent::Lookup(Err(m))) => r.1 matches GuardAction::Refuse(e)
                && is_error(e, m@, INTERNAL_SERVER_ERROR, CODE_SERVER),
            (GuardState::AwaitIdentity, GuardEvent::Lookup(Ok(None))) => r.1 matches GuardAction::Refuse(e)
                && is_error(e, "Unauthorized"@, UNAUTHORIZED, CODE_UNAUTHORIZED),
            (GuardState::AwaitIdentity, GuardEvent::Lookup(Ok(Some(u)))) => r.1 == GuardAction::Run(u),
            _ => false,
        },
{
    match (state, event) {
        (GuardState::AwaitToken, GuardEvent::Token(token)) => match bearer_token(token) {
            Ok(t) => (GuardState::AwaitClaims, GuardAction::Decode(t)),
            Err(e) => (GuardState::Done, GuardAction::Refuse(e)),
        },
        (GuardState::AwaitClaims, GuardEvent::Decoded(decoded)) => match token_claims(decoded) {
            Ok(c) => (GuardState::AwaitConnection(c), GuardAction::CheckConnection),
            Err(e) => (GuardState::Done, GuardAction::Refuse(e)),
        },
        (GuardState::AwaitConnection(c), GuardEvent::Connection(connected)) => match require_database(connected) {
            Ok(()) => {
                let email = identity_email(&c);
                (GuardState::AwaitIdentity, GuardAction::LookUp(email))
            },
            Err(e) => (GuardState::Done, GuardAction::Refuse(e)),
        },
        (GuardState::AwaitIdentity, GuardEvent::Lookup(lookup)) => match identity(lookup) {
            Ok(u) => (GuardState::Done, GuardAction::Run(u)),
            Err(e) => (GuardState::Done, GuardAction::Refuse(e)),
        },
        _ => (GuardState::Done, GuardAction::CheckConnection),
    }
}

/// The guard lets the next handler run, and then only once, exactly when
/// the request carries a bearer token, the token decodes, a database
/// connection came with it, and the lookup found the caller; it runs with
/// the row found. No earlier step lets it run, and nothing after `Done` does.
pub proof fn guard_runs_next_only_after_every_check<E>(
    token: Option<String>,
    decoded: Result<Claims, E>,
    connected: bool,
    lookup: Result<Option<UserRecord>, String>,
    later: GuardEvent<E>,
)
    ensures
        ({
            let s1 = guard_next(GuardState::AwaitToken, GuardEvent::<E>::Token(token));
            let s2 = guard_next(s1, GuardEvent::<E>::Decoded(decoded));
            let s3 = guard_next(s2, GuardEvent::<E>::Connection(connected));
            let s4 = guard_next(s3, GuardEvent::<E>::Lookup(lookup));
            &&& runs_next(GuardState::AwaitToken, GuardEvent::<E>::Token(token)) is None
            &&& runs_next(s1, GuardEvent::<E>::Decoded(decoded)) is None
            &&& runs_next(s2, GuardEvent::<E>::Connection(connected)) is None
            &&& (runs_next(s3, GuardEvent::<E>::Lookup(lookup)) is Some <==> (token is Some && decoded is Ok
                && connected && lookup matches Ok(Some(_))))
            &&& (runs_next(s3, GuardEvent::<E>::Lookup(lookup)) is Some ==> Ok::<Option<UserRecord>, String>(
                runs_next(s3, GuardEvent::<E>::Lookup(lookup))) == lookup)
            &&& s4 is Done
            &&& runs_next(s4, later) is None
        }),
{
}

} // verus!
