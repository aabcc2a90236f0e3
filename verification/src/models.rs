use vstd::prelude::*;

verus! {

/// A point in time: seconds since the UNIX epoch and the nanoseconds past
/// that second (up to 1,999,999,999 during a leap second).
#[derive(Debug, Clone, Copy, PartialEq, Eq)]
pub struct Timestamp {
    pub secs: i64,
    pub nanos: u32,
}

/// A user as the service answers it. A UUID is held as its 128-bit value.
#[derive(Debug, Clone)]
pub struct User {
    pub name: String,
    pub email: String,
    pub password: String,
    pub uuid: u128,
    pub created_at: Timestamp,
}

/// The body of a registration request.
#[derive(Debug, Clone)]
pub struct UserCreateModel {
    pub name: String,
    pub email: String,
    pub password: String,
}

/// The body of a login request.
#[derive(Debug, Clone)]
pub struct UserLoginModel {
    pub email: String,
    pub password: String,
}

/// The body of a user update request: the new name.
#[derive(Debug, Clone)]
pub struct UserUpdateModel {
    pub name: String,
}

/// The answer to a successful login.
#[derive(Debug, Clone)]
pub struct LoginResponse {
    pub token: String,
}

/// The author of a post, as a post shows it.
#[derive(Debug, Clone)]
pub struct UserRelationModel {
    pub name: String,
    pub email: String,
    pub uuid: u128,
}

/// A post as the service answers it.
#[derive(Debug, Clone)]
pub struct Post {
    pub uuid: u128,
    pub text: String,
    pub image: String,
    pub title: String,
    pub user: Option<UserRelationModel>,
}

/// The body of a request that adds a post.
#[derive(Debug, Clone)]
pub struct PostCreateModel {
    pub text: String,
    pub image: String,
    pub title: String,
}

/// A stored user row.
#[derive(Debug, Clone)]
pub struct UserRecord {
    pub id: i32,
    pub name: String,
    pub email: String,
    pub password: String,
    pub uuid: u128,
    pub created_at: Timestamp,
}

/// A stored post row; `user_id` is the id of its author's row.
#[derive(Debug, Clone)]
pub struct PostRecord {
    pub id: i32,
    pub uuid: u128,
    pub title: String,
    pub text: String,
    pub image: String,
    pub user_id: i32,
    pub created_at: Timestamp,
}

/// A user row to insert: every column but the id, which the database picks.
#[derive(Debug, Clone)]
pub struct NewUser {
    pub name: String,
    pub email: String,
    pub password: String,
    pub uuid: u128,
    pub created_at: Timestamp,
}

/// A post row to insert: every column but the id, which the database picks.
#[derive(Debug, Clone)]
pub struct NewPost {
    pub uuid: u128,
    pub title: String,
    pub text: String,
    pub image: String,
    pub user_id: i32,
    pub created_at: Timestamp,
}

/// The claims that an authorization token carries.
#[derive(Debug, Clone)]
pub struct Claims {
    pub email: String,
}

/// The user that a stored row shows: every column but the id.
pub open spec fn user_of_record(r: UserRecord) -> User {
    User { name: r.name, email: r.email, password: r.password, uuid: r.uuid, created_at: r.created_at }
}

/// The author that a stored user row shows.
pub open spec fn relation_of_record(r: UserRecord) -> UserRelationModel {
    UserRelationModel { name: r.name, email: r.email, uuid: r.uuid }
}

impl User {
    /// The user that a stored row shows: its columns but the id.
    pub fn from_record(r: UserRecord) -> (u: User)
        ensures
            u == user_of_record(r),
    {
        User { name: r.name, email: r.email, password: r.password, uuid: r.uuid, created_at: r.created_at }
    }
}

impl UserRelationModel {
    /// The author that a stored user row shows: its name, email and UUID.
    pub fn from_record(r: UserRecord) -> (m: UserRelationModel)
        ensures
            m == relation_of_record(r),
    {
        UserRelationModel { name: r.name, email: r.email, uuid: r.uuid }
    }
}

impl Post {
    /// A post and its author, as a joined lookup gives them, turned into
    /// the post the service answers. The author must be present.
    pub fn from(value: (PostRecord, Option<UserRecord>)) -> (p: Post)
        requires
            value.1 is Some,
        ensures
            p.uuid == value.0.uuid,
            p.text == value.0.text,
            p.image == value.0.image,
            p.title == value.0.title,
            p.user == Some(relation_of_record(value.1->0)),
    {
        let (post, user) = value;
        let user_model = user.unwrap();
        Post {
            uuid: post.uuid,
            text: post.text,
            image: post.image,
            title: post.title,
            user: Some(UserRelationModel::from_record(user_model)),
        }
    }
}

} // verus!
