use crate::auth::{new_user_row, user_of_new};
use crate::ids::{is_random_uuid, random_uuid_is_not_nil};
use crate::models::{
    user_of_record, NewPost, NewUser, PostCreateModel, Timestamp, User, UserCreateModel, UserRecord,
    UserUpdateModel,
};
use crate::posts::{added_post_answer, new_post_row, upload_path_text, UploadTarget};
use crate::text::{decimal, decimal_injective};
use crate::users::renamed_record;
use vstd::prelude::*;

verus! {

/// A registration answers exactly what the request asked for: the user it
/// writes and answers has the requested name, email and password, with the
/// UUID and time the row was given.
pub proof fn registration_answers_request(data: UserCreateModel, uuid: u128, created_at: Timestamp)
    ensures
        user_of_new(new_user_row(data, uuid, created_at)) == (User {
            name: data.name,
            email: data.email,
            password: data.password,
            uuid,
            created_at,
        }),
{
}

/// A registered user's UUID, as made for the row, is never the nil UUID.
pub proof fn registered_uuid_not_nil(data: UserCreateModel, uuid: u128, created_at: Timestamp)
    requires
        is_random_uuid(uuid),
    ensures
        user_of_new(new_user_row(data, uuid, created_at)).uuid != 0,
{
    random_uuid_is_not_nil(uuid);
}

/// An update changes only the name: the answered user is the stored one
/// with the requested name, every other field as it was.
pub proof fn update_changes_only_name(user: UserRecord, data: UserUpdateModel)
    ensures
        user_of_record(renamed_record(user, data)) == (User { name: data.name, ..user_of_record(user) }),
        renamed_record(user, data).id == user.id,
{
}

/// The answer to adding a post carries the nil UUID, never the random UUID
/// that the written row got; its title, text and image are the requested ones.
pub proof fn added_post_answer_hides_stored_uuid(
    data: PostCreateModel,
    author: UserRecord,
    uuid: u128,
    created_at: Timestamp,
)
    requires
        is_random_uuid(uuid),
    ensures
        added_post_answer(new_post_row(data, author, uuid, created_at), author).uuid != new_post_row(
            data,
            author,
            uuid,
            created_at,
        ).uuid,
        added_post_answer(new_post_row(data, author, uuid, created_at), author).title == data.title,
        added_post_answer(new_post_row(data, author, uuid, created_at), author).text == data.text,
        added_post_answer(new_post_row(data, author, uuid, created_at), author).image == data.image,
{
    random_uuid_is_not_nil(uuid);
}

/// Uploads made at different seconds are stored at different paths.
pub proof fn upload_paths_distinct(a: int, b: int)
    requires
        a != b,
    ensures
        upload_path_text(a) != upload_path_text(b),
{
    let p = "./public/uploads/"@;
    let s = ".png"@;
    if upload_path_text(a) == upload_path_text(b) {
        let x = upload_path_text(a);
        let y = upload_path_text(b);
        assert(x.len() == y.len());
        assert(decimal(a) =~= x.subrange(p.len() as int, x.len() - s.len()));
        assert(decimal(b) =~= y.subrange(p.len() as int, y.len() - s.len()));
        decimal_injective(a, b);
    }
}

/// The row that adding a post writes holds the request's title in its title
/// column, its text in its text column and its image in its image column; it
/// is owned by the author's row and carries the UUID and time it was given.
pub proof fn added_post_row_holds_request(
    data: PostCreateModel,
    author: UserRecord,
    uuid: u128,
    created_at: Timestamp,
)
    ensures
        ({
            let row: NewPost = new_post_row(data, author, uuid, created_at);
            &&& row.title == data.title
            &&& row.text == data.text
            &&& row.image == data.image
            &&& row.user_id == author.id
            &&& row.uuid == uuid
            &&& row.created_at == created_at
        }),
{
}

/// The answer to adding a post shows the written row's own title, text and
/// image, each in its own field, and the author's name, email and UUID.
pub proof fn added_post_answer_shows_row(post: NewPost, author: UserRecord)
    ensures
        added_post_answer(post, author).title == post.title,
        added_post_answer(post, author).text == post.text,
        added_post_answer(post, author).image == post.image,
        added_post_answer(post, author).user matches Some(u) && u.name == author.name && u.email
            == author.email && u.uuid == author.uuid,
{
}

/// The row that a registration writes holds the requested name, email and
/// password, each in its own column, with the UUID and time it was given.
pub proof fn registered_row_holds_request(data: UserCreateModel, uuid: u128, created_at: Timestamp)
    ensures
        ({
            let row: NewUser = new_user_row(data, uuid, created_at);
            &&& row.name == data.name
            &&& row.email == data.email
            &&& row.password == data.password
            &&& row.uuid == uuid
            &&& row.created_at == created_at
        }),
{
}

/// Upload targets made at clock readings of different seconds name
/// different files, so an upload does not overwrite the file of an upload
/// made in another second.
pub proof fn uploads_at_different_seconds_use_different_files(a: UploadTarget, b: UploadTarget)
    requires
        a.timestamp == a.reading.at().secs,
        a.path@ == upload_path_text(a.timestamp as int),
        b.timestamp == b.reading.at().secs,
        b.path@ == upload_path_text(b.timestamp as int),
        a.reading.at().secs != b.reading.at().secs,
    ensures
        a.path@ != b.path@,
{
    upload_paths_distinct(a.timestamp as int, b.timestamp as int);
}

} // verus!
