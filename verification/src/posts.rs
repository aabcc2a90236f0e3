use crate::error::{
    is_error, known_error, APIError, CODE_NOT_FOUND, CODE_SERVER, INTERNAL_SERVER_ERROR, NOT_FOUND,
};
use crate::ids::{is_random_uuid, new_uuid_v4, utc_now, ClockReading, NIL_UUID};
use crate::models::{
    relation_of_record, NewPost, Post, PostCreateModel, PostRecord, Timestamp, UserRecord,
    UserRelationModel,
};
use crate::text::{decimal, push_decimal};
use vstd::prelude::*;

verus! {

/// The row that adding a post writes, given its UUID and creation time.
pub open spec fn new_post_row(
    data: PostCreateModel,
    author: UserRecord,
    uuid: u128,
    created_at: Timestamp,
) -> NewPost {
    NewPost {
        uuid,
        title: data.title,
        text: data.text,
        image: data.image,
        user_id: author.id,
        created_at,
    }
}

/// The row that adding a post writes: the requested title, text and image,
/// owned by the author's row, with the given UUID and creation time.
pub fn new_post_from(data: PostCreateModel, author: &UserRecord, uuid: u128, created_at: Timestamp) -> (r:
    NewPost)
    ensures
        r == new_post_row(data, *author, uuid, created_at),
{
    NewPost {
        uuid,
        title: data.title,
        text: data.text,
        image: data.image,
        user_id: author.id,
        created_at,
    }
}

/// The row that adding a post writes, with a fresh random UUID and the
/// current time.
pub fn new_post(data: PostCreateModel, author: &UserRecord) -> (r: NewPost)
    ensures
        r == new_post_row(data, *author, r.uuid, r.created_at),
        is_random_uuid(r.uuid),
        r.created_at.secs >= 0,
        r.created_at.nanos < 1_000_000_000,
{
    let uuid = new_uuid_v4();
    let created_at = utc_now().time();
    new_post_from(data, author, uuid, created_at)
}

/// The post that answers a successful add: the written title, text and
/// image, the author's name, email and UUID, and the nil UUID (the answer
/// leaves the post's own UUID at its default).
pub open spec fn added_post_answer(post: NewPost, author: UserRecord) -> Post {
    Post {
        uuid: NIL_UUID,
        text: post.text,
        image: post.image,
        title: post.title,
        user: Some(relation_of_record(author)),
    }
}

/// The answer to adding a post once the insert ran: any failure gives
/// "Failed to create Post" with 500 and code 50; otherwise
/// `added_post_answer`.
pub fn added_post<E>(insert: Result<(), E>, post: NewPost, author: UserRecord) -> (r: Result<Post, APIError>)
    ensures
        match insert {
            Err(_) => r matches Err(e) && is_error(e, "Failed to create Post"@, INTERNAL_SERVER_ERROR, CODE_SERVER),
            Ok(()) => r == Ok::<Post, APIError>(added_post_answer(post, author)),
        },
        r matches Err(e) ==> known_error(e),
{
    match insert {
        Err(_) => Err(APIError::server(String::from_str("Failed to create Post"))),
        Ok(()) => Ok(
            Post {
                uuid: NIL_UUID,
                text: post.text,
                image: post.image,
                title: post.title,
                user: Some(UserRelationModel::from_record(author)),
            },
        ),
    }
}

/// The post that a lookup by UUID found, or the error the service answers:
/// a failed lookup gives "Failed to create Post" with 500 and code 50; no
/// post gives "Post not Found" with 404 and code 44.
pub fn found_post<T, E>(lookup: Result<Option<T>, E>) -> (r: Result<T, APIError>)
    ensures
        match lookup {
            Err(_) => r matches Err(e) && is_error(e, "Failed to create Post"@, INTERNAL_SERVER_ERROR, CODE_SERVER),
            Ok(None) => r matches Err(e) && is_error(e, "Post not Found"@, NOT_FOUND, CODE_NOT_FOUND),
            Ok(Some(p)) => r matches Ok(q) && q == p,
        },
        r matches Err(e) ==> known_error(e),
{
    match lookup {
        Err(_) => Err(APIError::server(String::from_str("Failed to create Post"))),
        Ok(None) => Err(APIError::not_found(String::from_str("Post not Found"))),
        Ok(Some(p)) => Ok(p),
    }
}

/// Whether an upload form field carries the image: its name is `image`.
pub fn is_image_field(name: &str) -> (r: bool)
    ensures
        r == (name@ == "image"@),
{
    let field = String::from_str(name);
    let image = String::from_str("image");
    field == image
}

/// The line that an upload logs for a field that is not the image:
/// `field: <name>, \tvalue: <value>`.
pub open spec fn field_log_line_text(name: Seq<char>, value: Seq<char>) -> Seq<char> {
    "field: "@ + name + ", \tvalue: "@ + value
}

/// The line that an upload logs for a field that is not the image.
pub fn field_log_line(name: &str, value: &str) -> (r: String)
    ensures
        r@ == field_log_line_text(name@, value@),
{
    let mut line = String::from_str("field: ");
    line.append(name);
    line.append(", \tvalue: ");
    line.append(value);
    line
}

/// The path an uploaded image is stored at, named by a UNIX timestamp:
/// `./public/uploads/<timestamp>.png`.
pub open spec fn upload_path_text(timestamp: int) -> Seq<char> {
    "./public/uploads/"@ + decimal(timestamp) + ".png"@
}

/// The path an uploaded image is stored at, named by a UNIX timestamp.
pub fn upload_path(timestamp: i64) -> (r: String)
    ensures
        r@ == upload_path_text(timestamp as int),
{
    let mut path = String::from_str("./public/uploads/");
    push_decimal(&mut path, timestamp);
    path.append(".png");
    path
}

/// Where an upload stores its image: the time in seconds and the path
/// named by it.
pub struct UploadTarget {
    pub timestamp: i64,
    pub path: String,
    /// The clock reading the target was made at.
    pub reading: ClockReading,
}

/// The target of an upload made now: the seconds of the clock reading taken
/// at the call, and the path named by them.
pub fn upload_target() -> (r: UploadTarget)
    ensures
        r.timestamp == r.reading.at().secs,
        r.path@ == upload_path_text(r.reading.at().secs as int),
        r.timestamp >= 0,
{
    let now = utc_now();
    let secs = now.time().secs;
    let path = upload_path(secs);
    UploadTarget { timestamp: secs, path, reading: now }
}

/// The post row to write back after an upload: the found row with the
/// stored image's path; every other column is kept.
pub fn with_image(post: PostRecord, path: String) -> (r: PostRecord)
    ensures
        r == (PostRecord { image: path, ..post }),
{
    PostRecord { image: path, ..post }
}

} // verus!
