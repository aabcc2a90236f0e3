use blog_api::guard::{guard_step, GuardAction, GuardEvent, GuardState};
use blog_api::auth::{check_email_free, login_response, new_user, new_user_from, registered_user};
use blog_api::error::APIError;
use blog_api::guard::{bearer_token, identity, identity_email, require_database, token_claims};
use blog_api::models::{
    Claims, NewUser, Post, PostCreateModel, PostRecord, Timestamp, UserCreateModel, UserRecord,
    UserUpdateModel,
};
use blog_api::posts::{
    added_post, field_log_line, found_post, is_image_field, new_post, new_post_from, upload_path,
    upload_target, with_image,
};
use blog_api::text::push_decimal;
use blog_api::users::{deleted_user, found_user, renamed, updated_user, users_response};

fn at(secs: i64) -> Timestamp {
    Timestamp { secs, nanos: 5 }
}

fn alice() -> UserRecord {
    UserRecord {
        id: 7,
        name: "alice".to_string(),
        email: "alice@example.com".to_string(),
        password: "pw".to_string(),
        uuid: 0x1234,
        created_at: at(100),
    }
}

fn assert_error(e: APIError, message: &str, status: u16, code: u8) {
    assert_eq!(e.message, message);
    assert_eq!(e.status_code, status);
    assert_eq!(e.error_code, Some(code));
}

fn is_v4(u: u128) -> bool {
    (u >> 76) & 0xf == 4 && (u >> 62) & 0x3 == 2
}

#[test]
fn registration_refused_when_email_taken() {
    let e = check_email_free(Ok(Some(alice()))).unwrap_err();
    assert_error(e, "User \"alice\" exists", 500, 50);
}

#[test]
fn registration_name_is_debug_escaped() {
    let mut u = alice();
    u.name = "a\"b".to_string();
    let e = check_email_free(Ok(Some(u))).unwrap_err();
    assert_eq!(e.message, "User \"a\\\"b\" exists");
}

#[test]
fn registration_lookup_failure() {
    let e = check_email_free(Err("db down".to_string())).unwrap_err();
    assert_error(e, "db down", 500, 50);
}

#[test]
fn registration_goes_on_when_email_free() {
    assert!(check_email_free(Ok(None)).is_ok());
}

fn create_model() -> UserCreateModel {
    UserCreateModel { name: "bob".to_string(), email: "bob@x.io".to_string(), password: "s3cret".to_string() }
}

#[test]
fn registration_writes_requested_fields() {
    let row = new_user_from(create_model(), 99, at(5));
    assert_eq!(row.name, "bob");
    assert_eq!(row.email, "bob@x.io");
    assert_eq!(row.password, "s3cret");
    assert_eq!(row.uuid, 99);
    assert_eq!(row.created_at, at(5));
}

#[test]
fn registration_row_gets_random_v4_uuid() {
    let a = new_user(create_model());
    let b = new_user(create_model());
    assert!(is_v4(a.uuid));
    assert!(is_v4(b.uuid));
    assert_ne!(a.uuid, 0);
    assert_ne!(a.uuid, b.uuid);
    assert!(a.created_at.nanos < 1_000_000_000);
    assert!(a.created_at.secs > 1_600_000_000);
}

#[test]
fn registration_answers_written_row() {
    let row = NewUser {
        name: "bob".to_string(),
        email: "bob@x.io".to_string(),
        password: "s3cret".to_string(),
        uuid: 42,
        created_at: at(9),
    };
    let user = registered_user(Ok(()), row).unwrap();
    assert_eq!(user.name, "bob");
    assert_eq!(user.email, "bob@x.io");
    assert_eq!(user.password, "s3cret");
    assert_eq!(user.uuid, 42);
    assert_eq!(user.created_at, at(9));
}

#[test]
fn registration_insert_conflict() {
    let row = new_user_from(create_model(), 1, at(1));
    let e = registered_user(Err("duplicate key".to_string()), row).unwrap_err();
    assert_error(e, "duplicate key", 409, 40);
}

#[test]
fn login_user_not_found() {
    let e = found_user(Ok(None)).unwrap_err();
    assert_error(e, "User not Found", 404, 44);
}

#[test]
fn login_lookup_failure() {
    let e = found_user(Err("timeout".to_string())).unwrap_err();
    assert_error(e, "timeout", 500, 50);
}

#[test]
fn login_found_user_is_returned() {
    let u = found_user(Ok(Some(alice()))).unwrap();
    assert_eq!(u.id, 7);
    assert_eq!(u.email, "alice@example.com");
}

#[test]
fn login_token_failure() {
    let e = login_response::<()>(Err(())).unwrap_err();
    assert_error(e, "login failed", 401, 41);
}

#[test]
fn login_token_answered() {
    let r = login_response::<()>(Ok("tok.en".to_string())).unwrap();
    assert_eq!(r.token, "tok.en");
}

#[test]
fn update_changes_only_the_name() {
    let row = renamed(alice(), UserUpdateModel { name: "alicia".to_string() });
    assert_eq!(row.id, 7);
    let user = updated_user(Ok(()), row).unwrap();
    assert_eq!(user.name, "alicia");
    assert_eq!(user.email, "alice@example.com");
    assert_eq!(user.password, "pw");
    assert_eq!(user.uuid, 0x1234);
    assert_eq!(user.created_at, at(100));
}

#[test]
fn update_write_failure() {
    let e = updated_user(Err("gone".to_string()), alice()).unwrap_err();
    assert_error(e, "gone", 500, 50);
}

#[test]
fn delete_outcomes() {
    assert!(deleted_user(Ok(())).is_ok());
    let e = deleted_user(Err("fk violation".to_string())).unwrap_err();
    assert_error(e, "fk violation", 500, 50);
}

#[test]
fn listing_keeps_order_and_drops_ids() {
    let mut second = alice();
    second.id = 8;
    second.name = "zed".to_string();
    let users = users_response(Ok(vec![alice(), second])).unwrap();
    assert_eq!(users.len(), 2);
    assert_eq!(users[0].name, "alice");
    assert_eq!(users[1].name, "zed");
    assert!(users_response(Ok(vec![])).unwrap().is_empty());
    let e = users_response(Err("read failed".to_string())).unwrap_err();
    assert_error(e, "read failed", 500, 50);
}

fn post_model() -> PostCreateModel {
    PostCreateModel { text: "body".to_string(), image: "img.png".to_string(), title: "Hello".to_string() }
}

#[test]
fn added_post_answer_has_nil_uuid_and_author() {
    let row = new_post_from(post_model(), &alice(), 77, at(3));
    assert_eq!(row.user_id, 7);
    assert_eq!(row.uuid, 77);
    let post: Post = added_post::<()>(Ok(()), row, alice()).unwrap();
    assert_eq!(post.uuid, 0);
    assert_eq!(post.title, "Hello");
    assert_eq!(post.text, "body");
    assert_eq!(post.image, "img.png");
    let author = post.user.unwrap();
    assert_eq!(author.name, "alice");
    assert_eq!(author.email, "alice@example.com");
    assert_eq!(author.uuid, 0x1234);
}

#[test]
fn added_post_insert_failure() {
    let row = new_post(post_model(), &alice());
    assert!(is_v4(row.uuid));
    let e = added_post(Err("boom"), row, alice()).unwrap_err();
    assert_error(e, "Failed to create Post", 500, 50);
}

#[test]
fn post_lookup_outcomes() {
    let e = found_post::<u8, &str>(Err("x")).unwrap_err();
    assert_error(e, "Failed to create Post", 500, 50);
    let e = found_post::<u8, &str>(Ok(None)).unwrap_err();
    assert_error(e, "Post not Found", 404, 44);
    assert_eq!(found_post::<u8, &str>(Ok(Some(3))).unwrap(), 3);
}

#[test]
fn post_from_joined_rows() {
    let row = PostRecord {
        id: 1,
        uuid: 55,
        title: "T".to_string(),
        text: "X".to_string(),
        image: "i".to_string(),
        user_id: 7,
        created_at: at(1),
    };
    let post = Post::from((row, Some(alice())));
    assert_eq!(post.uuid, 55);
    assert_eq!(post.title, "T");
    assert_eq!(post.user.unwrap().name, "alice");
}

#[test]
fn upload_paths_are_named_by_timestamp() {
    assert_eq!(upload_path(1700000000), "./public/uploads/1700000000.png");
    assert_eq!(upload_path(0), "./public/uploads/0.png");
    assert_eq!(upload_path(-42), "./public/uploads/-42.png");
    assert_eq!(upload_path(i64::MIN), format!("./public/uploads/{}.png", i64::MIN));
    assert_eq!(upload_path(i64::MAX), format!("./public/uploads/{}.png", i64::MAX));
    assert_ne!(upload_path(12), upload_path(120));
}

#[test]
fn decimal_matches_display() {
    for n in [0i64, 9, 10, 99, 100, 101, -1, -10, 123456789, -987654321] {
        let mut s = String::from("x");
        push_decimal(&mut s, n);
        assert_eq!(s, format!("x{}", n));
    }
}

#[test]
fn upload_target_path_matches_timestamp() {
    let t = upload_target();
    assert_eq!(t.path, format!("./public/uploads/{}.png", t.timestamp));
}

#[test]
fn upload_fields() {
    assert!(is_image_field("image"));
    assert!(!is_image_field("Image"));
    assert!(!is_image_field("title"));
    assert_eq!(field_log_line("title", "hi"), "field: title, \tvalue: hi");
}

#[test]
fn upload_updates_only_image() {
    let row = PostRecord {
        id: 1,
        uuid: 55,
        title: "T".to_string(),
        text: "X".to_string(),
        image: "old".to_string(),
        user_id: 7,
        created_at: at(1),
    };
    let updated = with_image(row, "./public/uploads/5.png".to_string());
    assert_eq!(updated.image, "./public/uploads/5.png");
    assert_eq!(updated.title, "T");
    assert_eq!(updated.id, 1);
}

#[test]
fn guard_requires_token() {
    let e = bearer_token(None).unwrap_err();
    assert_error(e, "No Auth token found", 400, 40);
    assert_eq!(bearer_token(Some("abc".to_string())).unwrap(), "abc");
}

#[test]
fn guard_rejects_bad_token() {
    let e = token_claims::<()>(Err(())).unwrap_err();
    assert_error(e, "Unauthorized", 401, 41);
    let c = token_claims::<()>(Ok(Claims { email: "A@B.c".to_string() })).unwrap();
    assert_eq!(c.email, "A@B.c");
}

#[test]
fn guard_requires_database() {
    assert!(require_database(true).is_ok());
    let e = require_database(false).unwrap_err();
    assert_error(e, "Could not connect to database", 500, 50);
}

#[test]
fn guard_looks_up_lowercased_email() {
    let c = Claims { email: "Alice@Example.COM".to_string() };
    assert_eq!(identity_email(&c), "alice@example.com");
    let c = Claims { email: "ÉMILE@X.FR".to_string() };
    assert_eq!(identity_email(&c), "émile@x.fr");
}

#[test]
fn guard_identity_outcomes() {
    let e = identity(Ok(None)).unwrap_err();
    assert_error(e, "Unauthorized", 401, 41);
    let e = identity(Err("db".to_string())).unwrap_err();
    assert_error(e, "db", 500, 50);
    assert_eq!(identity(Ok(Some(alice()))).unwrap().id, 7);
}

#[test]
fn guard_steps_run_next_after_every_check() {
    let (s, a) = guard_step::<()>(GuardState::AwaitToken, GuardEvent::Token(Some("tok".to_string())));
    assert!(matches!(s, GuardState::AwaitClaims));
    assert!(matches!(a, GuardAction::Decode(ref t) if t == "tok"));
    let (s, a) = guard_step::<()>(s, GuardEvent::Decoded(Ok(Claims { email: "Bob@X.io".to_string() })));
    assert!(matches!(a, GuardAction::CheckConnection));
    let (s, a) = guard_step::<()>(s, GuardEvent::Connection(true));
    assert!(matches!(a, GuardAction::LookUp(ref e) if e == "bob@x.io"));
    let (s, a) = guard_step::<()>(s, GuardEvent::Lookup(Ok(Some(alice()))));
    assert!(matches!(s, GuardState::Done));
    match a {
        GuardAction::Run(u) => assert_eq!(u.id, 7),
        _ => panic!("expected the next handler to run"),
    }
}

#[test]
fn guard_steps_refuse_at_first_failed_check() {
    let (s, a) = guard_step::<()>(GuardState::AwaitToken, GuardEvent::Token(None));
    assert!(matches!(s, GuardState::Done));
    match a {
        GuardAction::Refuse(e) => assert_error(e, "No Auth token found", 400, 40),
        _ => panic!("expected a refusal"),
    }
    let (_, a) = guard_step::<()>(GuardState::AwaitClaims, GuardEvent::Decoded(Err(())));
    match a {
        GuardAction::Refuse(e) => assert_error(e, "Unauthorized", 401, 41),
        _ => panic!("expected a refusal"),
    }
    let claims = Claims { email: "a@b.c".to_string() };
    let (_, a) = guard_step::<()>(GuardState::AwaitConnection(claims), GuardEvent::Connection(false));
    match a {
        GuardAction::Refuse(e) => assert_error(e, "Could not connect to database", 500, 50),
        _ => panic!("expected a refusal"),
    }
    let (_, a) = guard_step::<()>(GuardState::AwaitIdentity, GuardEvent::Lookup(Ok(None)));
    match a {
        GuardAction::Refuse(e) => assert_error(e, "Unauthorized", 401, 41),
        _ => panic!("expected a refusal"),
    }
}
