//! One concrete scenario for each stated property of the service, and the
//! edge cases of the validation rules and the error taxonomy.

use twitter_crud::posts::Posts;
use twitter_crud::status::Status;
use twitter_crud::store::Store;
use twitter_crud::users::Users;

#[test]
fn valid_username_echoed_with_generated_id() {
    let mut store = Store::new();
    let (status, user) = Users::create_user(&mut store, "ada".to_string()).unwrap();
    assert_eq!(status, Status::Created);
    assert_eq!(status.code(), 201);
    assert_eq!(user.id.len(), 36);
    assert_eq!(user.username, "ada");
}

#[test]
fn username_at_limit_accepted_over_limit_rejected() {
    let mut store = Store::new();
    let exactly_32 = "a".repeat(32);
    let (status, _) = Users::create_user(&mut store, exactly_32).unwrap();
    assert_eq!(status, Status::Created);

    let exactly_33 = "a".repeat(33);
    let err = Users::create_user(&mut store, exactly_33).unwrap_err();
    assert_eq!(err, Status::BadRequest);
    assert_eq!(err.code(), 400);
}

#[test]
fn username_with_space_rejected() {
    let mut store = Store::new();
    let err = Users::create_user(&mut store, "ada lovelace".to_string()).unwrap_err();
    assert_eq!(err, Status::BadRequest);
}

#[test]
fn duplicate_username_rejected() {
    let mut store = Store::new();
    Users::create_user(&mut store, "ada".to_string()).unwrap();
    let err = Users::create_user(&mut store, "ada".to_string()).unwrap_err();
    assert_eq!(err, Status::BadRequest);
    assert_eq!(err.code(), 400);
}

#[test]
fn missing_username_answers_not_found_with_no_body() {
    let store = Store::new();
    let (status, body) = Users::user(&store, &"nobody".to_string());
    assert_eq!(status, Status::NotFound);
    assert_eq!(status.code(), 404);
    assert!(body.is_none());
}

#[test]
fn invalid_update_leaves_stored_username_unchanged() {
    let mut store = Store::new();
    Users::create_user(&mut store, "ada".to_string()).unwrap();

    let too_long = "b".repeat(33);
    let err = Users::update_user(&mut store, &"ada".to_string(), too_long).unwrap_err();
    assert_eq!(err, Status::BadRequest);

    let err = Users::update_user(&mut store, &"ada".to_string(), "ada byron".to_string())
        .unwrap_err();
    assert_eq!(err, Status::BadRequest);

    let (status, user) = Users::user(&store, &"ada".to_string());
    assert_eq!(status, Status::Found);
    assert_eq!(user.unwrap().username, "ada");
}

#[test]
fn update_of_missing_username_answers_not_found() {
    let mut store = Store::new();
    let err = Users::update_user(&mut store, &"nobody".to_string(), "somebody".to_string())
        .unwrap_err();
    assert_eq!(err, Status::NotFound);
}

#[test]
fn update_to_taken_username_answers_not_implemented() {
    let mut store = Store::new();
    Users::create_user(&mut store, "ada".to_string()).unwrap();
    Users::create_user(&mut store, "grace".to_string()).unwrap();

    let err = Users::update_user(&mut store, &"grace".to_string(), "ada".to_string()).unwrap_err();
    assert_eq!(err, Status::NotImplemented);
    assert_eq!(err.code(), 501);

    let (status, user) = Users::user(&store, &"grace".to_string());
    assert_eq!(status, Status::Found);
    assert_eq!(user.unwrap().username, "grace");
}

#[test]
fn update_to_own_username_succeeds() {
    let mut store = Store::new();
    Users::create_user(&mut store, "ada".to_string()).unwrap();
    let (status, user) = Users::update_user(&mut store, &"ada".to_string(), "ada".to_string())
        .unwrap();
    assert_eq!(status, Status::Accepted);
    assert_eq!(status.code(), 202);
    assert_eq!(user.username, "ada");
}

#[test]
fn deleted_username_no_longer_found() {
    let mut store = Store::new();
    Users::create_user(&mut store, "ada".to_string()).unwrap();

    let response = Users::delete_user(&mut store, &"ada".to_string());
    assert_eq!(response, Ok(Status::Okay));

    let (status, body) = Users::user(&store, &"ada".to_string());
    assert_eq!(status, Status::NotFound);
    assert!(body.is_none());
}

#[test]
fn deleting_missing_username_answers_not_found() {
    let mut store = Store::new();
    let response = Users::delete_user(&mut store, &"nobody".to_string());
    assert_eq!(response, Err(Status::NotFound));
}

#[test]
fn message_at_limit_accepted_over_limit_rejected() {
    let mut store = Store::new();

    let exactly_257 = "m".repeat(257);
    let err = Posts::create_post(&mut store, "author".to_string(), exactly_257).unwrap_err();
    assert_eq!(err, Status::BadRequest);
    assert_eq!(err.code(), 400);

    let exactly_256 = "m".repeat(256);
    let (status, post) = Posts::create_post(&mut store, "author".to_string(), exactly_256)
        .unwrap();
    assert_eq!(status, Status::Created);
    assert_eq!(post.message.len(), 256);
}

#[test]
fn listing_empty_store_yields_empty_lists() {
    let store = Store::new();
    assert_eq!(Users::users(&store).len(), 0);
    assert_eq!(Posts::posts(&store).len(), 0);
    assert_eq!(Status::Okay.code(), 200);
}

#[test]
fn listing_returns_created_rows() {
    let mut store = Store::new();
    Users::create_user(&mut store, "ada".to_string()).unwrap();
    Users::create_user(&mut store, "grace".to_string()).unwrap();
    let all = Users::users(&store);
    assert_eq!(all.len(), 2);
    assert_eq!(all[0].username, "ada");
    assert_eq!(all[1].username, "grace");

    Posts::create_post(&mut store, all[0].id.clone(), "hello".to_string()).unwrap();
    let posts = Posts::posts(&store);
    assert_eq!(posts.len(), 1);
    assert_eq!(posts[0].message, "hello");
}

#[test]
fn created_post_fetched_by_id_is_equal() {
    let mut store = Store::new();
    let (_, post) = Posts::create_post(&mut store, "author".to_string(), "hi there".to_string())
        .unwrap();
    let (status, fetched) = Posts::post(&store, &post.id);
    assert_eq!(status, Status::Found);
    assert_eq!(status.code(), 302);
    assert_eq!(fetched.unwrap(), post);
}

#[test]
fn deleting_missing_post_id_answers_not_found() {
    let mut store = Store::new();
    let response = Posts::delete_post(&mut store, &"no-such-id".to_string());
    assert_eq!(response, Err(Status::NotFound));
    assert_eq!(Status::NotFound.code(), 404);
}

#[test]
fn generated_timestamps_are_calendar_instants() {
    let mut store = Store::new();
    let (_, user) = Users::create_user(&mut store, "ada".to_string()).unwrap();
    let t = user.created_at;
    assert!(1 <= t.month && t.month <= 12);
    assert!(1 <= t.day && t.day <= 31);
    assert!(t.hour <= 23);
    assert!(t.minute <= 59);
    assert!(t.second <= 59);
    assert!(t.year <= 9999);
}
