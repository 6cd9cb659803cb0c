//! The service walked through end to end: the route handlers driven against
//! a store, following the same steps and expecting the same statuses and
//! bodies as the running service would give.

use twitter_crud::posts::Posts;
use twitter_crud::status::Status;
use twitter_crud::store::Store;
use twitter_crud::users::Users;

#[test]
fn a_homepage() {
    let r: () = twitter_crud::index();
    assert_eq!(r, ());
}

#[test]
fn b_get_all_users() {
    let store = Store::new();

    let response = Users::users(&store);

    assert_eq!(Status::Okay.code(), 200);
    assert!(response.is_empty());
}

#[test]
fn c_create_user() {
    let mut store = Store::new();

    let response = Users::create_user(&mut store, "before".to_string());

    let (status, user) = response.expect("creation should succeed");
    assert_eq!(status, Status::Created);
    assert!(user.id.len() == 36);
    assert_eq!(user.username, "before");
}

#[test]
fn d_get_user() {
    let mut store = Store::new();
    Users::create_user(&mut store, "before".to_string()).expect("creation should succeed");

    let (status, user) = Users::user(&store, &"before".to_string());

    assert_eq!(status, Status::Found);
    assert!(user.is_some());

    let user = user.unwrap();

    assert!(user.id.len() == 36);
    assert_eq!(user.username, "before");
}

#[test]
fn e_update_user() {
    let mut store = Store::new();
    Users::create_user(&mut store, "before".to_string()).expect("creation should succeed");

    let response = Users::update_user(&mut store, &"before".to_string(), "after".to_string());

    let (status, user) = response.expect("update should succeed");
    assert_eq!(status, Status::Accepted);
    assert!(user.id.len() == 36);
    assert_eq!(user.username, "after");
}

#[test]
fn f_get_all_posts() {
    let store = Store::new();

    let response = Posts::posts(&store);

    assert_eq!(Status::Okay.code(), 200);
    assert!(response.is_empty());
}

#[test]
fn g_create_and_delete_post() {
    let mut store = Store::new();
    Users::create_user(&mut store, "after".to_string()).expect("creation should succeed");

    let (_, user) = Users::user(&store, &"after".to_string());
    let user = user.unwrap();

    let response = Posts::create_post(&mut store, user.id.clone(), "test message".to_string());

    let (status, post) = response.expect("creation should succeed");
    assert_eq!(status, Status::Created);
    assert!(post.id.len() == 36);
    assert!(post.user_id == user.id);
    assert_eq!(post.message, "test message");

    let response = Posts::delete_post(&mut store, &post.id);

    assert_eq!(response, Ok(Status::Okay));
}

#[test]
fn h_get_post() {
    let mut store = Store::new();
    Users::create_user(&mut store, "after".to_string()).expect("creation should succeed");

    let (_, user) = Users::user(&store, &"after".to_string());
    let user = user.unwrap();

    let response = Posts::create_post(&mut store, user.id.clone(), "test message".to_string());

    let (status, post) = response.expect("creation should succeed");
    assert_eq!(status, Status::Created);
    assert!(post.id.len() == 36);
    assert!(post.user_id == user.id);
    assert_eq!(post.message, "test message");

    let (status, post_found) = Posts::post(&store, &post.id);

    assert_eq!(status, Status::Found);
    assert!(post_found.is_some());

    let post_found = post_found.unwrap();

    assert_eq!(post, post_found);

    let response = Posts::delete_post(&mut store, &post.id);

    assert_eq!(response, Ok(Status::Okay));
}

#[test]
fn i_delete_user() {
    let mut store = Store::new();
    Users::create_user(&mut store, "after".to_string()).expect("creation should succeed");

    let response = Users::delete_user(&mut store, &"after".to_string());

    assert_eq!(response, Ok(Status::Okay));
}
