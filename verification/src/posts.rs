//! The `/posts` route group: list, get, create, delete.
//!
//! The same pattern as the users group: validate, issue one statement, map
//! the outcome. Posts are never updated; the author id is advisory and gets
//! no length limit and no referential check.

use vstd::prelude::*;

use crate::entities::{Post, PostView};
use crate::status::Status;
use crate::store::{Store, StoreError, StoreView};

verus! {

/// A message the service accepts: at most 256 bytes in its UTF-8 encoding.
pub open spec fn message_ok(message: Seq<char>) -> bool {
    vstd::utf8::encode_utf8(message).len() <= 256
}

/// Check a message's length.
fn message_acceptable(message: &String) -> (r: bool)
    ensures
        r == message_ok(message@),
{
    let b = message.as_str().as_bytes();
    b.len() <= 256
}

/// The `/posts` route group.
pub struct Posts;

impl Posts {
    /// `GET /posts`: every post as a list, HTTP 200; an empty store yields
    /// the empty list.
    pub fn posts(store: &Store) -> (r: Vec<Post>)
        ensures
            r.deep_view() == store@.posts,
    {
        store.select_posts()
    }

    /// `GET /posts/<id>`: the matching post with `Found`, or `NotFound`
    /// with no body.
    pub fn post(store: &Store, id: &String) -> (r: (Status, Option<Post>))
        requires
            store@.wf(),
        ensures
            store@.has_post_id(id@) ==> r.0 == Status::Found && (r.1 matches Some(p) && p@
                == store@.post_with_id(id@) && p@.id == id@),
            !store@.has_post_id(id@) ==> r.0 == Status::NotFound && r.1 is None,
    {
        match store.select_post_by_id(id) {
            Some(p) => (Status::Found, Some(p)),
            None => (Status::NotFound, None),
        }
    }

    /// The creation step after the id and the creation instant exist:
    /// validate the message, insert, and map any storage failure to 501.
    pub fn create_post_with(store: &mut Store, post: Post) -> (r: Result<(Status, Post), Status>)
        requires
            old(store)@.wf(),
        ensures
            final(store)@.wf(),
            final(store)@.users == old(store)@.users,
            !message_ok(post@.message) ==> r == Err::<(Status, Post), Status>(Status::BadRequest)
                && final(store)@ == old(store)@,
            message_ok(post@.message) && old(store)@.has_post_id(post@.id) ==> r == Err::<
                (Status, Post),
                Status,
            >(Status::NotImplemented) && final(store)@ == old(store)@,
            message_ok(post@.message) && !old(store)@.has_post_id(post@.id) ==> (r matches Ok(p)
                && p.0 == Status::Created && p.1@ == post@
                && final(store)@.posts == old(store)@.posts.push(post@)),
    {
        if !message_acceptable(&post.message) {
            return Err(Status::BadRequest);
        }
        let echo = post.clone();
        match store.insert_post(post) {
            Ok(_) => Ok((Status::Created, echo)),
            Err(StoreError::UniqueViolation) => Err(Status::NotImplemented),
        }
    }

    /// `POST /posts`: rejects a message over the length limit with 400;
    /// otherwise constructs a fresh post and inserts it, answering 201 with
    /// the created entity, or 501 where the insert fails (which chance
    /// alone — a colliding generated id — can cause, so it needs a stored
    /// row to collide with: on an empty table creation succeeds).
    pub fn create_post(store: &mut Store, user_id: String, message: String) -> (r: Result<
        (Status, Post),
        Status,
    >)
        requires
            old(store)@.wf(),
        ensures
            final(store)@.wf(),
            final(store)@.users == old(store)@.users,
            !message_ok(message@) ==> r == Err::<(Status, Post), Status>(Status::BadRequest)
                && final(store)@ == old(store)@,
            message_ok(message@) ==> match r {
                Ok(p) => p.0 == Status::Created && p.1@.user_id == user_id@ && p.1@.message
                    == message@ && p.1@.id.len() == 36 && p.1@.created_at.valid()
                    && !old(store)@.has_post_id(p.1@.id)
                    && final(store)@.posts == old(store)@.posts.push(p.1@),
                Err(st) => st == Status::NotImplemented && final(store)@ == old(store)@
                    && old(store)@.posts.len() > 0,
            },
    {
        let post = Post::new(user_id, message);
        Self::create_post_with(store, post)
    }

    /// `DELETE /posts/<id>`: removes the row with the given id, answering
    /// 200; answers 404 where no row matches. Afterwards the id is absent.
    pub fn delete_post(store: &mut Store, id: &String) -> (r: Result<Status, Status>)
        requires
            old(store)@.wf(),
        ensures
            final(store)@.wf(),
            final(store)@.users == old(store)@.users,
            !final(store)@.has_post_id(id@),
            !old(store)@.has_post_id(id@) ==> r == Err::<Status, Status>(Status::NotFound)
                && final(store)@ == old(store)@,
            old(store)@.has_post_id(id@) ==> r == Ok::<Status, Status>(Status::Okay) && (exists|
                i: int|
                0 <= i < old(store)@.posts.len() && (#[trigger] old(store)@.posts[i]).id == id@
                    && final(store)@.posts == old(store)@.posts.remove(i)),
    {
        let n = store.delete_post_by_id(id);
        if n > 0 {
            Ok(Status::Okay)
        } else {
            Err(Status::NotFound)
        }
    }
}

/// Round trip: a post just added under a fresh id is exactly the post a
/// fetch by that id then returns, field for field.
pub proof fn lemma_post_round_trip(s: StoreView, post: PostView)
    requires
        !s.has_post_id(post.id),
    ensures
        (StoreView { users: s.users, posts: s.posts.push(post) }).has_post_id(post.id),
        (StoreView { users: s.users, posts: s.posts.push(post) }).post_with_id(post.id) == post,
{
    let s2 = (StoreView { users: s.users, posts: s.posts.push(post) });
    assert(s2.posts[s.posts.len() as int] == post);
    let k = s2.post_index(post.id);
    assert(s2.posts[k].id == post.id);
    if k < s.posts.len() {
        assert(s.posts[k].id == post.id);
        assert(false);
    }
}

} // verus!
