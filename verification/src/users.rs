//! The `/users` route group: list, get, create, update, delete.
//!
//! Each handler validates its input, issues exactly one statement against
//! the store, and maps the outcome to a status, as the error taxonomy
//! prescribes: validation failures and broken uniqueness answer 400, a
//! missing row 404, and any other storage failure 501.

use vstd::prelude::*;

use crate::entities::{User, UserView};
use crate::status::Status;
use crate::store::{Store, StoreError, StoreView};

verus! {

/// A username the service accepts: at most 32 bytes in its UTF-8 encoding,
/// and no space.
pub open spec fn username_ok(name: Seq<char>) -> bool {
    vstd::utf8::encode_utf8(name).len() <= 32 && !vstd::utf8::encode_utf8(name).contains(32u8)
}

/// Whether a creation with this username can succeed on this store: the
/// username passes validation and no row holds it yet.
pub open spec fn user_create_allowed(s: StoreView, name: Seq<char>) -> bool {
    username_ok(name) && !s.has_username(name)
}

/// Check a username: at most 32 bytes, no space byte (the space character
/// is the one character UTF-8 encodes with that byte).
fn username_acceptable(name: &String) -> (r: bool)
    ensures
        r == username_ok(name@),
{
    let b = name.as_str().as_bytes();
    if b.len() > 32 {
        return false;
    }
    let mut i: usize = 0;
    while i < b.len()
        invariant
            i <= b@.len(),
            b@ == vstd::utf8::encode_utf8(name@),
            forall|k: int| 0 <= k < i ==> b@[k] != 32u8,
        decreases b@.len() - i,
    {
        if b[i] == 32 {
            return false;
        }
        i += 1;
    }
    true
}

/// The `/users` route group.
pub struct Users;

impl Users {
    /// `GET /users`: every user as a list, HTTP 200; an empty store yields
    /// the empty list.
    pub fn users(store: &Store) -> (r: Vec<User>)
        ensures
            r.deep_view() == store@.users,
    {
        store.select_users()
    }

    /// `GET /users/<username>`: the matching user with `Found`, or
    /// `NotFound` with no body.
    pub fn user(store: &Store, username: &String) -> (r: (Status, Option<User>))
        requires
            store@.wf(),
        ensures
            store@.has_username(username@) ==> r.0 == Status::Found && (r.1 matches Some(u) && u@
                == store@.user_named(username@) && u@.username == username@),
            !store@.has_username(username@) ==> r.0 == Status::NotFound && r.1 is None,
    {
        match store.select_user_by_username(username) {
            Some(u) => (Status::Found, Some(u)),
            None => (Status::NotFound, None),
        }
    }

    /// The creation step after the id and the creation instant exist:
    /// validate the username, insert, and map a broken uniqueness
    /// constraint to 400.
    pub fn create_user_with(store: &mut Store, user: User) -> (r: Result<(Status, User), Status>)
        requires
            old(store)@.wf(),
        ensures
            final(store)@.wf(),
            final(store)@.posts == old(store)@.posts,
            !username_ok(user@.username) ==> r == Err::<(Status, User), Status>(Status::BadRequest)
                && final(store)@ == old(store)@,
            username_ok(user@.username) && (old(store)@.has_username(user@.username)
                || old(store)@.has_user_id(user@.id)) ==> r == Err::<(Status, User), Status>(Status::BadRequest)
                && final(store)@ == old(store)@,
            username_ok(user@.username) && !old(store)@.has_username(user@.username)
                && !old(store)@.has_user_id(user@.id) ==> (r matches Ok(p) && p.0 == Status::Created && p.1@ == user@
                && final(store)@.users == old(store)@.users.push(user@)),
    {
        if !username_acceptable(&user.username) {
            return Err(Status::BadRequest);
        }
        let echo = user.clone();
        match store.insert_user(user) {
            Ok(_) => Ok((Status::Created, echo)),
            Err(StoreError::UniqueViolation) => Err(Status::BadRequest),
        }
    }

    /// `POST /users`: rejects an unacceptable username with 400; otherwise
    /// constructs a fresh user and inserts it, answering 201 with the
    /// created entity, or 400 where the username (or, by chance, the
    /// generated id) is already taken. A free, acceptable username can only
    /// fail by an id collision, which needs a stored row to collide with:
    /// on an empty table creation succeeds.
    pub fn create_user(store: &mut Store, username: String) -> (r: Result<(Status, User), Status>)
        requires
            old(store)@.wf(),
        ensures
            final(store)@.wf(),
            final(store)@.posts == old(store)@.posts,
            !username_ok(username@) ==> r == Err::<(Status, User), Status>(Status::BadRequest)
                && final(store)@ == old(store)@,
            username_ok(username@) && old(store)@.has_username(username@) ==> r == Err::<
                (Status, User),
                Status,
            >(Status::BadRequest) && final(store)@ == old(store)@,
            username_ok(username@) && !old(store)@.has_username(username@) ==> match r {
                Ok(p) => p.0 == Status::Created && p.1@.username == username@ && p.1@.id.len() == 36
                    && p.1@.created_at.valid() && !old(store)@.has_user_id(p.1@.id)
                    && final(store)@.users == old(store)@.users.push(p.1@),
                Err(st) => st == Status::BadRequest && final(store)@ == old(store)@
                    && old(store)@.users.len() > 0,
            },
    {
        let user = User::new(username);
        Self::create_user_with(store, user)
    }

    /// `PATCH /users/<username>`: validates the new username (400 on
    /// violation, the stored row untouched), answers 404 where no row holds
    /// the old username, 501 where the rewrite would break the uniqueness
    /// constraint, and otherwise rewrites the row and answers 202 with the
    /// updated entity.
    pub fn update_user(store: &mut Store, username: &String, new_name: String) -> (r: Result<
        (Status, User),
        Status,
    >)
        requires
            old(store)@.wf(),
        ensures
            final(store)@.wf(),
            final(store)@.posts == old(store)@.posts,
            !username_ok(new_name@) ==> r == Err::<(Status, User), Status>(Status::BadRequest)
                && final(store)@ == old(store)@,
            username_ok(new_name@) && !old(store)@.has_username(username@) ==> r == Err::<
                (Status, User),
                Status,
            >(Status::NotFound) && final(store)@ == old(store)@,
            username_ok(new_name@) && old(store)@.has_username(username@) && (exists|i: int|
                0 <= i < old(store)@.users.len() && (#[trigger] old(store)@.users[i]).username
                    == new_name@ && old(store)@.users[i].id != old(store)@.user_named(
                    username@,
                ).id) ==> r == Err::<(Status, User), Status>(Status::NotImplemented)
                && final(store)@ == old(store)@,
            username_ok(new_name@) && old(store)@.has_username(username@) && !(exists|i: int|
                0 <= i < old(store)@.users.len() && (#[trigger] old(store)@.users[i]).username
                    == new_name@ && old(store)@.users[i].id != old(store)@.user_named(
                    username@,
                ).id) ==> (r matches Ok(p) && p.0 == Status::Accepted && p.1@ == (UserView {
                id: old(store)@.user_named(username@).id,
                username: new_name@,
                created_at: old(store)@.user_named(username@).created_at,
            }) && final(store)@.users == old(store)@.users.update(
                old(store)@.user_index(username@),
                p.1@,
            )),
    {
        if !username_acceptable(&new_name) {
            return Err(Status::BadRequest);
        }
        let found = store.select_user_by_username(username);
        match found {
            None => Err(Status::NotFound),
            Some(u) => {
                let ghost pre = store@;
                match store.update_user_username(&u.id, &new_name) {
                    Err(StoreError::UniqueViolation) => Err(Status::NotImplemented),
                    Ok(n) => {
                        if n > 0 {
                            proof {
                                let t = pre.user_index(username@);
                                assert(pre.users[t].id == u@.id);
                                let w = choose|i: int|
                                    0 <= i < pre.users.len() && (#[trigger] pre.users[i]).id
                                        == u@.id && store@.users == pre.users.update(
                                        i,
                                        (UserView {
                                            id: pre.users[i].id,
                                            username: new_name@,
                                            created_at: pre.users[i].created_at,
                                        }),
                                    );
                                assert(w == t);
                            }
                            let updated = User {
                                id: u.id,
                                username: new_name,
                                created_at: u.created_at,
                            };
                            Ok((Status::Accepted, updated))
                        } else {
                            Err(Status::NotImplemented)
                        }
                    },
                }
            },
        }
    }

    /// `DELETE /users`: removes the row with the given username, answering
    /// 200; answers 404 where no row matches. Afterwards the username is
    /// absent.
    pub fn delete_user(store: &mut Store, username: &String) -> (r: Result<Status, Status>)
        requires
            old(store)@.wf(),
        ensures
            final(store)@.wf(),
            final(store)@.posts == old(store)@.posts,
            !final(store)@.has_username(username@),
            !old(store)@.has_username(username@) ==> r == Err::<Status, Status>(Status::NotFound)
                && final(store)@ == old(store)@,
            old(store)@.has_username(username@) ==> r == Ok::<Status, Status>(Status::Okay) && (
            exists|i: int|
                0 <= i < old(store)@.users.len() && (#[trigger] old(store)@.users[i]).username
                    == username@ && final(store)@.users == old(store)@.users.remove(i)),
    {
        let n = store.delete_user_by_username(username);
        if n > 0 {
            Ok(Status::Okay)
        } else {
            Err(Status::NotFound)
        }
    }
}

/// Once a user with a given username is in the table, no further creation
/// with that username is allowed: the second of two creations with the same
/// username finds the name taken and answers 400.
pub proof fn lemma_duplicate_username_rejected(s: StoreView, user: UserView)
    ensures
        (StoreView { users: s.users.push(user), posts: s.posts }).has_username(user.username),
        !user_create_allowed(
            (StoreView { users: s.users.push(user), posts: s.posts }),
            user.username,
        ),
{
    let s2 = (StoreView { users: s.users.push(user), posts: s.posts });
    assert(s2.users[s.users.len() as int] == user);
}

/// The row a deletion removes was the only one with its username, so after
/// the deletion a fetch of that username finds nothing and answers 404.
pub proof fn lemma_deleted_username_not_found(s: StoreView, i: int)
    requires
        s.wf(),
        0 <= i < s.users.len(),
    ensures
        !(StoreView { users: s.users.remove(i), posts: s.posts }).has_username(s.users[i].username),
{
    let s2 = (StoreView { users: s.users.remove(i), posts: s.posts });
    assert forall|k: int| 0 <= k < s2.users.len() implies (#[trigger] s2.users[k]).username
        != s.users[i].username by {
        let k0 = if k < i {
            k
        } else {
            k + 1
        };
        assert(s2.users[k] == s.users[k0]);
    }
}

} // verus!
