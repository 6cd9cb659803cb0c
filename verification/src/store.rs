//! The storage layer: an in-memory model of the two tables.
//!
//! Two tables back the service: `users(id PK, username UNIQUE, created_at)`
//! and `posts(id PK, user_id, message, created_at)`. Each public method
//! models one parameterized SQL statement; a statement that would break a
//! uniqueness constraint fails with [`StoreError::UniqueViolation`], as the
//! constraint does, and leaves the tables unchanged.

use vstd::prelude::*;

use crate::entities::{Post, PostView, User, UserView};

verus! {

/// A storage failure: the only failure the model itself can produce is a
/// broken uniqueness constraint.
#[derive(Clone, Copy, Debug, PartialEq, Eq, Structural)]
pub enum StoreError {
    UniqueViolation,
}

/// Abstract state of the two tables: their rows, in insertion order.
#[verifier::ext_equal]
pub struct StoreView {
    pub users: Seq<UserView>,
    pub posts: Seq<PostView>,
}

impl StoreView {
    /// Some user row carries this username.
    pub open spec fn has_username(self, name: Seq<char>) -> bool {
        exists|i: int| 0 <= i < self.users.len() && (#[trigger] self.users[i]).username == name
    }

    /// Some user row carries this id.
    pub open spec fn has_user_id(self, id: Seq<char>) -> bool {
        exists|i: int| 0 <= i < self.users.len() && (#[trigger] self.users[i]).id == id
    }

    /// Some post row carries this id.
    pub open spec fn has_post_id(self, id: Seq<char>) -> bool {
        exists|i: int| 0 <= i < self.posts.len() && (#[trigger] self.posts[i]).id == id
    }

    /// The index of a row with this username, when one exists.
    pub open spec fn user_index(self, name: Seq<char>) -> int {
        choose|i: int| 0 <= i < self.users.len() && (#[trigger] self.users[i]).username == name
    }

    /// The user row with this username, when one exists. Under [`Self::wf`]
    /// at most one row matches, so the row is determined.
    pub open spec fn user_named(self, name: Seq<char>) -> UserView {
        self.users[self.user_index(name)]
    }

    /// The index of a post row with this id, when one exists.
    pub open spec fn post_index(self, id: Seq<char>) -> int {
        choose|i: int| 0 <= i < self.posts.len() && (#[trigger] self.posts[i]).id == id
    }

    /// The post row with this id, when one exists. Under [`Self::wf`] at
    /// most one row matches, so the row is determined.
    pub open spec fn post_with_id(self, id: Seq<char>) -> PostView {
        self.posts[self.post_index(id)]
    }

    /// The `UNIQUE` constraint on `users.username`.
    pub open spec fn usernames_unique(self) -> bool {
        forall|i: int, j: int|
            0 <= i < j < self.users.len() ==> (#[trigger] self.users[i]).username != (
            #[trigger] self.users[j]).username
    }

    /// The primary-key constraint on `users.id`.
    pub open spec fn user_ids_unique(self) -> bool {
        forall|i: int, j: int|
            0 <= i < j < self.users.len() ==> (#[trigger] self.users[i]).id != (
            #[trigger] self.users[j]).id
    }

    /// The primary-key constraint on `posts.id`.
    pub open spec fn post_ids_unique(self) -> bool {
        forall|i: int, j: int|
            0 <= i < j < self.posts.len() ==> (#[trigger] self.posts[i]).id != (
            #[trigger] self.posts[j]).id
    }

    /// The storage invariant: every uniqueness constraint holds.
    pub open spec fn wf(self) -> bool {
        self.usernames_unique() && self.user_ids_unique() && self.post_ids_unique()
    }
}

/// The two tables.
pub struct Store {
    users: Vec<User>,
    posts: Vec<Post>,
}

impl View for Store {
    type V = StoreView;

    closed spec fn view(&self) -> StoreView {
        StoreView { users: self.users.deep_view(), posts: self.posts.deep_view() }
    }
}

impl Store {
    /// An empty store.
    pub fn new() -> (r: Store)
        ensures
            r@.users.len() == 0,
            r@.posts.len() == 0,
            r@.wf(),
    {
        Store { users: Vec::new(), posts: Vec::new() }
    }

    /// `SELECT * FROM users WHERE username = $1`, reduced to the row index.
    fn find_user_by_username(&self, name: &String) -> (r: Option<usize>)
        ensures
            r is Some <==> self@.has_username(name@),
            r matches Some(i) ==> i < self@.users.len() && self@.users[i as int].username == name@,
    {
        let mut i: usize = 0;
        while i < self.users.len()
            invariant
                i <= self.users.len(),
                forall|k: int| 0 <= k < i ==> (#[trigger] self@.users[k]).username != name@,
            decreases self.users@.len() - i,
        {
            if self.users[i].username == *name {
                proof {
                    assert(self@.users[i as int].username == name@);
                }
                return Some(i);
            }
            i += 1;
        }
        None
    }

    /// `SELECT * FROM users WHERE id = $1`, reduced to the row index.
    fn find_user_by_id(&self, id: &String) -> (r: Option<usize>)
        ensures
            r is Some <==> self@.has_user_id(id@),
            r matches Some(i) ==> i < self@.users.len() && self@.users[i as int].id == id@,
    {
        let mut i: usize = 0;
        while i < self.users.len()
            invariant
                i <= self.users.len(),
                forall|k: int| 0 <= k < i ==> (#[trigger] self@.users[k]).id != id@,
            decreases self.users@.len() - i,
        {
            if self.users[i].id == *id {
                proof {
                    assert(self@.users[i as int].id == id@);
                }
                return Some(i);
            }
            i += 1;
        }
        None
    }

    /// `SELECT * FROM posts WHERE id = $1`, reduced to the row index.
    fn find_post_by_id(&self, id: &String) -> (r: Option<usize>)
        ensures
            r is Some <==> self@.has_post_id(id@),
            r matches Some(i) ==> i < self@.posts.len() && self@.posts[i as int].id == id@,
    {
        let mut i: usize = 0;
        while i < self.posts.len()
            invariant
                i <= self.posts.len(),
                forall|k: int| 0 <= k < i ==> (#[trigger] self@.posts[k]).id != id@,
            decreases self.posts@.len() - i,
        {
            if self.posts[i].id == *id {
                proof {
                    assert(self@.posts[i as int].id == id@);
                }
                return Some(i);
            }
            i += 1;
        }
        None
    }

    /// `SELECT * FROM users`: every user row, in insertion order.
    pub fn select_users(&self) -> (r: Vec<User>)
        ensures
            r.deep_view() == self@.users,
    {
        let mut r: Vec<User> = Vec::new();
        let mut i: usize = 0;
        while i < self.users.len()
            invariant
                i <= self.users.len(),
                r@.len() == i,
                forall|j: int| 0 <= j < i ==> (#[trigger] r@[j])@ == self@.users[j],
            decreases self.users@.len() - i,
        {
            r.push(self.users[i].clone());
            i += 1;
        }
        proof {
            assert(r.deep_view() =~= self@.users);
        }
        r
    }

    /// `SELECT * FROM posts`: every post row, in insertion order.
    pub fn select_posts(&self) -> (r: Vec<Post>)
        ensures
            r.deep_view() == self@.posts,
    {
        let mut r: Vec<Post> = Vec::new();
        let mut i: usize = 0;
        while i < self.posts.len()
            invariant
                i <= self.posts.len(),
                r@.len() == i,
                forall|j: int| 0 <= j < i ==> (#[trigger] r@[j])@ == self@.posts[j],
            decreases self.posts@.len() - i,
        {
            r.push(self.posts[i].clone());
            i += 1;
        }
        proof {
            assert(r.deep_view() =~= self@.posts);
        }
        r
    }

    /// `SELECT * FROM users WHERE username = $1`: the matching row, if any.
    pub fn select_user_by_username(&self, name: &String) -> (r: Option<User>)
        requires
            self@.wf(),
        ensures
            r is Some <==> self@.has_username(name@),
            r matches Some(u) ==> u@ == self@.user_named(name@) && u@.username == name@,
    {
        match self.find_user_by_username(name) {
            Some(i) => {
                let u = self.users[i].clone();
                proof {
                    let k = self@.user_index(name@);
                    assert(self@.users[k].username == name@);
                    assert(k == i as int);
                }
                Some(u)
            },
            None => None,
        }
    }

    /// `SELECT * FROM posts WHERE id = $1`: the matching row, if any.
    pub fn select_post_by_id(&self, id: &String) -> (r: Option<Post>)
        requires
            self@.wf(),
        ensures
            r is Some <==> self@.has_post_id(id@),
            r matches Some(p) ==> p@ == self@.post_with_id(id@) && p@.id == id@,
    {
        match self.find_post_by_id(id) {
            Some(i) => {
                let p = self.posts[i].clone();
                proof {
                    let k = self@.post_index(id@);
                    assert(self@.posts[k].id == id@);
                    assert(k == i as int);
                }
                Some(p)
            },
            None => None,
        }
    }

    /// `INSERT INTO users (id, username) VALUES ($1, $2)`: appends the row,
    /// unless a uniqueness constraint (on the username or on the id) would
    /// break.
    pub fn insert_user(&mut self, user: User) -> (r: Result<(), StoreError>)
        requires
            old(self)@.wf(),
        ensures
            final(self)@.wf(),
            old(self)@.has_username(user@.username) || old(self)@.has_user_id(user@.id) ==> r
                == Err::<(), StoreError>(StoreError::UniqueViolation) && final(self)@ == old(self)@,
            !(old(self)@.has_username(user@.username) || old(self)@.has_user_id(user@.id)) ==> r
                == Ok::<(), StoreError>(()) && final(self)@.users == old(self)@.users.push(user@)
                && final(self)@.posts == old(self)@.posts,
    {
        let dup_name = self.find_user_by_username(&user.username);
        let dup_id = self.find_user_by_id(&user.id);
        if dup_name.is_some() || dup_id.is_some() {
            return Err(StoreError::UniqueViolation);
        }
        let ghost pre = self@;
        self.users.push(user);
        proof {
            assert(self@.users =~= pre.users.push(self@.users[pre.users.len() as int]));
            assert(self@.posts =~= pre.posts);
            assert forall|i: int, j: int| 0 <= i < j < self@.users.len() implies (
            #[trigger] self@.users[i]).username != (#[trigger] self@.users[j]).username by {
                if j < pre.users.len() {
                    assert(pre.users[i].username != pre.users[j].username);
                } else {
                    assert(!pre.has_username(self@.users[j].username));
                    assert(pre.users[i] == self@.users[i]);
                }
            }
            assert forall|i: int, j: int| 0 <= i < j < self@.users.len() implies (
            #[trigger] self@.users[i]).id != (#[trigger] self@.users[j]).id by {
                if j < pre.users.len() {
                    assert(pre.users[i].id != pre.users[j].id);
                } else {
                    assert(!pre.has_user_id(self@.users[j].id));
                    assert(pre.users[i] == self@.users[i]);
                }
            }
        }
        Ok(())
    }

    /// `INSERT INTO posts (id, user_id, message) VALUES ($1, $2, $3)`:
    /// appends the row, unless the primary-key constraint on the id would
    /// break.
    pub fn insert_post(&mut self, post: Post) -> (r: Result<(), StoreError>)
        requires
            old(self)@.wf(),
        ensures
            final(self)@.wf(),
            old(self)@.has_post_id(post@.id) ==> r == Err::<(), StoreError>(
                StoreError::UniqueViolation,
            ) && final(self)@ == old(self)@,
            !old(self)@.has_post_id(post@.id) ==> r == Ok::<(), StoreError>(())
                && final(self)@.posts == old(self)@.posts.push(post@)
                && final(self)@.users == old(self)@.users,
    {
        let dup_id = self.find_post_by_id(&post.id);
        if dup_id.is_some() {
            return Err(StoreError::UniqueViolation);
        }
        let ghost pre = self@;
        self.posts.push(post);
        proof {
            assert(self@.posts =~= pre.posts.push(self@.posts[pre.posts.len() as int]));
            assert(self@.users =~= pre.users);
            assert forall|i: int, j: int| 0 <= i < j < self@.posts.len() implies (
            #[trigger] self@.posts[i]).id != (#[trigger] self@.posts[j]).id by {
                if j < pre.posts.len() {
                    assert(pre.posts[i].id != pre.posts[j].id);
                } else {
                    assert(!pre.has_post_id(self@.posts[j].id));
                    assert(pre.posts[i] == self@.posts[i]);
                }
            }
        }
        Ok(())
    }

    /// `UPDATE users SET username = $1 WHERE id = $2`: rewrites the one
    /// matching row and reports how many rows that was, unless the rewrite
    /// would give another row's username to this one.
    pub fn update_user_username(&mut self, id: &String, new_name: &String) -> (r: Result<
        u64,
        StoreError,
    >)
        requires
            old(self)@.wf(),
        ensures
            final(self)@.wf(),
            (exists|i: int|
                0 <= i < old(self)@.users.len() && (#[trigger] old(self)@.users[i]).username
                    == new_name@ && old(self)@.users[i].id != id@) ==> r == Err::<u64, StoreError>(
                StoreError::UniqueViolation,
            ) && final(self)@ == old(self)@,
            !(exists|i: int|
                0 <= i < old(self)@.users.len() && (#[trigger] old(self)@.users[i]).username
                    == new_name@ && old(self)@.users[i].id != id@) && !old(self)@.has_user_id(id@)
                ==> r == Ok::<u64, StoreError>(0) && final(self)@ == old(self)@,
            !(exists|i: int|
                0 <= i < old(self)@.users.len() && (#[trigger] old(self)@.users[i]).username
                    == new_name@ && old(self)@.users[i].id != id@) && old(self)@.has_user_id(id@)
                ==> r == Ok::<u64, StoreError>(1) && (exists|i: int|
                0 <= i < old(self)@.users.len() && (#[trigger] old(self)@.users[i]).id == id@
                    && final(self)@.users == old(self)@.users.update(
                    i,
                    (UserView {
                        id: old(self)@.users[i].id,
                        username: new_name@,
                        created_at: old(self)@.users[i].created_at,
                    }),
                )) && final(self)@.posts == old(self)@.posts,
    {
        if self.has_username_conflict(id, new_name) {
            return Err(StoreError::UniqueViolation);
        }
        match self.find_user_by_id(id) {
            None => Ok(0),
            Some(i) => {
                let ghost pre = self@;
                self.users[i].username = new_name.clone();
                proof {
                    let updated = (UserView {
                        id: pre.users[i as int].id,
                        username: new_name@,
                        created_at: pre.users[i as int].created_at,
                    });
                    assert(self@.users =~= pre.users.update(i as int, updated));
                    assert(self@.posts =~= pre.posts);
                    assert forall|a: int, b: int| 0 <= a < b < self@.users.len() implies (
                    #[trigger] self@.users[a]).username != (#[trigger] self@.users[b]).username by {
                        if a != i as int && b != i as int {
                            assert(pre.users[a].username != pre.users[b].username);
                        } else {
                            let o = if a == i as int {
                                b
                            } else {
                                a
                            };
                            assert(pre.users[o].id != pre.users[i as int].id);
                            assert(pre.users[o].username != new_name@);
                        }
                    }
                    assert forall|a: int, b: int| 0 <= a < b < self@.users.len() implies (
                    #[trigger] self@.users[a]).id != (#[trigger] self@.users[b]).id by {
                        assert(pre.users[a].id != pre.users[b].id);
                    }
                }
                Ok(1)
            },
        }
    }

    /// Whether some other row (a different id) already holds this username:
    /// the condition under which the `UPDATE` breaks the constraint.
    fn has_username_conflict(&self, id: &String, new_name: &String) -> (r: bool)
        ensures
            r == exists|i: int|
                0 <= i < self@.users.len() && (#[trigger] self@.users[i]).username == new_name@
                    && self@.users[i].id != id@,
    {
        let mut i: usize = 0;
        while i < self.users.len()
            invariant
                i <= self.users.len(),
                forall|k: int|
                    0 <= k < i ==> !((#[trigger] self@.users[k]).username == new_name@
                        && self@.users[k].id != id@),
            decreases self.users@.len() - i,
        {
            if self.users[i].username == *new_name && self.users[i].id != *id {
                proof {
                    assert(self@.users[i as int].username == new_name@ && self@.users[i as int].id
                        != id@);
                }
                return true;
            }
            i += 1;
        }
        false
    }

    /// `DELETE FROM users WHERE username = $1`: removes the one matching
    /// row, if any, and reports how many rows that was.
    pub fn delete_user_by_username(&mut self, name: &String) -> (r: u64)
        requires
            old(self)@.wf(),
        ensures
            final(self)@.wf(),
            final(self)@.posts == old(self)@.posts,
            !old(self)@.has_username(name@) ==> r == 0 && final(self)@ == old(self)@,
            old(self)@.has_username(name@) ==> r == 1 && (exists|i: int|
                0 <= i < old(self)@.users.len() && (#[trigger] old(self)@.users[i]).username
                    == name@ && final(self)@.users == old(self)@.users.remove(i)),
            !final(self)@.has_username(name@),
    {
        match self.find_user_by_username(name) {
            None => 0,
            Some(i) => {
                let ghost pre = self@;
                self.users.remove(i);
                proof {
                    assert(self@.users =~= pre.users.remove(i as int));
                    assert(self@.posts =~= pre.posts);
                    assert forall|a: int, b: int| 0 <= a < b < self@.users.len() implies (
                    #[trigger] self@.users[a]).username != (#[trigger] self@.users[b]).username by {
                        let a0 = if a < i as int {
                            a
                        } else {
                            a + 1
                        };
                        let b0 = if b < i as int {
                            b
                        } else {
                            b + 1
                        };
                        assert(pre.users[a0].username != pre.users[b0].username);
                    }
                    assert forall|a: int, b: int| 0 <= a < b < self@.users.len() implies (
                    #[trigger] self@.users[a]).id != (#[trigger] self@.users[b]).id by {
                        let a0 = if a < i as int {
                            a
                        } else {
                            a + 1
                        };
                        let b0 = if b < i as int {
                            b
                        } else {
                            b + 1
                        };
                        assert(pre.users[a0].id != pre.users[b0].id);
                    }
                    assert forall|k: int| 0 <= k < self@.users.len() implies (
                    #[trigger] self@.users[k]).username != name@ by {
                        let k0 = if k < i as int {
                            k
                        } else {
                            k + 1
                        };
                        assert(pre.users[k0].username == self@.users[k].username);
                        if k0 != i as int {
                            assert(pre.usernames_unique());
                            assert(pre.users[i as int].username == name@);
                        }
                    }
                }
                1
            },
        }
    }

    /// `DELETE FROM posts WHERE id = $1`: removes the one matching row, if
    /// any, and reports how many rows that was.
    pub fn delete_post_by_id(&mut self, id: &String) -> (r: u64)
        requires
            old(self)@.wf(),
        ensures
            final(self)@.wf(),
            final(self)@.users == old(self)@.users,
            !old(self)@.has_post_id(id@) ==> r == 0 && final(self)@ == old(self)@,
            old(self)@.has_post_id(id@) ==> r == 1 && (exists|i: int|
                0 <= i < old(self)@.posts.len() && (#[trigger] old(self)@.posts[i]).id == id@
                    && final(self)@.posts == old(self)@.posts.remove(i)),
            !final(self)@.has_post_id(id@),
    {
        match self.find_post_by_id(id) {
            None => 0,
            Some(i) => {
                let ghost pre = self@;
                self.posts.remove(i);
                proof {
                    assert(self@.posts =~= pre.posts.remove(i as int));
                    assert(self@.users =~= pre.users);
                    assert forall|a: int, b: int| 0 <= a < b < self@.posts.len() implies (
                    #[trigger] self@.posts[a]).id != (#[trigger] self@.posts[b]).id by {
                        let a0 = if a < i as int {
                            a
                        } else {
                            a + 1
                        };
                        let b0 = if b < i as int {
                            b
                        } else {
                            b + 1
                        };
                        assert(pre.posts[a0].id != pre.posts[b0].id);
                    }
                    assert forall|k: int| 0 <= k < self@.posts.len() implies (
                    #[trigger] self@.posts[k]).id != id@ by {
                        let k0 = if k < i as int {
                            k
                        } else {
                            k + 1
                        };
                        assert(pre.posts[k0].id == self@.posts[k].id);
                        if k0 != i as int {
                            assert(pre.post_ids_unique());
                            assert(pre.posts[i as int].id == id@);
                        }
                    }
                }
                1
            },
        }
    }
}

} // verus!
