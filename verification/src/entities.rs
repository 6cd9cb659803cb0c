//! The entity layer: in-memory values of stored rows.
//!
//! A `User` or `Post` is built either fresh — with a generated identifier and
//! the current time — or decoded from a stored row, whose `created_at` column
//! is text in the fixed shape that [`crate::datetime`] defines.

use vstd::prelude::*;

use crate::datetime::{datetime_of_text, text_shape_ok, DateTime};
use chrono::{Datelike, Timelike};

verus! {

/// Abstract value of a user row.
pub struct UserView {
    pub id: Seq<char>,
    pub username: Seq<char>,
    pub created_at: DateTime,
}

/// A user row: an opaque unique identifier, a unique username, and the
/// creation instant.
#[derive(Debug, PartialEq)]
pub struct User {
    pub id: String,
    pub username: String,
    pub created_at: DateTime,
}

impl View for User {
    type V = UserView;

    open spec fn view(&self) -> UserView {
        UserView { id: self.id@, username: self.username@, created_at: self.created_at }
    }
}

impl DeepView for User {
    type V = UserView;

    open spec fn deep_view(&self) -> UserView {
        self@
    }
}

impl Clone for User {
    fn clone(&self) -> (r: Self)
        ensures
            r@ == self@,
    {
        User { id: self.id.clone(), username: self.username.clone(), created_at: self.created_at }
    }
}

/// Abstract value of a post row.
pub struct PostView {
    pub id: Seq<char>,
    pub user_id: Seq<char>,
    pub message: Seq<char>,
    pub created_at: DateTime,
}

/// A post row: an opaque unique identifier, the author's user id (advisory,
/// not enforced), the message, and the creation instant.
#[derive(Debug, PartialEq)]
pub struct Post {
    pub id: String,
    pub user_id: String,
    pub message: String,
    pub created_at: DateTime,
}

impl View for Post {
    type V = PostView;

    open spec fn view(&self) -> PostView {
        PostView {
            id: self.id@,
            user_id: self.user_id@,
            message: self.message@,
            created_at: self.created_at,
        }
    }
}

impl DeepView for Post {
    type V = PostView;

    open spec fn deep_view(&self) -> PostView {
        self@
    }
}

impl Clone for Post {
    fn clone(&self) -> (r: Self)
        ensures
            r@ == self@,
    {
        Post {
            id: self.id.clone(),
            user_id: self.user_id.clone(),
            message: self.message.clone(),
            created_at: self.created_at,
        }
    }
}

/// Relies on `uuid::Uuid::new_v4` and its `Display` form: the hyphenated
/// lower-case text of a UUID is exactly 36 characters. The value itself is
/// random, so nothing more is promised.
#[verifier::external_body]
fn fresh_id() -> (r: String)
    ensures
        r@.len() == 36,
{
    uuid::Uuid::new_v4().to_string()
}

/// Relies on `chrono::offset::Local::now`, `DateTime::naive_utc`, and the
/// `Datelike`/`Timelike` accessors: month ranges over 1..=12, day over
/// 1..=31, hour over 0..=23, minute and second over 0..=59. The year is the
/// clock's and gets no promise.
#[verifier::external_body]
fn clock_now() -> (r: (i32, u32, u32, u32, u32, u32))
    ensures
        1 <= r.1 <= 12,
        1 <= r.2 <= 31,
        r.3 <= 23,
        r.4 <= 59,
        r.5 <= 59,
{
    let t = chrono::offset::Local::now().naive_utc();
    (t.year(), t.month(), t.day(), t.hour(), t.minute(), t.second())
}

/// The current instant, clamped to a representable calendar timestamp: a
/// clock reading outside the four-digit-year range (or one the calendar
/// check refuses) falls back to the epoch instant.
pub fn now_utc() -> (r: DateTime)
    ensures
        r.valid(),
{
    let (year, month, day, hour, minute, second) = clock_now();
    if 0 <= year && year <= 9999 {
        if let Some(dt) = DateTime::new(year as u32, month, day, hour, minute, second) {
            return dt;
        }
    }
    DateTime { year: 1970, month: 1, day: 1, hour: 0, minute: 0, second: 0 }
}

impl User {
    /// Construct a fresh user: a generated 36-character id, the given
    /// username, and the current time.
    pub fn new(username: String) -> (r: User)
        ensures
            r@.username == username@,
            r@.id.len() == 36,
            r@.created_at.valid(),
    {
        User { id: fresh_id(), username, created_at: now_utc() }
    }

    /// Decode a stored row. A malformed `created_at` text is a fatal
    /// decoding error, reported as `None`.
    pub fn from_row(id: String, username: String, created_at: &[u8]) -> (r: Option<User>)
        ensures
            r is Some <==> (text_shape_ok(created_at@) && datetime_of_text(created_at@).valid()),
            r matches Some(u) ==> u@ == (UserView {
                id: id@,
                username: username@,
                created_at: datetime_of_text(created_at@),
            }),
    {
        match DateTime::parse(created_at) {
            Some(dt) => Some(User { id, username, created_at: dt }),
            None => None,
        }
    }
}

impl Post {
    /// Construct a fresh post: a generated 36-character id, the given author
    /// id and message, and the current time.
    pub fn new(user_id: String, message: String) -> (r: Post)
        ensures
            r@.user_id == user_id@,
            r@.message == message@,
            r@.id.len() == 36,
            r@.created_at.valid(),
    {
        Post { id: fresh_id(), user_id, message, created_at: now_utc() }
    }

    /// Decode a stored row. A malformed `created_at` text is a fatal
    /// decoding error, reported as `None`.
    pub fn from_row(id: String, user_id: String, message: String, created_at: &[u8]) -> (r: Option<
        Post,
    >)
        ensures
            r is Some <==> (text_shape_ok(created_at@) && datetime_of_text(created_at@).valid()),
            r matches Some(p) ==> p@ == (PostView {
                id: id@,
                user_id: user_id@,
                message: message@,
                created_at: datetime_of_text(created_at@),
            }),
    {
        match DateTime::parse(created_at) {
            Some(dt) => Some(Post { id, user_id, message, created_at: dt }),
            None => None,
        }
    }
}

} // verus!
