//! The stored timestamp text: encoding, decoding, the calendar check, and
//! row decoding through the entity layer.

use twitter_crud::datetime::DateTime;
use twitter_crud::entities::{Post, User};

fn instant(year: u32, month: u32, day: u32, hour: u32, minute: u32, second: u32) -> DateTime {
    DateTime::new(year, month, day, hour, minute, second).expect("a real calendar instant")
}

#[test]
fn format_writes_the_fixed_shape() {
    let dt = instant(2024, 2, 29, 12, 34, 56);
    assert_eq!(dt.format(), b"2024-02-29 12:34:56".to_vec());

    let dt = instant(5, 1, 1, 0, 0, 0);
    assert_eq!(dt.format(), b"0005-01-01 00:00:00".to_vec());
}

#[test]
fn parse_reads_back_what_format_wrote() {
    let dt = instant(1999, 12, 31, 23, 59, 59);
    assert_eq!(DateTime::parse(&dt.format()), Some(dt));
}

#[test]
fn parse_accepts_only_real_calendar_instants() {
    assert_eq!(
        DateTime::parse(b"2023-06-15 08:05:00"),
        Some(instant(2023, 6, 15, 8, 5, 0))
    );
    // No February 29 outside a leap year, no month 13, no hour 24.
    assert_eq!(DateTime::parse(b"2023-02-29 08:05:00"), None);
    assert_eq!(DateTime::parse(b"2024-02-29 08:05:00"), Some(instant(2024, 2, 29, 8, 5, 0)));
    assert_eq!(DateTime::parse(b"2100-02-29 08:05:00"), None);
    assert_eq!(DateTime::parse(b"2000-02-29 08:05:00"), Some(instant(2000, 2, 29, 8, 5, 0)));
    assert_eq!(DateTime::parse(b"2023-13-01 08:05:00"), None);
    assert_eq!(DateTime::parse(b"2023-06-15 24:05:00"), None);
    assert_eq!(DateTime::parse(b"2023-04-31 08:05:00"), None);
}

#[test]
fn parse_rejects_malformed_text() {
    assert_eq!(DateTime::parse(b""), None);
    assert_eq!(DateTime::parse(b"2023-06-15"), None);
    assert_eq!(DateTime::parse(b"2023-06-15T08:05:00"), None);
    assert_eq!(DateTime::parse(b"2023-06-15 08:05:0x"), None);
    assert_eq!(DateTime::parse(b"2023-06-15 08:05:00 "), None);
}

#[test]
fn datetime_new_rejects_out_of_range_fields() {
    assert!(DateTime::new(10000, 1, 1, 0, 0, 0).is_none());
    assert!(DateTime::new(2023, 0, 1, 0, 0, 0).is_none());
    assert!(DateTime::new(2023, 1, 0, 0, 0, 0).is_none());
    assert!(DateTime::new(2023, 1, 1, 0, 0, 60).is_none());
    assert!(DateTime::new(2023, 1, 1, 0, 60, 0).is_none());
    assert!(DateTime::new(9999, 12, 31, 23, 59, 59).is_some());
}

#[test]
fn is_valid_decides_the_calendar_check() {
    assert!(instant(2024, 2, 29, 0, 0, 0).is_valid());
    let bogus = DateTime {
        year: 2023,
        month: 2,
        day: 29,
        hour: 0,
        minute: 0,
        second: 0,
    };
    assert!(!bogus.is_valid());
}

#[test]
fn user_row_decoding_reads_the_columns() {
    let user = User::from_row(
        "some-id".to_string(),
        "ada".to_string(),
        b"2023-06-15 08:05:00",
    )
    .expect("a well-formed row");
    assert_eq!(user.id, "some-id");
    assert_eq!(user.username, "ada");
    assert_eq!(user.created_at, instant(2023, 6, 15, 8, 5, 0));
}

#[test]
fn post_row_decoding_rejects_malformed_timestamps() {
    let row = Post::from_row(
        "some-id".to_string(),
        "author".to_string(),
        "hello".to_string(),
        b"yesterday at noon",
    );
    assert!(row.is_none());

    let row = Post::from_row(
        "some-id".to_string(),
        "author".to_string(),
        "hello".to_string(),
        b"2023-06-15 08:05:00",
    )
    .expect("a well-formed row");
    assert_eq!(row.message, "hello");
    assert_eq!(row.user_id, "author");
}

#[test]
fn fresh_entities_carry_valid_instants() {
    let user = User::new("ada".to_string());
    let formatted = user.created_at.format();
    assert_eq!(formatted.len(), 19);
    assert_eq!(DateTime::parse(&formatted), Some(user.created_at));

    let post = Post::new("author".to_string(), "hello".to_string());
    assert_eq!(post.user_id, "author");
    assert_eq!(post.message, "hello");
    assert_eq!(post.id.len(), 36);
}
