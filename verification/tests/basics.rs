use hotel_orders::clock::{day_start, seconds, stamp, timestamp, utc_now_ms, EARLIEST_MS, LATEST_MS};
use hotel_orders::error::{AppError, Status, StoreFailure};
use hotel_orders::ids::{new_id, new_ids};
use hotel_orders::json::{read_tags, write_tags};
use hotel_orders::text::{has_ink, joined, qr_link, reads};
use std::time::{Duration, UNIX_EPOCH};

#[test]
fn blank_texts_have_no_ink() {
    assert!(!has_ink(""));
    assert!(!has_ink(" \t\r\n\u{a0}\u{3000}\u{2028}"));
    assert!(has_ink("  x "));
    assert!(has_ink("\u{200b}"));
}

#[test]
fn joined_and_reads() {
    assert_eq!(joined("ab", "c\u{e9}"), "abc\u{e9}");
    assert!(reads(&"new".to_string(), "new"));
    assert!(!reads(&"new".to_string(), "New"));
}

#[test]
fn qr_link_names_org_and_table() {
    assert_eq!(
        qr_link("https://order.wayfarer.app", "123", "t1"),
        "https://order.wayfarer.app?orgId=123&tableId=t1"
    );
}

#[test]
fn status_codes() {
    assert_eq!(Status::BadRequest.code(), 400);
    assert_eq!(Status::Unauthorized.code(), 401);
    assert_eq!(Status::Forbidden.code(), 403);
    assert_eq!(Status::NotFound.code(), 404);
    assert_eq!(Status::InternalServerError.code(), 500);
}

#[test]
fn errors_carry_status_and_message() {
    let all = [
        (AppError::bad_request("a"), Status::BadRequest, "a"),
        (AppError::not_found("b"), Status::NotFound, "b"),
        (AppError::unauthorized("c"), Status::Unauthorized, "c"),
        (AppError::forbidden("d"), Status::Forbidden, "d"),
        (AppError::internal("e"), Status::InternalServerError, "e"),
        (AppError::new(Status::NotFound, "f"), Status::NotFound, "f"),
        (AppError::from_hashing("x"), Status::InternalServerError, "password hashing error: x"),
        (AppError::from_token("y"), Status::Unauthorized, "invalid token: y"),
        (AppError::from_store(&StoreFailure::NoRows), Status::NotFound, "Not found"),
        (
            AppError::from_store(&StoreFailure::Other("disk full".to_string())),
            Status::InternalServerError,
            "disk full",
        ),
    ];
    for (e, status, message) in all {
        assert_eq!(e.status, status);
        assert_eq!(e.message, message);
    }
}

#[test]
fn days_start_at_midnight_utc() {
    assert_eq!(day_start(0), 0);
    assert_eq!(day_start(1_000_000_000_555), 999_993_600_000);
    assert_eq!(day_start(-1), -86_400_000);
    assert_eq!(day_start(86_400_000), 86_400_000);
    assert_eq!(day_start(EARLIEST_MS), EARLIEST_MS);
    assert_eq!(day_start(LATEST_MS), LATEST_MS - 86_399_999);
}

#[test]
fn calendar_bounds_are_those_of_chrono() {
    assert_eq!(chrono::DateTime::<chrono::Utc>::MIN_UTC.timestamp_millis(), EARLIEST_MS);
    assert_eq!(chrono::DateTime::<chrono::Utc>::MAX_UTC.timestamp_millis(), LATEST_MS);
}

#[test]
fn seconds_round_down() {
    assert_eq!(seconds(1_999), 1);
    assert_eq!(seconds(-1), -1);
    assert_eq!(seconds(-1_000), -1);
}

#[test]
fn timestamps_keep_the_low_bits() {
    assert_eq!(timestamp(1_700_000_000_000), 1_700_000_000_000);
    assert_eq!(timestamp(u64::MAX as u128), -1);
}

#[test]
fn stamps_are_owed_from_the_epoch_on() {
    let later = UNIX_EPOCH + Duration::from_millis(1_500);
    assert_eq!(stamp(later.duration_since(UNIX_EPOCH).map(|d| d.as_millis())), Some(1_500));
    assert_eq!(stamp(Ok(u64::MAX as u128)), Some(-1));
    assert_eq!(stamp(UNIX_EPOCH.duration_since(later).map(|d| d.as_millis())), None);
}

#[test]
fn clocks_agree() {
    let a = hotel_orders::clock::now_ms().unwrap();
    let b = utc_now_ms();
    assert!(b - a < 60_000 && a - b < 60_000);
    assert!(b > 1_700_000_000_000);
}

#[test]
fn ids_are_random_uuids() {
    let list = new_ids(20);
    assert_eq!(list.len(), 20);
    for id in &list {
        assert_eq!(id.len(), 36);
        for (i, c) in id.chars().enumerate() {
            match i {
                8 | 13 | 18 | 23 => assert_eq!(c, '-'),
                14 => assert_eq!(c, '4'),
                19 => assert!(['8', '9', 'a', 'b'].contains(&c)),
                _ => assert!(c.is_ascii_digit() || ('a'..='f').contains(&c)),
            }
        }
    }
    assert_ne!(list[0], list[1]);
    assert_ne!(new_id(), new_id());
    assert_eq!(new_ids(0).len(), 0);
}

#[test]
fn tags_are_read_as_written() {
    let tags = vec!["veg".to_string(), "say \"hi\"".to_string(), "\u{1f35d}".to_string()];
    let text = write_tags(&tags);
    assert_eq!(text, "[\"veg\",\"say \\\"hi\\\"\",\"\u{1f35d}\"]");
    assert_eq!(read_tags(&text), tags);
    assert_eq!(write_tags(&vec![]), "[]");
}

#[test]
fn unreadable_tags_are_none() {
    assert!(read_tags("").is_empty());
    assert!(read_tags("{}").is_empty());
    assert!(read_tags("[1]").is_empty());
    assert_eq!(read_tags(" [ \"a\" ] "), vec!["a".to_string()]);
}
