use feed_store::feed::{DataIntegrityError, Feed, FeedRow};
use feed_store::repository::{feed_from_row, feeds_from_rows};
use feed_store::status::{FeedStatus, InvalidStatus};
use feed_store::timestamp::{Timestamp, MAX_SECS, MIN_SECS};

fn at(secs: i64) -> Timestamp {
    Timestamp::new(secs, 0, 3600).unwrap()
}

fn row(id: i32, status: &str) -> FeedRow {
    FeedRow {
        id,
        title: format!("title {}", id),
        link: format!("https://example.org/{}", id),
        status: status.to_string(),
        checked_at: at(1_700_000_000 + id as i64),
    }
}

#[test]
fn status_renders_lowercase() {
    assert_eq!(FeedStatus::Subscribed.to_string(), "subscribed");
    assert_eq!(FeedStatus::Unsubscribed.to_string(), "unsubscribed");
}

#[test]
fn status_parses_exact_spellings() {
    assert_eq!(FeedStatus::from_str("subscribed"), Ok(FeedStatus::Subscribed));
    assert_eq!(FeedStatus::from_str("unsubscribed"), Ok(FeedStatus::Unsubscribed));
}

#[test]
fn status_round_trips() {
    for s in [FeedStatus::Subscribed, FeedStatus::Unsubscribed] {
        assert_eq!(FeedStatus::from_str(s.to_string().as_str()), Ok(s));
    }
}

#[test]
fn status_parse_rejects_other_case_and_whitespace() {
    assert_eq!(FeedStatus::from_str("SUBSCRIBED"), Err(InvalidStatus));
    assert_eq!(FeedStatus::from_str(" subscribed "), Err(InvalidStatus));
}

#[test]
fn status_parse_rejects_other_texts() {
    for t in ["", "Subscribed", "subscribe", "subscribedx", "un subscribed", "active"] {
        assert_eq!(FeedStatus::from_str(t), Err(InvalidStatus));
    }
}

#[test]
fn timestamp_keeps_its_parts() {
    let t = Timestamp::new(1_700_000_000, 123_456_789, -18_000).unwrap();
    assert_eq!(t.secs(), 1_700_000_000);
    assert_eq!(t.nanos(), 123_456_789);
    assert_eq!(t.offset(), -18_000);
}

#[test]
fn timestamp_bounds_are_those_of_chrono() {
    assert!(Timestamp::new(MIN_SECS, 0, 0).is_some());
    assert!(Timestamp::new(MAX_SECS, 999_999_999, 0).is_some());
    assert!(Timestamp::new(MIN_SECS - 1, 0, 0).is_none());
    assert!(Timestamp::new(MAX_SECS + 1, 0, 0).is_none());
    assert!(Timestamp::new(i64::MIN, 0, 0).is_none());
    assert!(Timestamp::new(i64::MAX, 0, 0).is_none());
    assert_eq!(MIN_SECS, -8_334_601_228_800);
    assert_eq!(MAX_SECS, 8_210_266_876_799);
    assert_eq!(chrono::DateTime::<chrono::Utc>::MIN_UTC.timestamp(), MIN_SECS);
    assert_eq!(chrono::DateTime::<chrono::Utc>::MAX_UTC.timestamp(), MAX_SECS);
    assert!(chrono::DateTime::from_timestamp(MIN_SECS, 0).is_some());
    assert!(chrono::DateTime::from_timestamp(MAX_SECS, 1_999_999_999).is_some());
    assert!(chrono::DateTime::from_timestamp(MIN_SECS - 1, 0).is_none());
    assert!(chrono::DateTime::from_timestamp(MAX_SECS + 1, 0).is_none());
}

#[test]
fn timestamp_rejects_offsets_of_a_day() {
    assert!(Timestamp::new(0, 0, 86_399).is_some());
    assert!(Timestamp::new(0, 0, -86_399).is_some());
    assert!(Timestamp::new(0, 0, 86_400).is_none());
    assert!(Timestamp::new(0, 0, -86_400).is_none());
}

#[test]
fn timestamp_takes_a_leap_second_only_in_the_last_second() {
    assert!(Timestamp::new(59, 1_500_000_000, 0).is_some());
    assert!(Timestamp::new(-1, 1_500_000_000, 0).is_some());
    assert!(Timestamp::new(0, 1_500_000_000, 0).is_none());
    assert!(Timestamp::new(58, 1_000_000_000, 0).is_none());
    assert!(Timestamp::new(59, 2_000_000_000, 0).is_none());
}

#[test]
fn timestamp_in_utc_keeps_the_instant() {
    let t = Timestamp::new(1_700_000_000, 5, 7200).unwrap();
    assert_eq!(t.in_utc(), Timestamp::new(1_700_000_000, 5, 0).unwrap());
    assert_eq!(t.in_utc().in_utc(), t.in_utc());
}

#[test]
fn timestamp_now_is_in_utc() {
    let before = chrono::Utc::now().timestamp();
    let t = Timestamp::now();
    let after = chrono::Utc::now().timestamp();
    assert_eq!(t.offset(), 0);
    assert_eq!(Timestamp::new(t.secs(), t.nanos(), 0), Some(t));
    assert!(before <= t.secs() && t.secs() <= after);
}

#[test]
fn row_maps_to_feed() {
    let feed = Feed::from_row(&row(7, "unsubscribed")).unwrap();
    assert_eq!(
        feed,
        Feed {
            id: 7,
            title: "title 7".to_string(),
            link: "https://example.org/7".to_string(),
            status: FeedStatus::Unsubscribed,
            checked_at: at(1_700_000_007),
        }
    );
}

#[test]
fn row_with_unknown_status_is_a_data_integrity_error() {
    assert_eq!(Feed::from_row(&row(4, "paused")), Err(DataIntegrityError { id: 4 }));
    assert_eq!(Feed::from_row(&row(5, "Subscribed")), Err(DataIntegrityError { id: 5 }));
}

#[test]
fn rows_map_in_order() {
    let rows = vec![row(3, "subscribed"), row(1, "unsubscribed"), row(2, "subscribed")];
    let feeds = feeds_from_rows(&rows).unwrap();
    assert_eq!(feeds.len(), 3);
    assert_eq!(feeds[0].id, 3);
    assert_eq!(feeds[1].id, 1);
    assert_eq!(feeds[2].id, 2);
    assert_eq!(feeds[1].status, FeedStatus::Unsubscribed);
    assert_eq!(feeds[2].title, "title 2");
}

#[test]
fn no_rows_map_to_no_feeds() {
    assert_eq!(feeds_from_rows(&Vec::new()), Ok(Vec::new()));
}

#[test]
fn rows_fail_on_the_first_unknown_status() {
    let rows = vec![row(1, "subscribed"), row(2, "gone"), row(3, "lost")];
    assert_eq!(feeds_from_rows(&rows), Err(DataIntegrityError { id: 2 }));
}

#[test]
fn missing_row_is_no_feed_and_no_error() {
    assert_eq!(feed_from_row(None), Ok(None));
}

#[test]
fn one_row_maps_as_in_a_read_of_all() {
    let rows = vec![row(1, "subscribed"), row(2, "unsubscribed")];
    let feeds = feeds_from_rows(&rows).unwrap();
    assert_eq!(feed_from_row(Some(row(1, "subscribed"))).unwrap().as_ref(), Some(&feeds[0]));
    assert_eq!(feed_from_row(Some(row(2, "unsubscribed"))).unwrap().as_ref(), Some(&feeds[1]));
}

#[test]
fn one_row_with_unknown_status_fails() {
    assert_eq!(feed_from_row(Some(row(9, "unknown"))), Err(DataIntegrityError { id: 9 }));
}
