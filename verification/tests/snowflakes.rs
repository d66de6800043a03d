use chrono::{DateTime, Utc};
use itchat::utils::snowflakes::{Snowflake, ITCHAT_EPOCH_MILLIS};
use snowflake::SnowflakeIdGenerator;
use std::time::{Duration, UNIX_EPOCH};

fn generator() -> SnowflakeIdGenerator {
    SnowflakeIdGenerator::with_epoch(0, 0, UNIX_EPOCH + Duration::from_millis(ITCHAT_EPOCH_MILLIS))
}

#[test]
fn test_snowflake_generate() {
    let id = Snowflake::generate(&mut generator());
    assert!(id.is_positive());
}

#[test]
fn test_snowflake_created_at() {
    let id = Snowflake::generate(&mut generator());

    let waited_from = Utc::now();
    while Utc::now() < waited_from + chrono::Duration::milliseconds(100) {}

    let now = Utc::now();
    let created_at = DateTime::<Utc>::from_timestamp(id.created_at_secs(), 0).unwrap();

    assert!(created_at < now);
    assert!((id.created_at_timestamp().as_millis() as i64) < now.timestamp_millis());
}

#[test]
fn created_at_of_known_ids() {
    // An id whose upper bits count 1000 ms after the ItChat epoch.
    let id = Snowflake(1000 << 22 | 5);
    assert_eq!(id.created_at_timestamp(), Duration::from_millis(1609459201000));
    assert_eq!(id.created_at_secs(), 1609459201);
    // The epoch itself.
    assert_eq!(Snowflake(0).created_at_timestamp(), Duration::from_millis(1609459200000));
    // 1500 ms keeps the half second.
    assert_eq!(Snowflake(1500 << 22).created_at_timestamp(), Duration::from_millis(1609459201500));
}

#[test]
fn generated_ids_increase() {
    let mut g = generator();
    let a = Snowflake::generate(&mut g);
    let b = Snowflake::generate(&mut g);
    assert!(b.0 > a.0);
}

#[test]
fn snowflake_text() {
    assert_eq!(Snowflake(1234567890123).to_string(), "1234567890123");
    assert_eq!(Snowflake(-42).to_string(), "-42");
    assert_eq!(Snowflake::try_from_str("1234567890123"), Some(Snowflake(1234567890123)));
    assert_eq!(Snowflake::try_from_str("+7"), Some(Snowflake(7)));
    assert_eq!(Snowflake::try_from_str("-9223372036854775808"), Some(Snowflake(i64::MIN)));
    assert_eq!(Snowflake::try_from_str("9223372036854775808"), None);
    assert_eq!(Snowflake::try_from_str("12a"), None);
    assert_eq!(Snowflake::try_from_str(""), None);
    assert_eq!(Snowflake::try_from_str("-"), None);
    let id = Snowflake(987654321);
    assert_eq!(Snowflake::try_from_str(&id.to_string()), Some(id));
    assert_eq!(Snowflake::from(5i64), Snowflake(5));
}
