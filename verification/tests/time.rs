use snowflake::snowflake::checked_time;
use snowflake::{Snowflake, SnowflakeError};
use time::OffsetDateTime;

const EPOCH_NANOS: i128 = 1_420_070_400_000_000_000;

fn at(nanos: i128) -> OffsetDateTime {
    OffsetDateTime::from_unix_timestamp_nanos(nanos).unwrap()
}

#[test]
fn creation_time_of_zero_delta_is_the_epoch() {
    let id = Snowflake::new(1).unwrap();
    let t = id.creation_time().unwrap();
    assert_eq!(t.unix_timestamp_nanos(), EPOCH_NANOS);
    assert_eq!(t.unix_timestamp(), 1_420_070_400);
    assert_eq!(t.year(), 2015);
    assert_eq!(t.ordinal(), 1);
}

#[test]
fn creation_time_of_the_largest_delta() {
    let id = Snowflake::new(u64::MAX).unwrap();
    let t = id.creation_time().unwrap();
    assert_eq!(t.unix_timestamp_nanos(), 5_818_116_911_103_000_000);
    assert_eq!(t.year(), 2154);
}

#[test]
fn creation_time_of_the_worked_example() {
    let id = Snowflake::parse("175928847299117063").unwrap();
    let t = id.creation_time().unwrap();
    assert_eq!(t.unix_timestamp_nanos(), 1_462_015_105_796_000_000);
    assert_eq!(t.unix_timestamp(), 1_462_015_105);
    assert_eq!(t.millisecond(), 796);
    assert_eq!(t, at(1_462_015_105_796_000_000));
}

#[test]
fn checked_time_keeps_a_date_time() {
    let t = at(EPOCH_NANOS);
    assert_eq!(checked_time(Ok(t)), Ok(t));
}

#[test]
fn checked_time_turns_a_refusal_into_out_of_range() {
    let refused = OffsetDateTime::from_unix_timestamp_nanos(i128::MAX);
    assert!(refused.is_err());
    assert_eq!(
        checked_time(refused),
        Err(SnowflakeError::TimestampOutOfRange)
    );
}

#[test]
fn from_unix_nanos_fills_only_the_timestamp_field() {
    let id = Snowflake::from_unix_nanos(1_462_015_105_796_000_000).unwrap();
    assert_eq!(id.get(), 41944705796 << 22);
    assert_eq!(id.get(), 175928847298985984);
    assert_eq!(id.timestamp_delta(), 41944705796);
    assert_eq!(id.get_internal_worker_id(), 0);
    assert_eq!(id.get_internal_process_id(), 0);
    assert_eq!(id.get_increment(), 0);
}

#[test]
fn from_unix_nanos_cuts_to_whole_milliseconds() {
    let id = Snowflake::from_unix_nanos(EPOCH_NANOS + 1_999_999).unwrap();
    assert_eq!(id.get(), 1 << 22);
    let id = Snowflake::from_unix_nanos(EPOCH_NANOS + 2_000_000).unwrap();
    assert_eq!(id.get(), 2 << 22);
}

#[test]
fn from_unix_nanos_before_the_epoch_underflows() {
    for nanos in [EPOCH_NANOS - 1, EPOCH_NANOS - 1_000_000, 0, -1, i128::MIN] {
        assert_eq!(
            Snowflake::from_unix_nanos(nanos),
            Err(SnowflakeError::EpochUnderflow)
        );
    }
}

#[test]
fn from_unix_nanos_in_the_first_millisecond_has_no_identifier() {
    for nanos in [EPOCH_NANOS, EPOCH_NANOS + 1, EPOCH_NANOS + 999_999] {
        assert_eq!(
            Snowflake::from_unix_nanos(nanos),
            Err(SnowflakeError::InvalidIdentifier)
        );
    }
    assert!(Snowflake::from_unix_nanos(EPOCH_NANOS + 1_000_000).is_ok());
}

#[test]
fn from_unix_nanos_beyond_the_field_is_out_of_range() {
    let last = 5_818_116_911_103_999_999;
    let id = Snowflake::from_unix_nanos(last).unwrap();
    assert_eq!(id.timestamp_delta(), (1 << 42) - 1);
    assert_eq!(id.get(), ((1u64 << 42) - 1) << 22);
    for nanos in [last + 1, last + 1_000_000, i128::MAX] {
        assert_eq!(
            Snowflake::from_unix_nanos(nanos),
            Err(SnowflakeError::TimestampOutOfRange)
        );
    }
}

#[test]
fn from_timestamp_reads_the_instant() {
    let id = Snowflake::from_timestamp(at(1_462_015_105_796_123_456)).unwrap();
    assert_eq!(id.get(), 41944705796 << 22);
}

#[test]
fn from_timestamp_before_the_epoch_underflows() {
    assert_eq!(
        Snowflake::from_timestamp(OffsetDateTime::UNIX_EPOCH),
        Err(SnowflakeError::EpochUnderflow)
    );
    assert_eq!(
        Snowflake::from_timestamp(at(EPOCH_NANOS - 1)),
        Err(SnowflakeError::EpochUnderflow)
    );
    assert_eq!(
        Snowflake::from_timestamp(at(-1_000_000_000_000_000_000)),
        Err(SnowflakeError::EpochUnderflow)
    );
}

#[test]
fn from_timestamp_at_the_epoch_has_no_identifier() {
    assert_eq!(
        Snowflake::from_timestamp(at(EPOCH_NANOS)),
        Err(SnowflakeError::InvalidIdentifier)
    );
}

#[test]
fn from_timestamp_far_in_the_future_is_out_of_range() {
    assert_eq!(
        Snowflake::from_timestamp(at(200_000_000_000_000_000_000)),
        Err(SnowflakeError::TimestampOutOfRange)
    );
}

#[test]
fn from_timestamp_does_not_depend_on_the_offset() {
    let utc = at(1_462_015_105_796_000_000);
    let east = utc.to_offset(time::UtcOffset::from_hms(5, 30, 0).unwrap());
    assert_eq!(
        Snowflake::from_timestamp(east),
        Snowflake::from_timestamp(utc)
    );
}

#[test]
fn creation_time_undoes_from_timestamp_to_the_millisecond() {
    for nanos in [
        EPOCH_NANOS + 1_000_000,
        EPOCH_NANOS + 1_000_001,
        1_462_015_105_796_000_000,
        1_462_015_105_796_999_999,
        5_818_116_911_103_999_999,
    ] {
        let ts = at(nanos);
        let id = Snowflake::from_timestamp(ts).unwrap();
        let back = id.creation_time().unwrap();
        let lost = ts.unix_timestamp_nanos() - back.unix_timestamp_nanos();
        assert!((0..1_000_000).contains(&lost), "{nanos}");
        assert_eq!(back.unix_timestamp_nanos(), nanos / 1_000_000 * 1_000_000);
    }
}

#[test]
fn from_timestamp_undoes_creation_time_up_to_the_low_fields() {
    let id = Snowflake::new(175928847299117063).unwrap();
    let bound = Snowflake::from_timestamp(id.creation_time().unwrap()).unwrap();
    assert_eq!(bound.get(), id.get() >> 22 << 22);
    assert_eq!(bound.timestamp_delta(), id.timestamp_delta());
}
