//! The identifier type: construction from a number, from text and from a
//! time, and the readings of its fields.

use crate::decimal::{decimal_text, format_u64, lemma_parse_format, parse_u64, parsed};
use crate::error::{ParseDiagnostic, SnowflakeError};
use crate::layout::{
    creation_millis, lemma_compose_fields, process_id, sequence, timestamp_delta, worker_id,
    EPOCH, MAX_TIMESTAMP_DELTA,
};
use crate::timestamp::{at_unix_nanos, unix_nanos};
use time::error::ComponentRange;
use time::OffsetDateTime;
use vstd::prelude::*;

verus! {

/// Nanoseconds in a millisecond.
pub const NANOS_PER_MILLI: i128 = 1_000_000;

/// The fixed epoch, in nanoseconds since the Unix epoch.
pub const EPOCH_NANOS: i128 = 1_420_070_400_000_000_000;

/// A 64-bit identifier that is never zero.
#[derive(Clone, Copy, Debug, PartialEq, Eq, Structural)]
pub struct Snowflake {
    value: u64,
}

impl View for Snowflake {
    type V = u64;

    /// The 64-bit value of the identifier.
    closed spec fn view(&self) -> u64 {
        self.value
    }
}

/// The identifier value that the number `value` gives.
pub open spec fn checked_value(value: u64) -> Result<u64, SnowflakeError> {
    if value == 0 {
        Err(SnowflakeError::InvalidIdentifier)
    } else {
        Ok(value)
    }
}

/// The identifier value that the text `s` gives: its decimal value where it
/// is a 64-bit decimal number other than zero.
pub open spec fn parsed_value(s: Seq<char>) -> Result<u64, SnowflakeError> {
    match parsed(s) {
        Err(d) => Err(SnowflakeError::InvalidFormat(d)),
        Ok(v) => checked_value(v),
    }
}

/// The identifier value for an instant given in nanoseconds since the Unix
/// epoch: the whole milliseconds since the fixed epoch in the timestamp
/// field, and zero in the three other fields.
pub open spec fn value_at_nanos(nanos: int) -> Result<u64, SnowflakeError> {
    let delta = nanos / (NANOS_PER_MILLI as int) - EPOCH;
    if delta < 0 {
        Err(SnowflakeError::EpochUnderflow)
    } else if delta == 0 {
        Err(SnowflakeError::InvalidIdentifier)
    } else if delta > MAX_TIMESTAMP_DELTA {
        Err(SnowflakeError::TimestampOutOfRange)
    } else {
        Ok((delta * 0x40_0000) as u64)
    }
}

/// The date-time at which the value `v` was created, where
/// `OffsetDateTime` can hold it.
pub open spec fn creation_time_of(v: u64) -> Result<OffsetDateTime, SnowflakeError> {
    match at_unix_nanos(creation_millis(v) * NANOS_PER_MILLI) {
        Some(t) => Ok(t),
        None => Err(SnowflakeError::TimestampOutOfRange),
    }
}

/// `r` is the identifier of the value `expected`, or the same error.
pub open spec fn agrees(
    r: Result<Snowflake, SnowflakeError>,
    expected: Result<u64, SnowflakeError>,
) -> bool {
    match r {
        Ok(id) => expected == Ok::<u64, SnowflakeError>(id@),
        Err(e) => expected == Err::<u64, SnowflakeError>(e),
    }
}

/// Turns the answer of `OffsetDateTime::from_unix_timestamp_nanos` into this
/// crate's: a date-time stays, any refusal becomes `TimestampOutOfRange`.
pub fn checked_time(built: Result<OffsetDateTime, ComponentRange>) -> (r: Result<
    OffsetDateTime,
    SnowflakeError,
>)
    ensures
        match built {
            Ok(t) => r == Ok::<OffsetDateTime, SnowflakeError>(t),
            Err(_) => r == Err::<OffsetDateTime, SnowflakeError>(
                SnowflakeError::TimestampOutOfRange,
            ),
        },
{
    match built {
        Ok(t) => Ok(t),
        Err(_) => Err(SnowflakeError::TimestampOutOfRange),
    }
}

impl Snowflake {
    #[verifier::type_invariant]
    spec fn nonzero(self) -> bool {
        self.value != 0
    }

    /// The identifier with the given value; zero is refused.
    pub fn new(value: u64) -> (r: Result<Snowflake, SnowflakeError>)
        ensures
            agrees(r, checked_value(value)),
    {
        if value == 0 {
            Err(SnowflakeError::InvalidIdentifier)
        } else {
            Ok(Snowflake { value })
        }
    }

    /// The 64-bit value, which is never zero.
    pub fn get(self) -> (v: u64)
        ensures
            v == self@,
            v != 0,
    {
        proof {
            use_type_invariant(&self);
        }
        self.value
    }

    /// Reads an identifier from its decimal text.
    ///
    /// Fails with `InvalidFormat` where the text is not one or more digits
    /// that denote a 64-bit number, and with `InvalidIdentifier` where they
    /// denote zero.
    pub fn parse(text: &str) -> (r: Result<Snowflake, SnowflakeError>)
        ensures
            agrees(r, parsed_value(text@)),
    {
        match parse_u64(text) {
            Err(d) => Err(SnowflakeError::InvalidFormat(d)),
            Ok(v) => Snowflake::new(v),
        }
    }

    /// The canonical decimal text of the identifier, which
    /// [`Snowflake::parse`] reads back as the same identifier.
    pub fn format(self) -> (text: String)
        ensures
            text@ == decimal_text(self@ as nat),
            parsed_value(text@) == Ok::<u64, SnowflakeError>(self@),
    {
        proof {
            use_type_invariant(&self);
            lemma_parse_format_round_trip(self.value);
        }
        format_u64(self.value)
    }

    /// Milliseconds between the fixed epoch and the creation of the
    /// identifier.
    pub fn timestamp_delta(self) -> (r: u64)
        ensures
            r == timestamp_delta(self@),
            r <= MAX_TIMESTAMP_DELTA,
    {
        let v = self.value;
        assert(v >> 22 == v / 0x40_0000 && v >> 22 <= 0x3ff_ffff_ffff) by (bit_vector);
        v >> 22
    }

    /// Creation time in milliseconds since the Unix epoch.
    pub fn get_timestamp(self) -> (r: u64)
        ensures
            r == creation_millis(self@),
            EPOCH <= r <= EPOCH + MAX_TIMESTAMP_DELTA,
    {
        self.timestamp_delta() + EPOCH
    }

    /// Index of the worker that generated the identifier.
    pub fn get_internal_worker_id(self) -> (r: u8)
        ensures
            r == worker_id(self@),
            r <= 31,
    {
        let v = self.value;
        assert((v & 0x3E0000) >> 17 == (v / 0x2_0000) % 32) by (bit_vector);
        ((v & 0x3E0000) >> 17) as u8
    }

    /// Index of the process that generated the identifier.
    pub fn get_internal_process_id(self) -> (r: u8)
        ensures
            r == process_id(self@),
            r <= 31,
    {
        let v = self.value;
        assert((v & 0x1F000) >> 12 == (v / 0x1000) % 32) by (bit_vector);
        ((v & 0x1F000) >> 12) as u8
    }

    /// Sequence number of the identifier within its millisecond.
    pub fn get_increment(self) -> (r: u16)
        ensures
            r == sequence(self@),
            r <= 4095,
    {
        let v = self.value;
        assert(v & 0xFFF == v % 0x1000) by (bit_vector);
        (v & 0xFFF) as u16
    }

    /// The identifier for an instant given in nanoseconds since the Unix
    /// epoch, with worker, process and sequence all zero: a bound for range
    /// queries, never a fresh identifier.
    ///
    /// Fails with `EpochUnderflow` before the fixed epoch, with
    /// `InvalidIdentifier` inside the first millisecond of the epoch (the
    /// value would be zero), and with `TimestampOutOfRange` where the
    /// milliseconds no longer fit the 42-bit field.
    pub fn from_unix_nanos(nanos: i128) -> (r: Result<Snowflake, SnowflakeError>)
        ensures
            agrees(r, value_at_nanos(nanos as int)),
    {
        if nanos < EPOCH_NANOS {
            return Err(SnowflakeError::EpochUnderflow);
        }
        let millis: i128 = nanos / NANOS_PER_MILLI;
        let delta: i128 = millis - (EPOCH as i128);
        if delta == 0 {
            return Err(SnowflakeError::InvalidIdentifier);
        }
        if delta > MAX_TIMESTAMP_DELTA as i128 {
            return Err(SnowflakeError::TimestampOutOfRange);
        }
        let d: u64 = delta as u64;
        assert(d << 22 == d * 0x40_0000 && d << 22 != 0) by (bit_vector)
            requires
                0 < d <= 0x3ff_ffff_ffff,
        ;
        Ok(Snowflake { value: d << 22 })
    }

    /// The identifier for the instant of `ts`; see
    /// [`Snowflake::from_unix_nanos`].
    pub fn from_timestamp(ts: OffsetDateTime) -> (r: Result<Snowflake, SnowflakeError>)
        ensures
            agrees(r, value_at_nanos(unix_nanos(ts))),
    {
        Snowflake::from_unix_nanos(ts.unix_timestamp_nanos())
    }

    /// The date-time at which the identifier was created.
    ///
    /// Fails with `TimestampOutOfRange` where `OffsetDateTime` cannot hold
    /// that instant.
    pub fn creation_time(self) -> (r: Result<OffsetDateTime, SnowflakeError>)
        ensures
            r == creation_time_of(self@),
            r matches Ok(t) ==> unix_nanos(t) == creation_millis(self@) * NANOS_PER_MILLI,
    {
        let millis: u64 = self.get_timestamp();
        let nanos: i128 = (millis as i128) * NANOS_PER_MILLI;
        checked_time(OffsetDateTime::from_unix_timestamp_nanos(nanos))
    }
}

/// Reading the canonical text of a non-zero 64-bit value gives the
/// identifier with that value.
pub proof fn lemma_parse_format_round_trip(v: u64)
    requires
        v != 0,
    ensures
        parsed_value(decimal_text(v as nat)) == Ok::<u64, SnowflakeError>(v),
{
    lemma_parse_format(v);
}

/// An instant before the fixed epoch gives `EpochUnderflow`, and no other
/// instant does.
pub proof fn lemma_epoch_underflow(nanos: int)
    ensures
        nanos < EPOCH_NANOS <==> value_at_nanos(nanos) == Err::<u64, SnowflakeError>(
            SnowflakeError::EpochUnderflow,
        ),
{
}

/// An instant gives an identifier exactly from the second millisecond of
/// the fixed epoch to the last millisecond that the 42-bit field holds.
pub proof fn lemma_instants_with_identifier(nanos: int)
    ensures
        value_at_nanos(nanos) is Ok <==> EPOCH_NANOS + NANOS_PER_MILLI <= nanos < (EPOCH
            + MAX_TIMESTAMP_DELTA + 1) * NANOS_PER_MILLI,
{
}

/// The identifier made for an instant has zero in its worker, process and
/// sequence fields, and its creation time is that instant cut to whole
/// milliseconds: at most the instant, and less than a millisecond before it.
pub proof fn lemma_creation_of_instant(nanos: int)
    requires
        value_at_nanos(nanos) is Ok,
    ensures
        ({
            let v = value_at_nanos(nanos)->Ok_0;
            &&& v != 0
            &&& worker_id(v) == 0
            &&& process_id(v) == 0
            &&& sequence(v) == 0
            &&& timestamp_delta(v) == nanos / (NANOS_PER_MILLI as int) - EPOCH
            &&& creation_millis(v) == nanos / (NANOS_PER_MILLI as int)
            &&& 0 <= nanos - creation_millis(v) * NANOS_PER_MILLI < NANOS_PER_MILLI
        }),
{
    let delta = nanos / (NANOS_PER_MILLI as int) - EPOCH;
    lemma_compose_fields(delta as u64, 0, 0, 0);
}

} // verus!
