//! What this crate takes on trust from the `time` crate: the two conversions
//! between an [`OffsetDateTime`] and a count of nanoseconds since the Unix
//! epoch. Nothing here is proved; the contracts restate what `time`
//! documents.

use time::error::ComponentRange;
use time::OffsetDateTime;
use vstd::prelude::*;

verus! {

/// `time::OffsetDateTime`, carried through as an opaque value.
#[verifier::external_type_specification]
#[verifier::external_body]
pub struct ExOffsetDateTime(time::OffsetDateTime);

/// `time::error::ComponentRange`, the error of a time that `time` cannot hold.
#[verifier::external_type_specification]
#[verifier::external_body]
pub struct ExComponentRange(time::error::ComponentRange);

/// The instant of `t`, in nanoseconds since the Unix epoch: what
/// `OffsetDateTime::unix_timestamp_nanos` returns for it.
pub uninterp spec fn unix_nanos(t: OffsetDateTime) -> int;

/// The date-time that `OffsetDateTime::from_unix_timestamp_nanos` builds for
/// a count of nanoseconds since the Unix epoch, or `None` where it refuses
/// the count as out of its range.
pub uninterp spec fn at_unix_nanos(nanos: int) -> Option<OffsetDateTime>;

/// `OffsetDateTime::unix_timestamp_nanos`: the result is the instant of `t`
/// under the name [`unix_nanos`]. Assumed, not proved.
pub assume_specification[ OffsetDateTime::unix_timestamp_nanos ](t: OffsetDateTime) -> (r: i128)
    ensures
        r == unix_nanos(t),
;

/// `OffsetDateTime::from_unix_timestamp_nanos`: the result is the one named
/// by [`at_unix_nanos`], an error standing for `None`; a date-time that it
/// builds has the instant that was asked for. Assumed, not proved.
pub assume_specification[ OffsetDateTime::from_unix_timestamp_nanos ](timestamp: i128) -> (r:
    Result<OffsetDateTime, ComponentRange>)
    ensures
        match r {
            Ok(t) => at_unix_nanos(timestamp as int) == Some(t) && unix_nanos(t) == timestamp,
            Err(_) => at_unix_nanos(timestamp as int) is None,
        },
;

} // verus!
