//! The bit layout of an identifier, as arithmetic on the 64-bit value.
//!
//! From the most significant bit down: 42 bits of milliseconds since the
//! fixed epoch, 5 bits of worker index, 5 bits of process index and 12 bits
//! of per-millisecond sequence number.

use vstd::prelude::*;

verus! {

/// The fixed epoch, in milliseconds since the Unix epoch
/// (2015-01-01T00:00:00Z).
pub const EPOCH: u64 = 1_420_070_400_000;

/// The largest value of the 42-bit timestamp field.
pub const MAX_TIMESTAMP_DELTA: u64 = 0x3ff_ffff_ffff;

/// Milliseconds since [`EPOCH`] that the value `v` carries.
pub open spec fn timestamp_delta(v: u64) -> u64 {
    (v / 0x40_0000) as u64
}

/// Worker index that the value `v` carries.
pub open spec fn worker_id(v: u64) -> u8 {
    ((v / 0x2_0000) % 32) as u8
}

/// Process index that the value `v` carries.
pub open spec fn process_id(v: u64) -> u8 {
    ((v / 0x1000) % 32) as u8
}

/// Sequence number that the value `v` carries.
pub open spec fn sequence(v: u64) -> u16 {
    (v % 0x1000) as u16
}

/// Creation time of the value `v`, in milliseconds since the Unix epoch.
pub open spec fn creation_millis(v: u64) -> int {
    timestamp_delta(v) + EPOCH
}

/// The value whose four fields are the given ones.
pub open spec fn compose(delta: u64, worker: u8, process: u8, seq: u16) -> int {
    delta * 0x40_0000 + worker * 0x2_0000 + process * 0x1000 + seq
}

/// Every field stays inside its width.
pub proof fn lemma_field_ranges(v: u64)
    ensures
        timestamp_delta(v) <= MAX_TIMESTAMP_DELTA,
        worker_id(v) <= 31,
        process_id(v) <= 31,
        sequence(v) <= 4095,
        EPOCH <= creation_millis(v) <= EPOCH + MAX_TIMESTAMP_DELTA,
{
}

/// The four fields, shifted back to their offsets and or-ed together, give
/// the value they were taken from; so does their weighted sum.
pub proof fn lemma_fields_recompose(v: u64)
    ensures
        ((timestamp_delta(v) as u64) << 22) | ((worker_id(v) as u64) << 17) | ((process_id(
            v,
        ) as u64) << 12) | (sequence(v) as u64) == v,
        compose(timestamp_delta(v), worker_id(v), process_id(v), sequence(v)) == v,
{
    let d: u64 = timestamp_delta(v);
    let w: u64 = worker_id(v) as u64;
    let p: u64 = process_id(v) as u64;
    let s: u64 = sequence(v) as u64;
    assert(d == v >> 22 && w == (v >> 17) & 0x1f && p == (v >> 12) & 0x1f && s == v & 0xfff)
        by (bit_vector)
        requires
            d == v / 0x40_0000,
            w == (v / 0x2_0000) % 32,
            p == (v / 0x1000) % 32,
            s == v % 0x1000,
    ;
    assert((d << 22) | (w << 17) | (p << 12) | s == v) by (bit_vector)
        requires
            d == v >> 22,
            w == (v >> 17) & 0x1f,
            p == (v >> 12) & 0x1f,
            s == v & 0xfff,
    ;
}

/// Fields within their widths determine the value, and reading the fields
/// of that value gives them back.
pub proof fn lemma_compose_fields(delta: u64, worker: u8, process: u8, seq: u16)
    requires
        delta <= MAX_TIMESTAMP_DELTA,
        worker <= 31,
        process <= 31,
        seq <= 4095,
    ensures
        0 <= compose(delta, worker, process, seq) <= u64::MAX,
        timestamp_delta(compose(delta, worker, process, seq) as u64) == delta,
        worker_id(compose(delta, worker, process, seq) as u64) == worker,
        process_id(compose(delta, worker, process, seq) as u64) == process,
        sequence(compose(delta, worker, process, seq) as u64) == seq,
{
    let d: u64 = delta;
    let w: u64 = worker as u64;
    let p: u64 = process as u64;
    let s: u64 = seq as u64;
    assert(d * 0x40_0000 + w * 0x2_0000 + p * 0x1000 + s <= 0xffff_ffff_ffff_ffff) by (bit_vector)
        requires
            d <= 0x3ff_ffff_ffff,
            w <= 31,
            p <= 31,
            s <= 4095,
    ;
    let x: u64 = (d * 0x40_0000 + w * 0x2_0000 + p * 0x1000 + s) as u64;
    assert(x / 0x40_0000 == d && (x / 0x2_0000) % 32 == w && (x / 0x1000) % 32 == p && x % 0x1000
        == s) by (bit_vector)
        requires
            d <= 0x3ff_ffff_ffff,
            w <= 31,
            p <= 31,
            s <= 4095,
            x == d * 0x40_0000 + w * 0x2_0000 + p * 0x1000 + s,
    ;
}

} // verus!
