//! The outside types that values of this library carry, and the outside
//! functions it calls.

use vstd::arithmetic::power::pow;
use vstd::prelude::*;

use std::time::{SystemTime, UNIX_EPOCH};
use serde_json::Value;
use uuid::Uuid;

verus! {

/// `uuid::Uuid`, carried as an opaque value.
#[verifier::external_type_specification]
#[verifier::external_body]
pub struct ExUuid(Uuid);

/// `serde_json::Value`, carried as an opaque value.
#[verifier::external_type_specification]
#[verifier::external_body]
pub struct ExJsonValue(Value);

/// `uuid::Uuid`'s `clone`: the type is `Copy`, so the clone is the value itself.
pub assume_specification[ <Uuid as Clone>::clone ](u: &Uuid) -> (r: Uuid)
    ensures
        r == *u,
;

/// `serde_json::Value`'s `clone`, which the crate derives: the clone is
/// the same JSON value.
pub assume_specification[ <Value as Clone>::clone ](v: &Value) -> (r: Value)
    ensures
        r == *v,
;

/// The bits of the UUID with the given version-4 layout: version nibble
/// (bits 76 to 79) equal to 4 and variant bits (62 and 63) equal to `10`.
pub open spec fn is_v4_bits(v: u128) -> bool {
    &&& (v as int / pow(2, 76)) % 16 == 4
    &&& (v as int / pow(2, 62)) % 4 == 2
}

/// The bits of a fresh random version-4 UUID, from
/// `uuid::Uuid::new_v4().as_u128()`.
///
/// Only the layout is claimed: `new_v4` masks random bits with
/// `0xFFFFFFFFFFFF4FFFBFFFFFFFFFFFFFFF` and sets `0x40008000000000000000`,
/// and `as_u128` reads the bytes back big-endian. The other bits are random.
#[verifier::external_body]
pub(crate) fn random_uuid_v4_bits() -> (r: u128)
    ensures
        is_v4_bits(r),
{
    Uuid::new_v4().as_u128()
}

/// The UUID whose big-endian bits are `v`, from `uuid::Uuid::from_u128`.
///
/// Nothing is claimed of the result: a `Uuid` is opaque here.
#[verifier::external_body]
pub(crate) fn uuid_from_bits(v: u128) -> (r: Uuid) {
    Uuid::from_u128(v)
}

/// A point in time in UTC: whole seconds since the Unix epoch and the
/// nanoseconds past that second.
#[derive(Debug, Clone, Copy, PartialEq, Eq, Structural)]
pub struct UtcTime {
    pub secs: i64,
    pub nanos: u32,
}

/// `std::time::SystemTime`, carried as an opaque value.
#[verifier::external_type_specification]
#[verifier::external_body]
pub struct ExSystemTime(SystemTime);

/// The system clock, from `std::time::SystemTime::now`.
///
/// Nothing is claimed of the value: it is the clock's reading.
#[verifier::external_body]
pub(crate) fn system_time_now() -> (r: SystemTime) {
    SystemTime::now()
}

/// A clock reading as a distance from the Unix epoch: after it, or before it.
#[derive(Debug, Clone, Copy, PartialEq, Eq, Structural)]
pub enum ClockReading {
    After { secs: u64, nanos: u32 },
    Before { secs: u64, nanos: u32 },
}

/// The distance of `t` from the Unix epoch, from
/// `SystemTime::duration_since(UNIX_EPOCH)`: the duration when `t` is not
/// before the epoch, else the error's `duration()`, each read as whole
/// seconds (`Duration::as_secs`) and nanoseconds (`Duration::subsec_nanos`).
///
/// Only this is claimed: `subsec_nanos` is below one second, as `Duration`
/// documents. The reading itself is opaque here.
#[verifier::external_body]
pub(crate) fn since_unix_epoch(t: SystemTime) -> (r: ClockReading)
    ensures
        match r {
            ClockReading::After { nanos, .. } => nanos < 1_000_000_000,
            ClockReading::Before { nanos, .. } => nanos < 1_000_000_000,
        },
{
    match t.duration_since(UNIX_EPOCH) {
        Ok(d) => ClockReading::After { secs: d.as_secs(), nanos: d.subsec_nanos() },
        Err(e) => ClockReading::Before { secs: e.duration().as_secs(), nanos: e.duration().subsec_nanos() },
    }
}

/// The signed distance of a reading from the Unix epoch, in nanoseconds.
pub open spec fn reading_nanos(r: ClockReading) -> int {
    match r {
        ClockReading::After { secs, nanos } => secs * 1_000_000_000 + nanos,
        ClockReading::Before { secs, nanos } => -(secs * 1_000_000_000 + nanos),
    }
}

/// The instant a time stands for, in nanoseconds from the Unix epoch.
pub open spec fn time_nanos(t: UtcTime) -> int {
    t.secs * 1_000_000_000 + t.nanos
}

/// The earliest and latest times that whole seconds in an `i64` hold.
pub open spec fn min_time_nanos() -> int {
    i64::MIN * 1_000_000_000
}

pub open spec fn max_time_nanos() -> int {
    i64::MAX * 1_000_000_000 + 999_999_999
}

/// The time of a clock reading, with the seconds rounded down (so a reading
/// before the epoch has negative seconds and non-negative nanoseconds).
/// A reading beyond what whole seconds in an `i64` hold gives the nearest
/// time that they hold.
pub fn utc_time_of(r: ClockReading) -> (t: UtcTime)
    requires
        match r {
            ClockReading::After { nanos, .. } => nanos < 1_000_000_000,
            ClockReading::Before { nanos, .. } => nanos < 1_000_000_000,
        },
    ensures
        t.nanos < 1_000_000_000,
        min_time_nanos() <= reading_nanos(r) <= max_time_nanos() ==> time_nanos(t) == reading_nanos(r),
        reading_nanos(r) < min_time_nanos() ==> t == (UtcTime { secs: i64::MIN, nanos: 0 }),
        reading_nanos(r) > max_time_nanos() ==> t == (UtcTime { secs: i64::MAX, nanos: 999_999_999 }),
{
    match r {
        ClockReading::After { secs, nanos } => {
            if secs <= 0x7fff_ffff_ffff_ffff {
                UtcTime { secs: secs as i64, nanos }
            } else {
                UtcTime { secs: i64::MAX, nanos: 999_999_999 }
            }
        },
        ClockReading::Before { secs, nanos } => {
            if nanos == 0 {
                if secs <= 0x8000_0000_0000_0000 {
                    let s: i64 = if secs == 0x8000_0000_0000_0000 {
                        i64::MIN
                    } else {
                        -(secs as i64)
                    };
                    UtcTime { secs: s, nanos: 0 }
                } else {
                    UtcTime { secs: i64::MIN, nanos: 0 }
                }
            } else {
                if secs < 0x8000_0000_0000_0000 {
                    UtcTime { secs: -(secs as i64) - 1, nanos: 1_000_000_000 - nanos }
                } else {
                    UtcTime { secs: i64::MIN, nanos: 0 }
                }
            }
        },
    }
}

/// The current time, read from the system clock.
///
/// A clock before the Unix epoch gives negative seconds, so reading the
/// time never fails.
pub fn current_time() -> (t: UtcTime)
    ensures
        t.nanos < 1_000_000_000,
{
    let now = system_time_now();
    let reading = since_unix_epoch(now);
    utc_time_of(reading)
}

/// An empty JSON object, `serde_json::Value::Object` of `serde_json::Map::new()`.
///
/// Nothing is claimed of the value: `Value` is opaque here, so that the
/// object is empty is left unsaid.
#[verifier::external_body]
pub(crate) fn empty_json_object() -> (r: Value) {
    Value::Object(serde_json::Map::new())
}

/// The lower-case hexadecimal digit of `d`, for `0 <= d < 16`.
pub open spec fn hex_digit(d: int) -> char {
    if d < 10 {
        (48 + d) as char
    } else {
        (87 + d) as char
    }
}

/// The hyphenated text of the UUID whose bits are `v`: its 32 hexadecimal
/// digits, most significant first, in groups of 8-4-4-4-12 joined by `-`,
/// such as `a1a2a3a4-b1b2-c1c2-d1d2-d3d4d5d6d7d8`.
pub open spec fn uuid_text(v: u128) -> Seq<char> {
    Seq::new(
        36,
        |i: int|
            if i == 8 || i == 13 || i == 18 || i == 23 {
                '-'
            } else {
                let k = if i < 8 {
                    i
                } else if i < 13 {
                    i - 1
                } else if i < 18 {
                    i - 2
                } else if i < 23 {
                    i - 3
                } else {
                    i - 4
                };
                hex_digit((v as int / pow(16, (31 - k) as nat)) % 16)
            },
    )
}

/// The hyphenated text of the UUID with bits `v`, from
/// `uuid::Uuid::from_u128(v).hyphenated().to_string()`.
///
/// The claim is the format that the crate documents for `Hyphenated`
/// (lower-case digits, groups of 8-4-4-4-12) over the big-endian bits that
/// `from_u128` documents.
#[verifier::external_body]
pub(crate) fn uuid_hyphenated(v: u128) -> (r: String)
    ensures
        r@ == uuid_text(v),
{
    Uuid::from_u128(v).hyphenated().to_string()
}

} // verus!
