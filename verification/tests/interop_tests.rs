use pw_core::interop::{current_time, utc_time_of, ClockReading, UtcTime};

#[test]
fn test_clock_reading_after_epoch() {
    let t = utc_time_of(ClockReading::After { secs: 1_431_648_000, nanos: 7 });
    assert_eq!(t, UtcTime { secs: 1_431_648_000, nanos: 7 });
}

#[test]
fn test_clock_reading_before_epoch() {
    assert_eq!(
        utc_time_of(ClockReading::Before { secs: 1, nanos: 5 }),
        UtcTime { secs: -2, nanos: 999_999_995 }
    );
    assert_eq!(
        utc_time_of(ClockReading::Before { secs: 3, nanos: 0 }),
        UtcTime { secs: -3, nanos: 0 }
    );
    assert_eq!(
        utc_time_of(ClockReading::Before { secs: 0, nanos: 0 }),
        UtcTime { secs: 0, nanos: 0 }
    );
}

#[test]
fn test_clock_reading_at_the_i64_bounds() {
    assert_eq!(
        utc_time_of(ClockReading::Before { secs: 1 << 63, nanos: 0 }),
        UtcTime { secs: i64::MIN, nanos: 0 }
    );
    assert_eq!(
        utc_time_of(ClockReading::Before { secs: 1 << 63, nanos: 1 }),
        UtcTime { secs: i64::MIN, nanos: 0 }
    );
    assert_eq!(
        utc_time_of(ClockReading::Before { secs: u64::MAX, nanos: 0 }),
        UtcTime { secs: i64::MIN, nanos: 0 }
    );
    assert_eq!(
        utc_time_of(ClockReading::After { secs: i64::MAX as u64, nanos: 3 }),
        UtcTime { secs: i64::MAX, nanos: 3 }
    );
    assert_eq!(
        utc_time_of(ClockReading::After { secs: u64::MAX, nanos: 3 }),
        UtcTime { secs: i64::MAX, nanos: 999_999_999 }
    );
}

#[test]
fn test_current_time_is_after_2020() {
    let t = current_time();
    assert!(t.secs > 1_577_836_800);
    assert!(t.nanos < 1_000_000_000);
}
