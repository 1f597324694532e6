use speedrust::{ping_ms_from_nanos, speed_milli_mbps, MAX_SPEED_MILLI_MBPS};

#[test]
fn download_of_100_megabytes_in_eight_seconds_is_100_mbps() {
    assert_eq!(speed_milli_mbps(104_857_600, 8_000_000_000), 100_000);
}

#[test]
fn upload_of_10_megabytes_in_four_seconds_is_20_mbps() {
    assert_eq!(speed_milli_mbps(10_485_760, 4_000_000_000), 20_000);
}

#[test]
fn doubling_bytes_and_time_keeps_the_speed() {
    let once = speed_milli_mbps(52_428_800, 3_000_000_000);
    let twice = speed_milli_mbps(104_857_600, 6_000_000_000);
    assert_eq!(once, twice);
    assert_eq!(once, 133_333);
}

#[test]
fn zero_duration_gives_the_finite_ceiling() {
    assert_eq!(speed_milli_mbps(1_048_576, 0), MAX_SPEED_MILLI_MBPS);
    assert_eq!(speed_milli_mbps(0, 0), MAX_SPEED_MILLI_MBPS);
}

#[test]
fn huge_speed_is_held_at_the_ceiling() {
    assert_eq!(speed_milli_mbps(u64::MAX, 1), MAX_SPEED_MILLI_MBPS);
}

#[test]
fn nothing_moved_is_zero_speed() {
    assert_eq!(speed_milli_mbps(0, 1_000_000_000), 0);
}

#[test]
fn speed_rounds_down_to_thousandths() {
    // one byte in one second: 8 / 1,048,576 Mbps, below a thousandth
    assert_eq!(speed_milli_mbps(1, 1_000_000_000), 0);
    // 1 MB in 3 s: 8/3 Mbps
    assert_eq!(speed_milli_mbps(1_048_576, 3_000_000_000), 2_666);
}

#[test]
fn ping_is_whole_milliseconds() {
    assert_eq!(ping_ms_from_nanos(42_999_999), 42);
    assert_eq!(ping_ms_from_nanos(0), 0);
    assert_eq!(ping_ms_from_nanos(u64::MAX), u32::MAX);
}
