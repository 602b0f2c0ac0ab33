use wasi_common::clock::{
    clock_res_get, clock_time_get, host_clock, resolution, timestamp, NANOS_PER_SEC,
};
use wasi_common::error::Error;
use wasi_common::host;
use wasi_common::os::HostClock;

#[test]
fn host_clock_knows_four_clocks() {
    assert_eq!(host_clock(host::__WASI_CLOCK_REALTIME), Some(HostClock::Realtime));
    assert_eq!(host_clock(host::__WASI_CLOCK_MONOTONIC), Some(HostClock::Monotonic));
    assert_eq!(host_clock(host::__WASI_CLOCK_PROCESS_CPUTIME_ID), Some(HostClock::ProcessCputime));
    assert_eq!(host_clock(host::__WASI_CLOCK_THREAD_CPUTIME_ID), Some(HostClock::ThreadCputime));
    assert_eq!(host_clock(0), Some(HostClock::Realtime));
    assert_eq!(host_clock(3), Some(HostClock::ThreadCputime));
    assert_eq!(host_clock(4), None);
    assert_eq!(host_clock(u32::MAX), None);
}

#[test]
fn timestamp_is_seconds_times_a_billion_plus_nanoseconds() {
    assert_eq!(NANOS_PER_SEC, 1_000_000_000);
    assert_eq!(timestamp(0, 0), Ok(0));
    assert_eq!(timestamp(0, 1), Ok(1));
    assert_eq!(timestamp(1, 0), Ok(1_000_000_000));
    assert_eq!(timestamp(1, 500), Ok(1_000_000_500));
    assert_eq!(timestamp(1_700_000_000, 123_456_789), Ok(1_700_000_000_123_456_789));
}

#[test]
fn timestamp_overflow_fails() {
    assert_eq!(timestamp(18_446_744_073, 709_551_615), Ok(u64::MAX));
    assert_eq!(timestamp(18_446_744_073, 709_551_616), Err(Error::EOVERFLOW));
    assert_eq!(timestamp(18_446_744_074, 0), Err(Error::EOVERFLOW));
    assert_eq!(timestamp(i64::MAX, 0), Err(Error::EOVERFLOW));
    assert_eq!(timestamp(i64::MAX, i64::MAX), Err(Error::EOVERFLOW));
}

#[test]
fn timestamp_reads_negative_fields_as_unsigned() {
    assert_eq!(timestamp(-1, 0), Err(Error::EOVERFLOW));
    assert_eq!(timestamp(i64::MIN, 0), Err(Error::EOVERFLOW));
    assert_eq!(timestamp(0, -1), Ok(u64::MAX));
    assert_eq!(timestamp(0, i64::MIN), Ok(0x8000_0000_0000_0000));
    assert_eq!(timestamp(1, -1), Err(Error::EOVERFLOW));
}

#[test]
fn resolution_is_never_zero() {
    assert_eq!(resolution(0, 0), Err(Error::EINVAL));
    assert_eq!(resolution(0, 1), Ok(1));
    assert_eq!(resolution(0, 4_000_000), Ok(4_000_000));
    assert_eq!(resolution(1, 0), Ok(1_000_000_000));
    assert_eq!(resolution(18_446_744_074, 0), Err(Error::EOVERFLOW));
    assert_eq!(resolution(-1, 0), Err(Error::EOVERFLOW));
}

#[test]
fn clock_res_get_of_each_clock() {
    for clock_id in 0..4u32 {
        let resolution = clock_res_get(clock_id).unwrap();
        assert!(resolution > 0);
        assert!(resolution <= 1_000_000_000);
    }
}

#[test]
fn clock_res_get_refuses_other_clocks() {
    assert_eq!(clock_res_get(4), Err(Error::EINVAL));
    assert_eq!(clock_res_get(u32::MAX), Err(Error::EINVAL));
}

#[test]
fn clock_time_get_refuses_other_clocks() {
    assert_eq!(clock_time_get(4), Err(Error::EINVAL));
    assert_eq!(clock_time_get(1000), Err(Error::EINVAL));
}

#[test]
fn clock_time_get_realtime_is_after_2020() {
    let now = clock_time_get(host::__WASI_CLOCK_REALTIME).unwrap();
    assert!(now > 1_577_836_800_000_000_000);
}

#[test]
fn clock_time_get_monotonic_does_not_go_back() {
    let first = clock_time_get(host::__WASI_CLOCK_MONOTONIC).unwrap();
    let second = clock_time_get(host::__WASI_CLOCK_MONOTONIC).unwrap();
    assert!(second >= first);
    let started = std::time::Instant::now();
    while started.elapsed() < std::time::Duration::from_millis(2) {}
    let third = clock_time_get(host::__WASI_CLOCK_MONOTONIC).unwrap();
    assert!(third > first);
    assert!(third - first >= 2_000_000);
}

#[test]
fn clock_time_get_cpu_clocks_answer() {
    assert!(clock_time_get(host::__WASI_CLOCK_PROCESS_CPUTIME_ID).is_ok());
    assert!(clock_time_get(host::__WASI_CLOCK_THREAD_CPUTIME_ID).is_ok());
}
