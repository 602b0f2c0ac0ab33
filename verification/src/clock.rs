//! The clocks of the host, read in nanoseconds.
use vstd::prelude::*;
use crate::error::Error;
use crate::error::spec_errno_from_host;
use crate::error::errno_from_host;
use crate::host;
use crate::os;
use crate::os::HostClock;

verus! {

pub const NANOS_PER_SEC: u64 = 1_000_000_000;

/// The clock of the host that a clock identifier of the guest names, if it
/// names one.
pub open spec fn spec_host_clock(clock_id: u32) -> Option<HostClock> {
    if clock_id == host::__WASI_CLOCK_REALTIME {
        Some(HostClock::Realtime)
    } else if clock_id == host::__WASI_CLOCK_MONOTONIC {
        Some(HostClock::Monotonic)
    } else if clock_id == host::__WASI_CLOCK_PROCESS_CPUTIME_ID {
        Some(HostClock::ProcessCputime)
    } else if clock_id == host::__WASI_CLOCK_THREAD_CPUTIME_ID {
        Some(HostClock::ThreadCputime)
    } else {
        None
    }
}

pub fn host_clock(clock_id: u32) -> (clock: Option<HostClock>)
    ensures
        clock == spec_host_clock(clock_id),
{
    if clock_id == host::__WASI_CLOCK_REALTIME {
        Some(HostClock::Realtime)
    } else if clock_id == host::__WASI_CLOCK_MONOTONIC {
        Some(HostClock::Monotonic)
    } else if clock_id == host::__WASI_CLOCK_PROCESS_CPUTIME_ID {
        Some(HostClock::ProcessCputime)
    } else if clock_id == host::__WASI_CLOCK_THREAD_CPUTIME_ID {
        Some(HostClock::ThreadCputime)
    } else {
        None
    }
}

/// A field of a host time read as an unsigned number of 64 bits: a negative
/// one counts from the top.
pub open spec fn spec_unsigned(field: i64) -> int {
    if field >= 0 {
        field as int
    } else {
        field + 0x1_0000_0000_0000_0000
    }
}

/// The nanoseconds that a host time of `sec` seconds and `nsec` nanoseconds
/// amounts to.
pub open spec fn spec_nanoseconds(sec: i64, nsec: i64) -> int {
    spec_unsigned(sec) * NANOS_PER_SEC + spec_unsigned(nsec)
}

/// A host time as a timestamp of the guest: its nanoseconds, or `EOVERFLOW`
/// where they do not fit.
pub open spec fn spec_timestamp(sec: i64, nsec: i64) -> Result<u64, Error> {
    if spec_nanoseconds(sec, nsec) <= u64::MAX {
        Ok(spec_nanoseconds(sec, nsec) as u64)
    } else {
        Err(Error::EOVERFLOW)
    }
}

pub fn timestamp(sec: i64, nsec: i64) -> (r: Result<u64, Error>)
    ensures
        r == spec_timestamp(sec, nsec),
{
    if sec < 0 {
        assert(spec_unsigned(sec) * NANOS_PER_SEC > u64::MAX) by (nonlinear_arith)
            requires
                spec_unsigned(sec) >= 0x8000_0000_0000_0000,
                NANOS_PER_SEC == 1_000_000_000,
        ;
        return Err(Error::EOVERFLOW);
    }
    let seconds: u64 = sec as u64;
    let nanos: u64 = if nsec >= 0 {
        nsec as u64
    } else {
        u64::MAX - ((-(nsec + 1)) as u64)
    };
    assert(nanos == spec_unsigned(nsec));
    match seconds.checked_mul(NANOS_PER_SEC) {
        Some(whole) => match whole.checked_add(nanos) {
            Some(total) => Ok(total),
            None => Err(Error::EOVERFLOW),
        },
        None => Err(Error::EOVERFLOW),
    }
}

/// A host time as the resolution of a clock: its timestamp, but a
/// resolution of no nanoseconds is no resolution and fails with `EINVAL`.
pub open spec fn spec_resolution(sec: i64, nsec: i64) -> Result<u64, Error> {
    match spec_timestamp(sec, nsec) {
        Ok(resolution) => if resolution == 0 {
            Err(Error::EINVAL)
        } else {
            Ok(resolution)
        },
        Err(e) => Err(e),
    }
}

pub fn resolution(sec: i64, nsec: i64) -> (r: Result<u64, Error>)
    ensures
        r == spec_resolution(sec, nsec),
        r matches Ok(nanoseconds) ==> nanoseconds > 0 && nanoseconds == spec_nanoseconds(sec, nsec),
        r == Err::<u64, Error>(Error::EOVERFLOW) <==> spec_nanoseconds(sec, nsec) > u64::MAX,
        r == Err::<u64, Error>(Error::EINVAL) <==> spec_nanoseconds(sec, nsec) == 0,
{
    match timestamp(sec, nsec) {
        Ok(resolution) => if resolution == 0 {
            Err(Error::EINVAL)
        } else {
            Ok(resolution)
        },
        Err(e) => Err(e),
    }
}

/// What the host's answer to a question about a clock means to the guest.
pub open spec fn spec_clock_answer(
    answer: Result<(i64, i64), i32>,
    as_resolution: bool,
) -> Result<u64, Error> {
    match answer {
        Ok((sec, nsec)) => if as_resolution {
            spec_resolution(sec, nsec)
        } else {
            spec_timestamp(sec, nsec)
        },
        Err(errno) => Err(spec_errno_from_host(errno)),
    }
}

/// The resolution of the clock `clock_id` in nanoseconds. A clock that the
/// guest ABI does not name fails with `EINVAL`, before the host is asked.
/// Else the result is what some answer of the host means: a failure of the
/// host is handed on, a resolution that does not fit fails with
/// `EOVERFLOW`, and one of no nanoseconds with `EINVAL`. A success is never
/// zero.
pub fn clock_res_get(clock_id: u32) -> (r: Result<u64, Error>)
    ensures
        spec_host_clock(clock_id) is None ==> r == Err::<u64, Error>(Error::EINVAL),
        spec_host_clock(clock_id) is Some ==> exists|answer: Result<(i64, i64), i32>|
            r == #[trigger] spec_clock_answer(answer, true),
        r matches Ok(nanoseconds) ==> nanoseconds > 0,
{
    let clock = match host_clock(clock_id) {
        Some(clock) => clock,
        None => {
            return Err(Error::EINVAL);
        },
    };
    let answer = os::clock_getres(clock);
    let r = match answer {
        Ok((sec, nsec)) => resolution(sec, nsec),
        Err(errno) => Err(errno_from_host(errno)),
    };
    assert(r == spec_clock_answer(answer, true));
    r
}

/// The time on the clock `clock_id` in nanoseconds. A clock that the guest
/// ABI does not name fails with `EINVAL`, before the host is asked. Else the
/// result is what some answer of the host means: a failure of the host is
/// handed on, and a time that does not fit fails with `EOVERFLOW`.
pub fn clock_time_get(clock_id: u32) -> (r: Result<u64, Error>)
    ensures
        spec_host_clock(clock_id) is None ==> r == Err::<u64, Error>(Error::EINVAL),
        spec_host_clock(clock_id) is Some ==> exists|answer: Result<(i64, i64), i32>|
            r == #[trigger] spec_clock_answer(answer, false),
{
    let clock = match host_clock(clock_id) {
        Some(clock) => clock,
        None => {
            return Err(Error::EINVAL);
        },
    };
    let answer = os::clock_gettime(clock);
    let r = match answer {
        Ok((sec, nsec)) => timestamp(sec, nsec),
        Err(errno) => Err(errno_from_host(errno)),
    };
    assert(r == spec_clock_answer(answer, false));
    r
}

} // verus!
