//! What this library asks of the operating system. Verus takes the contracts
//! in this file on trust: each function here makes one call and converts
//! what goes in and what comes out.
use vstd::prelude::*;

verus! {

/// The clocks of the host that the guest may read.
#[derive(Clone, Copy, Debug, PartialEq, Eq, Structural)]
pub enum HostClock {
    Realtime,
    Monotonic,
    ProcessCputime,
    ThreadCputime,
}

/// How a socket carries its data, as far as the classifier tells sockets
/// apart.
#[derive(Clone, Copy, Debug, PartialEq, Eq, Structural)]
pub enum SocketKind {
    Datagram,
    Stream,
    Other,
}

/// `nix::sys::stat::fstat`: the mode word of the open handle `fd`, or the
/// host's error number. Nothing is claimed of either.
#[verifier::external_body]
pub(crate) fn fstat_mode(fd: i32) -> (r: Result<u32, i32>) {
    match nix::sys::stat::fstat(fd) {
        Ok(stat) => Ok(stat.st_mode as u32),
        Err(errno) => Err(errno as i32),
    }
}

/// `nix::unistd::isatty`: whether the open handle `fd` is a terminal, or
/// the host's error number. Nothing is claimed of either.
#[verifier::external_body]
pub(crate) fn isatty(fd: i32) -> (r: Result<bool, i32>) {
    match nix::unistd::isatty(fd) {
        Ok(tty) => Ok(tty),
        Err(errno) => Err(errno as i32),
    }
}

/// `nix::sys::socket::getsockopt` with `sockopt::SockType`: how the socket
/// `fd` carries its data, or the host's error number. Nothing is claimed of
/// either. The call panics where the host answers with a value that has not
/// the size of an integer.
#[verifier::external_body]
pub(crate) fn socket_kind(fd: i32) -> (r: Result<SocketKind, i32>) {
    match nix::sys::socket::getsockopt(fd, nix::sys::socket::sockopt::SockType) {
        Ok(nix::sys::socket::SockType::Datagram) => Ok(SocketKind::Datagram),
        Ok(nix::sys::socket::SockType::Stream) => Ok(SocketKind::Stream),
        Ok(_) => Ok(SocketKind::Other),
        Err(errno) => Err(errno as i32),
    }
}

/// `nix::fcntl::fcntl` with `F_GETFL`: the status flags that the handle `fd`
/// was opened with, or the host's error number. Nothing is claimed of
/// either.
#[verifier::external_body]
pub(crate) fn status_flags(fd: i32) -> (r: Result<i32, i32>) {
    match nix::fcntl::fcntl(fd, nix::fcntl::FcntlArg::F_GETFL) {
        Ok(flags) => Ok(flags),
        Err(errno) => Err(errno as i32),
    }
}

/// `nix::time::clock_getres`: the resolution of the clock `clock` as whole
/// seconds and nanoseconds, or the host's error number. Nothing is claimed
/// of either.
#[verifier::external_body]
pub(crate) fn clock_getres(clock: HostClock) -> (r: Result<(i64, i64), i32>) {
    let id = match clock {
        HostClock::Realtime => nix::time::ClockId::CLOCK_REALTIME,
        HostClock::Monotonic => nix::time::ClockId::CLOCK_MONOTONIC,
        HostClock::ProcessCputime => nix::time::ClockId::CLOCK_PROCESS_CPUTIME_ID,
        HostClock::ThreadCputime => nix::time::ClockId::CLOCK_THREAD_CPUTIME_ID,
    };
    match nix::time::clock_getres(id) {
        Ok(time) => Ok((time.tv_sec() as i64, time.tv_nsec() as i64)),
        Err(errno) => Err(errno as i32),
    }
}

/// `nix::time::clock_gettime`: the time on the clock `clock` as whole
/// seconds and nanoseconds, or the host's error number. Nothing is claimed
/// of either.
#[verifier::external_body]
pub(crate) fn clock_gettime(clock: HostClock) -> (r: Result<(i64, i64), i32>) {
    let id = match clock {
        HostClock::Realtime => nix::time::ClockId::CLOCK_REALTIME,
        HostClock::Monotonic => nix::time::ClockId::CLOCK_MONOTONIC,
        HostClock::ProcessCputime => nix::time::ClockId::CLOCK_PROCESS_CPUTIME_ID,
        HostClock::ThreadCputime => nix::time::ClockId::CLOCK_THREAD_CPUTIME_ID,
    };
    match nix::time::clock_gettime(id) {
        Ok(time) => Ok((time.tv_sec() as i64, time.tv_nsec() as i64)),
        Err(errno) => Err(errno as i32),
    }
}

/// `rand::RngCore::fill_bytes` on `rand::thread_rng()`: fills the `len`
/// bytes of `buffer` that begin at `start` with random bytes. The buffer
/// keeps its length and its bytes elsewhere; of the random bytes nothing is
/// claimed. The generator panics where the host gives it no seed.
#[verifier::external_body]
pub(crate) fn fill_random(buffer: &mut Vec<u8>, start: usize, len: usize)
    requires
        start + len <= old(buffer)@.len(),
    ensures
        final(buffer)@.len() == old(buffer)@.len(),
        forall|i: int|
            0 <= i < old(buffer)@.len() && !(start <= i < start + len) ==> final(buffer)@[i] == old(
                buffer,
            )@[i],
{
    rand::RngCore::fill_bytes(&mut rand::thread_rng(), &mut buffer[start..][..len]);
}

} // verus!
