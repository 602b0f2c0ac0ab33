//! The decisions of the polling multiplexer: which subscriptions are waited
//! for, what the host is asked, and which events its answer stands for. The
//! wait itself blocks, so the caller makes it; this module says what to ask
//! and what to do with every answer.
use vstd::prelude::*;
use crate::error::Error;
use crate::error::__WASI_ESUCCESS;
use crate::error::spec_errno_from_host;
use crate::error::errno_from_host;
use crate::error::HOST_EINTR;
use crate::clock::NANOS_PER_SEC;
use crate::ctx::WasiCtx;
use crate::fdentry::Descriptor;
use crate::os;
use crate::os::HostClock;
use crate::host;

verus! {

/// What an event reports.
#[derive(Clone, Copy, Debug, PartialEq, Eq, Structural)]
pub enum EventType {
    Clock,
    FdRead,
    FdWrite,
}

impl EventType {
    /// The tag that the guest ABI gives this type.
    pub open spec fn spec_as_wasi_eventtype(self) -> u8 {
        match self {
            EventType::Clock => host::__WASI_EVENTTYPE_CLOCK,
            EventType::FdRead => host::__WASI_EVENTTYPE_FD_READ,
            EventType::FdWrite => host::__WASI_EVENTTYPE_FD_WRITE,
        }
    }

    pub fn as_wasi_eventtype(&self) -> (tag: u8)
        ensures
            tag == self.spec_as_wasi_eventtype(),
    {
        match self {
            EventType::Clock => host::__WASI_EVENTTYPE_CLOCK,
            EventType::FdRead => host::__WASI_EVENTTYPE_FD_READ,
            EventType::FdWrite => host::__WASI_EVENTTYPE_FD_WRITE,
        }
    }
}

/// What a descriptor is waited on for.
#[derive(Clone, Copy, Debug, PartialEq, Eq, Structural)]
pub enum FdEventType {
    Read,
    Write,
}

impl FdEventType {
    /// The type of the events that answer such a wait.
    pub open spec fn spec_event_type(self) -> EventType {
        match self {
            FdEventType::Read => EventType::FdRead,
            FdEventType::Write => EventType::FdWrite,
        }
    }

    pub fn event_type(&self) -> (t: EventType)
        ensures
            t == self.spec_event_type(),
    {
        match self {
            FdEventType::Read => EventType::FdRead,
            FdEventType::Write => EventType::FdWrite,
        }
    }

    /// The right that a descriptor must hold to be waited on in this way.
    pub open spec fn spec_needed_right(self) -> u64 {
        match self {
            FdEventType::Read => host::__WASI_RIGHT_FD_READ,
            FdEventType::Write => host::__WASI_RIGHT_FD_WRITE,
        }
    }

    pub fn needed_right(&self) -> (right: u64)
        ensures
            right == self.spec_needed_right(),
    {
        match self {
            FdEventType::Read => host::__WASI_RIGHT_FD_READ,
            FdEventType::Write => host::__WASI_RIGHT_FD_WRITE,
        }
    }
}

/// One result of a poll.
#[derive(Clone, Copy, Debug, PartialEq, Eq, Structural)]
pub struct Event {
    /// The userdata of the subscription that this event answers.
    pub userdata: u64,
    pub type_: EventType,
    /// The error number of the guest ABI, `__WASI_ESUCCESS` for none.
    pub error: u16,
    /// For a read, the number of bytes that can be read.
    pub nbytes: u64,
    pub flags: u16,
}

/// The one timer of a poll: the shortest delay asked for, in nanoseconds,
/// with the userdata of the subscription that asked for it.
#[derive(Clone, Copy, Debug, PartialEq, Eq, Structural)]
pub struct ClockEventData {
    pub delay: u128,
    pub userdata: u64,
}

/// A descriptor that a poll waits on. The descriptor is borrowed from the
/// table for the time of the poll.
#[derive(Clone, Copy, Debug)]
pub struct FdEventData<'a> {
    pub descriptor: &'a Descriptor,
    pub type_: FdEventType,
    pub userdata: u64,
}

/// What the host reports of a descriptor after a wait.
#[derive(Clone, Copy, Debug, PartialEq, Eq, Structural)]
pub struct Readiness {
    /// The handle is not open.
    pub invalid: bool,
    /// The handle is in an error condition.
    pub error: bool,
    /// The peer has gone.
    pub hangup: bool,
    pub readable: bool,
    pub writable: bool,
}

/// What the caller learned of one descriptor that was waited on.
#[derive(Clone, Copy, Debug, PartialEq, Eq, Structural)]
pub struct FdObservation {
    /// What the host reported; `None` where the report could not be read.
    pub revents: Option<Readiness>,
    /// The number of bytes that the host says can be read; `None` where it
    /// was not asked or could not tell.
    pub nbytes: Option<i32>,
}

/// The event that says that the timer `timeout` has run out.
pub open spec fn spec_timeout_event(timeout: ClockEventData) -> Event {
    Event {
        userdata: timeout.userdata,
        type_: EventType::Clock,
        error: __WASI_ESUCCESS,
        nbytes: 0,
        flags: 0,
    }
}

pub fn poll_oneoff_handle_timeout_event(timeout: ClockEventData) -> (events: Vec<Event>)
    ensures
        events@ == seq![spec_timeout_event(timeout)],
{
    let mut events: Vec<Event> = Vec::new();
    events.push(
        Event {
            userdata: timeout.userdata,
            type_: EventType::Clock,
            error: __WASI_ESUCCESS,
            nbytes: 0,
            flags: 0,
        },
    );
    events
}

/// The event that says that a descriptor cannot be used: it is not open, or
/// the guest may not use it in the way it asked for. The guest cannot tell
/// the two apart.
pub open spec fn spec_bad_descriptor_event(userdata: u64, type_: FdEventType) -> Event {
    Event {
        userdata,
        type_: type_.spec_event_type(),
        error: Error::EBADF.spec_as_wasi_errno(),
        nbytes: 0,
        flags: host::__WASI_EVENT_FD_READWRITE_HANGUP,
    }
}

pub fn bad_descriptor_event(userdata: u64, type_: FdEventType) -> (event: Event)
    ensures
        event == spec_bad_descriptor_event(userdata, type_),
{
    Event {
        userdata,
        type_: type_.event_type(),
        error: Error::EBADF.as_wasi_errno(),
        nbytes: 0,
        flags: host::__WASI_EVENT_FD_READWRITE_HANGUP,
    }
}

/// The number of bytes that an event for `type_` reports as readable: what
/// the host said for a read, nothing where it could not tell, and always
/// nothing for a write.
pub open spec fn spec_bytes_available(type_: FdEventType, nbytes: Option<i32>) -> i32 {
    match (type_, nbytes) {
        (FdEventType::Read, Some(n)) => n,
        _ => 0,
    }
}

/// What the observation of one descriptor gives: no event where the host
/// reported nothing of it; else an event, by the first of these that holds:
/// the handle is not open (`EBADF`, hangup); it is in an error condition
/// (`EIO`, hangup); its peer has gone (success, hangup, no bytes); it can be
/// read or written (success, with the bytes that can be read). A negative
/// number of readable bytes cannot be reported and fails with `EOVERFLOW`.
pub open spec fn spec_fd_event(fd_event: FdEventData, observation: FdObservation) -> Option<
    Result<Event, Error>,
> {
    match observation.revents {
        None => None,
        Some(revents) => {
            if revents.invalid {
                Some(Ok(spec_bad_descriptor_event(fd_event.userdata, fd_event.type_)))
            } else if revents.error {
                Some(
                    Ok(
                        Event {
                            userdata: fd_event.userdata,
                            type_: fd_event.type_.spec_event_type(),
                            error: Error::EIO.spec_as_wasi_errno(),
                            nbytes: 0,
                            flags: host::__WASI_EVENT_FD_READWRITE_HANGUP,
                        },
                    ),
                )
            } else if revents.hangup {
                Some(
                    Ok(
                        Event {
                            userdata: fd_event.userdata,
                            type_: fd_event.type_.spec_event_type(),
                            error: __WASI_ESUCCESS,
                            nbytes: 0,
                            flags: host::__WASI_EVENT_FD_READWRITE_HANGUP,
                        },
                    ),
                )
            } else if revents.readable || revents.writable {
                let nbytes = spec_bytes_available(fd_event.type_, observation.nbytes);
                if nbytes < 0 {
                    Some(Err(Error::EOVERFLOW))
                } else {
                    Some(
                        Ok(
                            Event {
                                userdata: fd_event.userdata,
                                type_: fd_event.type_.spec_event_type(),
                                error: __WASI_ESUCCESS,
                                nbytes: nbytes as u64,
                                flags: 0,
                            },
                        ),
                    )
                }
            } else {
                None
            }
        },
    }
}

pub fn event_of_observation(fd_event: &FdEventData, observation: &FdObservation) -> (r: Option<
    Result<Event, Error>,
>)
    ensures
        r == spec_fd_event(*fd_event, *observation),
{
    let revents = match observation.revents {
        Some(revents) => revents,
        None => {
            return None;
        },
    };
    let nbytes: i32 = match (fd_event.type_, observation.nbytes) {
        (FdEventType::Read, Some(n)) => n,
        _ => 0,
    };
    if revents.invalid {
        Some(Ok(bad_descriptor_event(fd_event.userdata, fd_event.type_)))
    } else if revents.error {
        Some(
            Ok(
                Event {
                    userdata: fd_event.userdata,
                    type_: fd_event.type_.event_type(),
                    error: Error::EIO.as_wasi_errno(),
                    nbytes: 0,
                    flags: host::__WASI_EVENT_FD_READWRITE_HANGUP,
                },
            ),
        )
    } else if revents.hangup {
        Some(
            Ok(
                Event {
                    userdata: fd_event.userdata,
                    type_: fd_event.type_.event_type(),
                    error: __WASI_ESUCCESS,
                    nbytes: 0,
                    flags: host::__WASI_EVENT_FD_READWRITE_HANGUP,
                },
            ),
        )
    } else if revents.readable || revents.writable {
        if nbytes < 0 {
            Some(Err(Error::EOVERFLOW))
        } else {
            Some(
                Ok(
                    Event {
                        userdata: fd_event.userdata,
                        type_: fd_event.type_.event_type(),
                        error: __WASI_ESUCCESS,
                        nbytes: nbytes as u64,
                        flags: 0,
                    },
                ),
            )
        }
    } else {
        None
    }
}

/// The events of the first `n` descriptors and observations, in their
/// order; the first failure among them, if there is one, in their place.
pub open spec fn spec_fd_events(
    fd_events: Seq<FdEventData>,
    observations: Seq<FdObservation>,
    n: nat,
) -> Result<Seq<Event>, Error>
    decreases n,
{
    if n == 0 {
        Ok(Seq::empty())
    } else {
        match spec_fd_events(fd_events, observations, (n - 1) as nat) {
            Err(e) => Err(e),
            Ok(events) => match spec_fd_event(fd_events[n - 1], observations[n - 1]) {
                None => Ok(events),
                Some(Ok(event)) => Ok(events.push(event)),
                Some(Err(e)) => Err(e),
            },
        }
    }
}

/// The number of descriptors that have an observation.
pub open spec fn spec_observed(fd_events: Seq<FdEventData>, observations: Seq<FdObservation>) -> nat {
    if fd_events.len() <= observations.len() {
        fd_events.len()
    } else {
        observations.len()
    }
}

/// The events that the observations stand for: `observations[i]` is what was
/// learned of `fd_events[i]`. Every descriptor that has an observation is
/// looked at, in order.
pub fn poll_oneoff_handle_fd_event(
    fd_events: &Vec<FdEventData>,
    observations: &Vec<FdObservation>,
) -> (r: Result<Vec<Event>, Error>)
    ensures
        match r {
            Ok(events) => spec_fd_events(
                fd_events@,
                observations@,
                spec_observed(fd_events@, observations@),
            ) == Ok::<Seq<Event>, Error>(events@) && events@.len() <= fd_events@.len(),
            Err(e) => spec_fd_events(
                fd_events@,
                observations@,
                spec_observed(fd_events@, observations@),
            ) == Err::<Seq<Event>, Error>(e) && e == Error::EOVERFLOW,
        },
{
    let n: usize = if fd_events.len() <= observations.len() {
        fd_events.len()
    } else {
        observations.len()
    };
    let mut output_events: Vec<Event> = Vec::new();
    let mut i: usize = 0;
    while i < n
        invariant
            i <= n,
            n == spec_observed(fd_events@, observations@),
            spec_fd_events(fd_events@, observations@, i as nat) == Ok::<Seq<Event>, Error>(
                output_events@,
            ),
            output_events@.len() <= i,
        decreases n - i,
    {
        match event_of_observation(&fd_events[i], &observations[i]) {
            None => {},
            Some(Ok(event)) => {
                output_events.push(event);
            },
            Some(Err(e)) => {
                proof {
                    lemma_fd_events_failure_stays(
                        fd_events@,
                        observations@,
                        (i + 1) as nat,
                        n as nat,
                    );
                }
                return Err(e);
            },
        }
        i = i + 1;
    }
    Ok(output_events)
}

/// Once the events of the first `m` descriptors have failed, those of more
/// of them fail in the same way.
pub proof fn lemma_fd_events_failure_stays(
    fd_events: Seq<FdEventData>,
    observations: Seq<FdObservation>,
    m: nat,
    n: nat,
)
    requires
        m <= n,
        spec_fd_events(fd_events, observations, m) is Err,
    ensures
        spec_fd_events(fd_events, observations, n) == spec_fd_events(fd_events, observations, m),
        spec_fd_events(fd_events, observations, m) == Err::<Seq<Event>, Error>(Error::EOVERFLOW),
    decreases n,
{
    if m < n {
        lemma_fd_events_failure_stays(fd_events, observations, m, (n - 1) as nat);
    } else {
        lemma_fd_events_failure_is_overflow(fd_events, observations, m);
    }
}

/// Events fail in one way only, with `EOVERFLOW`.
pub proof fn lemma_fd_events_failure_is_overflow(
    fd_events: Seq<FdEventData>,
    observations: Seq<FdObservation>,
    n: nat,
)
    requires
        spec_fd_events(fd_events, observations, n) is Err,
    ensures
        spec_fd_events(fd_events, observations, n) == Err::<Seq<Event>, Error>(Error::EOVERFLOW),
    decreases n,
{
    if n > 0 {
        if spec_fd_events(fd_events, observations, (n - 1) as nat) is Err {
            lemma_fd_events_failure_is_overflow(fd_events, observations, (n - 1) as nat);
        }
    }
}

/// What the host is asked of one descriptor.
#[derive(Clone, Copy, Debug, PartialEq, Eq, Structural)]
pub struct FdRequest {
    /// The number by which the host knows the descriptor.
    pub fd: i32,
    pub type_: FdEventType,
}

/// One wait: the descriptors to wait on and the longest time to wait, in
/// milliseconds; a negative time waits without end.
#[derive(Debug)]
pub struct PollRequest {
    pub fds: Vec<FdRequest>,
    pub timeout: i32,
}

pub const NANOS_PER_MILLI: u128 = 1_000_000;

/// The time that a wait may take: without end where there is no timer, else
/// the timer's delay in whole milliseconds, and the longest time that can be
/// asked for where the delay is longer than that.
pub open spec fn spec_poll_timeout(timeout: Option<ClockEventData>) -> i32 {
    match timeout {
        None => -1i32,
        Some(timeout) => if timeout.delay / NANOS_PER_MILLI > i32::MAX {
            i32::MAX
        } else {
            (timeout.delay / NANOS_PER_MILLI) as i32
        },
    }
}

pub fn poll_timeout(timeout: Option<ClockEventData>) -> (millis: i32)
    ensures
        millis == spec_poll_timeout(timeout),
        timeout is None <==> millis < 0,
{
    match timeout {
        None => -1,
        Some(timeout) => {
            let delay: u128 = timeout.delay / NANOS_PER_MILLI;
            if delay > 0x7fff_ffff {
                i32::MAX
            } else {
                delay as i32
            }
        },
    }
}

/// What the host is asked of the descriptors `fd_events`, one by one.
pub open spec fn spec_fd_requests(fd_events: Seq<FdEventData>) -> Seq<FdRequest> {
    Seq::new(
        fd_events.len(),
        |i: int|
            FdRequest { fd: fd_events[i].descriptor.spec_as_raw_fd(), type_: fd_events[i].type_ },
    )
}

/// The wait that a poll with the timer `timeout` and the descriptors
/// `fd_events` makes. With neither a timer nor a descriptor there is nothing
/// to wait for, and the poll is over with no event.
pub fn poll_oneoff_request(timeout: Option<ClockEventData>, fd_events: &Vec<FdEventData>) -> (r:
    Option<PollRequest>)
    ensures
        r is None <==> (timeout is None && fd_events@.len() == 0),
        r matches Some(request) ==> request.fds@ == spec_fd_requests(fd_events@) && request.timeout
            == spec_poll_timeout(timeout),
{
    if fd_events.len() == 0 && timeout.is_none() {
        return None;
    }
    let mut fds: Vec<FdRequest> = Vec::new();
    let mut i: usize = 0;
    while i < fd_events.len()
        invariant
            i <= fd_events@.len(),
            fds@.len() == i,
            forall|j: int| 0 <= j < i ==> fds@[j] == spec_fd_requests(fd_events@)[j],
        decreases fd_events@.len() - i,
    {
        fds.push(FdRequest { fd: fd_events[i].descriptor.as_raw_fd(), type_: fd_events[i].type_ });
        i = i + 1;
    }
    assert(fds@ =~= spec_fd_requests(fd_events@));
    Some(PollRequest { fds, timeout: poll_timeout(timeout) })
}

/// What to do after a wait.
#[derive(Clone, Copy, Debug, PartialEq, Eq, Structural)]
pub enum WaitStep {
    /// The wait was interrupted: make the same wait again.
    Retry,
    /// The wait failed: the poll fails with this.
    Fail(Error),
    /// The wait is over, with this many descriptors reported by the host.
    Ready(i32),
}

/// What the host's answer to a wait (the number of descriptors it reports,
/// or its error number) asks for: an interrupted wait is made again, any
/// other failure ends the poll.
pub open spec fn spec_after_wait(answer: Result<i32, i32>) -> WaitStep {
    match answer {
        Ok(ready) => WaitStep::Ready(ready),
        Err(errno) => if errno == HOST_EINTR {
            WaitStep::Retry
        } else {
            WaitStep::Fail(spec_errno_from_host(errno))
        },
    }
}

pub fn poll_oneoff_after_wait(answer: Result<i32, i32>) -> (step: WaitStep)
    ensures
        step == spec_after_wait(answer),
        step is Retry <==> answer == Err::<i32, i32>(HOST_EINTR),
{
    match answer {
        Ok(ready) => WaitStep::Ready(ready),
        Err(errno) => if errno == HOST_EINTR {
            WaitStep::Retry
        } else {
            WaitStep::Fail(errno_from_host(errno))
        },
    }
}

/// Whether the caller should ask the host how many bytes can be read from a
/// descriptor: only for a read, and only where the host reported something
/// of the descriptor.
pub fn wants_bytes_available(fd_event: &FdEventData, revents: &Option<Readiness>) -> (wanted: bool)
    ensures
        wanted == (fd_event.type_ == FdEventType::Read && revents is Some),
{
    match fd_event.type_ {
        FdEventType::Read => revents.is_some(),
        FdEventType::Write => false,
    }
}

/// The events of a wait that is over. Where the host reports no descriptor,
/// the timer has run out, and the one event says so. Else the events are
/// those that the observations of the descriptors stand for.
pub open spec fn spec_poll_events(
    timeout: Option<ClockEventData>,
    fd_events: Seq<FdEventData>,
    ready: i32,
    observations: Seq<FdObservation>,
) -> Result<Seq<Event>, Error> {
    if ready == 0 {
        match timeout {
            Some(timeout) => Ok(seq![spec_timeout_event(timeout)]),
            None => Ok(Seq::empty()),
        }
    } else {
        spec_fd_events(fd_events, observations, spec_observed(fd_events, observations))
    }
}

pub fn poll_oneoff_events(
    timeout: Option<ClockEventData>,
    fd_events: &Vec<FdEventData>,
    ready: i32,
    observations: &Vec<FdObservation>,
) -> (r: Result<Vec<Event>, Error>)
    ensures
        match r {
            Ok(events) => spec_poll_events(timeout, fd_events@, ready, observations@) == Ok::<
                Seq<Event>,
                Error,
            >(events@),
            Err(e) => spec_poll_events(timeout, fd_events@, ready, observations@) == Err::<
                Seq<Event>,
                Error,
            >(e),
        },
{
    if ready == 0 {
        match timeout {
            Some(timeout) => Ok(poll_oneoff_handle_timeout_event(timeout)),
            None => Ok(Vec::new()),
        }
    } else {
        poll_oneoff_handle_fd_event(fd_events, observations)
    }
}

/// One answer of the host to a wait, and what the caller then learned of the
/// descriptors.
pub struct WaitAnswer {
    pub answer: Result<i32, i32>,
    pub observations: Seq<FdObservation>,
}

/// The result of a poll with the timer `timeout` and the descriptors
/// `fd_events`, to whose waits the host gives the answers `answers` in turn;
/// `None` while the poll still waits.
pub open spec fn spec_poll_oneoff(
    timeout: Option<ClockEventData>,
    fd_events: Seq<FdEventData>,
    answers: Seq<WaitAnswer>,
) -> Option<Result<Seq<Event>, Error>>
    decreases answers.len(),
{
    if timeout is None && fd_events.len() == 0 {
        Some(Ok(Seq::empty()))
    } else if answers.len() == 0 {
        None
    } else {
        match spec_after_wait(answers[0].answer) {
            WaitStep::Retry => spec_poll_oneoff(timeout, fd_events, answers.skip(1)),
            WaitStep::Fail(e) => Some(Err(e)),
            WaitStep::Ready(ready) => Some(
                spec_poll_events(timeout, fd_events, ready, answers[0].observations),
            ),
        }
    }
}

/// An interrupted wait does not show: a poll whose first wait is interrupted
/// ends as the same poll does without that wait.
pub proof fn lemma_interrupted_wait_is_retried(
    timeout: Option<ClockEventData>,
    fd_events: Seq<FdEventData>,
    interrupted: WaitAnswer,
    answers: Seq<WaitAnswer>,
)
    requires
        interrupted.answer == Err::<i32, i32>(HOST_EINTR),
    ensures
        spec_poll_oneoff(timeout, fd_events, seq![interrupted] + answers) == spec_poll_oneoff(
            timeout,
            fd_events,
            answers,
        ),
{
    let all = seq![interrupted] + answers;
    assert(all.skip(1) =~= answers);
    if timeout is None && fd_events.len() == 0 {
    } else {
        assert(all[0] == interrupted);
    }
}

/// A poll with neither a timer nor a descriptor ends at once, with no
/// event, whatever the host would answer.
pub proof fn lemma_nothing_to_wait_for(answers: Seq<WaitAnswer>)
    ensures
        spec_poll_oneoff(None, Seq::empty(), answers) == Some(
            Ok::<Seq<Event>, Error>(Seq::empty()),
        ),
{
}

/// A poll never gives more events than it has timers and descriptors, and
/// with a timer never more than one event where no descriptor is ready.
pub proof fn lemma_poll_events_bound(
    timeout: Option<ClockEventData>,
    fd_events: Seq<FdEventData>,
    ready: i32,
    observations: Seq<FdObservation>,
)
    ensures
        spec_poll_events(timeout, fd_events, ready, observations) matches Ok(events) ==> {
            &&& ready == 0 && timeout is Some ==> events.len() == 1
            &&& ready == 0 && timeout is None ==> events.len() == 0
            &&& ready != 0 ==> events.len() <= fd_events.len()
        },
{
    if ready != 0 {
        lemma_fd_events_bound(fd_events, observations, spec_observed(fd_events, observations));
    }
}

/// The first `n` descriptors give at most `n` events.
pub proof fn lemma_fd_events_bound(
    fd_events: Seq<FdEventData>,
    observations: Seq<FdObservation>,
    n: nat,
)
    ensures
        spec_fd_events(fd_events, observations, n) matches Ok(events) ==> events.len() <= n,
    decreases n,
{
    if n > 0 {
        lemma_fd_events_bound(fd_events, observations, (n - 1) as nat);
    }
}

/// A request to be woken by a clock.
#[derive(Clone, Copy, Debug, PartialEq, Eq, Structural)]
pub struct ClockSubscription {
    pub identifier: u64,
    pub clock_id: u32,
    /// The time to wait in nanoseconds, or the point in time to wait for.
    pub timeout: u64,
    pub precision: u64,
    /// `__WASI_SUBSCRIPTION_CLOCK_ABSTIME` where `timeout` is a point in
    /// time, counted in nanoseconds from the start of 1970.
    pub flags: u16,
}

/// What a subscription waits for.
#[derive(Clone, Copy, Debug, PartialEq, Eq, Structural)]
pub enum SubscriptionKind {
    Clock(ClockSubscription),
    FdReadWrite { fd: u32, type_: FdEventType },
}

/// One request of a poll.
#[derive(Clone, Copy, Debug, PartialEq, Eq, Structural)]
pub struct Subscription {
    pub userdata: u64,
    pub kind: SubscriptionKind,
}

/// Whether the subscription names a point in time.
pub open spec fn spec_is_abstime(clock: ClockSubscription) -> bool {
    clock.flags == host::__WASI_SUBSCRIPTION_CLOCK_ABSTIME
}

/// The time that is left to wait for `clock` when `now` nanoseconds have
/// gone since the start of 1970: the timeout itself where it is a length of
/// time; else what is left until then, and nothing where that point is
/// past.
pub open spec fn spec_relative_ns_delay(clock: ClockSubscription, now: u128) -> u128 {
    if !spec_is_abstime(clock) {
        clock.timeout as u128
    } else if clock.timeout >= now {
        (clock.timeout - now) as u128
    } else {
        0
    }
}

pub fn relative_ns_delay(clock: &ClockSubscription, now: u128) -> (delay: u128)
    ensures
        delay == spec_relative_ns_delay(*clock, now),
        delay <= clock.timeout,
{
    let deadline: u128 = clock.timeout as u128;
    if clock.flags != host::__WASI_SUBSCRIPTION_CLOCK_ABSTIME {
        deadline
    } else {
        deadline.saturating_sub(now)
    }
}

/// The nanoseconds from the start of 1970 to the host time of `sec` seconds
/// and `nsec` nanoseconds; none for a time before then.
pub open spec fn spec_since_epoch(sec: i64, nsec: i64) -> Option<u128> {
    if sec >= 0 && nsec >= 0 {
        Some((sec * NANOS_PER_SEC + nsec) as u128)
    } else {
        None
    }
}

pub fn since_epoch(sec: i64, nsec: i64) -> (now: Option<u128>)
    ensures
        now == spec_since_epoch(sec, nsec),
{
    if sec >= 0 && nsec >= 0 {
        let seconds: u128 = sec as u128;
        let nanos: u128 = nsec as u128;
        assert(seconds * 1_000_000_000 <= 0x7fff_ffff_ffff_ffff * 1_000_000_000) by (nonlinear_arith)
            requires
                seconds <= 0x7fff_ffff_ffff_ffff,
        ;
        Some(seconds * 1_000_000_000 + nanos)
    } else {
        None
    }
}

/// The time that is left to wait for `clock`, given the host's answer to
/// "what time is it?". Only a point in time needs the answer; where the
/// host has none, or a time before 1970, the delay cannot be told and the
/// result is `ENOTCAPABLE`.
pub open spec fn spec_delay_for_answer(
    clock: ClockSubscription,
    answer: Result<(i64, i64), i32>,
) -> Result<u128, Error> {
    if !spec_is_abstime(clock) {
        Ok(clock.timeout as u128)
    } else {
        match answer {
            Ok((sec, nsec)) => match spec_since_epoch(sec, nsec) {
                Some(now) => Ok(spec_relative_ns_delay(clock, now)),
                None => Err(Error::ENOTCAPABLE),
            },
            Err(_) => Err(Error::ENOTCAPABLE),
        }
    }
}

pub fn delay_for_answer(clock: &ClockSubscription, answer: Result<(i64, i64), i32>) -> (r: Result<
    u128,
    Error,
>)
    ensures
        r == spec_delay_for_answer(*clock, answer),
{
    if clock.flags != host::__WASI_SUBSCRIPTION_CLOCK_ABSTIME {
        return Ok(relative_ns_delay(clock, 0));
    }
    match answer {
        Ok((sec, nsec)) => match since_epoch(sec, nsec) {
            Some(now) => Ok(relative_ns_delay(clock, now)),
            None => Err(Error::ENOTCAPABLE),
        },
        Err(_) => Err(Error::ENOTCAPABLE),
    }
}

/// Whether `delay` can be the time left to wait for `clock`: the timeout
/// itself where it is a length of time, and no more than the timeout where
/// it is a point in time.
pub open spec fn spec_delay_possible(clock: ClockSubscription, delay: u128) -> bool {
    if spec_is_abstime(clock) {
        delay <= clock.timeout
    } else {
        delay == clock.timeout
    }
}

/// The time in nanoseconds that is left to wait for `wasi_clock`. A length
/// of time is its own answer and the host is not asked. For a point in time
/// the host is asked for the time: whatever it answers, the result is what
/// that answer means, a delay that is possible or `ENOTCAPABLE`.
pub fn wasi_clock_to_relative_ns_delay(wasi_clock: ClockSubscription) -> (r: Result<u128, Error>)
    ensures
        !spec_is_abstime(wasi_clock) ==> r == Ok::<u128, Error>(wasi_clock.timeout as u128),
        exists|answer: Result<(i64, i64), i32>|
            r == #[trigger] spec_delay_for_answer(wasi_clock, answer),
        match r {
            Ok(delay) => spec_delay_possible(wasi_clock, delay),
            Err(e) => e == Error::ENOTCAPABLE && spec_is_abstime(wasi_clock),
        },
{
    if wasi_clock.flags != host::__WASI_SUBSCRIPTION_CLOCK_ABSTIME {
        let r = Ok(wasi_clock.timeout as u128);
        assert(r == spec_delay_for_answer(wasi_clock, Err(0)));
        return r;
    }
    let answer = os::clock_gettime(HostClock::Realtime);
    let r = delay_for_answer(&wasi_clock, answer);
    assert(r == spec_delay_for_answer(wasi_clock, answer));
    r
}

/// The timer of a poll after one more clock subscription: the shorter delay
/// wins, and of two equal delays the one that came first.
pub open spec fn spec_reduce_timeout(
    timeout: Option<ClockEventData>,
    current: ClockEventData,
) -> Option<ClockEventData> {
    match timeout {
        None => Some(current),
        Some(earlier) => if current.delay < earlier.delay {
            Some(current)
        } else {
            Some(earlier)
        },
    }
}

pub fn reduce_timeout(timeout: Option<ClockEventData>, current: ClockEventData) -> (r: Option<
    ClockEventData,
>)
    ensures
        r == spec_reduce_timeout(timeout, current),
{
    match timeout {
        None => Some(current),
        Some(earlier) => if current.delay < earlier.delay {
            Some(current)
        } else {
            Some(earlier)
        },
    }
}

/// The timer of a poll with the subscriptions `subscriptions`, where
/// `delays[i]` is the time left to wait for `subscriptions[i]`: of the clock
/// subscriptions the one with the shortest delay, the first of them where
/// several are as short; none where no subscription is for a clock.
pub open spec fn spec_timeout(subscriptions: Seq<Subscription>, delays: Seq<u128>) -> Option<
    ClockEventData,
>
    decreases subscriptions.len(),
{
    if subscriptions.len() == 0 {
        None
    } else {
        let earlier = spec_timeout(subscriptions.drop_last(), delays.drop_last());
        match subscriptions.last().kind {
            SubscriptionKind::Clock(_) => spec_reduce_timeout(
                earlier,
                ClockEventData { delay: delays.last(), userdata: subscriptions.last().userdata },
            ),
            SubscriptionKind::FdReadWrite { .. } => earlier,
        }
    }
}

/// The descriptor that a subscription for `fd` waits on, or the failure of
/// the table to give it: the descriptor must be in the table and hold the
/// right to be read, or to be written.
pub open spec fn spec_resolve_subscription(ctx: &WasiCtx, fd: u32, type_: FdEventType) -> Result<
    Descriptor,
    Error,
> {
    ctx.spec_resolve(fd, type_.spec_needed_right(), 0)
}

/// The descriptors that a poll with the subscriptions `subscriptions` waits
/// on, in the order of their subscriptions: those that the table gives.
pub open spec fn spec_fd_event_data(ctx: &WasiCtx, subscriptions: Seq<Subscription>) -> Seq<
    FdEventData,
>
    decreases subscriptions.len(),
{
    if subscriptions.len() == 0 {
        Seq::empty()
    } else {
        let earlier = spec_fd_event_data(ctx, subscriptions.drop_last());
        match subscriptions.last().kind {
            SubscriptionKind::Clock(_) => earlier,
            SubscriptionKind::FdReadWrite { fd, type_ } => match spec_resolve_subscription(
                ctx,
                fd,
                type_,
            ) {
                Ok(descriptor) => earlier.push(
                    FdEventData {
                        descriptor: &descriptor,
                        type_,
                        userdata: subscriptions.last().userdata,
                    },
                ),
                Err(_) => earlier,
            },
        }
    }
}

/// The events that a poll with the subscriptions `subscriptions` gives
/// before it waits, in the order of their subscriptions: one for each
/// descriptor that the table does not give.
pub open spec fn spec_rejected(ctx: &WasiCtx, subscriptions: Seq<Subscription>) -> Seq<Event>
    decreases subscriptions.len(),
{
    if subscriptions.len() == 0 {
        Seq::empty()
    } else {
        let earlier = spec_rejected(ctx, subscriptions.drop_last());
        match subscriptions.last().kind {
            SubscriptionKind::Clock(_) => earlier,
            SubscriptionKind::FdReadWrite { fd, type_ } => match spec_resolve_subscription(
                ctx,
                fd,
                type_,
            ) {
                Ok(_) => earlier,
                Err(_) => earlier.push(
                    spec_bad_descriptor_event(subscriptions.last().userdata, type_),
                ),
            },
        }
    }
}

/// Whether `delays[i]` can be the time left to wait for `subscriptions[i]`,
/// for each clock subscription; for any other it is zero.
pub open spec fn spec_delays_possible(subscriptions: Seq<Subscription>, delays: Seq<u128>) -> bool {
    &&& delays.len() == subscriptions.len()
    &&& forall|i: int|
        0 <= i < subscriptions.len() ==> match (#[trigger] subscriptions[i]).kind {
            SubscriptionKind::Clock(clock) => spec_delay_possible(clock, delays[i]),
            SubscriptionKind::FdReadWrite { .. } => delays[i] == 0,
        }
}

/// Whether a subscription waits for a point in time.
pub open spec fn spec_waits_for_point_in_time(subscription: Subscription) -> bool {
    subscription.kind matches SubscriptionKind::Clock(clock) && spec_is_abstime(clock)
}

/// The delays of subscriptions of which none waits for a point in time.
pub open spec fn spec_relative_delays(subscriptions: Seq<Subscription>) -> Seq<u128> {
    Seq::new(
        subscriptions.len(),
        |i: int|
            match subscriptions[i].kind {
                SubscriptionKind::Clock(clock) => clock.timeout as u128,
                SubscriptionKind::FdReadWrite { .. } => 0,
            },
    )
}

/// What a poll has made of its subscriptions before it waits.
#[derive(Debug)]
pub struct PollBatch<'a> {
    /// The events that are due without waiting.
    pub rejected: Vec<Event>,
    /// The one timer to wait for, if a clock was subscribed to.
    pub timeout: Option<ClockEventData>,
    /// The descriptors to wait on.
    pub fd_events: Vec<FdEventData<'a>>,
}

/// Sorts the subscriptions of a poll. The clock subscriptions are brought
/// down to one timer. Each descriptor is asked of the table with the right
/// that its wait needs: one that the table gives is waited on; one that it
/// does not give gets its event at once, and the others are not held up by
/// it. The whole poll fails only where the delay of a clock subscription
/// cannot be told, with `ENOTCAPABLE`; that can happen only to one that
/// waits for a point in time.
pub fn poll_oneoff_prepare<'a>(wasi_ctx: &'a WasiCtx, subscriptions: &Vec<Subscription>) -> (r:
    Result<PollBatch<'a>, Error>)
    ensures
        match r {
            Ok(batch) => {
                &&& batch.rejected@ == spec_rejected(wasi_ctx, subscriptions@)
                &&& batch.fd_events@ == spec_fd_event_data(wasi_ctx, subscriptions@)
                &&& exists|delays: Seq<u128>| #[trigger]
                    spec_delays_possible(subscriptions@, delays) && batch.timeout == spec_timeout(
                        subscriptions@,
                        delays,
                    )
            },
            Err(e) => {
                &&& e == Error::ENOTCAPABLE
                &&& exists|i: int|
                    0 <= i < subscriptions@.len() && spec_waits_for_point_in_time(
                        #[trigger] subscriptions@[i],
                    )
            },
        },
        (forall|i: int|
            0 <= i < subscriptions@.len() ==> !spec_waits_for_point_in_time(
                #[trigger] subscriptions@[i],
            )) ==> (r matches Ok(batch) && batch.timeout == spec_timeout(
            subscriptions@,
            spec_relative_delays(subscriptions@),
        )),
{
    let mut rejected: Vec<Event> = Vec::new();
    let mut timeout: Option<ClockEventData> = None;
    let mut fd_events: Vec<FdEventData<'a>> = Vec::new();
    let ghost mut delays: Seq<u128> = Seq::empty();
    let mut i: usize = 0;
    while i < subscriptions.len()
        invariant
            i <= subscriptions@.len(),
            rejected@ == spec_rejected(wasi_ctx, subscriptions@.take(i as int)),
            fd_events@ == spec_fd_event_data(wasi_ctx, subscriptions@.take(i as int)),
            timeout == spec_timeout(subscriptions@.take(i as int), delays),
            spec_delays_possible(subscriptions@.take(i as int), delays),
            forall|j: int|
                0 <= j < i && !spec_waits_for_point_in_time(#[trigger] subscriptions@[j])
                    ==> delays[j] == spec_relative_delays(subscriptions@)[j],
        decreases subscriptions@.len() - i,
    {
        let subscription = subscriptions[i];
        let ghost seen = subscriptions@.take(i as int);
        let ghost next = subscriptions@.take(i + 1);
        assert(next.drop_last() =~= seen);
        assert(next.last() == subscription);
        let ghost earlier_delays = delays;
        match subscription.kind {
            SubscriptionKind::Clock(clock) => {
                let delay = match wasi_clock_to_relative_ns_delay(clock) {
                    Ok(delay) => delay,
                    Err(e) => {
                        assert(spec_waits_for_point_in_time(subscriptions@[i as int]));
                        return Err(e);
                    },
                };
                timeout = reduce_timeout(
                    timeout,
                    ClockEventData { delay, userdata: subscription.userdata },
                );
                proof {
                    delays = delays.push(delay);
                }
            },
            SubscriptionKind::FdReadWrite { fd, type_ } => {
                match wasi_ctx.resolve(fd, type_.needed_right(), 0) {
                    Ok(descriptor) => {
                        fd_events.push(
                            FdEventData { descriptor, type_, userdata: subscription.userdata },
                        );
                    },
                    Err(_) => {
                        rejected.push(bad_descriptor_event(subscription.userdata, type_));
                    },
                }
                proof {
                    delays = delays.push(0);
                }
            },
        }
        proof {
            assert(delays.drop_last() =~= earlier_delays);
            assert forall|j: int| 0 <= j < next.len() implies match (#[trigger] next[j]).kind {
                SubscriptionKind::Clock(clock) => spec_delay_possible(clock, delays[j]),
                SubscriptionKind::FdReadWrite { .. } => delays[j] == 0,
            } by {
                if j < i {
                    assert(seen[j] == next[j]);
                }
            }
        }
        i = i + 1;
    }
    proof {
        assert(subscriptions@.take(i as int) =~= subscriptions@);
        if forall|i: int|
            0 <= i < subscriptions@.len() ==> !spec_waits_for_point_in_time(
                #[trigger] subscriptions@[i],
            ) {
            assert(delays =~= spec_relative_delays(subscriptions@));
        }
    }
    Ok(PollBatch { rejected, timeout, fd_events })
}

/// The events of a poll: those that were due without waiting, then those of
/// the wait.
pub fn poll_oneoff_finish(rejected: Vec<Event>, events: Vec<Event>) -> (all: Vec<Event>)
    ensures
        all@ == rejected@ + events@,
{
    let mut all = rejected;
    let mut events = events;
    all.append(&mut events);
    all
}

/// The result of a whole poll with the subscriptions `subscriptions`, where
/// `delays[i]` is the time left to wait for `subscriptions[i]` and the host
/// gives the answers `answers` to the waits in turn: the events that were
/// due without waiting, then those of the wait; `None` while the poll still
/// waits.
pub open spec fn spec_poll(
    ctx: &WasiCtx,
    subscriptions: Seq<Subscription>,
    delays: Seq<u128>,
    answers: Seq<WaitAnswer>,
) -> Option<Result<Seq<Event>, Error>> {
    match spec_poll_oneoff(
        spec_timeout(subscriptions, delays),
        spec_fd_event_data(ctx, subscriptions),
        answers,
    ) {
        None => None,
        Some(Ok(events)) => Some(Ok(spec_rejected(ctx, subscriptions) + events)),
        Some(Err(e)) => Some(Err(e)),
    }
}

/// A poll without subscriptions ends at once, with no event, and waits for
/// nothing.
pub proof fn lemma_poll_of_nothing(ctx: &WasiCtx, answers: Seq<WaitAnswer>)
    ensures
        spec_rejected(ctx, Seq::empty()) == Seq::<Event>::empty(),
        spec_fd_event_data(ctx, Seq::empty()) == Seq::<FdEventData>::empty(),
        spec_timeout(Seq::empty(), Seq::empty()) == None::<ClockEventData>,
        spec_poll(ctx, Seq::empty(), Seq::empty(), answers) == Some(
            Ok::<Seq<Event>, Error>(Seq::empty()),
        ),
{
    assert(Seq::<Event>::empty() + Seq::<Event>::empty() =~= Seq::<Event>::empty());
}

/// An interrupted wait does not show in the result of a whole poll.
pub proof fn lemma_poll_retries_interrupted_wait(
    ctx: &WasiCtx,
    subscriptions: Seq<Subscription>,
    delays: Seq<u128>,
    interrupted: WaitAnswer,
    answers: Seq<WaitAnswer>,
)
    requires
        interrupted.answer == Err::<i32, i32>(HOST_EINTR),
    ensures
        spec_poll(ctx, subscriptions, delays, seq![interrupted] + answers) == spec_poll(
            ctx,
            subscriptions,
            delays,
            answers,
        ),
{
    lemma_interrupted_wait_is_retried(
        spec_timeout(subscriptions, delays),
        spec_fd_event_data(ctx, subscriptions),
        interrupted,
        answers,
    );
}

/// Every subscription is either for a clock, or waited on, or answered at
/// once: the descriptors waited on and the events due at once are together
/// no more than the subscriptions, and fewer where there is a timer.
pub proof fn lemma_subscriptions_are_sorted(
    ctx: &WasiCtx,
    subscriptions: Seq<Subscription>,
    delays: Seq<u128>,
)
    ensures
        spec_rejected(ctx, subscriptions).len() + spec_fd_event_data(ctx, subscriptions).len()
            <= subscriptions.len(),
        spec_timeout(subscriptions, delays) is Some ==> spec_rejected(ctx, subscriptions).len()
            + spec_fd_event_data(ctx, subscriptions).len() < subscriptions.len(),
    decreases subscriptions.len(),
{
    if subscriptions.len() > 0 {
        lemma_subscriptions_are_sorted(ctx, subscriptions.drop_last(), delays.drop_last());
    }
}

/// A poll never gives more events than it has subscriptions.
pub proof fn lemma_poll_event_count(
    ctx: &WasiCtx,
    subscriptions: Seq<Subscription>,
    delays: Seq<u128>,
    answers: Seq<WaitAnswer>,
)
    ensures
        spec_poll(ctx, subscriptions, delays, answers) matches Some(Ok(events)) ==> events.len()
            <= subscriptions.len(),
    decreases answers.len(),
{
    let timeout = spec_timeout(subscriptions, delays);
    let fd_events = spec_fd_event_data(ctx, subscriptions);
    lemma_subscriptions_are_sorted(ctx, subscriptions, delays);
    if timeout is None && fd_events.len() == 0 {
    } else if answers.len() == 0 {
    } else {
        match spec_after_wait(answers[0].answer) {
            WaitStep::Retry => {
                lemma_poll_event_count(ctx, subscriptions, delays, answers.skip(1));
            },
            WaitStep::Fail(_) => {},
            WaitStep::Ready(ready) => {
                lemma_poll_events_bound(timeout, fd_events, ready, answers[0].observations);
            },
        }
    }
}

/// One descriptor that the table does not give does not hold up another:
/// whatever the subscriptions before it were, a subscription for a
/// descriptor adds either one descriptor to wait on or one event that is due
/// at once, and leaves the rest as it was.
pub proof fn lemma_subscription_is_sorted_alone(
    ctx: &WasiCtx,
    earlier: Seq<Subscription>,
    userdata: u64,
    fd: u32,
    type_: FdEventType,
)
    ensures
        ({
            let subscription = Subscription {
                userdata,
                kind: SubscriptionKind::FdReadWrite { fd, type_ },
            };
            match spec_resolve_subscription(ctx, fd, type_) {
                Ok(descriptor) => {
                    &&& spec_rejected(ctx, earlier.push(subscription)) == spec_rejected(
                        ctx,
                        earlier,
                    )
                    &&& spec_fd_event_data(ctx, earlier.push(subscription)) == spec_fd_event_data(
                        ctx,
                        earlier,
                    ).push(FdEventData { descriptor: &descriptor, type_, userdata })
                },
                Err(_) => {
                    &&& spec_rejected(ctx, earlier.push(subscription)) == spec_rejected(
                        ctx,
                        earlier,
                    ).push(spec_bad_descriptor_event(userdata, type_))
                    &&& spec_fd_event_data(ctx, earlier.push(subscription)) == spec_fd_event_data(
                        ctx,
                        earlier,
                    )
                },
            }
        }),
{
    let subscription = Subscription { userdata, kind: SubscriptionKind::FdReadWrite { fd, type_ } };
    assert(earlier.push(subscription).drop_last() =~= earlier);
}

/// The timer of a poll is that of the first clock subscription among those
/// with the shortest delay; there is none only where no subscription is for
/// a clock.
pub proof fn lemma_timeout_is_first_shortest(subscriptions: Seq<Subscription>, delays: Seq<u128>)
    requires
        delays.len() == subscriptions.len(),
    ensures
        match spec_timeout(subscriptions, delays) {
            None => forall|j: int|
                0 <= j < subscriptions.len() ==> !((#[trigger] subscriptions[j]).kind is Clock),
            Some(timeout) => exists|i: int|
                {
                    &&& 0 <= i < subscriptions.len()
                    &&& (#[trigger] subscriptions[i]).kind is Clock
                    &&& timeout == (ClockEventData {
                        delay: delays[i],
                        userdata: subscriptions[i].userdata,
                    })
                    &&& forall|j: int|
                        0 <= j < subscriptions.len() && (#[trigger] subscriptions[j]).kind is Clock
                            ==> timeout.delay <= delays[j]
                    &&& forall|j: int|
                        0 <= j < i && (#[trigger] subscriptions[j]).kind is Clock ==> timeout.delay
                            < delays[j]
                },
        },
    decreases subscriptions.len(),
{
    if subscriptions.len() > 0 {
        let earlier = subscriptions.drop_last();
        let earlier_delays = delays.drop_last();
        let last = subscriptions.len() - 1;
        lemma_timeout_is_first_shortest(earlier, earlier_delays);
        assert forall|j: int| 0 <= j < last implies earlier[j] == subscriptions[j]
            && earlier_delays[j] == delays[j] by {}
        match spec_timeout(subscriptions, delays) {
            None => {
                assert forall|j: int| 0 <= j < subscriptions.len() implies !((
                #[trigger] subscriptions[j]).kind is Clock) by {
                    if j < last {
                        assert(earlier[j] == subscriptions[j]);
                    }
                }
            },
            Some(timeout) => {
                let i = if spec_timeout(earlier, earlier_delays) == Some(timeout) {
                    choose|i: int|
                        {
                            &&& 0 <= i < earlier.len()
                            &&& (#[trigger] earlier[i]).kind is Clock
                            &&& timeout == (ClockEventData {
                                delay: earlier_delays[i],
                                userdata: earlier[i].userdata,
                            })
                            &&& forall|j: int|
                                0 <= j < earlier.len() && (#[trigger] earlier[j]).kind is Clock
                                    ==> timeout.delay <= earlier_delays[j]
                            &&& forall|j: int|
                                0 <= j < i && (#[trigger] earlier[j]).kind is Clock
                                    ==> timeout.delay < earlier_delays[j]
                        }
                } else {
                    last
                };
                assert(subscriptions[i].kind is Clock);
                assert forall|j: int|
                    0 <= j < subscriptions.len() && (
                    #[trigger] subscriptions[j]).kind is Clock implies timeout.delay
                    <= delays[j] by {
                    if j < last {
                        assert(earlier[j] == subscriptions[j]);
                    }
                }
                assert forall|j: int|
                    0 <= j < i && (#[trigger] subscriptions[j]).kind is Clock implies timeout.delay
                    < delays[j] by {
                    if j < last {
                        assert(earlier[j] == subscriptions[j]);
                    }
                }
            },
        }
    }
}

} // verus!
