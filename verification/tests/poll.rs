use wasi_common::ctx::WasiCtx;
use wasi_common::error::{Error, __WASI_ESUCCESS};
use wasi_common::fdentry::{Descriptor, FdEntry};
use wasi_common::host;
use wasi_common::poll::{
    bad_descriptor_event, delay_for_answer, event_of_observation, poll_oneoff_after_wait,
    poll_oneoff_events, poll_oneoff_finish, poll_oneoff_handle_fd_event,
    poll_oneoff_handle_timeout_event, poll_oneoff_prepare, poll_oneoff_request, poll_timeout,
    reduce_timeout, relative_ns_delay, since_epoch, wants_bytes_available,
    wasi_clock_to_relative_ns_delay, ClockEventData, ClockSubscription, Event, EventType,
    FdEventData, FdEventType, FdObservation, FdRequest, PollRequest, Readiness, Subscription,
    SubscriptionKind, WaitStep,
};

use nix::errno::Errno;
use nix::poll::{poll, PollFd, PollFlags};
use nix::unistd::{close, pipe};

const HANGUP: u16 = host::__WASI_EVENT_FD_READWRITE_HANGUP;

fn nothing() -> Readiness {
    Readiness { invalid: false, error: false, hangup: false, readable: false, writable: false }
}

fn seen(revents: Readiness, nbytes: Option<i32>) -> FdObservation {
    FdObservation { revents: Some(revents), nbytes }
}

fn clock(timeout: u64, flags: u16) -> ClockSubscription {
    ClockSubscription { identifier: 0, clock_id: 0, timeout, precision: 0, flags }
}

fn timer(userdata: u64, timeout: u64) -> Subscription {
    Subscription { userdata, kind: SubscriptionKind::Clock(clock(timeout, 0)) }
}

fn on_fd(userdata: u64, fd: u32, type_: FdEventType) -> Subscription {
    Subscription { userdata, kind: SubscriptionKind::FdReadWrite { fd, type_ } }
}

fn insert(ctx: &mut WasiCtx, descriptor: Descriptor, rights_base: u64) -> u32 {
    let entry = FdEntry::new(host::__WASI_FILETYPE_UNKNOWN, descriptor, rights_base, 0);
    match ctx.insert_fd_entry(entry) {
        Ok(fd) => fd,
        Err((error, _)) => panic!("no number is free: {:?}", error),
    }
}

/// What the host answers to one wait, and what it reports of each descriptor.
struct Answer {
    answer: Result<i32, i32>,
    observations: Vec<FdObservation>,
}

/// Makes the wait on the host.
fn wait(request: &PollRequest) -> Answer {
    let mut fds: Vec<PollFd> = request
        .fds
        .iter()
        .map(|r| {
            let flags = match r.type_ {
                FdEventType::Read => PollFlags::POLLIN,
                FdEventType::Write => PollFlags::POLLOUT,
            };
            PollFd::new(r.fd, flags)
        })
        .collect();
    let answer = match poll(&mut fds, request.timeout) {
        Ok(ready) => Ok(ready),
        Err(errno) => Err(errno as i32),
    };
    let observations = fds
        .iter()
        .map(|fd| FdObservation {
            revents: fd.revents().map(|f| Readiness {
                invalid: f.contains(PollFlags::POLLNVAL),
                error: f.contains(PollFlags::POLLERR),
                hangup: f.contains(PollFlags::POLLHUP),
                readable: f.contains(PollFlags::POLLIN),
                writable: f.contains(PollFlags::POLLOUT),
            }),
            nbytes: None,
        })
        .collect();
    Answer { answer, observations }
}

/// A whole poll, with the answers of `host` to its waits.
fn run(
    ctx: &WasiCtx,
    subscriptions: &Vec<Subscription>,
    host: &mut dyn FnMut(&PollRequest) -> Answer,
) -> Result<Vec<Event>, Error> {
    let batch = poll_oneoff_prepare(ctx, subscriptions)?;
    let request = match poll_oneoff_request(batch.timeout, &batch.fd_events) {
        Some(request) => request,
        None => return Ok(poll_oneoff_finish(batch.rejected, vec![])),
    };
    loop {
        let answer = host(&request);
        match poll_oneoff_after_wait(answer.answer) {
            WaitStep::Retry => continue,
            WaitStep::Fail(e) => return Err(e),
            WaitStep::Ready(ready) => {
                let events = poll_oneoff_events(
                    batch.timeout,
                    &batch.fd_events,
                    ready,
                    &answer.observations,
                )?;
                return Ok(poll_oneoff_finish(batch.rejected, events));
            }
        }
    }
}

#[test]
fn event_types_have_their_tags() {
    assert_eq!(EventType::Clock.as_wasi_eventtype(), 0);
    assert_eq!(EventType::FdRead.as_wasi_eventtype(), 1);
    assert_eq!(EventType::FdWrite.as_wasi_eventtype(), 2);
    assert_eq!(FdEventType::Read.event_type(), EventType::FdRead);
    assert_eq!(FdEventType::Write.event_type(), EventType::FdWrite);
    assert_eq!(FdEventType::Read.needed_right(), host::__WASI_RIGHT_FD_READ);
    assert_eq!(FdEventType::Write.needed_right(), host::__WASI_RIGHT_FD_WRITE);
}

#[test]
fn timeout_event_is_one_clock_success() {
    let events = poll_oneoff_handle_timeout_event(ClockEventData { delay: 5, userdata: 0xabcd });
    assert_eq!(
        events,
        vec![Event {
            userdata: 0xabcd,
            type_: EventType::Clock,
            error: __WASI_ESUCCESS,
            nbytes: 0,
            flags: 0
        }]
    );
}

#[test]
fn bad_descriptor_event_is_ebadf_with_hangup() {
    assert_eq!(
        bad_descriptor_event(7, FdEventType::Read),
        Event { userdata: 7, type_: EventType::FdRead, error: 8, nbytes: 0, flags: HANGUP }
    );
    assert_eq!(
        bad_descriptor_event(8, FdEventType::Write),
        Event { userdata: 8, type_: EventType::FdWrite, error: 8, nbytes: 0, flags: 1 }
    );
}

#[test]
fn observation_without_report_gives_no_event() {
    let d = Descriptor::OsFile(5);
    let read = FdEventData { descriptor: &d, type_: FdEventType::Read, userdata: 1 };
    assert_eq!(event_of_observation(&read, &FdObservation { revents: None, nbytes: None }), None);
    assert_eq!(
        event_of_observation(&read, &FdObservation { revents: None, nbytes: Some(-4) }),
        None
    );
    assert_eq!(event_of_observation(&read, &seen(nothing(), Some(9))), None);
    assert_eq!(event_of_observation(&read, &seen(nothing(), Some(-9))), None);
}

#[test]
fn observation_flags_go_by_precedence() {
    let d = Descriptor::OsFile(5);
    let read = FdEventData { descriptor: &d, type_: FdEventType::Read, userdata: 1 };
    let all =
        Readiness { invalid: true, error: true, hangup: true, readable: true, writable: true };
    assert_eq!(
        event_of_observation(&read, &seen(all, Some(3))),
        Some(Ok(Event { userdata: 1, type_: EventType::FdRead, error: 8, nbytes: 0, flags: HANGUP }))
    );
    let no_invalid = Readiness { invalid: false, ..all };
    assert_eq!(
        event_of_observation(&read, &seen(no_invalid, Some(3))),
        Some(Ok(Event {
            userdata: 1,
            type_: EventType::FdRead,
            error: 29,
            nbytes: 0,
            flags: HANGUP
        }))
    );
    let hangup = Readiness { error: false, ..no_invalid };
    assert_eq!(
        event_of_observation(&read, &seen(hangup, Some(3))),
        Some(Ok(Event { userdata: 1, type_: EventType::FdRead, error: 0, nbytes: 0, flags: HANGUP }))
    );
    let ready = Readiness { hangup: false, ..hangup };
    assert_eq!(
        event_of_observation(&read, &seen(ready, Some(3))),
        Some(Ok(Event { userdata: 1, type_: EventType::FdRead, error: 0, nbytes: 3, flags: 0 }))
    );
}

#[test]
fn observation_of_a_read_reports_bytes() {
    let d = Descriptor::Stdin;
    let read = FdEventData { descriptor: &d, type_: FdEventType::Read, userdata: 11 };
    let readable = Readiness { readable: true, ..nothing() };
    assert_eq!(
        event_of_observation(&read, &seen(readable, Some(4096))),
        Some(Ok(Event { userdata: 11, type_: EventType::FdRead, error: 0, nbytes: 4096, flags: 0 }))
    );
    assert_eq!(
        event_of_observation(&read, &seen(readable, Some(i32::MAX))),
        Some(Ok(Event {
            userdata: 11,
            type_: EventType::FdRead,
            error: 0,
            nbytes: 2147483647,
            flags: 0
        }))
    );
    assert_eq!(
        event_of_observation(&read, &seen(readable, None)),
        Some(Ok(Event { userdata: 11, type_: EventType::FdRead, error: 0, nbytes: 0, flags: 0 }))
    );
    let writable = Readiness { writable: true, ..nothing() };
    assert_eq!(
        event_of_observation(&read, &seen(writable, Some(2))),
        Some(Ok(Event { userdata: 11, type_: EventType::FdRead, error: 0, nbytes: 2, flags: 0 }))
    );
}

#[test]
fn observation_of_a_write_reports_no_bytes() {
    let d = Descriptor::Stdout;
    let out = FdEventData { descriptor: &d, type_: FdEventType::Write, userdata: 12 };
    let writable = Readiness { writable: true, ..nothing() };
    let expected =
        Event { userdata: 12, type_: EventType::FdWrite, error: 0, nbytes: 0, flags: 0 };
    assert_eq!(event_of_observation(&out, &seen(writable, None)), Some(Ok(expected)));
    assert_eq!(event_of_observation(&out, &seen(writable, Some(77))), Some(Ok(expected)));
    assert_eq!(event_of_observation(&out, &seen(writable, Some(-1))), Some(Ok(expected)));
}

#[test]
fn negative_bytes_of_a_read_overflow() {
    let d = Descriptor::OsFile(3);
    let read = FdEventData { descriptor: &d, type_: FdEventType::Read, userdata: 1 };
    let readable = Readiness { readable: true, ..nothing() };
    assert_eq!(
        event_of_observation(&read, &seen(readable, Some(-1))),
        Some(Err(Error::EOVERFLOW))
    );
    let gone = Readiness { hangup: true, readable: true, ..nothing() };
    assert_eq!(
        event_of_observation(&read, &seen(gone, Some(-1))),
        Some(Ok(Event { userdata: 1, type_: EventType::FdRead, error: 0, nbytes: 0, flags: HANGUP }))
    );
}

#[test]
fn wants_bytes_only_of_a_reported_read() {
    let d = Descriptor::OsFile(3);
    let read = FdEventData { descriptor: &d, type_: FdEventType::Read, userdata: 1 };
    let out = FdEventData { descriptor: &d, type_: FdEventType::Write, userdata: 1 };
    assert!(wants_bytes_available(&read, &Some(nothing())));
    assert!(!wants_bytes_available(&read, &None));
    assert!(!wants_bytes_available(&out, &Some(nothing())));
    assert!(!wants_bytes_available(&out, &None));
}

#[test]
fn fd_events_keep_order_and_skip_the_silent() {
    let a = Descriptor::OsFile(3);
    let b = Descriptor::OsFile(4);
    let c = Descriptor::OsFile(5);
    let fd_events = vec![
        FdEventData { descriptor: &a, type_: FdEventType::Read, userdata: 1 },
        FdEventData { descriptor: &b, type_: FdEventType::Write, userdata: 2 },
        FdEventData { descriptor: &c, type_: FdEventType::Read, userdata: 3 },
    ];
    let observations = vec![
        seen(nothing(), None),
        seen(Readiness { writable: true, ..nothing() }, None),
        seen(Readiness { readable: true, ..nothing() }, Some(10)),
    ];
    assert_eq!(
        poll_oneoff_handle_fd_event(&fd_events, &observations),
        Ok(vec![
            Event { userdata: 2, type_: EventType::FdWrite, error: 0, nbytes: 0, flags: 0 },
            Event { userdata: 3, type_: EventType::FdRead, error: 0, nbytes: 10, flags: 0 },
        ])
    );
    assert_eq!(poll_oneoff_handle_fd_event(&fd_events, &vec![]), Ok(vec![]));
    assert_eq!(poll_oneoff_handle_fd_event(&vec![], &observations), Ok(vec![]));
    assert_eq!(
        poll_oneoff_handle_fd_event(&fd_events, &observations[..2].to_vec()),
        Ok(vec![Event { userdata: 2, type_: EventType::FdWrite, error: 0, nbytes: 0, flags: 0 }])
    );
}

#[test]
fn fd_events_fail_on_the_first_overflow() {
    let a = Descriptor::OsFile(3);
    let fd_events = vec![
        FdEventData { descriptor: &a, type_: FdEventType::Read, userdata: 1 },
        FdEventData { descriptor: &a, type_: FdEventType::Read, userdata: 2 },
    ];
    let readable = Readiness { readable: true, ..nothing() };
    let observations = vec![seen(readable, Some(1)), seen(readable, Some(-2))];
    assert_eq!(poll_oneoff_handle_fd_event(&fd_events, &observations), Err(Error::EOVERFLOW));
}

#[test]
fn poll_timeout_is_in_milliseconds_and_saturates() {
    assert_eq!(poll_timeout(None), -1);
    let with = |delay: u128| poll_timeout(Some(ClockEventData { delay, userdata: 0 }));
    assert_eq!(with(0), 0);
    assert_eq!(with(999_999), 0);
    assert_eq!(with(1_000_000), 1);
    assert_eq!(with(10_000_000), 10);
    assert_eq!(with(1_999_999), 1);
    assert_eq!(with(2_147_483_647_000_000), 2_147_483_647);
    assert_eq!(with(2_147_483_648_000_000), i32::MAX);
    assert_eq!(with(u64::MAX as u128), i32::MAX);
    assert_eq!(with(u128::MAX), i32::MAX);
}

#[test]
fn request_is_none_only_for_nothing() {
    let d = Descriptor::OsFile(9);
    assert!(poll_oneoff_request(None, &vec![]).is_none());
    let request = poll_oneoff_request(Some(ClockEventData { delay: 3_000_000, userdata: 0 }), &vec![])
        .unwrap();
    assert!(request.fds.is_empty());
    assert_eq!(request.timeout, 3);
    let fd_events = vec![
        FdEventData { descriptor: &d, type_: FdEventType::Write, userdata: 1 },
        FdEventData { descriptor: &Descriptor::Stdin, type_: FdEventType::Read, userdata: 2 },
    ];
    let request = poll_oneoff_request(None, &fd_events).unwrap();
    assert_eq!(request.timeout, -1);
    assert_eq!(
        request.fds,
        vec![
            FdRequest { fd: 9, type_: FdEventType::Write },
            FdRequest { fd: 0, type_: FdEventType::Read }
        ]
    );
}

#[test]
fn after_wait_retries_only_the_interrupted() {
    assert_eq!(poll_oneoff_after_wait(Err(Errno::EINTR as i32)), WaitStep::Retry);
    assert_eq!(poll_oneoff_after_wait(Err(Errno::EINVAL as i32)), WaitStep::Fail(Error::EINVAL));
    assert_eq!(poll_oneoff_after_wait(Err(Errno::ENOMEM as i32)), WaitStep::Fail(Error::ENOMEM));
    assert_eq!(poll_oneoff_after_wait(Err(Errno::EFAULT as i32)), WaitStep::Fail(Error::EFAULT));
    assert_eq!(poll_oneoff_after_wait(Ok(0)), WaitStep::Ready(0));
    assert_eq!(poll_oneoff_after_wait(Ok(3)), WaitStep::Ready(3));
}

#[test]
fn events_of_no_ready_descriptor_are_the_timeout() {
    let d = Descriptor::OsFile(9);
    let fd_events = vec![FdEventData { descriptor: &d, type_: FdEventType::Read, userdata: 1 }];
    let observations = vec![seen(Readiness { readable: true, ..nothing() }, Some(5))];
    let timeout = Some(ClockEventData { delay: 1, userdata: 42 });
    assert_eq!(
        poll_oneoff_events(timeout, &fd_events, 0, &observations),
        Ok(vec![Event { userdata: 42, type_: EventType::Clock, error: 0, nbytes: 0, flags: 0 }])
    );
    assert_eq!(poll_oneoff_events(None, &fd_events, 0, &observations), Ok(vec![]));
    assert_eq!(
        poll_oneoff_events(timeout, &fd_events, 1, &observations),
        Ok(vec![Event { userdata: 1, type_: EventType::FdRead, error: 0, nbytes: 5, flags: 0 }])
    );
}

#[test]
fn relative_delay_of_a_length_and_of_a_point_in_time() {
    assert_eq!(relative_ns_delay(&clock(500, 0), 1_000_000), 500);
    assert_eq!(relative_ns_delay(&clock(500, 2), 1_000_000), 500);
    let abstime = host::__WASI_SUBSCRIPTION_CLOCK_ABSTIME;
    assert_eq!(relative_ns_delay(&clock(1_500, abstime), 1_000), 500);
    assert_eq!(relative_ns_delay(&clock(1_500, abstime), 1_500), 0);
    assert_eq!(relative_ns_delay(&clock(1_500, abstime), 1_501), 0);
    assert_eq!(relative_ns_delay(&clock(1_500, abstime), u128::MAX), 0);
    assert_eq!(relative_ns_delay(&clock(u64::MAX, abstime), 0), u64::MAX as u128);
}

#[test]
fn since_epoch_counts_nanoseconds() {
    assert_eq!(since_epoch(0, 0), Some(0));
    assert_eq!(since_epoch(1, 1), Some(1_000_000_001));
    assert_eq!(since_epoch(1_700_000_000, 5), Some(1_700_000_000_000_000_005));
    assert_eq!(since_epoch(i64::MAX, 999_999_999), Some(9_223_372_036_854_775_807_999_999_999));
    assert_eq!(since_epoch(-1, 0), None);
    assert_eq!(since_epoch(-1, 999_999_999), None);
    assert_eq!(since_epoch(0, -1), None);
}

#[test]
fn delay_for_answer_needs_the_time_only_for_a_point_in_time() {
    let abstime = host::__WASI_SUBSCRIPTION_CLOCK_ABSTIME;
    assert_eq!(delay_for_answer(&clock(7, 0), Err(5)), Ok(7));
    assert_eq!(delay_for_answer(&clock(7, 0), Ok((-3, 0))), Ok(7));
    assert_eq!(delay_for_answer(&clock(3_000_000_000, abstime), Ok((1, 0))), Ok(2_000_000_000));
    assert_eq!(delay_for_answer(&clock(3_000_000_000, abstime), Ok((3, 1))), Ok(0));
    assert_eq!(delay_for_answer(&clock(7, abstime), Err(5)), Err(Error::ENOTCAPABLE));
    assert_eq!(delay_for_answer(&clock(7, abstime), Ok((-1, 0))), Err(Error::ENOTCAPABLE));
}

#[test]
fn relative_delay_from_the_host() {
    let abstime = host::__WASI_SUBSCRIPTION_CLOCK_ABSTIME;
    assert_eq!(wasi_clock_to_relative_ns_delay(clock(123_456, 0)), Ok(123_456));
    assert_eq!(wasi_clock_to_relative_ns_delay(clock(0, 0)), Ok(0));
    assert_eq!(wasi_clock_to_relative_ns_delay(clock(1_000, abstime)), Ok(0));
    let far = wasi_clock_to_relative_ns_delay(clock(u64::MAX, abstime)).unwrap();
    assert!(far < u64::MAX as u128);
    assert!(far > (u64::MAX as u128) - 4_000_000_000_000_000_000);
}

#[test]
fn reduce_timeout_keeps_the_first_of_the_shortest() {
    let a = ClockEventData { delay: 50, userdata: 1 };
    let b = ClockEventData { delay: 10, userdata: 2 };
    let c = ClockEventData { delay: 10, userdata: 3 };
    assert_eq!(reduce_timeout(None, a), Some(a));
    assert_eq!(reduce_timeout(Some(a), b), Some(b));
    assert_eq!(reduce_timeout(Some(b), a), Some(b));
    assert_eq!(reduce_timeout(Some(b), c), Some(b));
}

#[test]
fn poll_of_nothing_gives_nothing_at_once() {
    let ctx = WasiCtx::new(vec![], vec![]);
    let batch = poll_oneoff_prepare(&ctx, &vec![]).unwrap();
    assert!(batch.rejected.is_empty());
    assert!(batch.fd_events.is_empty());
    assert_eq!(batch.timeout, None);
    assert!(poll_oneoff_request(batch.timeout, &batch.fd_events).is_none());
    let mut waits = 0;
    let events = run(&ctx, &vec![], &mut |request| {
        waits += 1;
        wait(request)
    });
    assert_eq!(events, Ok(vec![]));
    assert_eq!(waits, 0);
}

#[test]
fn prepare_sorts_subscriptions() {
    let mut ctx = WasiCtx::new(vec![], vec![]);
    let readable = insert(&mut ctx, Descriptor::OsFile(30), host::__WASI_RIGHT_FD_READ);
    let writable = insert(&mut ctx, Descriptor::OsFile(31), host::__WASI_RIGHT_FD_WRITE);
    let subscriptions = vec![
        on_fd(1, readable, FdEventType::Read),
        timer(2, 70),
        on_fd(3, readable, FdEventType::Write),
        on_fd(4, writable, FdEventType::Write),
        on_fd(5, 99, FdEventType::Read),
        timer(6, 60),
        timer(7, 60),
    ];
    let batch = poll_oneoff_prepare(&ctx, &subscriptions).unwrap();
    assert_eq!(
        batch.rejected,
        vec![bad_descriptor_event(3, FdEventType::Write), bad_descriptor_event(5, FdEventType::Read)]
    );
    assert_eq!(batch.timeout, Some(ClockEventData { delay: 60, userdata: 6 }));
    assert_eq!(batch.fd_events.len(), 2);
    assert_eq!(batch.fd_events[0].descriptor, &Descriptor::OsFile(30));
    assert_eq!(batch.fd_events[0].type_, FdEventType::Read);
    assert_eq!(batch.fd_events[0].userdata, 1);
    assert_eq!(batch.fd_events[1].descriptor, &Descriptor::OsFile(31));
    assert_eq!(batch.fd_events[1].type_, FdEventType::Write);
    assert_eq!(batch.fd_events[1].userdata, 4);
}

#[test]
fn finish_puts_the_rejected_first() {
    let a = bad_descriptor_event(1, FdEventType::Read);
    let b = Event { userdata: 2, type_: EventType::Clock, error: 0, nbytes: 0, flags: 0 };
    assert_eq!(poll_oneoff_finish(vec![a], vec![b]), vec![a, b]);
    assert_eq!(poll_oneoff_finish(vec![], vec![b, a]), vec![b, a]);
    assert_eq!(poll_oneoff_finish(vec![a, b], vec![]), vec![a, b]);
    assert_eq!(poll_oneoff_finish(vec![], vec![]), vec![]);
}

#[test]
fn one_bad_descriptor_does_not_hold_up_a_good_one() {
    let (r, w) = pipe().unwrap();
    let mut ctx = WasiCtx::new(vec![], vec![]);
    let good = insert(&mut ctx, Descriptor::OsFile(w), host::__WASI_RIGHT_FD_WRITE);
    let denied = insert(&mut ctx, Descriptor::OsFile(r), host::__WASI_RIGHT_FD_WRITE);
    let error = Event { userdata: 100, type_: EventType::FdRead, error: 8, nbytes: 0, flags: 1 };
    let success = Event { userdata: 200, type_: EventType::FdWrite, error: 0, nbytes: 0, flags: 0 };
    let bad_first =
        vec![on_fd(100, denied, FdEventType::Read), on_fd(200, good, FdEventType::Write)];
    assert_eq!(run(&ctx, &bad_first, &mut |request| wait(request)), Ok(vec![error, success]));
    let good_first =
        vec![on_fd(200, good, FdEventType::Write), on_fd(100, denied, FdEventType::Read)];
    assert_eq!(run(&ctx, &good_first, &mut |request| wait(request)), Ok(vec![error, success]));
    let unknown = vec![on_fd(100, 1234, FdEventType::Read), on_fd(200, good, FdEventType::Write)];
    assert_eq!(run(&ctx, &unknown, &mut |request| wait(request)), Ok(vec![error, success]));
    close(r).unwrap();
    close(w).unwrap();
}

#[test]
fn only_clocks_wait_for_the_shortest() {
    let ctx = WasiCtx::new(vec![], vec![]);
    let subscriptions = vec![timer(1, 50_000_000), timer(2, 10_000_000), timer(3, 200_000_000)];
    let batch = poll_oneoff_prepare(&ctx, &subscriptions).unwrap();
    assert_eq!(batch.timeout, Some(ClockEventData { delay: 10_000_000, userdata: 2 }));
    let request = poll_oneoff_request(batch.timeout, &batch.fd_events).unwrap();
    assert_eq!(request.timeout, 10);
    assert!(request.fds.is_empty());
    let started = std::time::Instant::now();
    let events = run(&ctx, &subscriptions, &mut |request| wait(request));
    let waited = started.elapsed();
    assert_eq!(
        events,
        Ok(vec![Event { userdata: 2, type_: EventType::Clock, error: 0, nbytes: 0, flags: 0 }])
    );
    assert!(waited >= std::time::Duration::from_millis(10));
    assert!(waited < std::time::Duration::from_millis(200));
}

#[test]
fn only_clocks_do_not_wait_for_the_longer_ones() {
    let ctx = WasiCtx::new(vec![], vec![]);
    let subscriptions =
        vec![timer(1, 5_000_000_000), timer(2, 10_000_000), timer(3, 20_000_000_000)];
    let started = std::time::Instant::now();
    let events = run(&ctx, &subscriptions, &mut |request| wait(request));
    let waited = started.elapsed();
    assert_eq!(
        events,
        Ok(vec![Event { userdata: 2, type_: EventType::Clock, error: 0, nbytes: 0, flags: 0 }])
    );
    assert!(waited >= std::time::Duration::from_millis(10));
    assert!(waited < std::time::Duration::from_millis(5_000));
}

#[test]
fn an_interrupted_wait_is_made_again() {
    let (r, w) = pipe().unwrap();
    let mut ctx = WasiCtx::new(vec![], vec![]);
    let fd = insert(&mut ctx, Descriptor::OsFile(w), host::__WASI_RIGHT_FD_WRITE);
    let subscriptions = vec![on_fd(5, fd, FdEventType::Write), timer(6, 1_000_000_000)];
    let mut calm_waits = 0;
    let calm = run(&ctx, &subscriptions, &mut |request| {
        calm_waits += 1;
        wait(request)
    });
    let mut waits = 0;
    let mut requests: Vec<(Vec<FdRequest>, i32)> = vec![];
    let interrupted = run(&ctx, &subscriptions, &mut |request| {
        waits += 1;
        requests.push((request.fds.clone(), request.timeout));
        if waits == 1 {
            Answer { answer: Err(Errno::EINTR as i32), observations: vec![] }
        } else {
            wait(request)
        }
    });
    assert_eq!(calm_waits, 1);
    assert_eq!(waits, 2);
    assert_eq!(requests[0], requests[1]);
    assert_eq!(interrupted, calm);
    assert_eq!(
        calm,
        Ok(vec![Event { userdata: 5, type_: EventType::FdWrite, error: 0, nbytes: 0, flags: 0 }])
    );
    close(r).unwrap();
    close(w).unwrap();
}

#[test]
fn many_interruptions_do_not_show() {
    let ctx = WasiCtx::new(vec![], vec![]);
    let subscriptions = vec![timer(9, 1_000_000)];
    let mut waits = 0;
    let events = run(&ctx, &subscriptions, &mut |_| {
        waits += 1;
        if waits < 100 {
            Answer { answer: Err(Errno::EINTR as i32), observations: vec![] }
        } else {
            Answer { answer: Ok(0), observations: vec![] }
        }
    });
    assert_eq!(waits, 100);
    assert_eq!(
        events,
        Ok(vec![Event { userdata: 9, type_: EventType::Clock, error: 0, nbytes: 0, flags: 0 }])
    );
}

#[test]
fn a_failed_wait_fails_the_poll() {
    let ctx = WasiCtx::new(vec![], vec![]);
    let subscriptions = vec![timer(9, 1_000_000), on_fd(1, 77, FdEventType::Read)];
    let events = run(&ctx, &subscriptions, &mut |_| Answer {
        answer: Err(Errno::ENOMEM as i32),
        observations: vec![],
    });
    assert_eq!(events, Err(Error::ENOMEM));
}

#[test]
fn a_readable_pipe_is_reported_with_the_bytes_that_were_counted() {
    let (r, w) = pipe().unwrap();
    assert_eq!(nix::unistd::write(w, b"hello").unwrap(), 5);
    let mut ctx = WasiCtx::new(vec![], vec![]);
    let fd = insert(&mut ctx, Descriptor::OsFile(r), host::__WASI_RIGHT_FD_READ);
    let subscriptions = vec![on_fd(1, fd, FdEventType::Read)];
    let events = run(&ctx, &subscriptions, &mut |request| {
        let mut answer = wait(request);
        for (observation, fd_request) in answer.observations.iter_mut().zip(request.fds.iter()) {
            if fd_request.type_ == FdEventType::Read && observation.revents.is_some() {
                observation.nbytes = Some(5);
            }
        }
        answer
    });
    assert_eq!(
        events,
        Ok(vec![Event { userdata: 1, type_: EventType::FdRead, error: 0, nbytes: 5, flags: 0 }])
    );
    close(r).unwrap();
    close(w).unwrap();
}

#[test]
fn a_pipe_whose_writer_has_gone_hangs_up() {
    let (r, w) = pipe().unwrap();
    close(w).unwrap();
    let mut ctx = WasiCtx::new(vec![], vec![]);
    let fd = insert(&mut ctx, Descriptor::OsFile(r), host::__WASI_RIGHT_FD_READ);
    let subscriptions = vec![on_fd(1, fd, FdEventType::Read), timer(2, 5_000_000_000)];
    let events = run(&ctx, &subscriptions, &mut |request| wait(request));
    assert_eq!(
        events,
        Ok(vec![Event { userdata: 1, type_: EventType::FdRead, error: 0, nbytes: 0, flags: 1 }])
    );
    close(r).unwrap();
}

#[test]
fn a_handle_that_is_not_open_is_a_bad_descriptor() {
    let (r, w) = pipe().unwrap();
    close(r).unwrap();
    close(w).unwrap();
    let mut ctx = WasiCtx::new(vec![], vec![]);
    let fd = insert(&mut ctx, Descriptor::OsFile(1_000_000), host::__WASI_RIGHT_FD_READ);
    let subscriptions = vec![on_fd(1, fd, FdEventType::Read)];
    let events = run(&ctx, &subscriptions, &mut |request| wait(request));
    assert_eq!(events, Ok(vec![bad_descriptor_event(1, FdEventType::Read)]));
}

#[test]
fn a_quiet_pipe_lets_the_timer_run_out() {
    let (r, w) = pipe().unwrap();
    let mut ctx = WasiCtx::new(vec![], vec![]);
    let fd = insert(&mut ctx, Descriptor::OsFile(r), host::__WASI_RIGHT_FD_READ);
    let subscriptions = vec![on_fd(1, fd, FdEventType::Read), timer(2, 3_000_000)];
    let events = run(&ctx, &subscriptions, &mut |request| wait(request));
    assert_eq!(
        events,
        Ok(vec![Event { userdata: 2, type_: EventType::Clock, error: 0, nbytes: 0, flags: 0 }])
    );
    close(r).unwrap();
    close(w).unwrap();
}
