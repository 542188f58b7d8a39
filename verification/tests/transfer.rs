//! Transfers to which chosen things happen.

use rustix::pipe::{pipe_with, PipeFlags};
use tokio_splice2::error::{Error, ErrorKind};
use tokio_splice2::pipe::{NewPipe, Pipe, PipeSetup, MAXIMUM_PIPE_SIZE};
use tokio_splice2::rate::{Charge, RateSetting};
use tokio_splice2::step::{Action, BidiPoll, BidiStep, Direction, Event, Poll, SpliceCall, Step};
use tokio_splice2::{
    IsFile, IsNotFile, RateLimit, RateLimits, SpliceBidiIo, SpliceIo, SpliceIoCtx,
};

struct File;

impl IsFile for File {}

struct Stream;

impl IsNotFile for Stream {}

fn pipe_of(size: usize) -> Pipe {
    let (r, w) = pipe_with(PipeFlags::NONBLOCK | PipeFlags::CLOEXEC).unwrap();
    match NewPipe::new(r, w).size_set(Ok(size)) {
        PipeSetup::Done(pipe) => pipe.unwrap(),
        PipeSetup::AskSize(_) => unreachable!(),
    }
}

fn streams() -> SpliceIo<Stream, Stream, false> {
    SpliceIoCtx::prepare().with_pipe(pipe_of(65536)).into_io()
}

fn failure(kind: ErrorKind) -> Error {
    Error::Io { kind, source: std::io::Error::from_raw_os_error(5) }
}

fn spliced(n: usize) -> Event {
    Event::Spliced { ret: Ok(n), offset: None }
}

fn splice_failed(kind: ErrorKind) -> Event {
    Event::Spliced { ret: Err(failure(kind)), offset: None }
}

fn call(offset: Option<u64>, len: usize) -> SpliceCall {
    SpliceCall { offset, len, nonblock: true }
}

/// Hands an event to a transfer that has to ask for an action.
fn asked<R, W, const L: bool>(io: &mut SpliceIo<R, W, L>, ev: Event) -> Action {
    assert!(io.is_acceptable(&ev));
    match io.poll_execute(ev) {
        Step::Do(action) => action,
        step => panic!("{step:?} asks for nothing"),
    }
}

/// Hands an event to a transfer that it has to end.
fn ended<R, W, const L: bool>(io: &mut SpliceIo<R, W, L>, ev: Event) -> Result<(), Error> {
    match io.poll_execute(ev) {
        Step::Ready(ret) => ret,
        step => panic!("{step:?} is not the end"),
    }
}

/// Hands an event to a transfer that has to wait then.
fn waits<R, W, const L: bool>(io: &mut SpliceIo<R, W, L>, ev: Event) {
    assert!(matches!(io.poll_execute(ev), Step::Pending));
}

/// Takes a transfer that has just been polled to its next call for data.
fn to_splice_in<R, W, const L: bool>(io: &mut SpliceIo<R, W, L>) -> SpliceCall {
    assert_eq!(asked(io, Event::Ready), Action::TryRead);
    match asked(io, Event::Entered) {
        Action::SpliceIn(call) => call,
        action => panic!("{action:?} does not read"),
    }
}

/// Takes a transfer that waits until it can write to the call that writes.
fn to_splice_out<R, W, const L: bool>(io: &mut SpliceIo<R, W, L>) -> SpliceCall {
    assert_eq!(asked(io, Event::Ready), Action::TryWrite);
    match asked(io, Event::Entered) {
        Action::SpliceOut(call) => call,
        action => panic!("{action:?} does not write"),
    }
}

#[test]
fn transfer_drains_pumps_flushes_and_shuts_down() {
    let mut io = streams();
    assert_eq!(asked(&mut io, Event::Polled), Action::WaitReadable);
    assert_eq!(to_splice_in(&mut io), call(None, MAXIMUM_PIPE_SIZE));
    assert_eq!(asked(&mut io, spliced(5)), Action::WaitWritable);
    assert_eq!(to_splice_out(&mut io), call(None, 5));
    assert_eq!(asked(&mut io, spliced(3)), Action::WaitWritable);
    assert_eq!(to_splice_out(&mut io), call(None, 2));
    assert_eq!((io.has_read(), io.has_written()), (5, 3));
    assert_eq!(asked(&mut io, spliced(2)), Action::Flush);
    assert_eq!(asked(&mut io, Event::Ready), Action::WaitReadable);
    assert_eq!(to_splice_in(&mut io), call(None, MAXIMUM_PIPE_SIZE));
    assert!(!io.finished());
    // The reader has no more.
    assert_eq!(asked(&mut io, spliced(0)), Action::WaitWritable);
    assert_eq!(asked(&mut io, Event::Ready), Action::TryWrite);
    assert_eq!(asked(&mut io, Event::Entered), Action::Shutdown);
    assert!(io.finished());
    assert!(ended(&mut io, Event::Ready).is_ok());
    let traffic = io.traffic(None);
    assert_eq!((traffic.tx, traffic.rx, traffic.sum()), (5, 0, 5));
    assert!(traffic.error.is_none());
    // A finished transfer stays finished.
    assert!(ended(&mut io, Event::Polled).is_ok());
    assert!(ended(&mut io, Event::Failed(Error::WriteZero)).is_ok());
}

#[test]
fn transfer_from_a_file_reads_the_range_in_order() {
    let plan = SpliceIoCtx::<File, Stream>::prepare_reading_file(10, Some(2), Some(9)).unwrap();
    let mut io = plan.with_pipe(pipe_of(4096)).into_io();
    assert_eq!(asked(&mut io, Event::Polled), Action::WaitReadable);
    assert_eq!(to_splice_in(&mut io), call(Some(2), 7));
    let ev = Event::Spliced { ret: Ok(4), offset: Some(6) };
    assert_eq!(asked(&mut io, ev), Action::WaitWritable);
    assert_eq!(to_splice_out(&mut io), call(None, 4));
    assert_eq!(asked(&mut io, spliced(4)), Action::Flush);
    assert_eq!(asked(&mut io, Event::Ready), Action::WaitReadable);
    assert_eq!(to_splice_in(&mut io), call(Some(6), 3));
    let ev = Event::Spliced { ret: Ok(3), offset: Some(9) };
    assert_eq!(asked(&mut io, ev), Action::WaitWritable);
    assert_eq!(to_splice_out(&mut io), call(None, 3));
    assert_eq!(asked(&mut io, spliced(3)), Action::Flush);
    // All has been read: there is no further call.
    assert_eq!(asked(&mut io, Event::Ready), Action::WaitReadable);
    assert_eq!(asked(&mut io, Event::Ready), Action::TryRead);
    assert_eq!(asked(&mut io, Event::Entered), Action::WaitWritable);
    assert_eq!(asked(&mut io, Event::Ready), Action::TryWrite);
    assert_eq!(asked(&mut io, Event::Entered), Action::Shutdown);
    assert!(ended(&mut io, Event::Ready).is_ok());
    assert_eq!(io.traffic(None).tx, 7);
}

#[test]
fn transfer_to_a_file_writes_the_range_in_order() {
    let plan = SpliceIoCtx::<Stream, File>::prepare_writing_file(10, Some(4), None).unwrap();
    let mut io = plan.with_pipe(pipe_of(4096)).into_io();
    assert_eq!(asked(&mut io, Event::Polled), Action::WaitReadable);
    assert_eq!(to_splice_in(&mut io), call(None, 6));
    assert_eq!(asked(&mut io, spliced(6)), Action::WaitWritable);
    assert_eq!(to_splice_out(&mut io), call(Some(4), 6));
    let ev = Event::Spliced { ret: Ok(1), offset: Some(5) };
    assert_eq!(asked(&mut io, ev), Action::WaitWritable);
    assert_eq!(to_splice_out(&mut io), call(Some(5), 5));
}

#[test]
fn would_block_is_tried_again() {
    let mut io = streams();
    asked(&mut io, Event::Polled);
    // The attempt is not even made.
    assert_eq!(asked(&mut io, Event::Ready), Action::TryRead);
    let ev = Event::Failed(failure(ErrorKind::WouldBlock));
    assert_eq!(asked(&mut io, ev), Action::WaitReadable);
    // The call would block.
    to_splice_in(&mut io);
    assert_eq!(asked(&mut io, splice_failed(ErrorKind::WouldBlock)), Action::WaitReadable);
    waits(&mut io, Event::Pending);
    assert_eq!(asked(&mut io, Event::Polled), Action::WaitReadable);
    to_splice_in(&mut io);
    assert_eq!(asked(&mut io, spliced(2)), Action::WaitWritable);
    // The same on the other side.
    assert_eq!(asked(&mut io, Event::Ready), Action::TryWrite);
    let ev = Event::Failed(failure(ErrorKind::WouldBlock));
    assert_eq!(asked(&mut io, ev), Action::WaitWritable);
    assert_eq!(to_splice_out(&mut io), call(None, 2));
    assert_eq!(asked(&mut io, splice_failed(ErrorKind::WouldBlock)), Action::WaitWritable);
    waits(&mut io, Event::Pending);
    assert_eq!(asked(&mut io, Event::Polled), Action::WaitWritable);
    assert_eq!(to_splice_out(&mut io), call(None, 2));
    assert_eq!((io.has_read(), io.has_written()), (2, 0));
}

#[test]
fn transfer_waits_for_flush_and_shutdown() {
    let plan = SpliceIoCtx::<File, Stream>::prepare_reading_file(3, None, None).unwrap();
    let mut io = plan.with_pipe(pipe_of(4096)).into_io();
    asked(&mut io, Event::Polled);
    to_splice_in(&mut io);
    asked(&mut io, Event::Spliced { ret: Ok(3), offset: Some(3) });
    to_splice_out(&mut io);
    assert_eq!(asked(&mut io, spliced(3)), Action::Flush);
    waits(&mut io, Event::Pending);
    assert_eq!(asked(&mut io, Event::Polled), Action::Flush);
    asked(&mut io, Event::Ready);
    asked(&mut io, Event::Ready);
    asked(&mut io, Event::Entered);
    asked(&mut io, Event::Ready);
    assert_eq!(asked(&mut io, Event::Entered), Action::Shutdown);
    waits(&mut io, Event::Pending);
    assert_eq!(asked(&mut io, Event::Polled), Action::Shutdown);
    assert!(ended(&mut io, Event::Ready).is_ok());
}

#[test]
fn transfer_asks_again_until_it_is_answered() {
    let mut io = streams();
    assert_eq!(asked(&mut io, Event::Polled), Action::WaitReadable);
    assert_eq!(asked(&mut io, Event::Polled), Action::WaitReadable);
    assert_eq!(asked(&mut io, Event::Entered), Action::WaitReadable);
    assert_eq!(asked(&mut io, Event::Ready), Action::TryRead);
    assert_eq!(asked(&mut io, Event::Polled), Action::TryRead);
    let action = asked(&mut io, Event::Entered);
    assert_eq!(action, Action::SpliceIn(call(None, MAXIMUM_PIPE_SIZE)));
    assert_eq!(asked(&mut io, Event::Ready), action);
}

#[test]
fn error_is_kept_until_the_writer_is_shut_down_and_reported_once() {
    let mut io = streams();
    asked(&mut io, Event::Polled);
    to_splice_in(&mut io);
    assert_eq!(asked(&mut io, splice_failed(ErrorKind::Other)), Action::Shutdown);
    waits(&mut io, Event::Pending);
    assert_eq!(asked(&mut io, Event::Polled), Action::Shutdown);
    let error = ended(&mut io, Event::Ready).unwrap_err();
    assert!(matches!(&error, Error::Io { kind: ErrorKind::Other, .. }));
    let traffic = io.traffic(Some(error));
    assert_eq!(traffic.tx, 0);
    assert!(traffic.into_result().is_err());
    assert!(matches!(ended(&mut io, Event::Polled), Err(Error::PolledAfterError)));
    assert!(matches!(ended(&mut io, Event::Ready), Err(Error::PolledAfterError)));
}

#[test]
fn failing_shutdown_does_not_replace_the_error() {
    let mut io = streams();
    asked(&mut io, Event::Polled);
    assert_eq!(
        asked(&mut io, Event::Failed(failure(ErrorKind::InvalidInput))),
        Action::Shutdown
    );
    let error = ended(&mut io, Event::Failed(failure(ErrorKind::Other))).unwrap_err();
    assert_eq!(error.kind(), ErrorKind::InvalidInput);
    assert!(matches!(ended(&mut io, Event::Polled), Err(Error::PolledAfterError)));
}

#[test]
fn failing_shutdown_of_a_transfer_that_went_well_is_its_error() {
    let plan = SpliceIoCtx::<File, Stream>::prepare_reading_file(0, None, None).unwrap();
    let mut io = plan.with_pipe(pipe_of(4096)).into_io();
    for ev in [Event::Polled, Event::Ready, Event::Entered, Event::Ready] {
        asked(&mut io, ev);
    }
    assert_eq!(asked(&mut io, Event::Entered), Action::Shutdown);
    let ev = Event::Failed(failure(ErrorKind::InvalidInput));
    assert_eq!(asked(&mut io, ev), Action::Shutdown);
    let error = ended(&mut io, Event::Failed(failure(ErrorKind::Other))).unwrap_err();
    assert_eq!(error.kind(), ErrorKind::InvalidInput);
}

#[test]
fn write_of_nothing_fails() {
    let mut io = streams();
    asked(&mut io, Event::Polled);
    to_splice_in(&mut io);
    asked(&mut io, spliced(4));
    to_splice_out(&mut io);
    assert_eq!(asked(&mut io, spliced(0)), Action::Shutdown);
    assert!(matches!(ended(&mut io, Event::Ready), Err(Error::WriteZero)));
}

#[test]
fn write_of_more_than_was_read_fails() {
    let mut io = streams();
    asked(&mut io, Event::Polled);
    to_splice_in(&mut io);
    asked(&mut io, spliced(4));
    to_splice_out(&mut io);
    assert_eq!(asked(&mut io, spliced(5)), Action::Shutdown);
    assert!(matches!(ended(&mut io, Event::Ready), Err(Error::WrittenMoreThanRead)));
    assert_eq!(io.traffic(None).tx, 5);
}

#[test]
fn failures_of_waiting_flushing_and_shutting_down_stop_the_transfer() {
    for stage in 0..4 {
        let plan = SpliceIoCtx::<File, Stream>::prepare_reading_file(3, None, None).unwrap();
        let mut io = plan.with_pipe(pipe_of(4096)).into_io();
        asked(&mut io, Event::Polled);
        to_splice_in(&mut io);
        let mut action = asked(&mut io, Event::Spliced { ret: Ok(3), offset: Some(3) });
        assert_eq!(action, Action::WaitWritable);
        if stage > 0 {
            assert_eq!(asked(&mut io, Event::Ready), Action::TryWrite);
        }
        if stage > 1 {
            asked(&mut io, Event::Entered);
            action = asked(&mut io, spliced(3));
            assert_eq!(action, Action::Flush);
        }
        if stage > 2 {
            for ev in [Event::Ready, Event::Ready, Event::Entered, Event::Ready] {
                asked(&mut io, ev);
            }
            assert_eq!(asked(&mut io, Event::Entered), Action::Shutdown);
        }
        let ev = Event::Failed(failure(ErrorKind::Other));
        assert_eq!(asked(&mut io, ev), Action::Shutdown);
        assert_eq!(ended(&mut io, Event::Ready).unwrap_err().kind(), ErrorKind::Other);
    }
}

#[test]
fn uncountable_bytes_are_not_acceptable() {
    let mut io = streams();
    asked(&mut io, Event::Polled);
    to_splice_in(&mut io);
    assert!(io.is_acceptable(&spliced(usize::MAX)));
    asked(&mut io, spliced(1));
    to_splice_out(&mut io);
    assert!(io.is_acceptable(&spliced(usize::MAX)));
    asked(&mut io, spliced(1));
    asked(&mut io, Event::Ready);
    to_splice_in(&mut io);
    assert!(!io.is_acceptable(&spliced(usize::MAX)));
    assert!(io.is_acceptable(&spliced(usize::MAX - 1)));
}

fn limit_of(total: u64) -> RateSetting {
    let mut limits = RateLimits::new();
    RateLimit::new(&mut limits, total).setting(&limits)
}

fn no_limit() -> RateSetting {
    let mut limits = RateLimits::new();
    RateLimit::new_disabled(&mut limits).setting(&limits)
}

/// Takes a limited transfer from its poll to the clock, with `n` bytes read.
fn drain_limited(
    io: &mut SpliceIo<Stream, Stream, true>,
    ev: Event,
    limit: RateSetting,
    n: usize,
) {
    assert_eq!(asked(io, ev), Action::ReadLimit);
    assert_eq!(asked(io, Event::Limit { limit, tick: 2 }), Action::WaitReadable);
    assert_eq!(to_splice_in(io), call(None, 4));
    assert_eq!(asked(io, spliced(n)), Action::ReadClock);
}

/// Takes a transfer that waits until it can write to its flush.
fn pump_limited(io: &mut SpliceIo<Stream, Stream, true>, n: usize) {
    assert_eq!(to_splice_out(io), call(None, n));
    assert_eq!(asked(io, spliced(n)), Action::Flush);
}

#[test]
fn limited_transfer_takes_tokens_and_is_throttled() {
    let limit = limit_of(1000);
    let mut io = streams().with_rate_limit();
    // What is read first is accepted.
    drain_limited(&mut io, Event::Polled, limit, 4);
    assert_eq!(asked(&mut io, Event::Clock { limit, now: 1_000 }), Action::WaitWritable);
    pump_limited(&mut io, 4);
    // From then on tokens are taken, from a new bucket at first.
    drain_limited(&mut io, Event::Ready, limit, 3);
    let charge = Charge { limit: 1001, fresh: true, elapsed: Some(4_000), bytes: 3 };
    assert_eq!(
        asked(&mut io, Event::Clock { limit, now: 5_000 }),
        Action::Charge(charge)
    );
    assert_eq!(asked(&mut io, Event::Polled), Action::Charge(charge));
    let sleep = Action::Sleep { now: 5_000, millis: 1 };
    assert_eq!(asked(&mut io, Event::Charged(Some(0))), sleep);
    waits(&mut io, Event::Pending);
    assert_eq!(asked(&mut io, Event::Polled), sleep);
    assert_eq!(asked(&mut io, Event::Ready), Action::WaitWritable);
    pump_limited(&mut io, 3);
    // A clock that went back refills nothing.
    drain_limited(&mut io, Event::Ready, limit, 1);
    let charge = Charge { limit: 1001, fresh: false, elapsed: None, bytes: 1 };
    assert_eq!(
        asked(&mut io, Event::Clock { limit, now: 4_999 }),
        Action::Charge(charge)
    );
    assert_eq!(
        asked(&mut io, Event::Charged(Some(3))),
        Action::Sleep { now: 4_999, millis: 3_000 }
    );
    assert_eq!(asked(&mut io, Event::Ready), Action::WaitWritable);
    pump_limited(&mut io, 1);
    // Enough tokens.
    drain_limited(&mut io, Event::Ready, limit, 1);
    asked(&mut io, Event::Clock { limit, now: 9_000 });
    assert_eq!(asked(&mut io, Event::Charged(None)), Action::WaitWritable);
    pump_limited(&mut io, 1);
    // Without a limit it starts over.
    let disabled = no_limit();
    assert_eq!(asked(&mut io, Event::Ready), Action::ReadLimit);
    assert_eq!(
        asked(&mut io, Event::Limit { limit: disabled, tick: 0 }),
        Action::WaitReadable
    );
    assert_eq!(to_splice_in(&mut io), call(None, MAXIMUM_PIPE_SIZE));
    assert_eq!(asked(&mut io, spliced(1)), Action::ReadClock);
    assert_eq!(
        asked(&mut io, Event::Clock { limit: disabled, now: 10_000 }),
        Action::WaitWritable
    );
    pump_limited(&mut io, 1);
    drain_limited(&mut io, Event::Ready, limit, 2);
    assert_eq!(asked(&mut io, Event::Clock { limit, now: 11_000 }), Action::WaitWritable);
    pump_limited(&mut io, 2);
    drain_limited(&mut io, Event::Ready, limit, 2);
    let charge = Charge { limit: 1001, fresh: true, elapsed: Some(500), bytes: 2 };
    assert_eq!(
        asked(&mut io, Event::Clock { limit, now: 11_500 }),
        Action::Charge(charge)
    );
    assert_eq!((io.has_read(), io.traffic(None).tx), (14, 12));
}

#[test]
fn transfer_is_over_after_a_bounded_number_of_steps() {
    // Each call moves a single byte, which takes the most steps.
    for len in [0usize, 1, 5, 40] {
        let plan =
            SpliceIoCtx::<File, Stream>::prepare_reading_file(len as u64, None, None).unwrap();
        let mut io = plan.with_pipe(pipe_of(4096)).into_io();
        let mut ev = Event::Polled;
        let mut steps = 0;
        let ret = loop {
            steps += 1;
            ev = match io.poll_execute(ev) {
                Step::Do(Action::TryRead) | Step::Do(Action::TryWrite) => Event::Entered,
                Step::Do(Action::SpliceIn(call)) => {
                    Event::Spliced { ret: Ok(1), offset: call.offset.map(|off| off + 1) }
                }
                Step::Do(Action::SpliceOut(_)) => spliced(1),
                Step::Do(_) => Event::Ready,
                Step::Ready(ret) => break ret,
                Step::Pending => unreachable!(),
            };
        };
        assert!(ret.is_ok());
        assert_eq!(io.traffic(None).tx, len);
        assert!(steps <= 19 * (2 * len + 2) + 16);
    }
}

#[test]
fn limited_transfer_reads_no_more_than_the_pipe_holds() {
    let mut io = SpliceIoCtx::<Stream, Stream>::prepare()
        .with_pipe(pipe_of(10))
        .into_io()
        .with_rate_limit();
    asked(&mut io, Event::Polled);
    let limit = limit_of(6_000);
    asked(&mut io, Event::Limit { limit, tick: 6 });
    assert_eq!(to_splice_in(&mut io), call(None, 10));
    assert_eq!(asked(&mut io, splice_failed(ErrorKind::WouldBlock)), Action::WaitReadable);
    // The limit is read anew by each poll.
    waits(&mut io, Event::Pending);
    assert_eq!(asked(&mut io, Event::Polled), Action::ReadLimit);
    asked(&mut io, Event::Limit { limit, tick: 4 });
    assert_eq!(to_splice_in(&mut io), call(None, 8));
}

#[test]
fn limit_that_cannot_be_computed_is_not_acceptable() {
    let io = streams().with_rate_limit();
    let limit = limit_of(u64::MAX);
    assert!(!io.is_acceptable(&Event::Limit { limit, tick: 1 }));
    assert!(!io.is_acceptable(&Event::Clock { limit, now: 0 }));
    let limit = limit_of(1);
    assert!(io.is_acceptable(&Event::Limit { limit, tick: 1 }));
    assert!(!io.is_acceptable(&Event::Limit { limit, tick: 0 }));
    assert!(!io.is_acceptable(&Event::Limit { limit, tick: usize::MAX }));
    assert!(io.is_acceptable(&Event::Clock { limit, now: 0 }));
}

type Bidi = SpliceBidiIo<Stream, Stream, false, false>;

fn bidi() -> Bidi {
    SpliceBidiIo { io_sl2sr: streams(), io_sr2sl: streams() }
}

fn both(io: &mut Bidi, poll: &mut BidiPoll, ev: Event) -> (Direction, Action) {
    assert!(io.is_acceptable(poll, &ev));
    match io.poll_execute(poll, ev) {
        BidiStep::Do(direction, action) => (direction, action),
        step => panic!("{step:?} asks for nothing"),
    }
}

fn polled(io: &mut Bidi, poll: &mut BidiPoll, ev: Event) -> Poll<Result<(), Error>> {
    match io.poll_execute(poll, ev) {
        BidiStep::Polled(ret) => ret,
        step => panic!("{step:?} does not end the poll"),
    }
}

/// Takes the transfer in one direction from its wait for the reader to its end.
fn finish(io: &mut Bidi, poll: &mut BidiPoll, direction: Direction, n: usize) {
    let step = |io: &mut Bidi, poll: &mut BidiPoll, ev| both(io, poll, ev).1;
    let events = [Event::Ready, Event::Entered, spliced(n), Event::Ready, Event::Entered];
    for ev in events {
        step(io, poll, ev);
    }
    assert_eq!(both(io, poll, spliced(n)), (direction, Action::Flush));
    let events = [Event::Ready, Event::Ready, Event::Entered, spliced(0), Event::Ready];
    for ev in events {
        step(io, poll, ev);
    }
    assert_eq!(both(io, poll, Event::Entered), (direction, Action::Shutdown));
}

#[test]
fn both_directions_are_polled_and_delivered() {
    let mut io = bidi();
    let mut poll = BidiPoll::new();
    assert_eq!(
        both(&mut io, &mut poll, Event::Polled),
        (Direction::Forth, Action::WaitReadable)
    );
    finish(&mut io, &mut poll, Direction::Forth, 7);
    assert_eq!(poll.direction(), Direction::Forth);
    // The way forth is over, the way back has to wait.
    assert_eq!(
        both(&mut io, &mut poll, Event::Ready),
        (Direction::Back, Action::WaitReadable)
    );
    assert_eq!(poll.direction(), Direction::Back);
    assert!(matches!(polled(&mut io, &mut poll, Event::Pending), Poll::Pending));
    // The next poll goes straight to the way back.
    assert_eq!(
        both(&mut io, &mut poll, Event::Polled),
        (Direction::Back, Action::WaitReadable)
    );
    finish(&mut io, &mut poll, Direction::Back, 9);
    assert!(matches!(polled(&mut io, &mut poll, Event::Ready), Poll::Ready(Ok(()))));
    let traffic = io.traffic(None);
    assert_eq!((traffic.tx, traffic.rx), (7, 9));
    assert_eq!(traffic.sum(), 16);
}

#[test]
fn both_directions_are_polled_though_the_first_has_to_wait() {
    let mut io = bidi();
    let mut poll = BidiPoll::new();
    both(&mut io, &mut poll, Event::Polled);
    assert_eq!(
        both(&mut io, &mut poll, Event::Pending),
        (Direction::Back, Action::WaitReadable)
    );
    finish(&mut io, &mut poll, Direction::Back, 3);
    assert!(matches!(polled(&mut io, &mut poll, Event::Ready), Poll::Pending));
    assert_eq!(io.traffic(None).rx, 3);
}

#[test]
fn error_of_the_first_direction_comes_first() {
    let mut io = bidi();
    let mut poll = BidiPoll::new();
    both(&mut io, &mut poll, Event::Polled);
    let ev = Event::Failed(failure(ErrorKind::InvalidInput));
    assert_eq!(both(&mut io, &mut poll, ev), (Direction::Forth, Action::Shutdown));
    assert_eq!(
        both(&mut io, &mut poll, Event::Ready),
        (Direction::Back, Action::WaitReadable)
    );
    let ev = Event::Failed(failure(ErrorKind::Other));
    assert_eq!(both(&mut io, &mut poll, ev), (Direction::Back, Action::Shutdown));
    match polled(&mut io, &mut poll, Event::Ready) {
        Poll::Ready(Err(e)) => assert_eq!(e.kind(), ErrorKind::InvalidInput),
        ret => panic!("{ret:?}"),
    }
}

#[test]
fn error_of_the_second_direction_counts_as_well() {
    let mut io = bidi();
    let mut poll = BidiPoll::new();
    both(&mut io, &mut poll, Event::Polled);
    finish(&mut io, &mut poll, Direction::Forth, 1);
    both(&mut io, &mut poll, Event::Ready);
    let ev = Event::Failed(failure(ErrorKind::Other));
    both(&mut io, &mut poll, ev);
    match polled(&mut io, &mut poll, Event::Ready) {
        Poll::Ready(Err(e)) => {
            let traffic = io.traffic(Some(e));
            assert_eq!((traffic.tx, traffic.rx), (1, 0));
            assert!(traffic.error.is_some());
        }
        ret => panic!("{ret:?}"),
    }
}

#[test]
fn error_of_the_first_direction_is_kept_while_the_other_waits() {
    let mut io = bidi();
    let mut poll = BidiPoll::new();
    both(&mut io, &mut poll, Event::Polled);
    both(&mut io, &mut poll, Event::Failed(failure(ErrorKind::InvalidInput)));
    both(&mut io, &mut poll, Event::Ready);
    assert!(matches!(polled(&mut io, &mut poll, Event::Pending), Poll::Pending));
    // The direction that has failed asks for nothing any more, however often the
    // other one has to wait.
    for _ in 0..3 {
        assert_eq!(
            both(&mut io, &mut poll, Event::Polled),
            (Direction::Back, Action::WaitReadable)
        );
        assert!(matches!(polled(&mut io, &mut poll, Event::Pending), Poll::Pending));
    }
    both(&mut io, &mut poll, Event::Polled);
    finish(&mut io, &mut poll, Direction::Back, 2);
    match polled(&mut io, &mut poll, Event::Ready) {
        Poll::Ready(Err(e)) => {
            assert_eq!(e.kind(), ErrorKind::InvalidInput);
            let traffic = io.traffic(Some(e));
            assert_eq!((traffic.tx, traffic.rx), (0, 2));
        }
        ret => panic!("{ret:?}"),
    }
    // It is reported once.
    assert!(matches!(
        polled(&mut io, &mut poll, Event::Polled),
        Poll::Ready(Err(Error::PolledAfterError))
    ));
}

#[test]
fn error_of_the_second_direction_is_kept_while_the_other_waits() {
    let mut io = bidi();
    let mut poll = BidiPoll::new();
    both(&mut io, &mut poll, Event::Polled);
    assert_eq!(
        both(&mut io, &mut poll, Event::Pending),
        (Direction::Back, Action::WaitReadable)
    );
    let ev = Event::Failed(failure(ErrorKind::InvalidInput));
    assert_eq!(both(&mut io, &mut poll, ev), (Direction::Back, Action::Shutdown));
    assert!(matches!(polled(&mut io, &mut poll, Event::Ready), Poll::Pending));
    assert_eq!(
        both(&mut io, &mut poll, Event::Polled),
        (Direction::Forth, Action::WaitReadable)
    );
    assert!(matches!(polled(&mut io, &mut poll, Event::Pending), Poll::Pending));
    both(&mut io, &mut poll, Event::Polled);
    finish(&mut io, &mut poll, Direction::Forth, 4);
    match polled(&mut io, &mut poll, Event::Ready) {
        Poll::Ready(Err(e)) => {
            assert_eq!(e.kind(), ErrorKind::InvalidInput);
            assert_eq!(io.traffic(Some(e)).tx, 4);
        }
        ret => panic!("{ret:?}"),
    }
}
