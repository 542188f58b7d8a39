//! Copies with a context alone, to which chosen things happen.

use rustix::pipe::{pipe_with, PipeFlags};
use tokio_splice2::error::{Error, ErrorKind};
use tokio_splice2::pipe::{NewPipe, Pipe, PipeSetup, MAXIMUM_PIPE_SIZE};
use tokio_splice2::step::{Action, BidiPoll, BidiStep, Direction, Event, Poll, SpliceCall, Step};
use tokio_splice2::traffic::TrafficResult;
use tokio_splice2::utils::Drained;
use tokio_splice2::{IsFile, IsNotFile, SpliceIoCtx};

struct File;

impl IsFile for File {}

struct Stream;

impl IsNotFile for Stream {}

fn pipe_of(size: usize) -> Pipe {
    let (r, w) = pipe_with(PipeFlags::NONBLOCK | PipeFlags::CLOEXEC).unwrap();
    match NewPipe::new(r, w).size_set(Ok(size)) {
        PipeSetup::Done(pipe) => pipe.unwrap(),
        PipeSetup::AskSize(_) => unreachable!(),
    }
}

fn streams() -> SpliceIoCtx<Stream, Stream> {
    SpliceIoCtx::prepare().with_pipe(pipe_of(65536))
}

fn reading(len: u64) -> SpliceIoCtx<File, Stream> {
    SpliceIoCtx::prepare_reading_file(len, None, None).unwrap().with_pipe(pipe_of(65536))
}

fn failure(kind: ErrorKind) -> Error {
    Error::Io { kind, source: std::io::Error::from_raw_os_error(5) }
}

fn spliced(n: usize) -> Event {
    Event::Spliced { ret: Ok(n), offset: None }
}

fn splice_failed(kind: ErrorKind) -> Event {
    Event::Spliced { ret: Err(failure(kind)), offset: None }
}

fn asked(step: Step<()>) -> Action {
    match step {
        Step::Do(action) => action,
        step => panic!("{step:?} asks for nothing"),
    }
}

fn ended(step: Step<()>) -> Result<(), Error> {
    match step {
        Step::Ready(ret) => ret,
        step => panic!("{step:?} is not the end"),
    }
}

#[test]
fn copy_goes_in_rounds() {
    let mut ctx = streams();
    assert_eq!(asked(ctx.poll_copy(Event::Polled)), Action::WaitReadable);
    assert_eq!(asked(ctx.poll_copy(Event::Ready)), Action::TryRead);
    let call = SpliceCall { offset: None, len: MAXIMUM_PIPE_SIZE, nonblock: true };
    assert_eq!(asked(ctx.poll_copy(Event::Entered)), Action::SpliceIn(call));
    assert_eq!(asked(ctx.poll_copy(spliced(6))), Action::WaitWritable);
    assert_eq!(asked(ctx.poll_copy(Event::Ready)), Action::TryWrite);
    let call = SpliceCall { offset: None, len: 6, nonblock: true };
    assert_eq!(asked(ctx.poll_copy(Event::Entered)), Action::SpliceOut(call));
    assert_eq!(asked(ctx.poll_copy(spliced(1))), Action::WaitWritable);
    // While it waits, what has been written is flushed by the next poll, and
    // nothing is read as long as there is data in the pipe.
    assert!(matches!(ctx.poll_copy(Event::Pending), Step::Pending));
    assert_eq!(asked(ctx.poll_copy(Event::Polled)), Action::Flush);
    assert_eq!(asked(ctx.poll_copy(Event::Ready)), Action::WaitWritable);
    asked(ctx.poll_copy(Event::Ready));
    let call = SpliceCall { offset: None, len: 5, nonblock: true };
    assert_eq!(asked(ctx.poll_copy(Event::Entered)), Action::SpliceOut(call));
    assert_eq!(asked(ctx.poll_copy(spliced(5))), Action::Flush);
    assert!(matches!(ctx.poll_copy(Event::Pending), Step::Pending));
    assert_eq!(asked(ctx.poll_copy(Event::Polled)), Action::Flush);
    assert_eq!(asked(ctx.poll_copy(Event::Ready)), Action::WaitReadable);
    asked(ctx.poll_copy(Event::Ready));
    asked(ctx.poll_copy(Event::Entered));
    assert_eq!(asked(ctx.poll_copy(spliced(0))), Action::WaitWritable);
    asked(ctx.poll_copy(Event::Ready));
    assert!(!ctx.full_done());
    assert!(ended(ctx.poll_copy(Event::Entered)).is_ok());
    assert!(ctx.full_done());
    let traffic = TrafficResult::new_from_io_result(&ctx, None, Ok(()));
    assert_eq!((traffic.tx, traffic.rx), (6, 0));
    assert!(traffic.error.is_none());
}

#[test]
fn copy_reports_errors() {
    let mut ctx = streams();
    asked(ctx.poll_copy(Event::Polled));
    let error = ended(ctx.poll_copy(Event::Failed(failure(ErrorKind::Other)))).unwrap_err();
    assert_eq!(error.kind(), ErrorKind::Other);

    let mut ctx = streams();
    asked(ctx.poll_copy(Event::Polled));
    asked(ctx.poll_copy(Event::Ready));
    asked(ctx.poll_copy(Event::Entered));
    asked(ctx.poll_copy(spliced(2)));
    asked(ctx.poll_copy(Event::Ready));
    asked(ctx.poll_copy(Event::Entered));
    assert!(matches!(ended(ctx.poll_copy(spliced(3))), Err(Error::WrittenMoreThanRead)));
}

#[test]
fn copies_stop_at_the_error_of_either() {
    let mut a_to_b = streams();
    let mut b_to_a = streams();
    let mut poll = BidiPoll::new();
    let step = SpliceIoCtx::poll_copy_bidirectional(
        &mut poll,
        &mut a_to_b,
        &mut b_to_a,
        Event::Polled,
    );
    assert!(matches!(step, BidiStep::Do(Direction::Forth, Action::WaitReadable)));
    let step = SpliceIoCtx::poll_copy_bidirectional(
        &mut poll,
        &mut a_to_b,
        &mut b_to_a,
        Event::Pending,
    );
    assert!(matches!(step, BidiStep::Do(Direction::Back, Action::WaitReadable)));
    // The way forth still waits, which does not keep the error back.
    let step = SpliceIoCtx::poll_copy_bidirectional(
        &mut poll,
        &mut a_to_b,
        &mut b_to_a,
        Event::Failed(failure(ErrorKind::Other)),
    );
    match step {
        BidiStep::Polled(Poll::Ready(ret)) => {
            assert!(ret.is_err());
            let traffic = TrafficResult::new_from_io_result(&a_to_b, Some(&b_to_a), ret);
            assert_eq!(traffic.sum(), 0);
            assert!(traffic.error.is_some());
        }
        step => panic!("{step:?}"),
    }
}

#[test]
fn blocking_copy_makes_blocking_calls() {
    let mut ctx = reading(9);
    let call = SpliceCall { offset: Some(0), len: 9, nonblock: false };
    assert_eq!(asked(ctx.blocking_copy(Event::Polled)), Action::SpliceIn(call));
    // A call that would block all the same is made again.
    let ev = Event::Spliced { ret: Err(failure(ErrorKind::WouldBlock)), offset: Some(0) };
    assert_eq!(asked(ctx.blocking_copy(ev)), Action::SpliceIn(call));
    let call = SpliceCall { offset: None, len: 5, nonblock: false };
    let ev = Event::Spliced { ret: Ok(5), offset: Some(5) };
    assert_eq!(asked(ctx.blocking_copy(ev)), Action::SpliceOut(call));
    assert_eq!(
        asked(ctx.blocking_copy(splice_failed(ErrorKind::WouldBlock))),
        Action::SpliceOut(call)
    );
    let call = SpliceCall { offset: None, len: 2, nonblock: false };
    assert_eq!(asked(ctx.blocking_copy(spliced(3))), Action::SpliceOut(call));
    assert_eq!(asked(ctx.blocking_copy(spliced(2))), Action::Flush);
    let call = SpliceCall { offset: Some(5), len: 4, nonblock: false };
    assert_eq!(asked(ctx.blocking_copy(Event::Ready)), Action::SpliceIn(call));
    let call = SpliceCall { offset: None, len: 4, nonblock: false };
    let ev = Event::Spliced { ret: Ok(4), offset: Some(9) };
    assert_eq!(asked(ctx.blocking_copy(ev)), Action::SpliceOut(call));
    assert_eq!(asked(ctx.blocking_copy(spliced(4))), Action::Flush);
    assert!(ended(ctx.blocking_copy(Event::Ready)).is_ok());
    assert!(ctx.full_done());
    assert_eq!(ctx.has_written(), 9);
}

#[test]
fn blocking_copy_of_nothing_is_done_at_once() {
    let mut ctx = reading(0);
    assert!(ended(ctx.blocking_copy(Event::Polled)).is_ok());
    assert!(ctx.full_done());
}

#[test]
fn blocking_copy_reports_errors() {
    let mut ctx = streams();
    asked(ctx.blocking_copy(Event::Polled));
    asked(ctx.blocking_copy(spliced(5)));
    asked(ctx.blocking_copy(spliced(5)));
    let error = ended(ctx.blocking_copy(Event::Failed(failure(ErrorKind::Other)))).unwrap_err();
    let traffic = TrafficResult::new_from_io_result(&ctx, None, Err(error));
    assert_eq!(traffic.tx, 5);
    assert!(traffic.error.is_some());

    let mut ctx = streams();
    asked(ctx.blocking_copy(Event::Polled));
    assert!(ended(ctx.blocking_copy(splice_failed(ErrorKind::Other))).is_err());

    let mut ctx = streams();
    asked(ctx.blocking_copy(Event::Polled));
    asked(ctx.blocking_copy(spliced(5)));
    assert!(matches!(ended(ctx.blocking_copy(spliced(0))), Err(Error::WriteZero)));
}

#[test]
fn context_can_be_driven_by_hand() {
    let mut ctx = reading(100);
    assert!(!ctx.finished());
    // Nothing to pump yet, and nothing is finished by it.
    assert_eq!(ctx.splice_pump(false), None);
    assert!(!ctx.pipe().splice_pump_finished());
    let call = SpliceCall { offset: Some(0), len: 30, nonblock: false };
    assert_eq!(ctx.splice_drain(Some(30), false), Some(call));
    assert!(matches!(ctx.splice_drain_done(Ok(20), Some(20)), Ok(Drained::Bytes(20))));
    let call = SpliceCall { offset: Some(20), len: 80, nonblock: true };
    assert_eq!(ctx.splice_drain(None, true), Some(call));
    assert!(matches!(ctx.splice_drain_done(Ok(0), Some(20)), Ok(Drained::Done)));
    assert!(ctx.pipe().splice_drain_finished());
    assert_eq!(ctx.splice_drain(None, true), None);
    let call = SpliceCall { offset: None, len: 20, nonblock: true };
    assert_eq!(ctx.splice_pump(true), Some(call));
    assert!(matches!(ctx.splice_pump_done(Ok(15), None), Ok(true)));
    assert!(matches!(ctx.splice_pump_done(Ok(5), None), Ok(false)));
    assert_eq!(ctx.splice_pump(true), None);
    assert!(ctx.finished());
    assert!(!ctx.full_done());
    assert!(matches!(ctx.poll_flush(Event::Polled), Step::Do(Action::Flush)));
    assert!(matches!(ctx.poll_flush(Event::Ready), Step::Ready(Ok(()))));
    assert!(matches!(ctx.poll_flush(Event::Polled), Step::Ready(Ok(()))));
    assert!(ctx.full_done());
}

#[test]
fn beginning_to_read_again_does_no_harm() {
    let mut ctx = reading(0);
    for _ in 0..3 {
        assert_eq!(ctx.splice_drain(None, true), None);
        assert!(ctx.pipe().splice_drain_finished());
        assert!(ctx.pipe().is_recyclable());
    }
}

#[test]
fn failed_calls_finish_their_side() {
    let mut ctx = streams();
    assert!(ctx.splice_drain_done(Err(failure(ErrorKind::WouldBlock)), None).is_err());
    assert!(!ctx.pipe().splice_drain_finished());
    assert!(ctx.splice_drain_done(Err(failure(ErrorKind::Other)), None).is_err());
    assert!(ctx.pipe().splice_drain_finished());
    assert!(ctx.splice_pump_done(Err(failure(ErrorKind::WouldBlock)), None).is_err());
    assert!(!ctx.pipe().splice_pump_finished());
    assert!(ctx.splice_pump_done(Err(failure(ErrorKind::Other)), None).is_err());
    assert!(ctx.finished());
}

#[test]
fn pipe_size_follows_the_kernel() {
    let ctx = streams();
    assert!(ctx.pipe_size_fd().is_ok());
    let ctx = ctx.set_pipe_size(Ok(4096)).unwrap();
    assert_eq!(ctx.pipe_size(), 4096);
    let mut ctx = ctx.set_pipe_size(Ok(0)).unwrap();
    assert_eq!(ctx.pipe_size(), 4096);
    let _ = ctx.splice_drain_done(Ok(0), None);
    assert!(matches!(ctx.pipe_size_fd(), Err(Error::WriteSideUnavailable)));
    assert!(ctx.set_pipe_size(Err(failure(ErrorKind::Other))).is_err());
}

#[test]
fn ranges_outside_of_the_file_are_refused() {
    let read = |f_len, start, end| {
        SpliceIoCtx::<File, Stream>::prepare_reading_file(f_len, start, end).err()
    };
    let written = |f_len, start, end| {
        SpliceIoCtx::<Stream, File>::prepare_writing_file(f_len, start, end).err()
    };
    assert!(matches!(read(10, Some(5), Some(4)), Some(Error::InvalidOffsetRange)));
    assert!(matches!(read(10, Some(5), Some(11)), Some(Error::InvalidOffsetRange)));
    assert!(matches!(read(10, Some(11), None), Some(Error::InvalidOffsetStart)));
    assert!(matches!(read(10, None, Some(11)), Some(Error::InvalidOffsetEnd)));
    assert!(read(10, Some(10), Some(10)).is_none());
    assert!(matches!(written(10, Some(5), Some(4)), Some(Error::InvalidOffsetRange)));
    assert!(matches!(written(10, Some(11), None), Some(Error::InvalidOffsetStart)));
    assert!(matches!(written(10, None, Some(11)), Some(Error::InvalidOffsetEnd)));
    assert!(written(0, None, None).is_none());
}
