//! Pipes, and the pool of them.

use rustix::pipe::{pipe_with, PipeFlags};
use tokio_splice2::error::{Error, ErrorKind};
use tokio_splice2::pipe::pool::{
    PipePool, Recycled, Refill, RefillRetry, RetryStep, PIPE_POOL_LIMIT, PIPE_POOL_REST,
};
use tokio_splice2::pipe::{Fd, NewPipe, Pipe, PipeSetup, DEFAULT_PIPE_SIZE, MAXIMUM_PIPE_SIZE};

fn new_pipe() -> NewPipe {
    let (r, w) = pipe_with(PipeFlags::NONBLOCK | PipeFlags::CLOEXEC).unwrap();
    NewPipe::new(r, w)
}

fn pipe_of(size: usize) -> Pipe {
    match new_pipe().size_set(Ok(size)) {
        PipeSetup::Done(pipe) => pipe.unwrap(),
        PipeSetup::AskSize(_) => unreachable!(),
    }
}

fn failure(kind: ErrorKind) -> Error {
    Error::Io { kind, source: std::io::Error::from_raw_os_error(5) }
}

#[test]
fn largest_pipe_is_asked_for() {
    let request = Pipe::request();
    assert!(request.nonblock);
    assert!(request.cloexec);
    assert_eq!(request.size, 1 << 20);
    assert_eq!(MAXIMUM_PIPE_SIZE, 1 << 20);
    assert_eq!(DEFAULT_PIPE_SIZE, 1 << 16);
}

#[test]
fn size_is_what_the_kernel_says() {
    assert_eq!(pipe_of(12345).size(), 12345);
    match new_pipe().size_set(Err(failure(ErrorKind::Other))) {
        PipeSetup::AskSize(pipe) => assert_eq!(pipe.size_got(Ok(65536)).unwrap().size(), 65536),
        PipeSetup::Done(_) => unreachable!(),
    }
}

#[test]
fn pipe_without_size_is_refused() {
    match new_pipe().size_set(Ok(0)) {
        PipeSetup::Done(pipe) => assert!(matches!(pipe, Err(Error::PipeSizeUnknown))),
        PipeSetup::AskSize(_) => unreachable!(),
    }
    assert!(matches!(new_pipe().size_got(Ok(0)), Err(Error::PipeSizeUnknown)));
    let pipe = new_pipe().size_got(Err(failure(ErrorKind::InvalidInput)));
    assert_eq!(pipe.unwrap_err().kind(), ErrorKind::InvalidInput);
}

#[test]
fn size_can_be_set_while_the_write_side_is_open() {
    let mut pipe = pipe_of(65536);
    assert!(pipe.size_fd().is_ok());
    assert!(matches!(pipe.set_pipe_size(Ok(8192)), Ok(8192)));
    assert_eq!(pipe.size(), 8192);
    assert!(pipe.set_pipe_size(Err(failure(ErrorKind::Other))).is_err());
    assert_eq!(pipe.size(), 8192);
    pipe.set_splice_drain_finished();
    assert!(matches!(pipe.size_fd(), Err(Error::WriteSideUnavailable)));
}

#[test]
fn sides_are_finished_one_by_one() {
    let mut pipe = pipe_of(65536);
    assert!(!pipe.splice_drain_finished() && !pipe.splice_pump_finished());
    assert!(pipe.write_side_fd().is_some() && pipe.read_side_fd().is_some());
    pipe.set_splice_drain_finished();
    assert!(pipe.splice_drain_finished() && !pipe.splice_pump_finished());
    assert!(pipe.write_side_fd().is_none() && pipe.read_side_fd().is_some());
    pipe.set_splice_pump_finished();
    assert!(pipe.splice_drain_finished() && pipe.splice_pump_finished());
    assert!(pipe.read_side_fd().is_none());
}

#[test]
fn used_pipe_can_be_recycled() {
    let mut pipe = pipe_of(65536);
    pipe.set_splice_drain_finished();
    pipe.set_splice_pump_finished();
    assert!(pipe.is_recyclable());
    let pipe = pipe.recycle();
    assert!(!pipe.splice_drain_finished() && !pipe.splice_pump_finished());
    assert_eq!(pipe.size(), 65536);
}

#[test]
fn pipe_can_be_recycled_however_often_it_was_finished() {
    let mut pipe = pipe_of(4096);
    for _ in 0..3 {
        pipe.set_splice_drain_finished();
        assert!(pipe.splice_drain_finished() && !pipe.splice_pump_finished());
    }
    for _ in 0..2 {
        pipe.set_splice_pump_finished();
        pipe.set_splice_drain_finished();
    }
    assert!(pipe.is_recyclable());
    let pipe = pipe.recycle();
    assert!(!pipe.splice_drain_finished() && !pipe.splice_pump_finished());
    assert_eq!(pipe.size(), 4096);
}

#[test]
fn descriptor_is_reserved_and_revived() {
    let (r, _w) = pipe_with(PipeFlags::CLOEXEC).unwrap();
    let mut fd = Fd::Running(r);
    assert!(fd.as_fd().is_some());
    fd.set_reserved();
    assert!(matches!(fd, Fd::Reserved(_)));
    assert!(fd.as_fd().is_none());
    let mut fd = fd.revive();
    assert!(matches!(fd, Fd::Running(_)));
    fd.set_reserved();
    fd.set_reserved();
    assert!(matches!(fd, Fd::Reserved(_)));
    assert!(fd.as_fd().is_none());
    assert!(matches!(fd.revive(), Fd::Running(_)));
    let mut fd = Fd::Closed;
    fd.set_reserved();
    assert!(matches!(fd, Fd::Closed));
}

#[test]
fn pool_is_first_in_first_out() {
    let mut pool = PipePool::new();
    assert!(pool.take_one().is_none());
    for size in [1, 2, 3] {
        assert_eq!(pool.refill_one(), Refill::Create);
        assert!(pool.put_one(Ok(pipe_of(size))).is_ok());
    }
    let kept = pool.recycle(pipe_of(4), Err(failure(ErrorKind::WouldBlock)));
    assert_eq!(kept, Recycled::Kept);
    for size in [1, 2, 3, 4] {
        assert_eq!(pool.take_one().unwrap().size(), size);
    }
    assert!(pool.take_one().is_none());
}

#[test]
fn pipe_that_is_not_empty_is_not_kept() {
    let mut pool = PipePool::new();
    assert_eq!(pool.recycle(pipe_of(1), Ok(1)), Recycled::Refill);
    assert_eq!(pool.recycle(pipe_of(1), Ok(0)), Recycled::Refill);
    let refill = pool.recycle(pipe_of(1), Err(failure(ErrorKind::Other)));
    assert_eq!(refill, Recycled::Refill);
    assert!(pool.take_one().is_none());
}

#[test]
fn pipe_that_could_not_be_created_is_reported() {
    let mut pool = PipePool::new();
    assert!(matches!(pool.put_one(Err(Error::PipeSizeUnknown)), Err(Error::PipeSizeUnknown)));
    assert!(pool.take_one().is_none());
}

#[test]
fn retries_are_limited() {
    let mut retry = RefillRetry::new();
    for _ in 0..3 {
        assert_eq!(retry.next(), RetryStep::Refill);
        assert_eq!(retry.failed(), 100);
    }
    assert_eq!(retry.next(), RetryStep::GiveUp);
}

#[test]
fn pool_limits_are_as_documented() {
    assert_eq!((PIPE_POOL_LIMIT, PIPE_POOL_REST), (512, 256));
}
