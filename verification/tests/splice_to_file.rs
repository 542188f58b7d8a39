//! Copies from a socket to a file, through the kernel.

use rustix::fd::OwnedFd;
use rustix::fs::{fstat, ftruncate, memfd_create, MemfdFlags};
use rustix::io::{pread, read, Errno};
use rustix::net::{
    shutdown, socketpair, AddressFamily, Shutdown, SocketFlags, SocketType,
};
use rustix::pipe::{fcntl_getpipe_size, fcntl_setpipe_size, pipe_with, splice, PipeFlags, SpliceFlags};
use tokio_splice2::error::{Error, ErrorKind};
use tokio_splice2::pipe::{NewPipe, Pipe, PipeSetup};
use tokio_splice2::step::{Action, BidiPoll, BidiStep, Direction, Event, Poll, SpliceCall, Step};
use tokio_splice2::traffic::TrafficResult;
use tokio_splice2::{IsFile, IsNotFile, SpliceIoCtx};

const FILE_CONTENT: [u8; 12] = *b"Hello, File!";

struct File;

impl IsFile for File {}

struct Stream;

impl IsNotFile for Stream {}

fn new_file_content() -> [u8; 128] {
    let mut content = [0; 128];
    content[..FILE_CONTENT.len()].copy_from_slice(b"Hell, oFile!");
    for (i, byte) in content.iter_mut().enumerate().skip(FILE_CONTENT.len()) {
        *byte = (i * 37 + 11) as u8;
    }
    content
}

fn error_of(errno: Errno) -> Error {
    let kind = if errno == Errno::AGAIN {
        ErrorKind::WouldBlock
    } else {
        ErrorKind::Other
    };
    Error::Io { kind, source: errno.into() }
}

fn open_pipe() -> Pipe {
    let request = Pipe::request();
    let mut flags = PipeFlags::empty();
    flags.set(PipeFlags::NONBLOCK, request.nonblock);
    flags.set(PipeFlags::CLOEXEC, request.cloexec);
    let (r, w) = pipe_with(flags).unwrap();
    let pipe = NewPipe::new(r, w);
    let reply = fcntl_setpipe_size(pipe.size_fd(), request.size).map_err(error_of);
    match pipe.size_set(reply) {
        PipeSetup::Done(pipe) => pipe.unwrap(),
        PipeSetup::AskSize(pipe) => {
            let reply = fcntl_getpipe_size(pipe.size_fd()).map_err(error_of);
            pipe.size_got(reply).unwrap()
        }
    }
}

fn flags_of(call: SpliceCall) -> SpliceFlags {
    if call.nonblock {
        SpliceFlags::NONBLOCK
    } else {
        SpliceFlags::empty()
    }
}

fn perform(pipe: &Pipe, action: Action, r: &OwnedFd, w: &OwnedFd) -> Event {
    match action {
        Action::WaitReadable | Action::WaitWritable | Action::Flush => Event::Ready,
        Action::TryRead | Action::TryWrite => Event::Entered,
        Action::SpliceIn(call) => {
            let mut offset = call.offset;
            let fd = pipe.write_side_fd().unwrap();
            let ret = splice(r, offset.as_mut(), fd, None, call.len, flags_of(call));
            Event::Spliced { ret: ret.map_err(error_of), offset }
        }
        Action::SpliceOut(call) => {
            let mut offset = call.offset;
            let fd = pipe.read_side_fd().unwrap();
            let ret = splice(fd, None, w, offset.as_mut(), call.len, flags_of(call));
            Event::Spliced { ret: ret.map_err(error_of), offset }
        }
        action => panic!("a copy does not ask for {action:?}"),
    }
}

fn copy<R, W>(
    mut ctx: SpliceIoCtx<R, W>,
    blocking: bool,
    r: &OwnedFd,
    w: &OwnedFd,
) -> TrafficResult {
    let mut ev = Event::Polled;
    loop {
        assert!(ctx.is_countable(&ev));
        let step = if blocking { ctx.blocking_copy(ev) } else { ctx.poll_copy(ev) };
        ev = match step {
            Step::Do(action) => perform(ctx.pipe(), action, r, w),
            Step::Ready(ret) => return TrafficResult::new_from_io_result(&ctx, None, ret),
            Step::Pending => Event::Polled,
        };
    }
}

fn test_file() -> OwnedFd {
    let file = memfd_create("splice_to_file", MemfdFlags::CLOEXEC).unwrap();
    assert_eq!(rustix::io::write(&file, &FILE_CONTENT).unwrap(), FILE_CONTENT.len());
    file
}

fn sockets() -> (OwnedFd, OwnedFd) {
    socketpair(AddressFamily::UNIX, SocketType::STREAM, SocketFlags::CLOEXEC, None).unwrap()
}

fn splice_to_file(
    sent: &[u8],
    f_offset_start: Option<u64>,
    f_offset_end: Option<u64>,
    blocking: bool,
) {
    let w = test_file();
    let w_len = fstat(&w).unwrap().st_size as u64;
    assert_eq!(w_len, FILE_CONTENT.len() as u64);

    let start = f_offset_start.unwrap_or(0);
    let new_len = f_offset_end.unwrap_or(w_len).saturating_sub(start);
    ftruncate(&w, new_len).unwrap();

    let (client, r) = sockets();
    assert_eq!(rustix::io::write(&client, sent).unwrap(), sent.len());

    let plan =
        SpliceIoCtx::<Stream, File>::prepare_writing_file(new_len, None, None).unwrap();
    let traffic = copy(plan.with_pipe(open_pipe()), blocking, &r, &w);
    assert_eq!(traffic.tx as u64, new_len);
    assert_eq!(traffic.rx, 0);
    assert!(traffic.into_result().is_ok());

    let mut buf = vec![0; 256];
    let n = pread(&w, &mut buf[..], 0).unwrap();
    assert_eq!(buf[..n], new_file_content()[start as usize..(start + new_len) as usize]);
}

#[test]
fn test_splice_to_file_no_offset() {
    splice_to_file(&new_file_content()[..FILE_CONTENT.len()], None, None, false);
}

#[test]
fn test_splice_to_file_with_offset_start_not_preserve_content_out_of_range() {
    splice_to_file(&new_file_content()[6..], Some(6), None, false);
}

#[test]
fn test_splice_to_file_with_offset_end_not_preserve_content_out_of_range() {
    splice_to_file(&new_file_content()[..6], None, Some(6), false);
}

#[test]
fn test_splice_to_file_with_offset_both_not_preserve_content_out_of_range() {
    splice_to_file(&new_file_content()[4..9], Some(4), Some(9), false);
}

#[test]
fn blocking_copy_writes_the_same() {
    splice_to_file(&new_file_content()[..FILE_CONTENT.len()], None, None, true);
    splice_to_file(&new_file_content()[6..], Some(6), None, true);
}

#[test]
fn bytes_outside_of_the_range_stay() {
    for blocking in [false, true] {
        let w = test_file();
        let (client, r) = sockets();
        assert_eq!(rustix::io::write(&client, b"abcdefgh").unwrap(), 8);
        let plan =
            SpliceIoCtx::<Stream, File>::prepare_writing_file(12, Some(7), Some(11)).unwrap();
        let traffic = copy(plan.with_pipe(open_pipe()), blocking, &r, &w);
        assert_eq!(traffic.tx, 4);

        let mut buf = vec![0; 256];
        let n = pread(&w, &mut buf[..], 0).unwrap();
        assert_eq!(&buf[..n], b"Hello, abcd!");
        // What was not to be copied is still there to be read.
        let n = read(&r, &mut buf[..]).unwrap();
        assert_eq!(&buf[..n], b"efgh");
    }
}

#[test]
fn copy_goes_through_a_small_pipe_in_portions() {
    let sent: Vec<u8> = (0..100_000u32).map(|i| (i % 251) as u8).collect();
    let source = memfd_create("source", MemfdFlags::CLOEXEC).unwrap();
    assert_eq!(rustix::io::write(&source, &sent).unwrap(), sent.len());
    let sink = memfd_create("sink", MemfdFlags::CLOEXEC).unwrap();

    let plan = SpliceIoCtx::<File, Stream>::prepare_reading_file(100_000, None, None).unwrap();
    let ctx = plan.with_pipe(open_pipe());
    let reply = fcntl_setpipe_size(ctx.pipe_size_fd().unwrap(), 4096).map_err(error_of);
    let ctx = ctx.set_pipe_size(reply).unwrap();
    assert_eq!(ctx.pipe_size(), 4096);
    let traffic = copy(ctx, true, &source, &sink);
    assert_eq!(traffic.tx, 100_000);

    let mut buf = vec![0; 100_001];
    assert_eq!(pread(&sink, &mut buf[..], 0).unwrap(), 100_000);
    assert_eq!(buf[..100_000], sent[..]);
}

#[test]
fn copies_run_side_by_side() {
    let (left, a) = sockets();
    let (right, b) = sockets();
    assert_eq!(rustix::io::write(&left, b"to the right").unwrap(), 12);
    assert_eq!(rustix::io::write(&right, b"to the left").unwrap(), 11);
    shutdown(&left, Shutdown::Write).unwrap();
    shutdown(&right, Shutdown::Write).unwrap();

    let mut a_to_b = SpliceIoCtx::<Stream, Stream>::prepare().with_pipe(open_pipe());
    let mut b_to_a = SpliceIoCtx::<Stream, Stream>::prepare().with_pipe(open_pipe());
    let mut poll = BidiPoll::new();
    let mut ev = Event::Polled;
    let ret = loop {
        ev = match SpliceIoCtx::poll_copy_bidirectional(&mut poll, &mut a_to_b, &mut b_to_a, ev) {
            BidiStep::Do(Direction::Forth, action) => perform(a_to_b.pipe(), action, &a, &b),
            BidiStep::Do(Direction::Back, action) => perform(b_to_a.pipe(), action, &b, &a),
            BidiStep::Polled(Poll::Ready(ret)) => break ret,
            BidiStep::Polled(Poll::Pending) => Event::Polled,
        };
    };
    let traffic = TrafficResult::new_from_io_result(&a_to_b, Some(&b_to_a), ret);
    assert_eq!((traffic.tx, traffic.rx), (12, 11));
    assert!(traffic.error.is_none());

    let mut buf = vec![0; 64];
    let n = read(&right, &mut buf[..]).unwrap();
    assert_eq!(&buf[..n], b"to the right");
    let n = read(&left, &mut buf[..]).unwrap();
    assert_eq!(&buf[..n], b"to the left");
}
