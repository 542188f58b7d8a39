//! Transfers from a file to a socket, through the kernel.

use rustix::fd::OwnedFd;
use rustix::fs::{fstat, memfd_create, MemfdFlags};
use rustix::io::{read, Errno};
use rustix::net::{
    shutdown, socketpair, AddressFamily, Shutdown, SocketFlags, SocketType,
};
use rustix::pipe::{fcntl_getpipe_size, fcntl_setpipe_size, pipe_with, splice, PipeFlags, SpliceFlags};
use tokio_splice2::error::{Error, ErrorKind};
use tokio_splice2::pipe::{NewPipe, Pipe, PipeSetup};
use tokio_splice2::step::{Action, Event, SpliceCall, Step};
use tokio_splice2::traffic::TrafficResult;
use tokio_splice2::{IsFile, IsNotFile, SpliceIo, SpliceIoCtx};

const FILE_CONTENT: [u8; 12] = *b"Hello, File!";

struct File;

impl IsFile for File {}

struct Stream;

impl IsNotFile for Stream {}

fn error_of(errno: Errno) -> Error {
    let kind = if errno == Errno::AGAIN {
        ErrorKind::WouldBlock
    } else {
        ErrorKind::Other
    };
    Error::Io { kind, source: errno.into() }
}

fn open_pipe() -> Pipe {
    let request = Pipe::request();
    let mut flags = PipeFlags::empty();
    flags.set(PipeFlags::NONBLOCK, request.nonblock);
    flags.set(PipeFlags::CLOEXEC, request.cloexec);
    let (r, w) = pipe_with(flags).unwrap();
    let pipe = NewPipe::new(r, w);
    let reply = fcntl_setpipe_size(pipe.size_fd(), request.size).map_err(error_of);
    match pipe.size_set(reply) {
        PipeSetup::Done(pipe) => pipe.unwrap(),
        PipeSetup::AskSize(pipe) => {
            let reply = fcntl_getpipe_size(pipe.size_fd()).map_err(error_of);
            pipe.size_got(reply).unwrap()
        }
    }
}

fn flags_of(call: SpliceCall) -> SpliceFlags {
    if call.nonblock {
        SpliceFlags::NONBLOCK
    } else {
        SpliceFlags::empty()
    }
}

fn perform(pipe: &Pipe, action: Action, r: &OwnedFd, w: &OwnedFd) -> Event {
    match action {
        Action::WaitReadable | Action::WaitWritable | Action::Flush => Event::Ready,
        Action::TryRead | Action::TryWrite => Event::Entered,
        Action::SpliceIn(call) => {
            let mut offset = call.offset;
            let fd = pipe.write_side_fd().unwrap();
            let ret = splice(r, offset.as_mut(), fd, None, call.len, flags_of(call));
            Event::Spliced { ret: ret.map_err(error_of), offset }
        }
        Action::SpliceOut(call) => {
            let mut offset = call.offset;
            let fd = pipe.read_side_fd().unwrap();
            let ret = splice(fd, None, w, offset.as_mut(), call.len, flags_of(call));
            Event::Spliced { ret: ret.map_err(error_of), offset }
        }
        Action::Shutdown => match shutdown(w, Shutdown::Write) {
            Ok(()) => Event::Ready,
            Err(e) => Event::Failed(error_of(e)),
        },
        action => panic!("{action:?} belongs to a rate limit"),
    }
}

fn execute(mut io: SpliceIo<File, Stream, false>, r: &OwnedFd, w: &OwnedFd) -> TrafficResult {
    let mut ev = Event::Polled;
    loop {
        assert!(io.is_acceptable(&ev));
        ev = match io.poll_execute(ev) {
            Step::Do(action) => perform(io.ctx().pipe(), action, r, w),
            Step::Ready(ret) => return io.traffic(ret.err()),
            Step::Pending => Event::Polled,
        };
    }
}

fn test_file(content: &[u8]) -> OwnedFd {
    let file = memfd_create("splice_from_file", MemfdFlags::CLOEXEC).unwrap();
    assert_eq!(rustix::io::write(&file, content).unwrap(), content.len());
    file
}

fn sockets() -> (OwnedFd, OwnedFd) {
    socketpair(AddressFamily::UNIX, SocketType::STREAM, SocketFlags::CLOEXEC, None).unwrap()
}

fn read_to_end(fd: &OwnedFd) -> Vec<u8> {
    let mut all = Vec::new();
    let mut buf = vec![0; 65536];
    loop {
        let n = read(fd, &mut buf[..]).unwrap();
        if n == 0 {
            return all;
        }
        all.extend_from_slice(&buf[..n]);
    }
}

fn run_splice_from_file_test(f_offset_start: Option<u64>, f_offset_end: Option<u64>) {
    let r = test_file(&FILE_CONTENT);
    let r_len = fstat(&r).unwrap().st_size as u64;
    assert_eq!(r_len, FILE_CONTENT.len() as u64);

    let start = f_offset_start.unwrap_or(0) as usize;
    let end = f_offset_end.unwrap_or(FILE_CONTENT.len() as u64) as usize;
    let expected_data = &FILE_CONTENT[start..end];

    let (client, w) = sockets();
    let plan = SpliceIoCtx::<File, Stream>::prepare_reading_file(
        r_len,
        f_offset_start,
        f_offset_end,
    )
    .unwrap();
    let traffic = execute(plan.with_pipe(open_pipe()).into_io(), &r, &w);

    assert_eq!(traffic.tx, expected_data.len());
    assert_eq!(traffic.rx, 0);
    assert!(traffic.into_result().is_ok());
    assert_eq!(read_to_end(&client), expected_data);
}

#[test]
fn test_splice_from_file_no_offset() {
    run_splice_from_file_test(None, None);
}

#[test]
fn test_splice_from_file_with_offset_start() {
    run_splice_from_file_test(Some(6), None);
}

#[test]
fn test_splice_from_file_with_offset_end() {
    run_splice_from_file_test(None, Some(6));
}

#[test]
fn test_splice_from_file_with_offset_both() {
    run_splice_from_file_test(Some(4), Some(9));
}

#[test]
fn empty_range_sends_nothing() {
    run_splice_from_file_test(Some(12), None);
    run_splice_from_file_test(Some(5), Some(5));
    run_splice_from_file_test(None, Some(0));
}

#[test]
fn file_that_shrank_is_sent_as_far_as_it_goes() {
    let r = test_file(&FILE_CONTENT);
    let (client, w) = sockets();
    let plan =
        SpliceIoCtx::<File, Stream>::prepare_reading_file(100, Some(7), Some(50)).unwrap();
    let traffic = execute(plan.with_pipe(open_pipe()).into_io(), &r, &w);
    assert_eq!(traffic.tx, 5);
    assert!(traffic.error.is_none());
    assert_eq!(read_to_end(&client), b"File!");
}

#[test]
fn traffic_is_reported_with_the_error() {
    let r = test_file(&FILE_CONTENT);
    let (client, w) = sockets();
    drop(client);
    let plan = SpliceIoCtx::<File, Stream>::prepare_reading_file(12, None, None).unwrap();
    let traffic = execute(plan.with_pipe(open_pipe()).into_io(), &r, &w);
    assert_eq!(traffic.sum(), 0);
    assert!(matches!(traffic.into_result(), Err(Error::Io { kind: ErrorKind::Other, .. })));
}
