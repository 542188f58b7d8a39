//! Linux pipes - [`pipe(7)`].
//!
//! A pipe is the kernel buffer that a transfer moves its data through. The
//! calls that create and size one belong to the caller: [`Pipe::request`] says
//! what to ask the kernel for, and [`NewPipe`] makes a [`Pipe`] of its answers.
//!
//! The default pipe capacity depends on the system, but it is usually `65536`
//! for those whose page size is `4096`.
//!
//! [`pipe(7)`]: https://man7.org/linux/man-pages/man7/pipe.7.html
use crate::error::Error;
use rustix::fd::OwnedFd;
use vstd::prelude::*;

pub mod pool;

verus! {

/// `rustix::fd::OwnedFd`, an open file descriptor. The library hands it on and
/// never looks inside; nothing is claimed of it.
#[verifier::external_type_specification]
#[verifier::external_body]
pub struct ExOwnedFd(rustix::fd::OwnedFd);

/// The maximum amount of data that the kernel is asked to move in a single call
/// to `splice(2)`: 1 MiB, which is the default maximum size of a pipe buffer
/// (`/proc/sys/fs/pipe-max-size`).
pub const MAXIMUM_PIPE_SIZE: usize = 1048576;

/// The size to assume of a pipe of which the size is not known: 64 KiB.
pub const DEFAULT_PIPE_SIZE: usize = 65536;

/// One side of a pipe.
#[derive(Debug)]
pub enum Fd {
    /// The file descriptor can be used for reading or writing.
    Running(OwnedFd),
    /// The file descriptor is reserved for future use (to be recycled).
    Reserved(OwnedFd),
    /// There is no file descriptor any more.
    Closed,
}

impl Fd {
    /// The file descriptor, while it can be used.
    pub open spec fn running(self) -> Option<OwnedFd> {
        match self {
            Fd::Running(fd) => Some(fd),
            _ => None,
        }
    }

    /// This side once it is no longer used: the file descriptor is kept in
    /// reserve.
    pub open spec fn reserved(self) -> Fd {
        match self {
            Fd::Running(fd) => Fd::Reserved(fd),
            _ => self,
        }
    }

    /// This side with its file descriptor, if it still has one, in use again.
    pub open spec fn revived(self) -> Fd {
        match self {
            Fd::Reserved(fd) => Fd::Running(fd),
            _ => self,
        }
    }

    /// Takes this side out of use: the file descriptor is reserved for future
    /// use.
    #[inline]
    pub fn set_reserved(&mut self)
        ensures
            *final(self) == old(self).reserved(),
    {
        let mut fd = Fd::Closed;
        std::mem::swap(self, &mut fd);
        *self = match fd {
            Fd::Running(owned_fd) => Fd::Reserved(owned_fd),
            fd => fd,
        };
    }

    /// Returns the file descriptor, while it can be used.
    #[inline]
    pub fn as_fd(&self) -> (fd: Option<&OwnedFd>)
        ensures
            fd is Some <==> self.running() is Some,
            fd matches Some(fd) ==> Some(*fd) == self.running(),
    {
        match self {
            Fd::Running(fd) => Some(fd),
            _ => None,
        }
    }

    /// Puts the file descriptor back in use.
    pub fn revive(self) -> (fd: Fd)
        requires
            self !is Closed,
        ensures
            fd is Running,
            fd == self.revived(),
    {
        match self {
            Fd::Reserved(owned_fd) => Fd::Running(owned_fd),
            fd => fd,
        }
    }
}

/// What a [`Pipe`] is: its two sides and its size in bytes.
pub struct PipeState {
    pub read_side: Fd,
    pub write_side: Fd,
    pub size: nat,
}

impl PipeState {
    /// A pipe holds at least one byte.
    pub open spec fn wf(self) -> bool {
        1 <= self.size <= usize::MAX
    }

    /// Whether the pipe can be used for a transfer: both its sides are open.
    pub open spec fn fresh(self) -> bool {
        self.wf() && !self.drain_finished() && !self.pump_finished()
    }

    /// Whether nothing more will be read into the pipe.
    pub open spec fn drain_finished(self) -> bool {
        self.write_side.running() is None
    }

    /// Whether nothing more will be written out of the pipe.
    pub open spec fn pump_finished(self) -> bool {
        self.read_side.running() is None
    }

    /// The pipe once nothing more will be read into it.
    pub open spec fn finish_drain(self) -> PipeState {
        PipeState { write_side: self.write_side.reserved(), ..self }
    }

    /// The pipe once nothing more will be written out of it.
    pub open spec fn finish_pump(self) -> PipeState {
        PipeState { read_side: self.read_side.reserved(), ..self }
    }

    /// Whether the pipe still has both its file descriptors.
    pub open spec fn recyclable(self) -> bool {
        self.read_side !is Closed && self.write_side !is Closed
    }

    /// The pipe with both its sides in use again.
    pub open spec fn recycled(self) -> PipeState {
        PipeState {
            read_side: self.read_side.revived(),
            write_side: self.write_side.revived(),
            ..self
        }
    }
}

/// A Linux pipe.
#[derive(Debug)]
pub struct Pipe {
    /// File descriptor for reading from the pipe.
    read_side_fd: Fd,
    /// File descriptor for writing to the pipe.
    write_side_fd: Fd,
    /// Pipe size in bytes.
    size: usize,
}

impl View for Pipe {
    type V = PipeState;

    closed spec fn view(&self) -> PipeState {
        PipeState {
            read_side: self.read_side_fd,
            write_side: self.write_side_fd,
            size: self.size as nat,
        }
    }
}

/// What to ask the kernel for when a pipe is created.
#[derive(Debug, Clone, Copy, PartialEq, Eq)]
pub struct PipeRequest {
    /// Reads and writes do not wait (`O_NONBLOCK`).
    pub nonblock: bool,
    /// The file descriptors are closed on `execve(2)` (`O_CLOEXEC`).
    pub cloexec: bool,
    /// The size to set on the read side.
    pub size: usize,
}

impl Pipe {
    /// Returns what to ask the kernel for: a pipe with flags `O_NONBLOCK` and
    /// `O_CLOEXEC` of [`MAXIMUM_PIPE_SIZE`] bytes.
    pub fn request() -> (request: PipeRequest)
        ensures
            request.nonblock,
            request.cloexec,
            request.size == MAXIMUM_PIPE_SIZE,
    {
        PipeRequest { nonblock: true, cloexec: true, size: MAXIMUM_PIPE_SIZE }
    }

    /// Returns the file descriptor to set the size of the pipe on.
    pub fn size_fd(&self) -> (fd: Result<&OwnedFd, Error>)
        ensures
            fd is Ok <==> self@.write_side.running() is Some,
            fd matches Ok(fd) ==> Some(*fd) == self@.write_side.running(),
            fd matches Err(e) ==> e == Error::WriteSideUnavailable,
    {
        match self.write_side_fd.as_fd() {
            Some(fd) => Ok(fd),
            None => Err(Error::WriteSideUnavailable),
        }
    }

    /// Takes note of what the kernel answered to setting the size of the pipe:
    /// the size it has given it, or why it did not.
    pub fn set_pipe_size(&mut self, reply: Result<usize, Error>) -> (size: Result<usize, Error>)
        requires
            old(self)@.wf(),
        ensures
            final(self)@.wf(),
            size == reply,
            final(self)@ == (match reply {
                Ok(size) if size > 0 => PipeState { size: size as nat, ..old(self)@ },
                _ => old(self)@,
            }),
    {
        if let Ok(size) = &reply {
            if *size > 0 {
                self.size = *size;
            }
        }
        reply
    }

    /// Returns the write side, while it is open.
    #[inline]
    pub fn write_side_fd(&self) -> (fd: Option<&OwnedFd>)
        ensures
            fd is Some <==> self@.write_side.running() is Some,
            fd matches Some(fd) ==> Some(*fd) == self@.write_side.running(),
    {
        self.write_side_fd.as_fd()
    }

    /// Returns whether nothing more will be read into the pipe.
    #[must_use]
    #[inline]
    pub fn splice_drain_finished(&self) -> (finished: bool)
        ensures
            finished == self@.drain_finished(),
    {
        matches!(self.write_side_fd, Fd::Reserved(_) | Fd::Closed)
    }

    /// Closes the write side: nothing more will be read into the pipe.
    #[inline]
    pub fn set_splice_drain_finished(&mut self)
        ensures
            final(self)@ == old(self)@.finish_drain(),
    {
        self.write_side_fd.set_reserved();
    }

    /// Returns the read side, while it is open.
    #[inline]
    pub fn read_side_fd(&self) -> (fd: Option<&OwnedFd>)
        ensures
            fd is Some <==> self@.read_side.running() is Some,
            fd matches Some(fd) ==> Some(*fd) == self@.read_side.running(),
    {
        self.read_side_fd.as_fd()
    }

    /// Returns whether nothing more will be written out of the pipe.
    #[must_use]
    #[inline]
    pub fn splice_pump_finished(&self) -> (finished: bool)
        ensures
            finished == self@.pump_finished(),
    {
        matches!(self.read_side_fd, Fd::Reserved(_) | Fd::Closed)
    }

    /// Closes the read side: nothing more will be written out of the pipe.
    #[inline]
    pub fn set_splice_pump_finished(&mut self)
        ensures
            final(self)@ == old(self)@.finish_pump(),
    {
        self.read_side_fd.set_reserved();
    }

    /// Returns the size of the pipe, in bytes.
    #[inline]
    pub fn size(&self) -> (size: usize)
        ensures
            size == self@.size,
    {
        self.size
    }

    /// Returns whether the pipe still has both its file descriptors.
    pub fn is_recyclable(&self) -> (recyclable: bool)
        ensures
            recyclable == self@.recyclable(),
    {
        !matches!(self.read_side_fd, Fd::Closed) && !matches!(self.write_side_fd, Fd::Closed)
    }

    /// Makes the pipe, which is no longer in use, one that can be used anew.
    pub fn recycle(self) -> (pipe: Pipe)
        requires
            self@.recyclable(),
        ensures
            pipe@ == self@.recycled(),
            self@.wf() ==> pipe@.fresh(),
    {
        Pipe {
            read_side_fd: self.read_side_fd.revive(),
            write_side_fd: self.write_side_fd.revive(),
            size: self.size,
        }
    }
}

/// A pipe that the kernel has just created, until its size is known.
#[derive(Debug)]
pub struct NewPipe {
    read_fd: OwnedFd,
    write_fd: OwnedFd,
}

/// What became of a new pipe once setting its size has been tried.
#[derive(Debug)]
pub enum PipeSetup {
    /// The pipe is ready, or cannot be used.
    Done(Result<Pipe, Error>),
    /// The kernel has to be asked for the size that the pipe has.
    AskSize(NewPipe),
}

impl View for NewPipe {
    type V = (OwnedFd, OwnedFd);

    closed spec fn view(&self) -> (OwnedFd, OwnedFd) {
        (self.read_fd, self.write_fd)
    }
}

impl NewPipe {
    /// What a pipe with the sides `fds` is once its size is known to be `size`:
    /// a pipe of no size cannot be used.
    pub open spec fn sized(fds: (OwnedFd, OwnedFd), size: usize, r: Result<Pipe, Error>) -> bool {
        match r {
            Ok(pipe) => {
                &&& size > 0
                &&& pipe@.fresh()
                &&& pipe@ == PipeState {
                    read_side: Fd::Running(fds.0),
                    write_side: Fd::Running(fds.1),
                    size: size as nat,
                }
            },
            Err(e) => size == 0 && e == Error::PipeSizeUnknown,
        }
    }

    /// Takes over the two sides of a pipe that the kernel has just created.
    pub fn new(read_fd: OwnedFd, write_fd: OwnedFd) -> (pipe: NewPipe)
        ensures
            pipe@ == (read_fd, write_fd),
    {
        NewPipe { read_fd, write_fd }
    }

    /// Returns the file descriptor to set the size on, or to ask for it.
    pub fn size_fd(&self) -> (fd: &OwnedFd)
        ensures
            *fd == self@.0,
    {
        &self.read_fd
    }

    /// Takes the kernel's answer to setting the size. An error is no failure, as
    /// a smaller buffer will do, although it will take more system calls: the
    /// kernel is then asked for the size that it has chosen.
    pub fn size_set(self, reply: Result<usize, Error>) -> (setup: PipeSetup)
        ensures
            match reply {
                Ok(size) => setup matches PipeSetup::Done(r) && Self::sized(self@, size, r),
                Err(_) => setup matches PipeSetup::AskSize(pipe) && pipe@ == self@,
            },
    {
        match reply {
            Ok(size) => PipeSetup::Done(self.with_size(size)),
            Err(_) => PipeSetup::AskSize(self),
        }
    }

    /// Takes the kernel's answer to asking for the size.
    pub fn size_got(self, reply: Result<usize, Error>) -> (pipe: Result<Pipe, Error>)
        ensures
            match reply {
                Ok(size) => Self::sized(self@, size, pipe),
                Err(e) => pipe == Result::<Pipe, Error>::Err(e),
            },
    {
        match reply {
            Ok(size) => self.with_size(size),
            Err(e) => Err(e),
        }
    }

    fn with_size(self, size: usize) -> (pipe: Result<Pipe, Error>)
        ensures
            Self::sized(self@, size, pipe),
    {
        if size > 0 {
            Ok(
                Pipe {
                    read_side_fd: Fd::Running(self.read_fd),
                    write_side_fd: Fd::Running(self.write_fd),
                    size,
                },
            )
        } else {
            Err(Error::PipeSizeUnknown)
        }
    }
}

/// One of the two sides of a pipe.
pub enum Side {
    /// The one that is read from.
    Read,
    /// The one that is written to.
    Write,
}

impl PipeState {
    /// The pipe once the given sides have been taken out of use, one after the
    /// other.
    pub open spec fn finish(self, sides: Seq<Side>) -> PipeState
        decreases sides.len(),
    {
        if sides.len() == 0 {
            self
        } else {
            match sides.last() {
                Side::Read => self.finish(sides.drop_last()).finish_pump(),
                Side::Write => self.finish(sides.drop_last()).finish_drain(),
            }
        }
    }
}

/// A side of a pipe that is out of use stays out of use, and taking it out of use
/// again changes nothing; and the other side is not touched.
pub proof fn finished_sides_stay_finished(pipe: PipeState)
    ensures
        pipe.finish_drain().drain_finished(),
        pipe.finish_pump().pump_finished(),
        pipe.finish_drain().finish_drain() == pipe.finish_drain(),
        pipe.finish_pump().finish_pump() == pipe.finish_pump(),
        pipe.drain_finished() ==> pipe.finish_pump().drain_finished(),
        pipe.pump_finished() ==> pipe.finish_drain().pump_finished(),
        pipe.finish_drain().read_side == pipe.read_side,
        pipe.finish_pump().write_side == pipe.write_side,
        pipe.finish_drain().size == pipe.size,
        pipe.finish_pump().size == pipe.size,
{
}

/// A pipe of which the sides have been taken out of use, however often and in
/// whatever order, still has both its file descriptors, and is the pipe that it was
/// when it is then recycled.
pub proof fn recycling_restores_the_pipe(pipe: PipeState, sides: Seq<Side>)
    requires
        pipe.fresh(),
    ensures
        pipe.finish(sides).recyclable(),
        pipe.finish(sides).recycled() == pipe,
    decreases sides.len(),
{
    if sides.len() > 0 {
        recycling_restores_the_pipe(pipe, sides.drop_last());
    }
}

/// A side of a pipe has a file descriptor to be used only while it is running. Taking
/// it out of use keeps the descriptor in reserve, putting it back in use brings the same
/// one back, and neither makes a descriptor where there is none.
pub proof fn descriptors_are_kept(fd: OwnedFd)
    ensures
        Fd::Running(fd).running() == Some(fd),
        Fd::Reserved(fd).running() is None,
        Fd::Closed.running() is None,
        Fd::Running(fd).reserved() == Fd::Reserved(fd),
        Fd::Reserved(fd).reserved() == Fd::Reserved(fd),
        Fd::Closed.reserved() == Fd::Closed,
        Fd::Running(fd).revived() == Fd::Running(fd),
        Fd::Reserved(fd).revived() == Fd::Running(fd),
        Fd::Closed.revived() == Fd::Closed,
{
}

/// Reading into a pipe is over when its write side is not running, and writing out of
/// it when its read side is not; each of the two concerns its own side alone.
pub proof fn sides_have_their_parts(pipe: PipeState)
    ensures
        pipe.drain_finished() <==> pipe.write_side !is Running,
        pipe.pump_finished() <==> pipe.read_side !is Running,
        pipe.finish_drain() == (PipeState {
            write_side: if pipe.write_side is Running {
                Fd::Reserved(pipe.write_side->Running_0)
            } else {
                pipe.write_side
            },
            ..pipe
        }),
        pipe.finish_pump() == (PipeState {
            read_side: if pipe.read_side is Running {
                Fd::Reserved(pipe.read_side->Running_0)
            } else {
                pipe.read_side
            },
            ..pipe
        }),
        pipe.wf() <==> 1 <= pipe.size <= usize::MAX,
        pipe.fresh() <==> pipe.wf() && pipe.read_side is Running && pipe.write_side is Running,
        pipe.recyclable() <==> pipe.read_side !is Closed && pipe.write_side !is Closed,
{
}

/// A new pipe reads from the descriptor that is read from and writes to the one that is
/// written to, and has the size that the kernel told; without a size there is none.
pub proof fn new_pipe_has_its_sides(fds: (OwnedFd, OwnedFd), size: usize, r: Result<Pipe, Error>)
    requires
        NewPipe::sized(fds, size, r),
    ensures
        size > 0 <==> r is Ok,
        r matches Ok(pipe) ==> {
            &&& pipe@.read_side == Fd::Running(fds.0)
            &&& pipe@.write_side == Fd::Running(fds.1)
            &&& pipe@.size == size
        },
        r matches Err(e) ==> e == Error::PipeSizeUnknown,
{
}

} // verus!
