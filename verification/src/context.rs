//! The context of a transfer: how far it has come, and the two moves that it
//! consists of.
//!
//! Data is *drained* from the reader into a pipe and *pumped* from the pipe to
//! the writer, each with `splice(2)`.
use crate::error::Error;
use crate::io::{IoState, IsFile, IsNotFile, SpliceIo};
use crate::pipe::{Pipe, PipeState, MAXIMUM_PIPE_SIZE};
use crate::rate::RATE_LIMITER_DISABLED;
use crate::step::{Action, Event, SpliceCall, Step};
use crate::traffic::TrafficResult;
use crate::utils::{range_end, range_error, range_start, range_valid, Drained, Offset};
use rustix::fd::OwnedFd;
use std::marker::PhantomData;
use vstd::prelude::*;

verus! {

/// What a [`SpliceIoCtx`] is.
pub struct CtxState {
    /// The offset into the reader or the writer, if one of them is a file.
    pub offset: Offset,
    /// How many bytes to transfer at most.
    pub target: nat,
    /// How many bytes have been read into the pipe.
    pub read: nat,
    /// How many bytes have been written out of the pipe.
    pub written: nat,
    /// Whether bytes have been written since the writer was last flushed.
    pub need_flush: bool,
    /// The pipe.
    pub pipe: PipeState,
    /// The action that has been asked for, until it is answered.
    pub awaiting: Option<Action>,
}

/// The smaller of a number of bytes and a limit on it, if there is one.
pub open spec fn limited(len: nat, limit: Option<usize>) -> nat {
    match limit {
        Some(limit) if limit < len => limit as nat,
        _ => len,
    }
}

impl CtxState {
    /// All counts are machine integers.
    pub open spec fn wf(self) -> bool {
        &&& self.target <= usize::MAX
        &&& self.read <= usize::MAX
        &&& self.written <= usize::MAX
        &&& self.pipe.wf()
    }

    /// Whether the bytes that `ev` reports to have been moved can be counted.
    pub open spec fn countable(self, ev: Event) -> bool {
        match (self.awaiting, ev) {
            (Some(Action::SpliceIn(_)), Event::Spliced { ret: Ok(n), .. }) => self.read + n
                <= usize::MAX,
            (Some(Action::SpliceOut(_)), Event::Spliced { ret: Ok(n), .. }) => self.written + n
                <= usize::MAX,
            _ => true,
        }
    }

    /// Whether draining and pumping are over.
    pub open spec fn finished(self) -> bool {
        self.pipe.drain_finished() && self.pipe.pump_finished()
    }

    /// Whether draining and pumping are over and the writer is flushed.
    pub open spec fn full_done(self) -> bool {
        self.finished() && !self.need_flush
    }

    /// The context when nothing is asked for.
    pub open spec fn idle(self) -> CtxState {
        CtxState { awaiting: None, ..self }
    }

    /// The context when `action` is asked for.
    pub open spec fn asking(self, action: Action) -> CtxState {
        CtxState { awaiting: Some(action), ..self }
    }

    /// The context once nothing more will be read into the pipe.
    pub open spec fn finish_drain(self) -> CtxState {
        CtxState { pipe: self.pipe.finish_drain(), ..self }
    }

    /// The context once nothing more will be written out of the pipe.
    pub open spec fn finish_pump(self) -> CtxState {
        CtxState { pipe: self.pipe.finish_pump(), ..self }
    }

    /// How many bytes to ask for when reading into the pipe: what is left to be
    /// read, but no more than `ideal_len` and [`MAXIMUM_PIPE_SIZE`].
    pub open spec fn drain_len(self, ideal_len: Option<usize>) -> nat {
        limited(
            limited((self.target - self.read) as nat, ideal_len),
            Some(MAXIMUM_PIPE_SIZE),
        )
    }

    /// How reading into the pipe begins: with a call for some of what is left to
    /// be read. There is none if everything has been read, which finishes the
    /// reading, or if it is finished already.
    pub open spec fn drain_call(self, ideal_len: Option<usize>, nonblock: bool) -> (
        CtxState,
        Option<SpliceCall>,
    ) {
        if self.read >= self.target {
            (self.finish_drain(), None)
        } else if self.pipe.drain_finished() {
            (self, None)
        } else {
            (
                self,
                Some(
                    SpliceCall {
                        offset: self.offset.spec_off_in(),
                        len: self.drain_len(ideal_len) as usize,
                        nonblock,
                    },
                ),
            )
        }
    }

    /// How reading into the pipe ends when the call has returned `ret` and left
    /// the offset at `offset`: the bytes are counted; if there are none, or if
    /// the call failed for good, nothing more will be read.
    pub open spec fn drain_done(self, ret: Result<usize, Error>, offset: Option<u64>) -> (
        CtxState,
        Result<Drained, Error>,
    ) {
        let s = CtxState { offset: self.offset.moved_in(offset), ..self };
        match ret {
            Ok(n) => if n == 0 {
                (s.finish_drain(), Ok(Drained::Done))
            } else {
                (CtxState { read: s.read + n as nat, ..s }, Ok(Drained::Bytes(n)))
            },
            Err(e) => if e.is_would_block() {
                (s, Err(e))
            } else {
                (s.finish_drain(), Err(e))
            },
        }
    }

    /// How writing out of the pipe begins: with a call for all that is in the
    /// pipe. There is none if writing is finished, or if nothing is in the
    /// pipe, which finishes the writing if nothing more will be read.
    pub open spec fn pump_call(self, nonblock: bool) -> (CtxState, Option<SpliceCall>) {
        if self.pipe.pump_finished() {
            (self, None)
        } else if self.read <= self.written {
            if self.pipe.drain_finished() {
                (self.finish_pump(), None)
            } else {
                (self, None)
            }
        } else {
            (
                self,
                Some(
                    SpliceCall {
                        offset: self.offset.spec_off_out(),
                        len: (self.read - self.written) as usize,
                        nonblock,
                    },
                ),
            )
        }
    }

    /// How writing out of the pipe ends when the call has returned `ret` and
    /// left the offset at `offset`: the bytes are counted, and the answer is
    /// whether some are left in the pipe. That no byte was written is an error,
    /// and so is that more were written than had been read. If the call failed
    /// for good, nothing more will be written.
    pub open spec fn pump_done(self, ret: Result<usize, Error>, offset: Option<u64>) -> (
        CtxState,
        Result<bool, Error>,
    ) {
        let s = CtxState { offset: self.offset.moved_out(offset), ..self };
        match ret {
            Ok(n) => if n == 0 {
                (s, Err(Error::WriteZero))
            } else {
                let t = CtxState { need_flush: true, written: s.written + n as nat, ..s };
                if t.written > t.read {
                    (t, Err(Error::WrittenMoreThanRead))
                } else {
                    (t, Ok(t.written < t.read))
                }
            },
            Err(e) => if e.is_would_block() {
                (s, Err(e))
            } else {
                (s.finish_pump(), Err(e))
            },
        }
    }

    /// How an attempt to read into the pipe starts.
    pub open spec fn drain_entered(self, ideal_len: Option<usize>) -> (CtxState, Step<Drained>) {
        match self.drain_call(ideal_len, true) {
            (s, None) => (s.idle(), Step::Ready(Ok(Drained::Done))),
            (s, Some(call)) => (
                s.asking(Action::SpliceIn(call)),
                Step::Do(Action::SpliceIn(call)),
            ),
        }
    }

    /// How an attempt to write out of the pipe starts.
    pub open spec fn pump_entered(self) -> (CtxState, Step<()>) {
        match self.pump_call(true) {
            (s, None) => (s.idle(), Step::Ready(Ok(()))),
            (s, Some(call)) => (
                s.asking(Action::SpliceOut(call)),
                Step::Do(Action::SpliceOut(call)),
            ),
        }
    }

    /// One step of moving data from the reader to the pipe: wait until the
    /// reader is ready, try to read, call `splice(2)`, and start over as long as
    /// the reader turns out not to be ready.
    ///
    /// Nothing is done if nothing more will be read, or if there is data in the
    /// pipe.
    pub open spec fn poll_drain(self, ev: Event, ideal_len: Option<usize>) -> (
        CtxState,
        Step<Drained>,
    ) {
        match self.awaiting {
            Some(Action::WaitReadable) => match ev {
                Event::Ready => (self.asking(Action::TryRead), Step::Do(Action::TryRead)),
                Event::Pending => (self.idle(), Step::Pending),
                Event::Failed(e) => (self.idle(), Step::Ready(Err(e))),
                _ => (self, Step::Do(Action::WaitReadable)),
            },
            Some(Action::TryRead) => match ev {
                Event::Entered => self.drain_entered(ideal_len),
                Event::Failed(e) => if e.is_would_block() {
                    (self.asking(Action::WaitReadable), Step::Do(Action::WaitReadable))
                } else {
                    (self.idle(), Step::Ready(Err(e)))
                },
                _ => (self, Step::Do(Action::TryRead)),
            },
            Some(Action::SpliceIn(call)) => match ev {
                Event::Spliced { ret, offset } => match self.drain_done(ret, offset) {
                    (s, Ok(drained)) => (s.idle(), Step::Ready(Ok(drained))),
                    (s, Err(e)) => if e.is_would_block() {
                        (s.asking(Action::WaitReadable), Step::Do(Action::WaitReadable))
                    } else {
                        (s.idle(), Step::Ready(Err(e)))
                    },
                },
                _ => (self, Step::Do(Action::SpliceIn(call))),
            },
            _ => if self.pipe.drain_finished() || self.read != self.written {
                (self.idle(), Step::Ready(Ok(Drained::Done)))
            } else {
                (self.asking(Action::WaitReadable), Step::Do(Action::WaitReadable))
            },
        }
    }

    /// One step of moving data from the pipe to the writer: wait until the
    /// writer is ready, try to write, call `splice(2)`, and start over until the
    /// pipe is empty.
    pub open spec fn poll_pump(self, ev: Event) -> (CtxState, Step<()>) {
        match self.awaiting {
            Some(Action::WaitWritable) => match ev {
                Event::Ready => (self.asking(Action::TryWrite), Step::Do(Action::TryWrite)),
                Event::Pending => (self.idle(), Step::Pending),
                Event::Failed(e) => (self.idle(), Step::Ready(Err(e))),
                _ => (self, Step::Do(Action::WaitWritable)),
            },
            Some(Action::TryWrite) => match ev {
                Event::Entered => self.pump_entered(),
                Event::Failed(e) => if e.is_would_block() {
                    (self.asking(Action::WaitWritable), Step::Do(Action::WaitWritable))
                } else {
                    (self.idle(), Step::Ready(Err(e)))
                },
                _ => (self, Step::Do(Action::TryWrite)),
            },
            Some(Action::SpliceOut(call)) => match ev {
                Event::Spliced { ret, offset } => match self.pump_done(ret, offset) {
                    (s, Ok(more)) => if more {
                        (s.asking(Action::WaitWritable), Step::Do(Action::WaitWritable))
                    } else {
                        (s.idle(), Step::Ready(Ok(())))
                    },
                    (s, Err(e)) => if e.is_would_block() {
                        (s.asking(Action::WaitWritable), Step::Do(Action::WaitWritable))
                    } else {
                        (s.idle(), Step::Ready(Err(e)))
                    },
                },
                _ => (self, Step::Do(Action::SpliceOut(call))),
            },
            _ => (self.asking(Action::WaitWritable), Step::Do(Action::WaitWritable)),
        }
    }

    /// One step of flushing the writer, if that is needed.
    pub open spec fn poll_flush(self, ev: Event) -> (CtxState, Step<()>) {
        match self.awaiting {
            Some(Action::Flush) => match ev {
                Event::Ready => (
                    CtxState { need_flush: false, ..self.idle() },
                    Step::Ready(Ok(())),
                ),
                Event::Pending => (self.idle(), Step::Pending),
                Event::Failed(e) => (self.idle(), Step::Ready(Err(e))),
                _ => (self, Step::Do(Action::Flush)),
            },
            _ => if self.need_flush {
                (self.asking(Action::Flush), Step::Do(Action::Flush))
            } else {
                (self.idle(), Step::Ready(Ok(())))
            },
        }
    }
}

/// A transfer that has been checked but has no pipe yet.
#[derive(Debug)]
pub struct SplicePlan<R, W> {
    offset: Offset,
    size_to_splice: usize,
    r: PhantomData<R>,
    w: PhantomData<W>,
}

/// What a [`SplicePlan`] is: the offset to start from, and how many bytes to
/// transfer at most.
pub struct PlanState {
    pub offset: Offset,
    pub target: nat,
}

impl<R, W> View for SplicePlan<R, W> {
    type V = PlanState;

    closed spec fn view(&self) -> PlanState {
        PlanState { offset: self.offset, target: self.size_to_splice as nat }
    }
}

impl PlanState {
    /// The plan to transfer as much as possible.
    pub open spec fn unbounded() -> PlanState {
        PlanState { offset: Offset::Unset, target: isize::MAX as nat }
    }

    /// The plan to read a range of a file of `f_len` bytes.
    pub open spec fn reading(
        f_len: u64,
        f_offset_start: Option<u64>,
        f_offset_end: Option<u64>,
    ) -> PlanState {
        PlanState {
            offset: Offset::In(Some(range_start(f_offset_start) as u64)),
            target: range_len(f_len, f_offset_start, f_offset_end),
        }
    }

    /// The plan to write a range of a file of `f_len` bytes.
    pub open spec fn writing(
        f_len: u64,
        f_offset_start: Option<u64>,
        f_offset_end: Option<u64>,
    ) -> PlanState {
        PlanState {
            offset: Offset::Out(Some(range_start(f_offset_start) as u64)),
            target: range_len(f_len, f_offset_start, f_offset_end),
        }
    }

    /// The context of the transfer through the pipe `pipe` before anything has
    /// been transferred.
    pub open spec fn start(self, pipe: PipeState) -> CtxState {
        CtxState {
            offset: self.offset,
            target: self.target,
            read: 0,
            written: 0,
            need_flush: false,
            pipe,
            awaiting: None,
        }
    }
}

impl<R, W> SplicePlan<R, W> {
    /// Gives the transfer a pipe.
    #[inline]
    pub fn with_pipe(self, pipe: Pipe) -> (ctx: SpliceIoCtx<R, W>)
        requires
            pipe@.wf(),
        ensures
            ctx@ == self@.start(pipe@),
            ctx@.wf(),
    {
        SpliceIoCtx {
            offset: self.offset,
            size_to_splice: self.size_to_splice,
            pipe,
            has_read: 0,
            has_written: 0,
            need_flush: false,
            awaiting: None,
            r: PhantomData,
            w: PhantomData,
        }
    }
}

/// Whether `f_len`, `f_offset_start` and `f_offset_end` bound a range of a file
/// that can be transferred.
pub open spec fn range_accepted(
    f_len: u64,
    f_offset_start: Option<u64>,
    f_offset_end: Option<u64>,
) -> bool {
    &&& range_valid(f_len, f_offset_start, f_offset_end)
    &&& range_end(f_len, f_offset_end) - range_start(f_offset_start) <= usize::MAX
}

/// How many bytes are in the range that two offsets bound.
pub open spec fn range_len(
    f_len: u64,
    f_offset_start: Option<u64>,
    f_offset_end: Option<u64>,
) -> nat
    recommends
        range_valid(f_len, f_offset_start, f_offset_end),
{
    (range_end(f_len, f_offset_end) - range_start(f_offset_start)) as nat
}

/// Zero-copy I/O with `splice(2)`: the context of a transfer from `R` to `W`.
#[derive(Debug)]
pub struct SpliceIoCtx<R, W> {
    /// The `off_in` when splicing from `R` to the pipe, or the `off_out` when
    /// splicing from the pipe to `W`.
    offset: Offset,
    /// Target length to read from `R` then write to `W`.
    ///
    /// Default is `isize::MAX`, which means read as much as possible.
    size_to_splice: usize,
    /// Pipe used to splice data.
    pipe: Pipe,
    /// Bytes that have been read from `R` into pipe write side.
    has_read: usize,
    /// Bytes that have been written to `W` from pipe read side.
    has_written: usize,
    /// Whether need to flush `W` after writing.
    need_flush: bool,
    /// The action that has been asked for, until it is answered.
    awaiting: Option<Action>,
    r: PhantomData<R>,
    w: PhantomData<W>,
}

impl<R, W> View for SpliceIoCtx<R, W> {
    type V = CtxState;

    closed spec fn view(&self) -> CtxState {
        CtxState {
            offset: self.offset,
            target: self.size_to_splice as nat,
            read: self.has_read as nat,
            written: self.has_written as nat,
            need_flush: self.need_flush,
            pipe: self.pipe@,
            awaiting: self.awaiting,
        }
    }
}

impl<R, W> SpliceIoCtx<R, W> {
    /// Prepares a transfer of as much as possible.
    ///
    /// Can be used only when `R` and `W` are not files.
    #[inline]
    pub fn prepare() -> (plan: SplicePlan<R, W>) where R: IsNotFile, W: IsNotFile
        ensures
            plan@ == PlanState::unbounded(),
            plan@.target == isize::MAX,
            plan@.offset is Unset,
    {
        SplicePlan {
            offset: Offset::Unset,
            size_to_splice: isize::MAX as usize,
            r: PhantomData,
            w: PhantomData,
        }
    }

    /// Prepares a transfer of a part of a file.
    ///
    /// Can be used only when `R` is a file.
    ///
    /// ## Arguments
    ///
    /// * `f_len` - File length.
    /// * `f_offset_start` - File offset start. Set to `None` to read from the
    ///   beginning.
    /// * `f_offset_end` - File offset end. Set to `None` to read to the end.
    ///
    /// ## Errors
    ///
    /// * Invalid offset.
    #[inline]
    pub fn prepare_reading_file(
        f_len: u64,
        f_offset_start: Option<u64>,
        f_offset_end: Option<u64>,
    ) -> (plan: Result<SplicePlan<R, W>, Error>) where R: IsFile, W: IsNotFile
        ensures
            plan is Ok <==> range_accepted(f_len, f_offset_start, f_offset_end),
            plan matches Ok(plan) ==> plan@ == PlanState::reading(f_len, f_offset_start, f_offset_end),
            plan matches Err(e) ==> e == (if range_valid(f_len, f_offset_start, f_offset_end) {
                Error::FileTooLarge
            } else {
                range_error(f_offset_start, f_offset_end)
            }),
    {
        let size_to_splice = Self::size_to_splice(f_len, f_offset_start, f_offset_end)?;
        Ok(
            SplicePlan {
                offset: Offset::In(Some(f_offset_start.unwrap_or(0))),
                size_to_splice,
                r: PhantomData,
                w: PhantomData,
            },
        )
    }

    /// Prepares a transfer to a part of a file.
    ///
    /// Can be used only when `W` is a file.
    ///
    /// ## Arguments
    ///
    /// * `f_len` - File length.
    /// * `f_offset_start` - File offset start. Set to `None` to write from the
    ///   beginning.
    /// * `f_offset_end` - File offset end. Set to `None` to write to the end.
    ///
    /// ## Errors
    ///
    /// * Invalid offset.
    #[inline]
    pub fn prepare_writing_file(
        f_len: u64,
        f_offset_start: Option<u64>,
        f_offset_end: Option<u64>,
    ) -> (plan: Result<SplicePlan<R, W>, Error>) where R: IsNotFile, W: IsFile
        ensures
            plan is Ok <==> range_accepted(f_len, f_offset_start, f_offset_end),
            plan matches Ok(plan) ==> plan@ == PlanState::writing(f_len, f_offset_start, f_offset_end),
            plan matches Err(e) ==> e == (if range_valid(f_len, f_offset_start, f_offset_end) {
                Error::FileTooLarge
            } else {
                range_error(f_offset_start, f_offset_end)
            }),
    {
        let size_to_splice = Self::size_to_splice(f_len, f_offset_start, f_offset_end)?;
        Ok(
            SplicePlan {
                offset: Offset::Out(Some(f_offset_start.unwrap_or(0))),
                size_to_splice,
                r: PhantomData,
                w: PhantomData,
            },
        )
    }

    fn size_to_splice(f_len: u64, f_offset_start: Option<u64>, f_offset_end: Option<u64>) -> (r:
        Result<usize, Error>)
        ensures
            r is Ok <==> range_accepted(f_len, f_offset_start, f_offset_end),
            r matches Ok(size) ==> size == range_len(f_len, f_offset_start, f_offset_end),
            r matches Err(e) ==> e == (if range_valid(f_len, f_offset_start, f_offset_end) {
                Error::FileTooLarge
            } else {
                range_error(f_offset_start, f_offset_end)
            }),
    {
        let size: u64 = Offset::calc_size_to_splice(f_len, f_offset_start, f_offset_end)?;
        if size <= usize::MAX as u64 {
            Ok(size as usize)
        } else {
            Err(Error::FileTooLarge)
        }
    }

    /// Returns the file descriptor to set the size of the pipe on.
    pub fn pipe_size_fd(&self) -> (fd: Result<&OwnedFd, Error>)
        ensures
            fd is Ok <==> self@.pipe.write_side.running() is Some,
            fd matches Ok(fd) ==> Some(*fd) == self@.pipe.write_side.running(),
            fd matches Err(e) ==> e == Error::WriteSideUnavailable,
    {
        self.pipe.size_fd()
    }

    /// Goes on with a pipe of which the size has been set. `reply` is what the
    /// kernel answered.
    ///
    /// See [`Pipe`]'s top level docs for more details.
    pub fn set_pipe_size(self, reply: Result<usize, Error>) -> (r: Result<SpliceIoCtx<R, W>, Error>)
        requires
            self@.wf(),
        ensures
            match reply {
                Ok(size) => {
                    &&& r matches Ok(ctx)
                    &&& ctx@.wf()
                    &&& ctx@.pipe.size == (if size > 0 {
                        size as nat
                    } else {
                        self@.pipe.size
                    })
                    &&& ctx@ == CtxState {
                        pipe: PipeState { size: ctx@.pipe.size, ..self@.pipe },
                        ..self@
                    }
                },
                Err(e) => r == Result::<SpliceIoCtx<R, W>, Error>::Err(e),
            },
    {
        let mut ctx = self;
        match ctx.pipe.set_pipe_size(reply) {
            Ok(_) => Ok(ctx),
            Err(e) => Err(e),
        }
    }

    /// Returns the pipe.
    #[inline]
    pub fn pipe(&self) -> (pipe: &Pipe)
        ensures
            pipe@ == self@.pipe,
    {
        &self.pipe
    }

    /// Returns the size of the pipe, in bytes.
    #[inline]
    pub fn pipe_size(&self) -> (size: usize)
        ensures
            size == self@.pipe.size,
    {
        self.pipe.size()
    }

    /// Returns bytes that have been read from `R`.
    #[inline]
    pub fn has_read(&self) -> (n: usize)
        ensures
            n == self@.read,
    {
        self.has_read
    }

    /// Returns bytes that have been written to `W`.
    #[inline]
    pub fn has_written(&self) -> (n: usize)
        ensures
            n == self@.written,
    {
        self.has_written
    }

    /// Returns the traffic of the transfer, as one from the client.
    pub fn traffic_client_tx(&self, error: Option<Error>) -> (r: TrafficResult)
        ensures
            r.tx == self@.written,
            r.rx == 0,
            r.error == error,
    {
        TrafficResult { tx: self.has_written, rx: 0, error }
    }

    /// Returns the traffic of the transfer, as one to the client.
    pub fn traffic_client_rx(&self, error: Option<Error>) -> (r: TrafficResult)
        ensures
            r.tx == 0,
            r.rx == self@.written,
            r.error == error,
    {
        TrafficResult { tx: 0, rx: self.has_written, error }
    }

    /// Makes the context a transfer.
    pub fn into_io(self) -> (io: SpliceIo<R, W, RATE_LIMITER_DISABLED>)
        requires
            self@.wf(),
        ensures
            io@.wf(),
            io@ == IoState::start(self@),
    {
        SpliceIo::new(self)
    }

    /// Returns whether draining and pumping are over.
    #[inline]
    pub fn finished(&self) -> (r: bool)
        ensures
            r == self@.finished(),
    {
        self.pipe.splice_drain_finished() && self.pipe.splice_pump_finished()
    }

    /// Returns whether draining and pumping are over and `W` is flushed.
    #[inline]
    pub fn full_done(&self) -> (r: bool)
        ensures
            r == self@.full_done(),
    {
        self.finished() && !self.need_flush
    }

    /// Returns whether the bytes that `ev` reports to have been moved can be
    /// counted.
    pub fn is_countable(&self, ev: &Event) -> (r: bool)
        requires
            self@.wf(),
        ensures
            r == self@.countable(*ev),
    {
        if let Event::Spliced { ret: Ok(n), .. } = ev {
            match self.awaiting {
                Some(Action::SpliceIn(_)) => *n <= usize::MAX - self.has_read,
                Some(Action::SpliceOut(_)) => *n <= usize::MAX - self.has_written,
                _ => true,
            }
        } else {
            true
        }
    }

    /// Begins to splice data from `R` to the pipe: returns the call to make.
    pub fn splice_drain(&mut self, ideal_len: Option<usize>, nonblock: bool) -> (call: Option<
        SpliceCall,
    >)
        requires
            old(self)@.wf(),
            ideal_len != Some(0usize),
        ensures
            final(self)@.wf(),
            (final(self)@, call) == old(self)@.drain_call(ideal_len, nonblock),
    {
        if self.has_read >= self.size_to_splice {
            // Everything has been read.
            self.pipe.set_splice_drain_finished();
            return None;
        }
        if self.pipe.write_side_fd().is_none() {
            return None;
        }
        let size_rest_to_splice: usize = self.size_to_splice - self.has_read;
        let mut len: usize = size_rest_to_splice;
        if let Some(ideal_len) = ideal_len {
            if ideal_len < len {
                len = ideal_len;
            }
        }
        if MAXIMUM_PIPE_SIZE < len {
            len = MAXIMUM_PIPE_SIZE;
        }
        let offset: Option<u64> = match self.offset {
            Offset::In(off) => off,
            _ => None,
        };
        Some(SpliceCall { offset, len, nonblock })
    }

    /// Ends splicing data from `R` to the pipe with what the call returned.
    ///
    /// ## Errors
    ///
    /// - Error that `splice(2)` syscall returned.
    pub fn splice_drain_done(&mut self, ret: Result<usize, Error>, offset: Option<u64>) -> (r:
        Result<Drained, Error>)
        requires
            old(self)@.wf(),
            ret matches Ok(n) ==> old(self)@.read + n <= usize::MAX,
        ensures
            final(self)@.wf(),
            (final(self)@, r) == old(self)@.drain_done(ret, offset),
    {
        if let Some(offset) = offset {
            if let Some(off_in) = self.offset.off_in() {
                *off_in = offset;
            }
        }
        match ret {
            Ok(has_read) => {
                if has_read == 0 {
                    // No more data to read.
                    self.pipe.set_splice_drain_finished();
                    Ok(Drained::Done)
                } else {
                    self.has_read = self.has_read + has_read;
                    Ok(Drained::Bytes(has_read))
                }
            },
            Err(e) => {
                if !e.would_block() {
                    self.pipe.set_splice_drain_finished();
                }
                Err(e)
            },
        }
    }

    /// Begins to splice data from the pipe to `W`: returns the call to make.
    pub fn splice_pump(&mut self, nonblock: bool) -> (call: Option<SpliceCall>)
        requires
            old(self)@.wf(),
        ensures
            final(self)@.wf(),
            (final(self)@, call) == old(self)@.pump_call(nonblock),
    {
        if self.pipe.read_side_fd().is_none() {
            return None;
        }
        if self.has_read <= self.has_written {
            if self.pipe.write_side_fd().is_none() {
                // No more data will come.
                self.pipe.set_splice_pump_finished();
            }
            return None;
        }
        let offset: Option<u64> = match self.offset {
            Offset::Out(off) => off,
            _ => None,
        };
        Some(SpliceCall { offset, len: self.has_read - self.has_written, nonblock })
    }

    /// Ends splicing data from the pipe to `W` with what the call returned.
    /// Returns whether there is still data in the pipe.
    ///
    /// ## Errors
    ///
    /// - Error that `splice(2)` syscall returned.
    pub fn splice_pump_done(&mut self, ret: Result<usize, Error>, offset: Option<u64>) -> (r:
        Result<bool, Error>)
        requires
            old(self)@.wf(),
            ret matches Ok(n) ==> old(self)@.written + n <= usize::MAX,
        ensures
            final(self)@.wf(),
            (final(self)@, r) == old(self)@.pump_done(ret, offset),
    {
        if let Some(offset) = offset {
            if let Some(off_out) = self.offset.off_out() {
                *off_out = offset;
            }
        }
        match ret {
            Ok(has_written) => {
                if has_written == 0 {
                    Err(Error::WriteZero)
                } else {
                    self.need_flush = true;
                    self.has_written = self.has_written + has_written;
                    if self.has_written > self.has_read {
                        // The transfer might never stop.
                        Err(Error::WrittenMoreThanRead)
                    } else {
                        Ok(self.has_written < self.has_read)
                    }
                }
            },
            Err(e) => {
                if !e.would_block() {
                    self.pipe.set_splice_pump_finished();
                }
                Err(e)
            },
        }
    }

    /// Returns the action that is asked for.
    pub(crate) fn awaiting(&self) -> (action: Option<Action>)
        ensures
            action == self@.awaiting,
    {
        self.awaiting
    }

    /// Returns whether `W` has to be flushed.
    pub(crate) fn need_flush(&self) -> (r: bool)
        ensures
            r == self@.need_flush,
    {
        self.need_flush
    }

    /// Takes note that `W` has been flushed.
    pub(crate) fn set_flushed(&mut self)
        ensures
            final(self)@ == (CtxState { need_flush: false, ..old(self)@ }),
    {
        self.need_flush = false;
    }

    /// Asks for an action.
    pub(crate) fn ask<T>(&mut self, action: Action) -> (step: Step<T>)
        ensures
            final(self)@ == old(self)@.asking(action),
            step == Step::<T>::Do(action),
    {
        self.awaiting = Some(action);
        Step::Do(action)
    }

    /// Asks for nothing.
    pub(crate) fn settle(&mut self)
        ensures
            final(self)@ == old(self)@.idle(),
    {
        self.awaiting = None;
    }

    /// Moves data from `R`, a socket or a file, to the pipe.
    ///
    /// When it begins, the pipe is empty: it is either in its initial state, or
    /// [`poll_splice_pump`](Self::poll_splice_pump) has emptied it previously.
    /// Given this, the pipe is ready for writing, so if `splice(2)` would block
    /// it must be because `R` is not ready for reading.
    pub fn poll_splice_drain(&mut self, ev: Event, ideal_len: Option<usize>) -> (step: Step<
        Drained,
    >)
        requires
            old(self)@.wf(),
            old(self)@.countable(ev),
            ideal_len != Some(0usize),
        ensures
            final(self)@.wf(),
            (final(self)@, step) == old(self)@.poll_drain(ev, ideal_len),
    {
        match self.awaiting {
            Some(Action::WaitReadable) => match ev {
                Event::Ready => self.ask(Action::TryRead),
                Event::Pending => {
                    self.settle();
                    Step::Pending
                },
                Event::Failed(e) => {
                    self.settle();
                    Step::Ready(Err(e))
                },
                _ => Step::Do(Action::WaitReadable),
            },
            Some(Action::TryRead) => match ev {
                Event::Entered => match self.splice_drain(ideal_len, true) {
                    None => {
                        self.settle();
                        Step::Ready(Ok(Drained::Done))
                    },
                    Some(call) => self.ask(Action::SpliceIn(call)),
                },
                Event::Failed(e) => {
                    if e.would_block() {
                        self.ask(Action::WaitReadable)
                    } else {
                        self.settle();
                        Step::Ready(Err(e))
                    }
                },
                _ => Step::Do(Action::TryRead),
            },
            Some(Action::SpliceIn(call)) => match ev {
                Event::Spliced { ret, offset } => match self.splice_drain_done(ret, offset) {
                    Ok(drained) => {
                        self.settle();
                        Step::Ready(Ok(drained))
                    },
                    Err(e) => {
                        if e.would_block() {
                            self.ask(Action::WaitReadable)
                        } else {
                            self.settle();
                            Step::Ready(Err(e))
                        }
                    },
                },
                _ => Step::Do(Action::SpliceIn(call)),
            },
            _ => {
                if self.pipe.splice_drain_finished() || self.has_read != self.has_written {
                    self.settle();
                    Step::Ready(Ok(Drained::Done))
                } else {
                    self.ask(Action::WaitReadable)
                }
            },
        }
    }

    /// Moves data from the pipe to `W` until the pipe is empty.
    pub fn poll_splice_pump(&mut self, ev: Event) -> (step: Step<()>)
        requires
            old(self)@.wf(),
            old(self)@.countable(ev),
        ensures
            final(self)@.wf(),
            (final(self)@, step) == old(self)@.poll_pump(ev),
    {
        match self.awaiting {
            Some(Action::WaitWritable) => match ev {
                Event::Ready => self.ask(Action::TryWrite),
                Event::Pending => {
                    self.settle();
                    Step::Pending
                },
                Event::Failed(e) => {
                    self.settle();
                    Step::Ready(Err(e))
                },
                _ => Step::Do(Action::WaitWritable),
            },
            Some(Action::TryWrite) => match ev {
                Event::Entered => match self.splice_pump(true) {
                    None => {
                        self.settle();
                        Step::Ready(Ok(()))
                    },
                    Some(call) => self.ask(Action::SpliceOut(call)),
                },
                Event::Failed(e) => {
                    if e.would_block() {
                        self.ask(Action::WaitWritable)
                    } else {
                        self.settle();
                        Step::Ready(Err(e))
                    }
                },
                _ => Step::Do(Action::TryWrite),
            },
            Some(Action::SpliceOut(call)) => match ev {
                Event::Spliced { ret, offset } => match self.splice_pump_done(ret, offset) {
                    Ok(more) => {
                        if more {
                            self.ask(Action::WaitWritable)
                        } else {
                            self.settle();
                            Step::Ready(Ok(()))
                        }
                    },
                    Err(e) => {
                        if e.would_block() {
                            self.ask(Action::WaitWritable)
                        } else {
                            self.settle();
                            Step::Ready(Err(e))
                        }
                    },
                },
                _ => Step::Do(Action::SpliceOut(call)),
            },
            _ => self.ask(Action::WaitWritable),
        }
    }

    /// Flushes `W`, if that is needed.
    pub fn poll_flush(&mut self, ev: Event) -> (step: Step<()>)
        requires
            old(self)@.wf(),
        ensures
            final(self)@.wf(),
            (final(self)@, step) == old(self)@.poll_flush(ev),
    {
        match self.awaiting {
            Some(Action::Flush) => match ev {
                Event::Ready => {
                    self.settle();
                    self.need_flush = false;
                    Step::Ready(Ok(()))
                },
                Event::Pending => {
                    self.settle();
                    Step::Pending
                },
                Event::Failed(e) => {
                    self.settle();
                    Step::Ready(Err(e))
                },
                _ => Step::Do(Action::Flush),
            },
            _ => {
                if self.need_flush {
                    self.ask(Action::Flush)
                } else {
                    self.settle();
                    Step::Ready(Ok(()))
                }
            },
        }
    }
}

} // verus!
