//! What a single call of `splice(2)` is for, and what it brings about.
use crate::context::CtxState;
use crate::error::Error;
use crate::pipe::{Fd, PipeState};
use crate::step::{Action, Event, SpliceCall};
use crate::utils::{Drained, Offset};
use vstd::prelude::*;

verus! {

/// The side of a pipe once it is out of use.
pub open spec fn out_of_use(fd: Fd) -> Fd {
    if fd is Running {
        Fd::Reserved(fd->Running_0)
    } else {
        fd
    }
}

/// A context whose pipe will not be written to any more.
pub open spec fn drained_up(s: CtxState) -> CtxState {
    CtxState { pipe: PipeState { write_side: out_of_use(s.pipe.write_side), ..s.pipe }, ..s }
}

/// A context whose pipe will not be read from any more.
pub open spec fn pumped_out(s: CtxState) -> CtxState {
    CtxState { pipe: PipeState { read_side: out_of_use(s.pipe.read_side), ..s.pipe }, ..s }
}

/// The notions that the calls are described with: to ask for an action or for nothing
/// changes only what is asked for, and all is done when both sides of the pipe are out
/// of use and there is nothing to be flushed.
pub proof fn context_notions(s: CtxState, action: Action)
    ensures
        s.idle() == (CtxState { awaiting: None, ..s }),
        s.asking(action) == (CtxState { awaiting: Some(action), ..s }),
        s.finish_drain() == drained_up(s),
        s.finish_pump() == pumped_out(s),
        s.finished() <==> s.pipe.write_side !is Running && s.pipe.read_side !is Running,
        s.full_done() <==> s.pipe.write_side !is Running && s.pipe.read_side !is Running
            && !s.need_flush,
        s.wf() <==> s.target <= usize::MAX && s.read <= usize::MAX && s.written <= usize::MAX
            && 1 <= s.pipe.size <= usize::MAX,
{
}

/// Bytes that have been moved can be counted if the count stays one that there can be;
/// nothing else has to be counted.
pub proof fn moved_bytes_are_counted(s: CtxState, ev: Event)
    ensures
        s.countable(ev) <==> match ev {
            Event::Spliced { ret: Ok(n), .. } => {
                &&& s.awaiting matches Some(Action::SpliceIn(_)) ==> s.read + n <= usize::MAX
                &&& s.awaiting matches Some(Action::SpliceOut(_)) ==> s.written + n <= usize::MAX
            },
            _ => true,
        },
{
}

/// A call that reads is made as long as something is left to be read and the pipe can be
/// written to. It is for as much as is left, but for no more than a portion and than a
/// MiB, from the offset into the reader; and making it changes nothing. When all has been
/// read, the write side of the pipe is out of use.
pub proof fn reading_asks_for_what_is_left(
    s: CtxState,
    portion: Option<usize>,
    nonblock: bool,
)
    requires
        s.wf(),
        portion != Some(0usize),
    ensures
        ({
            let (t, call) = s.drain_call(portion, nonblock);
            let left = s.target - s.read;
            &&& call is Some <==> left > 0 && s.pipe.write_side is Running
            &&& call matches Some(c) ==> {
                &&& t == s
                &&& c.nonblock == nonblock
                &&& c.offset == (if s.offset is In {
                    s.offset->In_0
                } else {
                    None
                })
                &&& 1 <= c.len <= left
                &&& c.len <= 1048576
                &&& portion is Some ==> c.len <= portion->Some_0
                &&& c.len == left || c.len == 1048576 || Some(c.len) == portion
            }
            &&& call is None ==> t == if left > 0 {
                s
            } else {
                drained_up(s)
            }
        }),
{
}

/// Bytes that have been read are counted and reported, all of them; that there are none
/// means that there will be none. A call that failed is reported as it failed, and is the
/// last one unless it would only have had to wait. The offset is where the call left it,
/// and nothing else changes.
pub proof fn reading_counts_what_was_read(
    s: CtxState,
    ret: Result<usize, Error>,
    offset: Option<u64>,
)
    ensures
        ({
            let (t, r) = s.drain_done(ret, offset);
            let moved = CtxState {
                offset: if s.offset is In && s.offset->In_0 is Some && offset is Some {
                    Offset::In(offset)
                } else {
                    s.offset
                },
                ..s
            };
            match ret {
                Ok(n) => {
                    &&& n > 0 ==> t == CtxState { read: s.read + n as nat, ..moved }
                    &&& n > 0 ==> r == Result::<Drained, Error>::Ok(Drained::Bytes(n))
                    &&& n == 0 ==> t == drained_up(moved)
                    &&& n == 0 ==> r == Result::<Drained, Error>::Ok(Drained::Done)
                },
                Err(e) => {
                    &&& r == Result::<Drained, Error>::Err(e)
                    &&& t == if e.is_would_block() {
                        moved
                    } else {
                        drained_up(moved)
                    }
                },
            }
        }),
{
}

/// A call that writes is made as long as there is something in the pipe and the pipe can
/// be read from. It is for all that is in the pipe, to the offset into the writer; and
/// making it changes nothing. When the pipe is empty and will stay so, its read side is
/// out of use.
pub proof fn writing_asks_for_what_is_in_the_pipe(s: CtxState, nonblock: bool)
    requires
        s.wf(),
    ensures
        ({
            let (t, call) = s.pump_call(nonblock);
            &&& call is Some <==> s.pipe.read_side is Running && s.written < s.read
            &&& call matches Some(c) ==> {
                &&& t == s
                &&& c.nonblock == nonblock
                &&& c.len + s.written == s.read
                &&& c.offset == (if s.offset is Out {
                    s.offset->Out_0
                } else {
                    None
                })
            }
            &&& call is None ==> t == if s.pipe.write_side is Running {
                s
            } else {
                pumped_out(s)
            }
        }),
{
}

/// Bytes that have been written are counted, all of them, and have to be flushed; the
/// answer is whether some are left in the pipe. That none was written is an error, and so
/// is that more were written than there were. A call that failed is reported as it
/// failed, and is the last one unless it would only have had to wait. The offset is where
/// the call left it, and nothing else changes.
pub proof fn writing_counts_what_was_written(
    s: CtxState,
    ret: Result<usize, Error>,
    offset: Option<u64>,
)
    ensures
        ({
            let (t, r) = s.pump_done(ret, offset);
            let moved = CtxState {
                offset: if s.offset is Out && s.offset->Out_0 is Some && offset is Some {
                    Offset::Out(offset)
                } else {
                    s.offset
                },
                ..s
            };
            match ret {
                Ok(n) => {
                    &&& n > 0 ==> t == CtxState {
                        written: s.written + n as nat,
                        need_flush: true,
                        ..moved
                    }
                    &&& n == 0 ==> t == moved
                    &&& n == 0 ==> r == Result::<bool, Error>::Err(Error::WriteZero)
                    &&& n > 0 && s.written + n > s.read ==> r == Result::<bool, Error>::Err(
                        Error::WrittenMoreThanRead,
                    )
                    &&& n > 0 && s.written + n == s.read ==> r == Result::<bool, Error>::Ok(false)
                    &&& n > 0 && s.written + n < s.read ==> r == Result::<bool, Error>::Ok(true)
                },
                Err(e) => {
                    &&& r == Result::<bool, Error>::Err(e)
                    &&& t == if e.is_would_block() {
                        moved
                    } else {
                        pumped_out(moved)
                    }
                },
            }
        }),
{
}

/// Of two calls that read, one after the other, the second one is for just what the first
/// one has left of the bytes that are to be read, as far as it may be for them at all.
pub proof fn reading_again_goes_on(s: CtxState, n: usize, offset: Option<u64>, nonblock: bool)
    requires
        s.wf(),
        s.drain_call(None, nonblock).1 is Some,
        0 < n <= s.drain_call(None, nonblock).1->Some_0.len,
    ensures
        ({
            let t = s.drain_done(Ok(n), offset).0;
            let left = s.target - s.read - n;
            match t.drain_call(None, nonblock).1 {
                Some(call) => left > 0 && call.len == if left <= 1048576 {
                    left
                } else {
                    1048576
                },
                None => left == 0,
            }
        }),
{
}

/// What one call has read, the next one that writes is for: reading into an empty pipe
/// and writing all of it leaves the pipe empty, with as many bytes written as read.
pub proof fn writing_follows_reading(
    s: CtxState,
    n: usize,
    offset: Option<u64>,
    nonblock: bool,
)
    requires
        s.wf(),
        s.read == s.written,
        s.read + n <= usize::MAX,
        n > 0,
        s.pipe.read_side is Running,
    ensures
        ({
            let t = s.drain_done(Ok(n), offset).0;
            let call: Option<SpliceCall> = t.pump_call(nonblock).1;
            let (u, more) = t.pump_done(Ok(n), offset);
            &&& call is Some && call->Some_0.len == n
            &&& more == Result::<bool, Error>::Ok(false)
            &&& u.written == u.read == s.read + n
            &&& u.need_flush
        }),
{
}

} // verus!
