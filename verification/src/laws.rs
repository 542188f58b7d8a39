//! What holds of every transfer, whatever happens to it.
//!
//! The kernel is taken at its word, see [`CtxState::faithful`], except in
//! [`distrust`].
use crate::context::{range_accepted, CtxState, PlanState};
use crate::error::Error;
use crate::pipe::{PipeState, MAXIMUM_PIPE_SIZE};
use crate::step::{Action, Event, SpliceCall};
use crate::utils::Offset;
use vstd::prelude::*;

pub mod bidi;
pub mod both;
pub mod bytes;
pub mod calls;
pub mod copy;
pub mod course;
pub mod distrust;
pub mod plans;
pub mod polls;
pub mod progress;
pub mod rounds;
pub mod transfer;

verus! {

impl SpliceCall {
    /// Whether the call may have returned `ret` and left the offset at
    /// `offset`: `splice(2)` moves no more bytes than it is asked to, and
    /// advances the offset by as many as it has moved.
    pub open spec fn may_return(self, ret: Result<usize, Error>, offset: Option<u64>) -> bool {
        match ret {
            Ok(n) => {
                &&& n <= self.len
                &&& self.offset matches Some(off) ==> off + n <= u64::MAX && offset == Some(
                    (off + n) as u64,
                )
            },
            Err(_) => offset == self.offset,
        }
    }
}

impl CtxState {
    /// Whether `ev`, if it tells of the return of a call of `splice(2)` that was
    /// asked for, tells of one that the call allows.
    pub open spec fn faithful(self, ev: Event) -> bool {
        match (self.awaiting, ev) {
            (Some(Action::SpliceIn(call)), Event::Spliced { ret, offset }) => call.may_return(
                ret,
                offset,
            ),
            (Some(Action::SpliceOut(call)), Event::Spliced { ret, offset }) => call.may_return(
                ret,
                offset,
            ),
            _ => true,
        }
    }

    /// Whether `ev` tells that the reader has no more data.
    pub open spec fn at_eof(self, ev: Event) -> bool {
        &&& self.awaiting matches Some(Action::SpliceIn(_))
        &&& ev matches Event::Spliced { ret: Ok(n), .. }
        &&& n == 0
    }

    /// Whether `self` is the start of a transfer: nothing has been moved, both
    /// sides of the pipe are open, and the range of the file, if there is one,
    /// can be addressed.
    pub open spec fn is_start(self) -> bool {
        &&& self.wf()
        &&& self.read == 0
        &&& self.written == 0
        &&& !self.need_flush
        &&& !self.pipe.drain_finished()
        &&& !self.pipe.pump_finished()
        &&& self.awaiting is None
        &&& self.offset.spec_off_in() matches Some(off) ==> off + self.target <= u64::MAX
        &&& self.offset.spec_off_out() matches Some(off) ==> off + self.target <= u64::MAX
    }

    /// Whether the counts of a transfer that started as `start` add up: no more
    /// has been written than read, no more read than was to be read, no more is
    /// in the pipe than one call may move, and the offset is as far from where
    /// it was as bytes have been moved.
    pub open spec fn adds_up(self, start: CtxState) -> bool {
        &&& self.wf()
        &&& self.target == start.target
        &&& self.written <= self.read <= self.target
        &&& self.read - self.written <= MAXIMUM_PIPE_SIZE
        &&& self.pipe.size == start.pipe.size
        &&& self.offset == start.offset.advanced(self.read, self.written)
    }

    /// Whether the action that is asked for is one that the counts allow: a
    /// call reads no more than is left to be read, when the pipe is empty, and
    /// writes just what is in the pipe; and each starts at the current offset.
    pub open spec fn asks_rightly(self) -> bool {
        match self.awaiting {
            Some(Action::WaitReadable) | Some(Action::TryRead) => {
                &&& !self.pipe.drain_finished()
                &&& self.read == self.written
            },
            Some(Action::SpliceIn(call)) => {
                &&& !self.pipe.drain_finished()
                &&& self.read == self.written
                &&& 1 <= call.len <= self.target - self.read
                &&& call.len <= MAXIMUM_PIPE_SIZE
                &&& call.offset == self.offset.spec_off_in()
            },
            Some(Action::SpliceOut(call)) => {
                &&& !self.pipe.pump_finished()
                &&& 1 <= call.len == self.read - self.written
                &&& call.offset == self.offset.spec_off_out()
            },
            _ => true,
        }
    }
}

impl Offset {
    /// The offset after that many bytes have been read and written.
    pub open spec fn advanced(self, read: nat, written: nat) -> Offset {
        match self {
            Offset::In(Some(off)) => Offset::In(Some((off + read) as u64)),
            Offset::Out(Some(off)) => Offset::Out(Some((off + written) as u64)),
            _ => self,
        }
    }
}

/// Whatever is prepared, be it a transfer between streams, from a range of a file
/// or to one, starts rightly when it is given a new pipe.
pub proof fn prepared_transfer_is_a_start(
    pipe: PipeState,
    f_len: u64,
    f_offset_start: Option<u64>,
    f_offset_end: Option<u64>,
)
    requires
        pipe.fresh(),
    ensures
        PlanState::unbounded().start(pipe).is_start(),
        range_accepted(f_len, f_offset_start, f_offset_end) ==> {
            &&& PlanState::reading(f_len, f_offset_start, f_offset_end).start(pipe).is_start()
            &&& PlanState::writing(f_len, f_offset_start, f_offset_end).start(pipe).is_start()
        },
{
}

} // verus!
