//! What is to be transferred.
use crate::context::{range_accepted, range_len, CtxState, PlanState};
use crate::io::{IoState, TransferState};
use crate::laws::transfer::transfer_delivers_what_it_reads;
use crate::laws::{copy, prepared_transfer_is_a_start};
use crate::pipe::PipeState;
use crate::step::Event;
use crate::utils::Offset;
use vstd::prelude::*;

verus! {

/// A transfer between streams has no file offset and no bound but the largest number
/// of bytes that there can be.
pub proof fn streams_are_unbounded()
    ensures
        PlanState::unbounded().target == isize::MAX,
        PlanState::unbounded().offset == Offset::Unset,
{
}

/// A transfer between streams is finished only when the reader has turned out to have
/// no more data, or when as many bytes have been written as there can be.
pub proof fn stream_transfer_goes_on_to_the_end(
    pipe: PipeState,
    limited: bool,
    evs: Seq<Event>,
)
    requires
        pipe.fresh(),
        IoState::begin(PlanState::unbounded().start(pipe), limited).can_run(evs),
    ensures
        ({
            let begin = IoState::begin(PlanState::unbounded().start(pipe), limited);
            let s = begin.run(evs);
            s.state is Finished ==> begin.meets_eof(evs) || s.ctx.written == isize::MAX
        }),
{
    prepared_transfer_is_a_start(pipe, 0, None, None);
    transfer_delivers_what_it_reads(PlanState::unbounded().start(pipe), limited, evs);
}

/// A copy between streams, blocking or not, is done only when the reader has turned out
/// to have no more data, or when as many bytes have been written as there can be.
pub proof fn stream_copy_goes_on_to_the_end(pipe: PipeState, blocking: bool, evs: Seq<Event>)
    requires
        pipe.fresh(),
        PlanState::unbounded().start(pipe).can_copy(blocking, evs),
    ensures
        ({
            let start = PlanState::unbounded().start(pipe);
            let s = start.copy_run(blocking, evs);
            s.full_done() ==> start.copy_meets_eof(blocking, evs) || s.written == isize::MAX
        }),
{
    prepared_transfer_is_a_start(pipe, 0, None, None);
    copy::copy_delivers_what_it_reads(PlanState::unbounded().start(pipe), blocking, evs);
}

/// A transfer from or to a file starts at the given offset, or at the beginning of the
/// file, and goes on to the other one, or to the end of the file, however long the file
/// is. It is refused just if the offsets are not those of a range of the file, or if the
/// bytes cannot be counted.
pub proof fn files_are_bounded_by_their_offsets(
    f_len: u64,
    start: Option<u64>,
    end: Option<u64>,
)
    ensures
        ({
            let from: int = if start is Some {
                start->Some_0 as int
            } else {
                0
            };
            let to: int = if end is Some {
                end->Some_0 as int
            } else {
                f_len as int
            };
            &&& range_accepted(f_len, start, end) <==> from <= to && to <= f_len && to - from
                <= usize::MAX
            &&& from <= to ==> {
                &&& range_len(f_len, start, end) == to - from
                &&& PlanState::reading(f_len, start, end).target == to - from
                &&& PlanState::writing(f_len, start, end).target == to - from
            }
            &&& PlanState::reading(f_len, start, end).offset == Offset::In(Some(from as u64))
            &&& PlanState::writing(f_len, start, end).offset == Offset::Out(Some(from as u64))
        }),
{
}

/// A transfer starts with its plan, through the given pipe, with nothing moved and
/// nothing asked for; it stands at draining, and has no rate limit of its own.
pub proof fn transfers_start_at_the_beginning(plan: PlanState, pipe: PipeState, limited: bool)
    ensures
        plan.start(pipe) == (CtxState {
            offset: plan.offset,
            target: plan.target,
            read: 0,
            written: 0,
            need_flush: false,
            pipe,
            awaiting: None,
        }),
        ({
            let s = IoState::start(plan.start(pipe));
            &&& s.ctx == plan.start(pipe)
            &&& !s.limited
            &&& !s.limiter.has_tokens
            &&& s.limiter.last_updated is None
            &&& s.state == TransferState::Draining { ideal_len: None }
            &&& IoState::begin(plan.start(pipe), limited) == IoState { limited, ..s }
        }),
{
}

} // verus!
