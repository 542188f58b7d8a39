//! How data is moved by polling: what each answer to what is asked for leads to.
use crate::context::CtxState;
use crate::error::Error;
use crate::step::{Action, Event, SpliceCall, Step};
use crate::utils::Drained;
use vstd::prelude::*;

verus! {

/// The context when `action` is asked for.
pub open spec fn asks(s: CtxState, action: Action) -> CtxState {
    CtxState { awaiting: Some(action), ..s }
}

/// The context when nothing is asked for.
pub open spec fn rests(s: CtxState) -> CtxState {
    CtxState { awaiting: None, ..s }
}

/// Reading begins with waiting for the reader, whatever happens, just if the pipe is
/// empty and can be written to; if not, there is nothing to be done.
pub proof fn reading_begins_when_the_pipe_is_empty(
    s: CtxState,
    ev: Event,
    portion: Option<usize>,
)
    requires
        match s.awaiting {
            Some(Action::WaitReadable) | Some(Action::TryRead) | Some(Action::SpliceIn(_)) => false,
            _ => true,
        },
    ensures
        s.pipe.write_side is Running && s.read == s.written ==> s.poll_drain(ev, portion) == (
            asks(s, Action::WaitReadable),
            Step::<Drained>::Do(Action::WaitReadable),
        ),
        s.pipe.write_side !is Running || s.read != s.written ==> s.poll_drain(ev, portion) == (
            rests(s),
            Step::<Drained>::Ready(Ok(Drained::Done)),
        ),
{
}

/// A reader that is ready is tried to be read from, one that is not is waited for, one
/// that failed ends the reading; and anything else is no answer.
pub proof fn reader_is_waited_for(s: CtxState, ev: Event, portion: Option<usize>)
    requires
        s.awaiting == Some(Action::WaitReadable),
    ensures
        s.poll_drain(ev, portion) == match ev {
            Event::Ready => (asks(s, Action::TryRead), Step::<Drained>::Do(Action::TryRead)),
            Event::Pending => (rests(s), Step::<Drained>::Pending),
            Event::Failed(e) => (rests(s), Step::<Drained>::Ready(Err(e))),
            _ => (s, Step::<Drained>::Do(Action::WaitReadable)),
        },
{
}

/// An attempt to read that goes ahead makes the call for what is left, without waiting,
/// and says that there is nothing more if there is no such call. One that would block is
/// made again when the reader is ready, and one that failed ends the reading.
pub proof fn reader_is_tried(s: CtxState, ev: Event, portion: Option<usize>)
    requires
        s.awaiting == Some(Action::TryRead),
    ensures
        s.poll_drain(ev, portion) == match ev {
            Event::Entered => {
                let (t, call) = s.drain_call(portion, true);
                if call is Some {
                    let action = Action::SpliceIn(call->Some_0);
                    (asks(t, action), Step::<Drained>::Do(action))
                } else {
                    (rests(t), Step::<Drained>::Ready(Ok(Drained::Done)))
                }
            },
            Event::Failed(e) => if e.is_would_block() {
                (asks(s, Action::WaitReadable), Step::<Drained>::Do(Action::WaitReadable))
            } else {
                (rests(s), Step::<Drained>::Ready(Err(e)))
            },
            _ => (s, Step::<Drained>::Do(Action::TryRead)),
        },
{
}

/// A call that has read ends the reading with what it has read, or with its error; one
/// that would block is made again when the reader is ready.
pub proof fn reader_has_been_read(
    s: CtxState,
    call: SpliceCall,
    ev: Event,
    portion: Option<usize>,
)
    requires
        s.awaiting == Some(Action::SpliceIn(call)),
    ensures
        s.poll_drain(ev, portion) == match ev {
            Event::Spliced { ret, offset } => {
                let (t, r) = s.drain_done(ret, offset);
                if ret is Err && ret->Err_0.is_would_block() {
                    (asks(t, Action::WaitReadable), Step::<Drained>::Do(Action::WaitReadable))
                } else {
                    (rests(t), Step::<Drained>::Ready(r))
                }
            },
            _ => (s, Step::<Drained>::Do(Action::SpliceIn(call))),
        },
{
}

/// Writing begins with waiting for the writer, whatever happens.
pub proof fn writing_begins_with_the_writer(s: CtxState, ev: Event)
    requires
        match s.awaiting {
            Some(Action::WaitWritable) | Some(Action::TryWrite) | Some(Action::SpliceOut(_)) =>
                false,
            _ => true,
        },
    ensures
        s.poll_pump(ev) == (
            asks(s, Action::WaitWritable),
            Step::<()>::Do(Action::WaitWritable),
        ),
{
}

/// A writer that is ready is tried to be written to, one that is not is waited for, one
/// that failed ends the writing; and anything else is no answer.
pub proof fn writer_is_waited_for(s: CtxState, ev: Event)
    requires
        s.awaiting == Some(Action::WaitWritable),
    ensures
        s.poll_pump(ev) == match ev {
            Event::Ready => (asks(s, Action::TryWrite), Step::<()>::Do(Action::TryWrite)),
            Event::Pending => (rests(s), Step::<()>::Pending),
            Event::Failed(e) => (rests(s), Step::<()>::Ready(Err(e))),
            _ => (s, Step::<()>::Do(Action::WaitWritable)),
        },
{
}

/// An attempt to write that goes ahead makes the call for what is in the pipe, without
/// waiting, and says that the pipe is empty if there is no such call. One that would
/// block is made again when the writer is ready, and one that failed ends the writing.
pub proof fn writer_is_tried(s: CtxState, ev: Event)
    requires
        s.awaiting == Some(Action::TryWrite),
    ensures
        s.poll_pump(ev) == match ev {
            Event::Entered => {
                let (t, call) = s.pump_call(true);
                if call is Some {
                    let action = Action::SpliceOut(call->Some_0);
                    (asks(t, action), Step::<()>::Do(action))
                } else {
                    (rests(t), Step::<()>::Ready(Ok(())))
                }
            },
            Event::Failed(e) => if e.is_would_block() {
                (asks(s, Action::WaitWritable), Step::<()>::Do(Action::WaitWritable))
            } else {
                (rests(s), Step::<()>::Ready(Err(e)))
            },
            _ => (s, Step::<()>::Do(Action::TryWrite)),
        },
{
}

/// A call that has written ends the writing if the pipe is empty then; if it is not, or
/// if the call would block, the next one is made when the writer is ready. An error ends
/// the writing too.
pub proof fn writer_has_been_written_to(s: CtxState, call: SpliceCall, ev: Event)
    requires
        s.awaiting == Some(Action::SpliceOut(call)),
    ensures
        s.poll_pump(ev) == match ev {
            Event::Spliced { ret, offset } => {
                let (t, r) = s.pump_done(ret, offset);
                let again = match ret {
                    Ok(n) => n > 0 && s.written + n < s.read,
                    Err(e) => e.is_would_block(),
                };
                if again {
                    (asks(t, Action::WaitWritable), Step::<()>::Do(Action::WaitWritable))
                } else if r is Ok {
                    (rests(t), Step::<()>::Ready(Ok(())))
                } else {
                    (rests(t), Step::<()>::Ready(Err(r->Err_0)))
                }
            },
            _ => (s, Step::<()>::Do(Action::SpliceOut(call))),
        },
{
}

/// The writer is flushed just if something has been written since it was last flushed,
/// and then counts as flushed only if that succeeded.
pub proof fn writer_is_flushed_when_needed(s: CtxState, ev: Event)
    ensures
        s.awaiting != Some(Action::Flush) && s.need_flush ==> s.poll_flush(ev) == (
            asks(s, Action::Flush),
            Step::<()>::Do(Action::Flush),
        ),
        s.awaiting != Some(Action::Flush) && !s.need_flush ==> s.poll_flush(ev) == (
            rests(s),
            Step::<()>::Ready(Ok(())),
        ),
        s.awaiting == Some(Action::Flush) ==> s.poll_flush(ev) == match ev {
            Event::Ready => (
                rests(CtxState { need_flush: false, ..s }),
                Step::<()>::Ready(Ok(())),
            ),
            Event::Pending => (rests(s), Step::<()>::Pending),
            Event::Failed(e) => (rests(s), Step::<()>::Ready(Err::<(), Error>(e))),
            _ => (s, Step::<()>::Do(Action::Flush)),
        },
{
}

} // verus!
