//! How a copy goes on from each point of it.
use crate::context::CtxState;
use crate::laws::polls::{asks, rests};
use crate::step::{Action, Event, SpliceCall, Step};
use vstd::prelude::*;

verus! {

/// How a copy begins a round: when nothing more will be read or written and nothing has
/// to be flushed, it is over and all went well. If something has to be flushed, that
/// comes first, then reading into an empty pipe, and then writing.
pub open spec fn round_begins(s: CtxState) -> (CtxState, Step<()>) {
    let over = s.pipe.write_side !is Running && s.pipe.read_side !is Running;
    if s.need_flush {
        (asks(s, Action::Flush), Step::Do(Action::Flush))
    } else if over {
        (rests(s), Step::Ready(Ok(())))
    } else {
        reading_begins(s)
    }
}

/// How the reading part of a round begins.
pub open spec fn reading_begins(s: CtxState) -> (CtxState, Step<()>) {
    if s.pipe.write_side is Running && s.read == s.written {
        (asks(s, Action::WaitReadable), Step::Do(Action::WaitReadable))
    } else {
        (asks(s, Action::WaitWritable), Step::Do(Action::WaitWritable))
    }
}

/// A copy that is polled, and asks for nothing yet, begins a round.
pub proof fn copy_begins_a_round(s: CtxState, ev: Event)
    requires
        s.awaiting is None,
    ensures
        s.poll_copy(ev) == round_begins(s),
{
}

/// A copy that has flushed the writer begins to read; until then it waits, and an error
/// ends it.
pub proof fn copy_flushes(s: CtxState, ev: Event)
    requires
        s.awaiting == Some(Action::Flush),
    ensures
        s.poll_copy(ev) == match ev {
            Event::Ready => reading_begins(CtxState { need_flush: false, ..s }),
            Event::Pending => (rests(s), Step::<()>::Pending),
            Event::Failed(e) => (rests(s), Step::<()>::Ready(Err(e))),
            _ => (s, Step::<()>::Do(Action::Flush)),
        },
{
}

/// Reading goes as it goes with the context alone, as much at once as can be read; when it
/// is over, writing follows, and an error ends the copy.
pub proof fn copy_reads(s: CtxState, ev: Event)
    requires
        match s.awaiting {
            Some(Action::WaitReadable) | Some(Action::TryRead) | Some(Action::SpliceIn(_)) => true,
            _ => false,
        },
    ensures
        ({
            let (t, step) = s.poll_drain(ev, None);
            s.poll_copy(ev) == match step {
                Step::Do(action) => (t, Step::<()>::Do(action)),
                Step::Pending => (t, Step::<()>::Pending),
                Step::Ready(Err(e)) => (t, Step::<()>::Ready(Err(e))),
                Step::Ready(Ok(_)) => (
                    asks(t, Action::WaitWritable),
                    Step::<()>::Do(Action::WaitWritable),
                ),
            }
        }),
{
}

/// Writing goes as it goes with the context alone; when the pipe is empty, the next round
/// begins, and an error ends the copy.
pub proof fn copy_writes(s: CtxState, ev: Event)
    requires
        match s.awaiting {
            Some(Action::WaitWritable) | Some(Action::TryWrite) | Some(Action::SpliceOut(_)) => true,
            _ => false,
        },
    ensures
        ({
            let (t, step) = s.poll_pump(ev);
            s.poll_copy(ev) == match step {
                Step::Do(action) => (t, Step::<()>::Do(action)),
                Step::Pending => (t, Step::<()>::Pending),
                Step::Ready(Err(e)) => (t, Step::<()>::Ready(Err(e))),
                Step::Ready(Ok(_)) => round_begins(t),
            }
        }),
{
}

/// How a blocking copy goes on to read: with a call for what is left; if there is none,
/// with a call for what is in the pipe; and if there is none either, by flushing what has
/// to be flushed, after which all is done.
pub open spec fn blocking_reading_begins(s: CtxState) -> (CtxState, Step<()>) {
    let (t, reads) = s.drain_call(None, false);
    let (u, writes) = t.pump_call(false);
    if reads is Some {
        let action = Action::SpliceIn(reads->Some_0);
        (asks(t, action), Step::Do(action))
    } else if writes is Some {
        let action = Action::SpliceOut(writes->Some_0);
        (asks(u, action), Step::Do(action))
    } else if u.need_flush {
        (asks(u, Action::Flush), Step::Do(Action::Flush))
    } else {
        (rests(u), Step::Ready(Ok(())))
    }
}

/// How a blocking copy begins a round: see [`round_begins`].
pub open spec fn blocking_round_begins(s: CtxState) -> (CtxState, Step<()>) {
    let over = s.pipe.write_side !is Running && s.pipe.read_side !is Running;
    if s.need_flush {
        (asks(s, Action::Flush), Step::Do(Action::Flush))
    } else if over {
        (rests(s), Step::Ready(Ok(())))
    } else {
        blocking_reading_begins(s)
    }
}

/// How a blocking copy goes on to write: with a call for what is in the pipe, and if it is
/// empty with the next round.
pub open spec fn blocking_writing_begins(s: CtxState) -> (CtxState, Step<()>) {
    let (t, writes) = s.pump_call(false);
    if writes is Some {
        let action = Action::SpliceOut(writes->Some_0);
        (asks(t, action), Step::Do(action))
    } else {
        blocking_round_begins(t)
    }
}

/// A blocking copy that asks for nothing yet begins a round; when it has flushed the
/// writer, it goes on to read, and an error ends it.
pub proof fn blocking_copy_begins_a_round(s: CtxState, ev: Event)
    ensures
        s.awaiting is None ==> s.blocking_copy(ev) == blocking_round_begins(s),
        s.awaiting == Some(Action::Flush) ==> s.blocking_copy(ev) == match ev {
            Event::Ready => blocking_reading_begins(CtxState { need_flush: false, ..s }),
            Event::Failed(e) => (rests(s), Step::<()>::Ready(Err(e))),
            _ => (s, Step::<()>::Do(Action::Flush)),
        },
{
}

/// What a blocking copy has read it goes on to write. A call that would block is made
/// again, and an error ends the copy.
pub proof fn blocking_copy_reads(s: CtxState, call: SpliceCall, ev: Event)
    requires
        s.awaiting == Some(Action::SpliceIn(call)),
    ensures
        s.blocking_copy(ev) == match ev {
            Event::Spliced { ret, offset } => {
                let (t, r) = s.drain_done(ret, offset);
                match ret {
                    Ok(_) => blocking_writing_begins(t),
                    Err(e) => if e.is_would_block() {
                        blocking_reading_begins(t)
                    } else {
                        (rests(t), Step::<()>::Ready(Err(e)))
                    },
                }
            },
            _ => (s, Step::<()>::Do(Action::SpliceIn(call))),
        },
{
}

/// When a blocking copy has emptied the pipe, the next round begins; until then it goes on
/// to write. A call that would block is made again, and an error ends the copy.
pub proof fn blocking_copy_writes(s: CtxState, call: SpliceCall, ev: Event)
    requires
        s.awaiting == Some(Action::SpliceOut(call)),
    ensures
        s.blocking_copy(ev) == match ev {
            Event::Spliced { ret, offset } => {
                let (t, r) = s.pump_done(ret, offset);
                let blocked = ret is Err && ret->Err_0.is_would_block();
                if r is Err && !blocked {
                    (rests(t), Step::<()>::Ready(Err(r->Err_0)))
                } else if t.written == t.read && !blocked {
                    blocking_round_begins(t)
                } else {
                    blocking_writing_begins(t)
                }
            },
            _ => (s, Step::<()>::Do(Action::SpliceOut(call))),
        },
{
}

} // verus!
