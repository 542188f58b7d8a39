//! What holds of every copy with a [`SpliceIoCtx`](crate::context::SpliceIoCtx)
//! alone.
use crate::context::CtxState;
use crate::error::Error;
use crate::pipe::MAXIMUM_PIPE_SIZE;
use crate::splice::copies_joined;
use crate::step::{Action, Event, Poll, Step};
use vstd::prelude::*;

verus! {

/// The part of [`CtxState::copy_inv`] that does not depend on what is asked for.
pub open spec fn copy_base(s: CtxState, start: CtxState, eof: bool) -> bool {
    &&& s.adds_up(start)
    &&& s.pipe.drain_finished() ==> eof || s.read == s.target
    &&& s.pipe.pump_finished() ==> s.pipe.drain_finished() && s.read == s.written
}

/// Whether a step answers with an error.
pub open spec fn is_error(step: Step<()>) -> bool {
    step matches Step::Ready(Err(_))
}

impl CtxState {
    /// One step of copying, blocking or not.
    pub open spec fn copy_step(self, blocking: bool, ev: Event) -> (CtxState, Step<()>) {
        if blocking {
            self.blocking_copy(ev)
        } else {
            self.poll_copy(ev)
        }
    }

    /// The context of the copy after `evs` have happened to it.
    pub open spec fn copy_run(self, blocking: bool, evs: Seq<Event>) -> CtxState
        decreases evs.len(),
    {
        if evs.len() == 0 {
            self
        } else {
            self.copy_run(blocking, evs.drop_last()).copy_step(blocking, evs.last()).0
        }
    }

    /// Whether `evs` can happen to the copy, one after the other, without an
    /// error.
    pub open spec fn can_copy(self, blocking: bool, evs: Seq<Event>) -> bool
        decreases evs.len(),
    {
        evs.len() > 0 ==> {
            let s = self.copy_run(blocking, evs.drop_last());
            &&& self.can_copy(blocking, evs.drop_last())
            &&& s.countable(evs.last())
            &&& s.faithful(evs.last())
            &&& !is_error(s.copy_step(blocking, evs.last()).1)
        }
    }

    /// Whether the reader turns out to have no more data while `evs` happen to
    /// the copy.
    pub open spec fn copy_meets_eof(self, blocking: bool, evs: Seq<Event>) -> bool
        decreases evs.len(),
    {
        evs.len() > 0 && (self.copy_meets_eof(blocking, evs.drop_last()) || self.copy_run(
            blocking,
            evs.drop_last(),
        ).at_eof(evs.last()))
    }

    /// What holds of the context of a copy that started as `start`, at each
    /// point of it, where `eof` tells whether the reader has turned out to have
    /// no more data.
    pub open spec fn copy_inv(self, start: CtxState, blocking: bool, eof: bool) -> bool {
        &&& copy_base(self, start, eof)
        &&& self.asks_rightly()
        &&& match self.awaiting {
            None | Some(Action::Flush) => blocking ==> self.read == self.written,
            Some(Action::WaitReadable) | Some(Action::TryRead) => !blocking && !self.need_flush,
            Some(Action::WaitWritable) | Some(Action::TryWrite) => {
                &&& !blocking
                &&& self.need_flush || !self.pipe.drain_finished() ==> self.written < self.read
            },
            Some(Action::SpliceIn(call)) => !self.need_flush && call.nonblock == !blocking,
            Some(Action::SpliceOut(call)) => call.nonblock == !blocking,
            _ => false,
        }
    }
}

proof fn lemma_drain(s: CtxState, ev: Event, start: CtxState, eof: bool)
    requires
        start.is_start(),
        copy_base(s, start, eof),
        s.asks_rightly(),
        !s.need_flush,
        match s.awaiting {
            None | Some(Action::WaitReadable) | Some(Action::TryRead) => true,
            Some(Action::SpliceIn(call)) => call.nonblock,
            _ => false,
        },
        s.countable(ev),
        s.faithful(ev),
        !is_error(s.copy_drain(ev).1),
    ensures
        s.copy_drain(ev).0.copy_inv(start, false, eof || s.at_eof(ev)),
{
}

proof fn lemma_round(s: CtxState, start: CtxState, eof: bool)
    requires
        start.is_start(),
        copy_base(s, start, eof),
        !is_error(s.copy_round().1),
    ensures
        s.copy_round().0.copy_inv(start, false, eof),
{
    if !s.full_done() && !s.need_flush {
        lemma_drain(s.idle(), Event::Polled, start, eof);
    }
}

proof fn lemma_pump(s: CtxState, ev: Event, start: CtxState, eof: bool)
    requires
        start.is_start(),
        copy_base(s, start, eof),
        s.asks_rightly(),
        match s.awaiting {
            Some(Action::WaitWritable) | Some(Action::TryWrite) => s.need_flush
                || !s.pipe.drain_finished() ==> s.written < s.read,
            Some(Action::SpliceOut(call)) => call.nonblock,
            _ => false,
        },
        s.countable(ev),
        s.faithful(ev),
        !is_error(s.copy_pump(ev).1),
    ensures
        s.copy_pump(ev).0.copy_inv(start, false, eof),
{
    let (t, step) = s.poll_pump(ev);
    if step is Ready {
        lemma_round(t, start, eof);
    }
}

proof fn lemma_blocking_drain(s: CtxState, start: CtxState, eof: bool)
    requires
        start.is_start(),
        copy_base(s, start, eof),
        s.read == s.written,
        !s.need_flush,
    ensures
        s.blocking_drain().0.copy_inv(start, true, eof),
        !is_error(s.blocking_drain().1),
{
}

proof fn lemma_blocking_round(s: CtxState, start: CtxState, eof: bool)
    requires
        start.is_start(),
        copy_base(s, start, eof),
        s.read == s.written,
    ensures
        s.blocking_round().0.copy_inv(start, true, eof),
        !is_error(s.blocking_round().1),
{
    if !s.full_done() && !s.need_flush {
        lemma_blocking_drain(s, start, eof);
    }
}

proof fn lemma_blocking_pump(s: CtxState, start: CtxState, eof: bool)
    requires
        start.is_start(),
        copy_base(s, start, eof),
    ensures
        s.blocking_pump().0.copy_inv(start, true, eof),
        !is_error(s.blocking_pump().1),
{
    let (t, call) = s.pump_call(false);
    if call is None {
        lemma_blocking_round(t, start, eof);
    }
}

proof fn lemma_blocking_step(s: CtxState, ev: Event, start: CtxState, eof: bool)
    requires
        start.is_start(),
        s.copy_inv(start, true, eof),
        s.countable(ev),
        s.faithful(ev),
        !is_error(s.blocking_copy(ev).1),
    ensures
        s.blocking_copy(ev).0.copy_inv(start, true, eof || s.at_eof(ev)),
{
    let eof = eof || s.at_eof(ev);
    match (s.awaiting, ev) {
        (Some(Action::Flush), _) => {
            lemma_blocking_drain(CtxState { need_flush: false, ..s }, start, eof);
        },
        (Some(Action::SpliceIn(_)), Event::Spliced { ret, offset }) => {
            let (t, r) = s.drain_done(ret, offset);
            if r is Ok {
                lemma_blocking_pump(t, start, eof);
            } else if r->Err_0.is_would_block() {
                lemma_blocking_drain(t, start, eof);
            }
        },
        (Some(Action::SpliceOut(_)), Event::Spliced { ret, offset }) => {
            let (t, r) = s.pump_done(ret, offset);
            if r == Result::<bool, Error>::Ok(false) {
                lemma_blocking_round(t, start, eof);
            } else if r is Ok || r->Err_0.is_would_block() {
                lemma_blocking_pump(t, start, eof);
            }
        },
        (None, _) => {
            lemma_blocking_round(s, start, eof);
        },
        _ => {},
    }
}

proof fn lemma_step(s: CtxState, blocking: bool, ev: Event, start: CtxState, eof: bool)
    requires
        start.is_start(),
        s.copy_inv(start, blocking, eof),
        s.countable(ev),
        s.faithful(ev),
        !is_error(s.copy_step(blocking, ev).1),
    ensures
        s.copy_step(blocking, ev).0.copy_inv(start, blocking, eof || s.at_eof(ev)),
{
    if blocking {
        lemma_blocking_step(s, ev, start, eof);
    } else {
        match s.awaiting {
            Some(Action::Flush) => {
                let (t, step) = s.poll_flush(ev);
                if step is Ready && step->Ready_0 is Ok {
                    lemma_drain(t, Event::Polled, start, eof);
                }
            },
            Some(Action::WaitReadable) | Some(Action::TryRead) | Some(Action::SpliceIn(_)) => {
                lemma_drain(s, ev, start, eof);
            },
            Some(Action::WaitWritable) | Some(Action::TryWrite) | Some(Action::SpliceOut(_)) => {
                lemma_pump(s, ev, start, eof);
            },
            _ => {
                lemma_round(s, start, eof);
            },
        }
    }
}

pub(crate) proof fn lemma_run(start: CtxState, blocking: bool, evs: Seq<Event>)
    requires
        start.is_start(),
        start.can_copy(blocking, evs),
    ensures
        start.copy_run(blocking, evs).copy_inv(
            start,
            blocking,
            start.copy_meets_eof(blocking, evs),
        ),
    decreases evs.len(),
{
    if evs.len() > 0 {
        lemma_run(start, blocking, evs.drop_last());
        lemma_step(
            start.copy_run(blocking, evs.drop_last()),
            blocking,
            evs.last(),
            start,
            start.copy_meets_eof(blocking, evs.drop_last()),
        );
    }
}

/// At each point of a copy no more bytes have been written than read, and no
/// more read than were to be copied. Once all is done, every byte that was read
/// has been written, and these are all the bytes that were to be copied, unless
/// the reader had no more. That holds of a blocking copy as well.
pub proof fn copy_delivers_what_it_reads(start: CtxState, blocking: bool, evs: Seq<Event>)
    requires
        start.is_start(),
        start.can_copy(blocking, evs),
    ensures
        ({
            let s = start.copy_run(blocking, evs);
            &&& s.written <= s.read <= start.target
            &&& s.full_done() ==> {
                &&& s.written == s.read
                &&& s.written == start.target || start.copy_meets_eof(blocking, evs)
            }
        }),
{
    lemma_run(start, blocking, evs);
}

proof fn lemma_poll_error(s: CtxState, ev: Event, start: CtxState, eof: bool)
    requires
        start.is_start(),
        s.copy_inv(start, false, eof),
        s.countable(ev),
        s.faithful(ev),
        is_error(s.poll_copy(ev).1),
    ensures
        s.poll_copy(ev).0.read == s.read,
        s.poll_copy(ev).0.written == s.written,
{
    match s.awaiting {
        Some(Action::WaitWritable) | Some(Action::TryWrite) | Some(Action::SpliceOut(_)) => {
            let (t, step) = s.poll_pump(ev);
            assert(is_error(step));
        },
        _ => {},
    }
}

proof fn lemma_blocking_error(s: CtxState, ev: Event, start: CtxState, eof: bool)
    requires
        start.is_start(),
        s.copy_inv(start, true, eof),
        s.countable(ev),
        s.faithful(ev),
        is_error(s.blocking_copy(ev).1),
    ensures
        s.blocking_copy(ev).0.read == s.read,
        s.blocking_copy(ev).0.written == s.written,
{
    match (s.awaiting, ev) {
        (Some(Action::SpliceIn(_)), Event::Spliced { ret, offset }) => {
            let (t, r) = s.drain_done(ret, offset);
            assert(r is Err && !r->Err_0.is_would_block());
        },
        (Some(Action::SpliceOut(_)), Event::Spliced { ret, offset }) => {
            let (t, r) = s.pump_done(ret, offset);
            assert(r is Err && !r->Err_0.is_would_block());
        },
        _ => {},
    }
}

/// An error stops a copy, but what has been counted until then still counts: no
/// more bytes have been written than read, and no more read than were to be
/// copied.
pub proof fn failing_copy_counts_rightly(
    start: CtxState,
    blocking: bool,
    evs: Seq<Event>,
    ev: Event,
)
    requires
        start.is_start(),
        start.can_copy(blocking, evs),
        start.copy_run(blocking, evs).countable(ev),
        start.copy_run(blocking, evs).faithful(ev),
        is_error(start.copy_run(blocking, evs).copy_step(blocking, ev).1),
    ensures
        ({
            let s = start.copy_run(blocking, evs);
            let t = s.copy_step(blocking, ev).0;
            &&& t.written <= t.read <= start.target
            &&& t.read == s.read
            &&& t.written == s.written
        }),
{
    let eof = start.copy_meets_eof(blocking, evs);
    lemma_run(start, blocking, evs);
    if blocking {
        lemma_blocking_error(start.copy_run(blocking, evs), ev, start, eof);
    } else {
        lemma_poll_error(start.copy_run(blocking, evs), ev, start, eof);
    }
}

/// A copy answers that all went well only when all is done: nothing more will be
/// read or written, and the writer is flushed.
pub proof fn copy_success_means_done(s: CtxState, blocking: bool, ev: Event)
    ensures
        s.copy_step(blocking, ev).1 matches Step::Ready(Ok(_)) ==> s.copy_step(
            blocking,
            ev,
        ).0.full_done(),
{
}

/// A copy from or to a file never touches a byte of the file outside of the
/// range that it is to copy, it drains only into an empty pipe, and each of its
/// calls is for at least one byte and no more than [`MAXIMUM_PIPE_SIZE`].
pub proof fn copy_stays_in_the_range(start: CtxState, blocking: bool, evs: Seq<Event>)
    requires
        start.is_start(),
        start.can_copy(blocking, evs),
    ensures
        ({
            let s = start.copy_run(blocking, evs);
            match s.awaiting {
                Some(Action::SpliceIn(call)) => {
                    &&& s.read == s.written
                    &&& 1 <= call.len <= start.target - s.read
                    &&& call.len <= MAXIMUM_PIPE_SIZE
                    &&& call.nonblock == !blocking
                    &&& start.offset.spec_off_in() matches Some(off) ==> {
                        &&& call.offset == Some((off + s.read) as u64)
                        &&& off + s.read + call.len <= off + start.target
                    }
                },
                Some(Action::SpliceOut(call)) => {
                    &&& 1 <= call.len == s.read - s.written
                    &&& call.len <= MAXIMUM_PIPE_SIZE
                    &&& call.nonblock == !blocking
                    &&& start.offset.spec_off_out() matches Some(off) ==> {
                        &&& call.offset == Some((off + s.written) as u64)
                        &&& off + s.written + call.len <= off + start.target
                    }
                },
                _ => true,
            }
        }),
{
    lemma_run(start, blocking, evs);
}

/// Of two copies that run side by side, both have to be over for all to be well,
/// and neither an error of the first nor one of the second gets lost.
pub proof fn joined_copies_report_errors(
    a: Poll<Result<(), Error>>,
    b: Poll<Result<(), Error>>,
)
    ensures
        copies_joined(a, b) matches Poll::Ready(Ok(_)) <==> (a matches Poll::Ready(Ok(_))) && (
        b matches Poll::Ready(Ok(_))),
        copies_joined(a, b) matches Poll::Ready(Err(_)) <==> (a matches Poll::Ready(Err(_))) || (
        b matches Poll::Ready(Err(_))),
        a matches Poll::Ready(Err(e)) ==> copies_joined(a, b) == Poll::Ready(
            Result::<(), Error>::Err(e),
        ),
{
}

} // verus!
