//! That every transfer and every copy comes to an end.
use crate::context::CtxState;
use crate::error::Error;
use crate::io::{IoState, TransferState};
use crate::laws::{copy, transfer};
use crate::step::{Action, Event};
use vstd::prelude::*;

verus! {

/// Whether what an attempt or a call came to is more than that it would block.
pub open spec fn is_decided<T>(ret: Result<T, Error>) -> bool {
    match ret {
        Ok(_) => true,
        Err(e) => !e.is_would_block(),
    }
}

impl Action {
    /// Whether `ev` tells what became of the action, and that it does not have
    /// to wait or to be tried again.
    pub open spec fn is_settled_by(self, ev: Event) -> bool {
        match self {
            Action::ReadLimit => ev is Limit,
            Action::ReadClock => ev is Clock,
            Action::Charge(_) => ev is Charged,
            Action::Sleep { .. } => ev is Ready,
            Action::WaitReadable
            | Action::WaitWritable
            | Action::Flush
            | Action::Shutdown => ev is Ready || ev is Failed,
            Action::TryRead | Action::TryWrite => match ev {
                Event::Entered => true,
                Event::Failed(e) => !e.is_would_block(),
                _ => false,
            },
            Action::SpliceIn(_) | Action::SpliceOut(_) => match ev {
                Event::Spliced { ret, .. } => is_decided(ret),
                _ => false,
            },
        }
    }
}

impl CtxState {
    /// Whether `ev` settles what is awaited, if anything is.
    pub open spec fn is_advanced_by(self, ev: Event) -> bool {
        self.awaiting matches Some(action) ==> action.is_settled_by(ev)
    }

    /// How much is left to be moved at most: each byte has to be read and
    /// written, and each side of the pipe has to be finished.
    pub open spec fn work(self) -> int {
        2 * (self.target - self.read) + (self.read - self.written) + (
        if self.pipe.drain_finished() {
            0int
        } else {
            1
        }) + (if self.pipe.pump_finished() {
            0int
        } else {
            1
        })
    }
}

impl IoState {
    /// How many steps are left at most before the next byte is moved, a side of
    /// the pipe is finished, or the transfer is over.
    pub open spec fn phase(self) -> int {
        match (self.state, self.ctx.awaiting) {
            (TransferState::Flushing, None) => 18,
            (TransferState::Flushing, _) => 17,
            (TransferState::Draining { .. }, None) => 16,
            (TransferState::Draining { .. }, Some(Action::ReadLimit)) => 15,
            (TransferState::Draining { .. }, Some(Action::WaitReadable)) => 14,
            (TransferState::Draining { .. }, Some(Action::TryRead)) => 13,
            (TransferState::Draining { .. }, _) => 12,
            (TransferState::Metering { .. }, Some(Action::ReadClock)) => 11,
            (TransferState::Metering { .. }, _) => 10,
            (TransferState::Throttled { .. }, None) => 9,
            (TransferState::Throttled { .. }, _) => 8,
            (TransferState::Pumping, None) => 7,
            (TransferState::Pumping, Some(Action::WaitWritable)) => 6,
            (TransferState::Pumping, Some(Action::TryWrite)) => 5,
            (TransferState::Pumping, _) => 4,
            (TransferState::Terminating, None) => 3,
            (TransferState::Terminating, _) => 2,
            (TransferState::Faulted { .. }, None) => 1,
            (TransferState::Faulted { .. }, _) => 0,
            (TransferState::Finished, _) => 0,
        }
    }

    /// How many steps are left at most before the transfer is over, if none has
    /// to be repeated.
    pub open spec fn steps_left(self) -> int {
        19 * self.ctx.work() + self.phase()
    }

    /// Whether each of `evs`, when they happen to the transfer one after the
    /// other, advances it, and none ends it.
    pub open spec fn goes_on(self, evs: Seq<Event>) -> bool
        decreases evs.len(),
    {
        evs.len() > 0 ==> {
            let s = self.run(evs.drop_last());
            &&& self.goes_on(evs.drop_last())
            &&& s.ctx.is_advanced_by(evs.last())
            &&& s.step(evs.last()).1 !is Ready
        }
    }
}

/// The transfer when it is pumping.
spec fn pumping(s: IoState) -> IoState {
    s.at(s.ctx, TransferState::Pumping)
}

/// The transfer when it is draining.
spec fn draining(s: IoState) -> IoState {
    s.at(s.ctx, TransferState::Draining { ideal_len: None })
}

proof fn lemma_pump(s: IoState, ev: Event, start: CtxState, eof: bool)
    requires
        start.is_start(),
        transfer::can_pump(s, start, eof),
        s.ctx.countable(ev),
        s.ctx.faithful(ev),
        s.ctx.is_advanced_by(ev),
    ensures
        s.pump(ev).0.steps_left() < pumping(s).steps_left(),
{
}

proof fn lemma_drain(
    s: IoState,
    ev: Event,
    ideal_len: Option<usize>,
    start: CtxState,
    eof: bool,
)
    requires
        start.is_start(),
        transfer::can_drain(s, ideal_len, start, eof),
        s.ctx.countable(ev),
        s.ctx.faithful(ev),
        s.ctx.is_advanced_by(ev),
    ensures
        s.drain(ev, ideal_len).0.steps_left() < draining(s).steps_left() - (
        if s.ctx.awaiting is None {
            1int
        } else {
            0
        }),
{
    let (ctx, step) = s.ctx.poll_drain(ev, ideal_len);
    let eof = eof || s.ctx.at_eof(ev);
    let t = s.at(ctx, s.state);
    if step is Ready && step->Ready_0 is Ok {
        assert(transfer::can_pump(t, start, eof));
        lemma_pump(t, Event::Polled, start, eof);
    }
}

pub(crate) proof fn lemma_advance(s: IoState, ev: Event, start: CtxState, eof: bool)
    requires
        start.is_start(),
        s.inv(start, eof),
        s.accepts(ev),
        s.ctx.faithful(ev),
        s.ctx.is_advanced_by(ev),
    ensures
        s.step(ev).1 is Ready || s.step(ev).0.steps_left() < s.steps_left(),
{
    let idle = s.at(s.ctx.idle(), s.state);
    match s.state {
        TransferState::Draining { ideal_len } => {
            match (s.ctx.awaiting, ev) {
                (None, _) => {
                    if !s.limited {
                        lemma_drain(s, Event::Polled, None, start, eof);
                    }
                },
                (Some(Action::ReadLimit), Event::Limit { limit, tick }) => {
                    let ideal_len = crate::rate::ideal_len(
                        limit@.current(),
                        tick,
                        s.ctx.pipe.size,
                    );
                    lemma_drain(idle, Event::Polled, ideal_len, start, eof);
                },
                _ => {
                    lemma_drain(s, ev, ideal_len, start, eof);
                },
            }
        },
        TransferState::Metering { drained, now } => {
            if let Event::Clock { limit, now } = ev {
                let t = IoState {
                    limiter: s.limiter.check(drained, limit@.current(), now).0,
                    ..idle
                };
                lemma_pump(t, Event::Polled, start, eof);
            }
            lemma_pump(idle, Event::Polled, start, eof);
        },
        TransferState::Throttled { now, millis } => {
            lemma_pump(idle, Event::Polled, start, eof);
        },
        TransferState::Pumping => {
            lemma_pump(s, ev, start, eof);
        },
        TransferState::Flushing => {
            if !s.limited {
                lemma_drain(s.flushed(), Event::Polled, None, start, eof);
            }
        },
        _ => {},
    }
}

/// Each step of a transfer that does not have to wait or to be repeated brings it
/// nearer to its end: the number of steps that are left at most goes down.
pub proof fn transfer_makes_progress(
    start: CtxState,
    limited: bool,
    evs: Seq<Event>,
    ev: Event,
)
    requires
        start.is_start(),
        IoState::begin(start, limited).can_run(evs.push(ev)),
        IoState::begin(start, limited).run(evs).ctx.is_advanced_by(ev),
    ensures
        ({
            let s = IoState::begin(start, limited).run(evs);
            &&& 0 <= s.step(ev).0.steps_left()
            &&& s.step(ev).1 is Ready || s.step(ev).0.steps_left() < s.steps_left()
        }),
{
    let begin = IoState::begin(start, limited);
    assert(evs.push(ev).drop_last() =~= evs);
    transfer::lemma_run(start, limited, evs);
    transfer::lemma_run(start, limited, evs.push(ev));
    lemma_advance(begin.run(evs), ev, start, begin.meets_eof(evs));
}

/// A transfer comes to an end: however it goes, it is over after a number of
/// steps that depends only on how many bytes are to be transferred, not counting
/// those on which it has to wait or to try again.
pub proof fn transfer_comes_to_an_end(start: CtxState, limited: bool, evs: Seq<Event>)
    requires
        start.is_start(),
        IoState::begin(start, limited).can_run(evs),
        IoState::begin(start, limited).goes_on(evs),
    ensures
        evs.len() + IoState::begin(start, limited).run(evs).steps_left() <= 19 * (2 * start.target
            + 2) + 16,
        evs.len() <= 19 * (2 * start.target + 2) + 16,
    decreases evs.len(),
{
    let begin = IoState::begin(start, limited);
    transfer::lemma_run(start, limited, evs);
    if evs.len() > 0 {
        transfer_comes_to_an_end(start, limited, evs.drop_last());
        assert(evs.drop_last().push(evs.last()) =~= evs);
        transfer_makes_progress(start, limited, evs.drop_last(), evs.last());
    }
}

impl CtxState {
    /// How many steps of a copy are left at most before the next byte is moved,
    /// a side of the pipe is finished, or the copy is over.
    pub open spec fn copy_phase(self) -> int {
        match self.awaiting {
            None => 7,
            Some(Action::Flush) => 6,
            Some(Action::WaitReadable) => 5,
            Some(Action::TryRead) => 4,
            Some(Action::SpliceIn(_)) => 3,
            Some(Action::WaitWritable) => 2,
            Some(Action::TryWrite) => 1,
            _ => 0,
        }
    }

    /// How many steps are left at most before the copy is over, if none has to
    /// be repeated.
    pub open spec fn copy_steps_left(self) -> int {
        8 * self.work() + self.copy_phase()
    }

    /// Whether each of `evs`, when they happen to the copy one after the other,
    /// advances it, and none ends it.
    pub open spec fn copy_goes_on(self, blocking: bool, evs: Seq<Event>) -> bool
        decreases evs.len(),
    {
        evs.len() > 0 ==> {
            let s = self.copy_run(blocking, evs.drop_last());
            &&& self.copy_goes_on(blocking, evs.drop_last())
            &&& s.is_advanced_by(evs.last())
            &&& s.copy_step(blocking, evs.last()).1 !is Ready
        }
    }
}

proof fn lemma_poll_copy_advance(s: CtxState, ev: Event, start: CtxState, eof: bool)
    requires
        start.is_start(),
        s.copy_inv(start, false, eof),
        s.countable(ev),
        s.faithful(ev),
        s.is_advanced_by(ev),
    ensures
        s.poll_copy(ev).1 is Ready || s.poll_copy(ev).0.copy_steps_left() < s.copy_steps_left(),
{
    match s.awaiting {
        Some(Action::WaitWritable) | Some(Action::TryWrite) | Some(Action::SpliceOut(_)) => {
            let (t, step) = s.poll_pump(ev);
            if step is Do {
                assert(t.copy_steps_left() < s.copy_steps_left());
            } else if step->Ready_0 is Ok {
                assert(t.full_done() || t.work() < s.work());
                assert(t.copy_round().1 is Ready || t.copy_round().0.work() <= t.work());
            }
        },
        _ => {},
    }
}

proof fn lemma_blocking_copy_advance(s: CtxState, ev: Event, start: CtxState, eof: bool)
    requires
        start.is_start(),
        s.copy_inv(start, true, eof),
        s.countable(ev),
        s.faithful(ev),
        s.is_advanced_by(ev),
    ensures
        s.blocking_copy(ev).1 is Ready || s.blocking_copy(ev).0.copy_steps_left()
            < s.copy_steps_left(),
{
}

proof fn lemma_copy_advance(s: CtxState, blocking: bool, ev: Event, start: CtxState, eof: bool)
    requires
        start.is_start(),
        s.copy_inv(start, blocking, eof),
        s.countable(ev),
        s.faithful(ev),
        s.is_advanced_by(ev),
    ensures
        s.copy_step(blocking, ev).1 is Ready || s.copy_step(blocking, ev).0.copy_steps_left()
            < s.copy_steps_left(),
{
    if blocking {
        lemma_blocking_copy_advance(s, ev, start, eof);
    } else {
        lemma_poll_copy_advance(s, ev, start, eof);
    }
}

/// Each step of a copy, blocking or not, that does not have to wait or to be
/// repeated brings it nearer to its end: the number of steps that are left at
/// most goes down.
pub proof fn copy_makes_progress(start: CtxState, blocking: bool, evs: Seq<Event>, ev: Event)
    requires
        start.is_start(),
        start.can_copy(blocking, evs.push(ev)),
        start.copy_run(blocking, evs).is_advanced_by(ev),
    ensures
        ({
            let s = start.copy_run(blocking, evs);
            let (t, step) = s.copy_step(blocking, ev);
            &&& 0 <= t.copy_steps_left()
            &&& step is Ready || t.copy_steps_left() < s.copy_steps_left()
        }),
{
    assert(evs.push(ev).drop_last() =~= evs);
    copy::lemma_run(start, blocking, evs);
    copy::lemma_run(start, blocking, evs.push(ev));
    lemma_copy_advance(
        start.copy_run(blocking, evs),
        blocking,
        ev,
        start,
        start.copy_meets_eof(blocking, evs),
    );
}

/// A copy, blocking or not, comes to an end: it is over after a number of steps
/// that depends only on how many bytes are to be copied, not counting those on
/// which it has to wait or to try again.
pub proof fn copy_comes_to_an_end(start: CtxState, blocking: bool, evs: Seq<Event>)
    requires
        start.is_start(),
        start.can_copy(blocking, evs),
        start.copy_goes_on(blocking, evs),
    ensures
        evs.len() + start.copy_run(blocking, evs).copy_steps_left() <= 8 * (2 * start.target + 2)
            + 7,
        evs.len() <= 8 * (2 * start.target + 2) + 7,
    decreases evs.len(),
{
    copy::lemma_run(start, blocking, evs);
    if evs.len() > 0 {
        copy_comes_to_an_end(start, blocking, evs.drop_last());
        assert(evs.drop_last().push(evs.last()) =~= evs);
        copy_makes_progress(start, blocking, evs.drop_last(), evs.last());
    }
}

} // verus!
