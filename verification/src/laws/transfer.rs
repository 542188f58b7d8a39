//! What holds of every [`SpliceIo`](crate::io::SpliceIo).
use crate::context::{range_accepted, CtxState, PlanState};
use crate::error::Error;
use crate::io::{transfers_joined, IoState, TransferState};
use crate::laws::prepared_transfer_is_a_start;
use crate::pipe::{PipeState, MAXIMUM_PIPE_SIZE};
use crate::rate::{RateCheck, RateSetting};
use crate::step::{Action, Event, Poll, SpliceCall, Step};
use crate::utils::{range_end, range_start};
use vstd::prelude::*;

verus! {

impl IoState {
    /// A transfer with the context `ctx`, at its start, with a rate limit if
    /// `limited`.
    pub open spec fn begin(ctx: CtxState, limited: bool) -> IoState {
        IoState { limited, ..IoState::start(ctx) }
    }

    /// The transfer after `evs` have happened to it.
    pub open spec fn run(self, evs: Seq<Event>) -> IoState
        decreases evs.len(),
    {
        if evs.len() == 0 {
            self
        } else {
            self.run(evs.drop_last()).step(evs.last()).0
        }
    }

    /// Whether `evs` can happen to the transfer, one after the other.
    pub open spec fn can_run(self, evs: Seq<Event>) -> bool
        decreases evs.len(),
    {
        evs.len() > 0 ==> {
            let s = self.run(evs.drop_last());
            &&& self.can_run(evs.drop_last())
            &&& s.accepts(evs.last())
            &&& s.ctx.faithful(evs.last())
        }
    }

    /// Whether the reader turns out to have no more data while `evs` happen to
    /// the transfer.
    pub open spec fn meets_eof(self, evs: Seq<Event>) -> bool
        decreases evs.len(),
    {
        evs.len() > 0 && (self.meets_eof(evs.drop_last()) || self.run(
            evs.drop_last(),
        ).ctx.at_eof(evs.last()))
    }

    /// What holds of the context of the transfer at each point of it.
    pub open spec fn stands(self) -> bool {
        let ctx = self.ctx;
        match self.state {
            TransferState::Draining { ideal_len } => {
                &&& !ctx.pipe.pump_finished()
                &&& !ctx.need_flush
                &&& ctx.read == ctx.written
                &&& ideal_len matches Some(len) ==> len <= ctx.pipe.size
                &&& match ctx.awaiting {
                    None
                    | Some(Action::WaitReadable)
                    | Some(Action::TryRead)
                    | Some(Action::SpliceIn(_)) => true,
                    Some(Action::ReadLimit) => self.limited,
                    _ => false,
                }
                &&& ctx.awaiting matches Some(Action::SpliceIn(call)) ==> {
                    ideal_len matches Some(len) ==> call.len <= len
                }
            },
            TransferState::Metering { .. } => {
                &&& self.limited
                &&& !ctx.pipe.pump_finished()
                &&& !ctx.need_flush
                &&& ctx.written < ctx.read
                &&& match ctx.awaiting {
                    Some(Action::ReadClock) | Some(Action::Charge(_)) => true,
                    _ => false,
                }
            },
            TransferState::Throttled { now, millis } => {
                &&& self.limited
                &&& !ctx.pipe.pump_finished()
                &&& !ctx.need_flush
                &&& ctx.written < ctx.read
                &&& ctx.awaiting is None || ctx.awaiting == Some(Action::Sleep { now, millis })
            },
            TransferState::Pumping => {
                &&& !ctx.pipe.pump_finished()
                &&& ctx.need_flush || !ctx.pipe.drain_finished() ==> ctx.written < ctx.read
                &&& match ctx.awaiting {
                    None
                    | Some(Action::WaitWritable)
                    | Some(Action::TryWrite)
                    | Some(Action::SpliceOut(_)) => true,
                    _ => false,
                }
            },
            TransferState::Flushing => {
                &&& !ctx.pipe.pump_finished()
                &&& ctx.read == ctx.written
                &&& ctx.awaiting is None || ctx.awaiting == Some(Action::Flush)
            },
            TransferState::Terminating => {
                &&& ctx.finished()
                &&& !ctx.need_flush
                &&& ctx.read == ctx.written
                &&& ctx.awaiting is None || ctx.awaiting == Some(Action::Shutdown)
            },
            TransferState::Faulted { error, shut } => {
                ||| ctx.awaiting is None
                ||| ctx.awaiting == Some(Action::Shutdown) && error is Some && !shut
            },
            TransferState::Finished => {
                &&& ctx.finished()
                &&& !ctx.need_flush
                &&& ctx.read == ctx.written
                &&& ctx.awaiting is None
            },
        }
    }

    /// What holds of a transfer that started with the context `start`, at each
    /// point of it, where `eof` tells whether the reader has turned out to have
    /// no more data.
    pub open spec fn inv(self, start: CtxState, eof: bool) -> bool {
        &&& self.wf()
        &&& self.ctx.adds_up(start)
        &&& self.ctx.asks_rightly()
        &&& self.stands()
        &&& self.state !is Faulted && self.ctx.pipe.drain_finished() ==> eof || self.ctx.read
            == self.ctx.target
    }
}

/// Whether a step that asks for an action leaves it awaited, and any other step
/// leaves none awaited.
spec fn awaits_what_it_asks(r: (IoState, Step<()>)) -> bool {
    r.0.ctx.awaiting == (match r.1 {
        Step::Do(action) => Some(action),
        _ => None,
    })
}

/// Whether a step changes nothing and asks for an action.
spec fn asks_again(s: IoState, r: (IoState, Step<()>)) -> bool {
    r.0 == s && r.1 is Do
}

/// What has to hold for a transfer to go on with pumping.
pub(crate) open spec fn can_pump(s: IoState, start: CtxState, eof: bool) -> bool {
    &&& s.ctx.adds_up(start)
    &&& s.ctx.asks_rightly()
    &&& !s.ctx.pipe.pump_finished()
    &&& s.ctx.need_flush || !s.ctx.pipe.drain_finished() ==> s.ctx.written < s.ctx.read
    &&& s.ctx.pipe.drain_finished() ==> eof || s.ctx.read == s.ctx.target
    &&& match s.ctx.awaiting {
        None
        | Some(Action::WaitWritable)
        | Some(Action::TryWrite)
        | Some(Action::SpliceOut(_)) => true,
        _ => false,
    }
}

/// What has to hold for a transfer to go on with draining.
pub(crate) open spec fn can_drain(s: IoState, ideal_len: Option<usize>, start: CtxState, eof: bool) -> bool {
    &&& s.ctx.adds_up(start)
    &&& s.ctx.asks_rightly()
    &&& !s.ctx.pipe.pump_finished()
    &&& !s.ctx.need_flush
    &&& s.ctx.read == s.ctx.written
    &&& s.ctx.pipe.drain_finished() ==> eof || s.ctx.read == s.ctx.target
    &&& ideal_len matches Some(len) ==> 1 <= len <= s.ctx.pipe.size
    &&& match s.ctx.awaiting {
        None | Some(Action::WaitReadable) | Some(Action::TryRead) => true,
        Some(Action::SpliceIn(call)) => ideal_len matches Some(len) ==> call.len <= len,
        _ => false,
    }
}

proof fn lemma_pump(s: IoState, ev: Event, start: CtxState, eof: bool)
    requires
        start.is_start(),
        can_pump(s, start, eof),
        s.ctx.countable(ev),
        s.ctx.faithful(ev),
    ensures
        s.pump(ev).0.inv(start, eof),
        s.pump(ev).0.limited == s.limited,
        awaits_what_it_asks(s.pump(ev)),
        ev is Polled && s.ctx.awaiting is Some && s.state is Pumping ==> asks_again(s, s.pump(ev)),
{
}

proof fn lemma_drain(
    s: IoState,
    ev: Event,
    ideal_len: Option<usize>,
    start: CtxState,
    eof: bool,
)
    requires
        start.is_start(),
        can_drain(s, ideal_len, start, eof),
        s.ctx.countable(ev),
        s.ctx.faithful(ev),
    ensures
        s.drain(ev, ideal_len).0.inv(start, eof || s.ctx.at_eof(ev)),
        s.drain(ev, ideal_len).0.limited == s.limited,
        awaits_what_it_asks(s.drain(ev, ideal_len)),
        ev is Polled && s.ctx.awaiting is Some && s.state == (TransferState::Draining { ideal_len })
            ==> asks_again(s, s.drain(ev, ideal_len)),
{
    let (ctx, step) = s.ctx.poll_drain(ev, ideal_len);
    let eof = eof || s.ctx.at_eof(ev);
    let t = s.at(ctx, s.state);
    if step is Ready && step->Ready_0 is Ok {
        assert(can_pump(t, start, eof));
        lemma_pump(t, Event::Polled, start, eof);
    }
}

proof fn lemma_step(s: IoState, ev: Event, start: CtxState, eof: bool)
    requires
        start.is_start(),
        s.inv(start, eof),
        s.accepts(ev),
        s.ctx.faithful(ev),
    ensures
        s.step(ev).0.inv(start, eof || s.ctx.at_eof(ev)),
        s.step(ev).0.limited == s.limited,
        awaits_what_it_asks(s.step(ev)),
        ev is Polled && s.ctx.awaiting is Some ==> asks_again(s, s.step(ev)),
{
    let idle = s.at(s.ctx.idle(), s.state);
    match s.state {
        TransferState::Draining { ideal_len } => {
            match (s.ctx.awaiting, ev) {
                (None, _) => {
                    if !s.limited {
                        lemma_drain(s, Event::Polled, None, start, eof);
                    }
                },
                (Some(Action::ReadLimit), Event::Limit { limit, tick }) => {
                    let ideal_len = crate::rate::ideal_len(
                        limit@.current(),
                        tick,
                        s.ctx.pipe.size,
                    );
                    lemma_drain(idle, Event::Polled, ideal_len, start, eof);
                },
                (Some(Action::ReadLimit), _) => {},
                _ => {
                    lemma_drain(s, ev, ideal_len, start, eof);
                },
            }
        },
        TransferState::Metering { drained, now } => {
            if let Event::Clock { limit, now } = ev {
                let t = IoState {
                    limiter: s.limiter.check(drained, limit@.current(), now).0,
                    ..idle
                };
                lemma_pump(t, Event::Polled, start, eof);
            }
            lemma_pump(idle, Event::Polled, start, eof);
        },
        TransferState::Throttled { now, millis } => {
            lemma_pump(idle, Event::Polled, start, eof);
        },
        TransferState::Pumping => {
            lemma_pump(s, ev, start, eof);
        },
        TransferState::Flushing => {
            if !s.limited {
                lemma_drain(s.flushed(), Event::Polled, None, start, eof);
            }
        },
        _ => {},
    }
}

pub(crate) proof fn lemma_run(start: CtxState, limited: bool, evs: Seq<Event>)
    requires
        start.is_start(),
        IoState::begin(start, limited).can_run(evs),
    ensures
        IoState::begin(start, limited).run(evs).inv(
            start,
            IoState::begin(start, limited).meets_eof(evs),
        ),
        IoState::begin(start, limited).run(evs).limited == limited,
    decreases evs.len(),
{
    let s = IoState::begin(start, limited);
    if evs.len() > 0 {
        lemma_run(start, limited, evs.drop_last());
        lemma_step(
            s.run(evs.drop_last()),
            evs.last(),
            start,
            s.meets_eof(evs.drop_last()),
        );
    }
}

/// At each point of a transfer no more bytes have been written than read, and no
/// more read than were to be transferred. When it is finished, every byte that
/// was read has been written and flushed, and these are all the bytes that were
/// to be transferred, unless the reader had no more.
pub proof fn transfer_delivers_what_it_reads(start: CtxState, limited: bool, evs: Seq<Event>)
    requires
        start.is_start(),
        IoState::begin(start, limited).can_run(evs),
    ensures
        ({
            let begin = IoState::begin(start, limited);
            let s = begin.run(evs);
            &&& s.ctx.written <= s.ctx.read <= start.target
            &&& s.state is Finished ==> {
                &&& s.ctx.written == s.ctx.read
                &&& !s.ctx.need_flush
                &&& s.ctx.written == start.target || begin.meets_eof(evs)
            }
        }),
{
    lemma_run(start, limited, evs);
}

/// A transfer from or to a file never touches a byte of the file outside of the
/// range that it is to transfer: each call starts as far into the range as bytes
/// have been moved, and does not go beyond its end.
pub proof fn transfer_stays_in_the_range(start: CtxState, limited: bool, evs: Seq<Event>)
    requires
        start.is_start(),
        IoState::begin(start, limited).can_run(evs),
    ensures
        ({
            let s = IoState::begin(start, limited).run(evs);
            match s.ctx.awaiting {
                Some(Action::SpliceIn(call)) => {
                    &&& call.offset is Some <==> start.offset.spec_off_in() is Some
                    &&& start.offset.spec_off_in() matches Some(off) ==> {
                        &&& call.offset->Some_0 == off + s.ctx.read
                        &&& call.offset->Some_0 + call.len <= off + start.target
                    }
                },
                Some(Action::SpliceOut(call)) => {
                    &&& call.offset is Some <==> start.offset.spec_off_out() is Some
                    &&& start.offset.spec_off_out() matches Some(off) ==> {
                        &&& call.offset->Some_0 == off + s.ctx.written
                        &&& call.offset->Some_0 + call.len <= off + start.target
                    }
                },
                _ => true,
            }
        }),
{
    lemma_run(start, limited, evs);
}

/// A transfer of a range of a file reads the bytes of that range and no others,
/// in order: each call for bytes begins where the bytes that have been read end,
/// and lies within the range. When the transfer is finished, what has been
/// written is what has been read, and that is the whole range, unless the file
/// turned out to be shorter.
pub proof fn reading_a_file_sends_the_range(
    f_len: u64,
    f_offset_start: Option<u64>,
    f_offset_end: Option<u64>,
    pipe: PipeState,
    limited: bool,
    evs: Seq<Event>,
)
    requires
        range_accepted(f_len, f_offset_start, f_offset_end),
        pipe.fresh(),
        IoState::begin(
            PlanState::reading(f_len, f_offset_start, f_offset_end).start(pipe),
            limited,
        ).can_run(evs),
    ensures
        ({
            let start = PlanState::reading(f_len, f_offset_start, f_offset_end).start(pipe);
            let begin = IoState::begin(start, limited);
            let s = begin.run(evs);
            &&& s.ctx.awaiting matches Some(Action::SpliceIn(call)) ==> {
                &&& call.offset matches Some(off)
                &&& off == range_start(f_offset_start) + s.ctx.read
                &&& off + call.len <= range_end(f_len, f_offset_end)
            }
            &&& s.state is Finished ==> {
                &&& s.ctx.written == s.ctx.read
                &&& begin.meets_eof(evs) || s.ctx.written == range_end(f_len, f_offset_end)
                    - range_start(f_offset_start)
            }
        }),
{
    let start = PlanState::reading(f_len, f_offset_start, f_offset_end).start(pipe);
    prepared_transfer_is_a_start(pipe, f_len, f_offset_start, f_offset_end);
    transfer_delivers_what_it_reads(start, limited, evs);
    transfer_stays_in_the_range(start, limited, evs);
}

/// A transfer to a range of a file writes to that range and nowhere else, in
/// order: each call begins where the bytes that have been written end, and lies
/// within the range.
pub proof fn writing_a_file_fills_the_range(
    f_len: u64,
    f_offset_start: Option<u64>,
    f_offset_end: Option<u64>,
    pipe: PipeState,
    limited: bool,
    evs: Seq<Event>,
)
    requires
        range_accepted(f_len, f_offset_start, f_offset_end),
        pipe.fresh(),
        IoState::begin(
            PlanState::writing(f_len, f_offset_start, f_offset_end).start(pipe),
            limited,
        ).can_run(evs),
    ensures
        ({
            let start = PlanState::writing(f_len, f_offset_start, f_offset_end).start(pipe);
            let begin = IoState::begin(start, limited);
            let s = begin.run(evs);
            &&& s.ctx.awaiting matches Some(Action::SpliceOut(call)) ==> {
                &&& call.offset matches Some(off)
                &&& off == range_start(f_offset_start) + s.ctx.written
                &&& off + call.len <= range_end(f_len, f_offset_end)
            }
            &&& s.state is Finished ==> {
                &&& s.ctx.written == s.ctx.read
                &&& begin.meets_eof(evs) || s.ctx.written == range_end(f_len, f_offset_end)
                    - range_start(f_offset_start)
            }
        }),
{
    let start = PlanState::writing(f_len, f_offset_start, f_offset_end).start(pipe);
    prepared_transfer_is_a_start(pipe, f_len, f_offset_start, f_offset_end);
    transfer_delivers_what_it_reads(start, limited, evs);
    transfer_stays_in_the_range(start, limited, evs);
}

/// Data is drained only when the pipe is empty and the writer is flushed, and
/// what is pumped is all that is in the pipe. Each call is for at least one byte,
/// and for no more than [`MAXIMUM_PIPE_SIZE`].
pub proof fn transfer_drains_into_an_empty_pipe(start: CtxState, limited: bool, evs: Seq<Event>)
    requires
        start.is_start(),
        IoState::begin(start, limited).can_run(evs),
    ensures
        ({
            let s = IoState::begin(start, limited).run(evs);
            match s.ctx.awaiting {
                Some(Action::WaitReadable) | Some(Action::TryRead) => {
                    &&& s.ctx.read == s.ctx.written
                    &&& !s.ctx.need_flush
                },
                Some(Action::SpliceIn(call)) => {
                    &&& s.ctx.read == s.ctx.written
                    &&& !s.ctx.need_flush
                    &&& 1 <= call.len <= start.target - s.ctx.read
                    &&& call.len <= MAXIMUM_PIPE_SIZE
                },
                Some(Action::SpliceOut(call)) => {
                    &&& 1 <= call.len == s.ctx.read - s.ctx.written
                    &&& call.len <= MAXIMUM_PIPE_SIZE
                },
                _ => true,
            }
        }),
{
    lemma_run(start, limited, evs);
}

/// A transfer without rate limit never asks for the limit or the clock, and is
/// never made to wait for tokens.
pub proof fn unlimited_transfer_is_never_throttled(start: CtxState, evs: Seq<Event>)
    requires
        start.is_start(),
        IoState::begin(start, false).can_run(evs),
    ensures
        ({
            let s = IoState::begin(start, false).run(evs);
            &&& s.state !is Metering
            &&& s.state !is Throttled
            &&& match s.ctx.awaiting {
                Some(Action::ReadLimit)
                | Some(Action::ReadClock)
                | Some(Action::Charge(_))
                | Some(Action::Sleep { .. }) => false,
                _ => true,
            }
        }),
{
    lemma_run(start, false, evs);
}

/// A transfer that is under a rate limit reads no more at once than suits the
/// limit, which is no more than the pipe holds.
pub proof fn limited_transfer_reads_small_portions(start: CtxState, evs: Seq<Event>)
    requires
        start.is_start(),
        IoState::begin(start, true).can_run(evs),
    ensures
        ({
            let s = IoState::begin(start, true).run(evs);
            match (s.state, s.ctx.awaiting) {
                (
                    TransferState::Draining { ideal_len: Some(len) },
                    Some(Action::SpliceIn(call)),
                ) => call.len <= len <= start.pipe.size,
                _ => true,
            }
        }),
{
    lemma_run(start, true, evs);
}

/// Every portion that a rate limited transfer reads is checked against the limit,
/// as it is then, before any of it is written: it is accepted as it is, or tokens
/// are taken for all of it.
pub proof fn every_portion_is_metered(
    s: IoState,
    call: SpliceCall,
    n: usize,
    offset: Option<u64>,
    limit: RateSetting,
    now: u64,
)
    requires
        s.limited,
        s.state is Draining,
        s.ctx.awaiting == Some(Action::SpliceIn(call)),
        n > 0,
    ensures
        ({
            let (t, step) = s.step(Event::Spliced { ret: Ok(n), offset });
            let (u, next) = t.step(Event::Clock { limit, now });
            &&& step == Step::<()>::Do(Action::ReadClock)
            &&& t.ctx.written == s.ctx.written
            &&& u.ctx.written == s.ctx.written
            &&& u.limiter == t.limiter.check(n, limit@.current(), now).0
            &&& match t.limiter.check(n, limit@.current(), now).1 {
                RateCheck::Accepted => next == Step::<()>::Do(Action::WaitWritable),
                RateCheck::Charge(charge) => {
                    &&& next == Step::<()>::Do(Action::Charge(charge))
                    &&& charge.bytes == n
                },
            }
        }),
{
}

/// A transfer that is throttled neither reads nor writes until the time is over.
pub proof fn throttled_transfer_moves_nothing(s: IoState, ev: Event)
    requires
        s.state is Throttled,
        ev !is Ready,
    ensures
        s.step(ev).0.state == s.state,
        s.step(ev).0.ctx.idle() == s.ctx.idle(),
        s.step(ev).1 is Pending || s.step(ev).1 == Step::<()>::Do(
            Action::Sleep { now: s.state->Throttled_now, millis: s.state->Throttled_millis },
        ),
{
}

/// A transfer always knows what it is waiting for: after a step that asks for an
/// action, that action is awaited, and after any other none is. Until it is
/// answered, the transfer asks for it again.
pub proof fn transfer_awaits_what_it_asks_for(
    start: CtxState,
    limited: bool,
    evs: Seq<Event>,
    ev: Event,
)
    requires
        start.is_start(),
        IoState::begin(start, limited).can_run(evs.push(ev)),
    ensures
        ({
            let s = IoState::begin(start, limited).run(evs);
            let (t, step) = s.step(ev);
            &&& t.ctx.awaiting == (match step {
                Step::Do(action) => Some(action),
                _ => None,
            })
            &&& ev is Polled && s.ctx.awaiting is Some ==> t == s && step is Do
        }),
{
    let begin = IoState::begin(start, limited);
    assert(evs.push(ev).drop_last() =~= evs);
    lemma_run(start, limited, evs);
    lemma_step(begin.run(evs), ev, start, begin.meets_eof(evs));
}

/// A transfer answers that all went well only when it is finished, and for the
/// first time when the writer has been shut down successfully.
pub proof fn success_means_finished(s: IoState, ev: Event)
    ensures
        s.step(ev).1 matches Step::Ready(Ok(_)) ==> {
            &&& s.step(ev).0.state is Finished
            &&& s.state !is Finished ==> s.state is Terminating && s.ctx.awaiting is Some
                && ev is Ready
        },
{
}

/// A finished transfer stays finished, whatever happens, and says so.
pub proof fn finished_transfer_stays_finished(s: IoState, ev: Event)
    requires
        s.state is Finished,
    ensures
        s.step(ev).0 == s,
        s.step(ev).1 == Step::<()>::Ready(Ok(())),
{
}

/// An error that stops a transfer is one that has just occurred, or one in what
/// was written; and the first thing to happen after it is that the writer is
/// shut down.
pub proof fn error_is_one_that_occurred(s: IoState, ev: Event)
    requires
        s.state !is Faulted,
    ensures
        s.step(ev).0.state matches TransferState::Faulted { error, .. } ==> {
            &&& s.step(ev).1 == Step::<()>::Do(Action::Shutdown)
            &&& error matches Some(e)
            &&& {
                ||| ev == Event::Failed(e)
                ||| ev matches Event::Spliced { ret: Err(e2), .. } && e2 == e
                ||| ev matches Event::Spliced { ret: Ok(n), .. } && e == if n == 0 {
                    Error::WriteZero
                } else {
                    Error::WrittenMoreThanRead
                }
            }
        },
{
}

/// Whether `ev` tells that what is awaited failed for good with the error `e`:
/// an attempt or a call that would block is made again, and has not failed.
pub open spec fn fails_with(s: IoState, ev: Event, e: Error) -> bool {
    match (s.state, s.ctx.awaiting) {
        (TransferState::Draining { .. }, Some(Action::WaitReadable))
        | (TransferState::Pumping, Some(Action::WaitWritable))
        | (TransferState::Flushing, Some(Action::Flush))
        | (TransferState::Terminating, Some(Action::Shutdown)) => ev == Event::Failed(e),
        (TransferState::Draining { .. }, Some(Action::TryRead))
        | (TransferState::Pumping, Some(Action::TryWrite)) => ev == Event::Failed(e)
            && !e.is_would_block(),
        (TransferState::Draining { .. }, Some(Action::SpliceIn(_))) => ev matches Event::Spliced {
            ret: Err(e2),
            ..
        } && e2 == e && !e.is_would_block(),
        (TransferState::Pumping, Some(Action::SpliceOut(_))) => match ev {
            Event::Spliced { ret: Err(e2), .. } => e2 == e && !e.is_would_block(),
            Event::Spliced { ret: Ok(n), .. } => e == (if n == 0 {
                Error::WriteZero
            } else {
                Error::WrittenMoreThanRead
            }) && (n == 0 || s.ctx.written + n > s.ctx.read),
            _ => false,
        },
        _ => false,
    }
}

/// A failure stops the transfer, which keeps the error and has the writer shut
/// down. That includes that the writer takes no byte, and that it reports more
/// bytes than there were, without which the transfer might never stop. What has
/// been read is not changed by it.
pub proof fn failure_stops_the_transfer(s: IoState, ev: Event, e: Error)
    requires
        fails_with(s, ev, e),
    ensures
        s.step(ev).0.state == (TransferState::Faulted { error: Some(e), shut: false }),
        s.step(ev).1 == Step::<()>::Do(Action::Shutdown),
        s.step(ev).0.ctx.read == s.ctx.read,
{
}

/// An attempt or a call that would block loses nothing: the transfer waits until
/// the reader or the writer is ready and tries again.
pub proof fn would_block_is_no_failure(s: IoState, ev: Event, e: Error)
    requires
        e.is_would_block(),
        s.state is Draining || s.state is Pumping,
        match s.ctx.awaiting {
            Some(Action::TryRead) => s.state is Draining && ev == Event::Failed(e),
            Some(Action::TryWrite) => s.state is Pumping && ev == Event::Failed(e),
            Some(Action::SpliceIn(call)) => s.state is Draining && ev == (Event::Spliced {
                ret: Err(e),
                offset: call.offset,
            }) && call.offset == s.ctx.offset.spec_off_in(),
            Some(Action::SpliceOut(call)) => s.state is Pumping && ev == (Event::Spliced {
                ret: Err(e),
                offset: call.offset,
            }) && call.offset == s.ctx.offset.spec_off_out(),
            _ => false,
        },
    ensures
        ({
            let wait = if s.state is Draining {
                Action::WaitReadable
            } else {
                Action::WaitWritable
            };
            &&& s.step(ev).0 == s.at(s.ctx.asking(wait), s.state)
            &&& s.step(ev).1 == Step::<()>::Do(wait)
        }),
{
}

/// A transfer that has to wait has changed nothing but what it waits for.
pub proof fn waiting_loses_nothing(s: IoState, ev: Event)
    requires
        s.step(ev).1 is Pending,
    ensures
        ev is Pending,
        s.step(ev).0 == s.at(s.ctx.idle(), s.state),
{
}

/// Once shutting the writer down after an error has been tried, whether that
/// succeeded or failed, the transfer answers with that very error; and whatever
/// happens later, it only answers that it had.
pub proof fn error_is_reported_once(s: IoState, e: Error, f: Error, later: Event)
    requires
        s.state == (TransferState::Faulted { error: Some(e), shut: false }),
        s.ctx.awaiting is Some,
    ensures
        s.step(Event::Ready).1 == Step::<()>::Ready(Err(e)),
        s.step(Event::Failed(f)).1 == Step::<()>::Ready(Err(e)),
        s.step(Event::Failed(f)).0 == s.step(Event::Ready).0,
        s.step(Event::Ready).0.step(later).0 == s.step(Event::Ready).0,
        s.step(Event::Ready).0.step(later).1 == Step::<()>::Ready(Err(Error::PolledAfterError)),
        s.step(Event::Pending).1 is Pending,
        s.step(Event::Pending).0.state == s.state,
{
}

/// An error that has been answered but not passed on, and that is kept for that
/// reason, is answered by the next poll, which asks for nothing.
pub proof fn kept_error_is_answered(s: IoState, e: Error, ev: Event, later: Event)
    ensures
        s.keeping(e).step(ev).1 == Step::<()>::Ready(Err(e)),
        s.keeping(e).step(ev).0.step(later).1 == Step::<()>::Ready(Err(Error::PolledAfterError)),
        s.keeping(e).ctx == s.ctx,
{
}

/// Of two transfers that run side by side, both have to be over for the whole to
/// be over, and both have to have gone well for it to have gone well. If both
/// have failed, the error of the first one is reported.
pub proof fn joined_transfers_wait_for_both(
    a: Poll<Result<(), Error>>,
    b: Poll<Result<(), Error>>,
)
    ensures
        transfers_joined(a, b) is Pending <==> a is Pending || b is Pending,
        transfers_joined(a, b) matches Poll::Ready(Ok(_)) <==> (a matches Poll::Ready(Ok(_))) && (
        b matches Poll::Ready(Ok(_))),
        a matches Poll::Ready(Err(e)) ==> transfers_joined(a, b) is Pending || transfers_joined(
            a,
            b,
        ) == Poll::Ready(Result::<(), Error>::Err(e)),
{
}

} // verus!
