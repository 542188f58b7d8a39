//! How a transfer goes on from each point of it.
use crate::context::CtxState;
use crate::error::Error;
use crate::io::{IoState, TransferState};
use crate::laws::polls::{asks, rests};
use crate::rate::{Charge, RateCheck, RateSetting};
use crate::step::{Action, Event, Step};
use crate::utils::Drained;
use vstd::prelude::*;

verus! {

/// The transfer when it has the context `ctx` and stands at `state`.
pub open spec fn stands_at(s: IoState, ctx: CtxState, state: TransferState) -> IoState {
    IoState { ctx, limited: s.limited, limiter: s.limiter, state }
}

/// How a transfer goes on that asks for `action` and stands at `state`.
pub open spec fn asking_at(
    s: IoState,
    ctx: CtxState,
    state: TransferState,
    action: Action,
) -> (IoState, Step<()>) {
    (stands_at(s, asks(ctx, action), state), Step::Do(action))
}

/// How a transfer goes on with writing what is in the pipe: it waits for the writer.
pub open spec fn goes_on_to_write(s: IoState, ctx: CtxState) -> (IoState, Step<()>) {
    asking_at(s, ctx, TransferState::Pumping, Action::WaitWritable)
}

/// How a transfer goes on that has failed with `e`: it keeps the error and has the
/// writer shut down.
pub open spec fn goes_on_to_fail(s: IoState, ctx: CtxState, e: Error) -> (IoState, Step<()>) {
    asking_at(
        s,
        ctx,
        TransferState::Faulted { error: Some(e), shut: false },
        Action::Shutdown,
    )
}

/// How a transfer goes on that begins to read, in portions of `portion` bytes: it waits
/// for the reader, unless nothing can be read, when it goes on to write.
pub open spec fn goes_on_to_read(
    s: IoState,
    ctx: CtxState,
    portion: Option<usize>,
) -> (IoState, Step<()>) {
    if ctx.pipe.write_side is Running && ctx.read == ctx.written {
        asking_at(
            s,
            ctx,
            TransferState::Draining { ideal_len: portion },
            Action::WaitReadable,
        )
    } else {
        goes_on_to_write(s, ctx)
    }
}

/// A transfer can take note of what can be counted and of limits that can be computed.
pub proof fn transfer_notions(s: IoState, ev: Event)
    ensures
        s.accepts(ev) <==> s.ctx.countable(ev) && ev.wf(),
        s.wf() <==> {
            &&& s.ctx.wf()
            &&& s.state matches TransferState::Draining { ideal_len } ==> ideal_len != Some(0usize)
            &&& s.state is Metering ==> s.limited
        },
{
}

/// A transfer that begins to read waits for the reader, unless it has a rate limit, which
/// it first has to know.
pub proof fn transfer_begins_to_read(s: IoState, ev: Event)
    requires
        s.state is Draining,
        s.ctx.awaiting is None,
    ensures
        !s.limited ==> s.step(ev) == goes_on_to_read(s, s.ctx, None),
        s.limited ==> s.step(ev) == asking_at(
            s,
            s.ctx,
            TransferState::Draining { ideal_len: None },
            Action::ReadLimit,
        ),
{
}

/// A transfer that knows its limit reads portions of what passes in two ticks, but of no
/// more than the pipe holds; without a limit it reads all that it can.
pub proof fn limit_sets_the_portions(s: IoState, limit: RateSetting, tick: usize, other: Event)
    requires
        s.state is Draining,
        s.ctx.awaiting == Some(Action::ReadLimit),
        1 <= s.ctx.pipe.size <= usize::MAX,
        other !is Limit,
    ensures
        ({
            let portion: Option<usize> = if limit@.total == 0 {
                None
            } else if tick + tick <= s.ctx.pipe.size {
                Some((tick + tick) as usize)
            } else {
                Some(s.ctx.pipe.size as usize)
            };
            s.step(Event::Limit { limit, tick }) == goes_on_to_read(s, rests(s.ctx), portion)
        }),
        s.step(other) == (s, Step::<()>::Do(Action::ReadLimit)),
{
}

/// Reading goes as it goes with the context alone, in portions that do not change. When
/// it is over, the bytes that were read are checked if there is a rate limit, and
/// written if there is none or if there are no bytes; and an error stops the transfer.
pub proof fn transfer_reads(s: IoState, ev: Event)
    requires
        s.state is Draining,
        match s.ctx.awaiting {
            Some(Action::WaitReadable) | Some(Action::TryRead) | Some(Action::SpliceIn(_)) => true,
            _ => false,
        },
    ensures
        ({
            let portion = s.state->Draining_ideal_len;
            let (ctx, step) = s.ctx.poll_drain(ev, portion);
            s.step(ev) == match step {
                Step::Do(action) => (stands_at(s, ctx, s.state), Step::<()>::Do(action)),
                Step::Pending => (stands_at(s, ctx, s.state), Step::<()>::Pending),
                Step::Ready(Err(e)) => goes_on_to_fail(s, ctx, e),
                Step::Ready(Ok(Drained::Done)) => goes_on_to_write(s, ctx),
                Step::Ready(Ok(Drained::Bytes(n))) => if s.limited {
                    asking_at(
                        s,
                        ctx,
                        TransferState::Metering { drained: n, now: 0 },
                        Action::ReadClock,
                    )
                } else {
                    goes_on_to_write(s, ctx)
                },
            }
        }),
{
}

/// The bytes that a transfer under a rate limit has read are all checked, whatever their
/// number, at the limit and at the time that it is told: if tokens are to be taken for
/// them, it asks for that, and if not it writes them.
pub proof fn bytes_are_checked(s: IoState, limit: RateSetting, now: u64, other: Event)
    requires
        s.state is Metering,
        !(s.ctx.awaiting matches Some(Action::Charge(_))),
        other !is Clock,
    ensures
        ({
            let drained = s.state->Metering_drained;
            let (limiter, check) = s.limiter.check(drained, limit@.current(), now);
            let t = IoState { limiter, ..s };
            s.step(Event::Clock { limit, now }) == match check {
                RateCheck::Accepted => goes_on_to_write(t, rests(s.ctx)),
                RateCheck::Charge(charge) => asking_at(
                    t,
                    s.ctx,
                    TransferState::Metering { drained, now },
                    Action::Charge(charge),
                ),
            }
        }),
        s.step(other) == asking_at(s, s.ctx, s.state, Action::ReadClock),
{
}

/// If there are too few tokens for the bytes that have been read, however many these are,
/// the transfer is throttled: it sleeps for as many seconds after the check as it takes
/// for the tokens to be there, and for a millisecond if that is none. Until then nothing
/// is written. If there are enough tokens, it goes on to write at once.
pub proof fn shortage_throttles(s: IoState, charge: Charge, secs: u64, other: Event)
    requires
        s.state is Metering,
        s.ctx.awaiting == Some(Action::Charge(charge)),
        other !is Charged,
    ensures
        ({
            let now = s.state->Metering_now;
            let (t, step) = s.step(Event::Charged(Some(secs)));
            &&& step matches Step::Do(Action::Sleep { now: since, millis })
            &&& since == now
            &&& millis == if secs == 0 {
                1
            } else {
                secs * 1000
            }
            &&& t == stands_at(
                s,
                asks(s.ctx, Action::Sleep { now, millis }),
                TransferState::Throttled { now, millis },
            )
        }),
        s.step(Event::Charged(None)) == goes_on_to_write(s, rests(s.ctx)),
        s.step(other) == (s, Step::<()>::Do(Action::Charge(charge))),
{
}

/// A transfer that is throttled goes on to write when the time is over, and not before:
/// until then it waits, or asks for the same sleep again.
pub proof fn throttled_transfer_sleeps(s: IoState, ev: Event)
    requires
        s.state is Throttled,
    ensures
        ({
            let sleep = Action::Sleep {
                now: s.state->Throttled_now,
                millis: s.state->Throttled_millis,
            };
            s.step(ev) == if s.ctx.awaiting is None {
                asking_at(s, s.ctx, s.state, sleep)
            } else {
                match ev {
                    Event::Ready => goes_on_to_write(s, rests(s.ctx)),
                    Event::Pending => (stands_at(s, rests(s.ctx), s.state), Step::<()>::Pending),
                    _ => asking_at(s, s.ctx, s.state, sleep),
                }
            }
        }),
{
}

/// Writing goes as it goes with the context alone. When the pipe is empty, the writer is
/// flushed, or shut down if nothing more will be read or written; and an error stops the
/// transfer.
pub proof fn transfer_writes(s: IoState, ev: Event)
    requires
        s.state is Pumping,
    ensures
        ({
            let (ctx, step) = s.ctx.poll_pump(ev);
            s.step(ev) == match step {
                Step::Do(action) => (stands_at(s, ctx, s.state), Step::<()>::Do(action)),
                Step::Pending => (stands_at(s, ctx, s.state), Step::<()>::Pending),
                Step::Ready(Err(e)) => goes_on_to_fail(s, ctx, e),
                Step::Ready(Ok(_)) => if ctx.pipe.write_side !is Running && ctx.pipe.read_side
                    !is Running {
                    asking_at(s, ctx, TransferState::Terminating, Action::Shutdown)
                } else {
                    asking_at(s, ctx, TransferState::Flushing, Action::Flush)
                },
            }
        }),
{
}

/// When the writer has been flushed, the transfer begins to read again, as at its start;
/// until then it waits, and an error stops it.
pub proof fn transfer_flushes(s: IoState, ev: Event)
    requires
        s.state is Flushing,
    ensures
        s.step(ev) == if s.ctx.awaiting is None {
            asking_at(s, s.ctx, s.state, Action::Flush)
        } else {
            let flushed = CtxState { need_flush: false, ..rests(s.ctx) };
            match ev {
                Event::Ready => if s.limited {
                    asking_at(
                        s,
                        flushed,
                        TransferState::Draining { ideal_len: None },
                        Action::ReadLimit,
                    )
                } else {
                    goes_on_to_read(s, flushed, None)
                },
                Event::Pending => (stands_at(s, rests(s.ctx), s.state), Step::<()>::Pending),
                Event::Failed(e) => goes_on_to_fail(s, s.ctx, e),
                _ => asking_at(s, s.ctx, s.state, Action::Flush),
            }
        },
{
}

/// When the writer has been shut down, the transfer is finished and says so; until then it
/// waits, and an error stops it.
pub proof fn transfer_terminates(s: IoState, ev: Event)
    requires
        s.state is Terminating,
    ensures
        s.step(ev) == if s.ctx.awaiting is None {
            asking_at(s, s.ctx, s.state, Action::Shutdown)
        } else {
            match ev {
                Event::Ready => (
                    stands_at(s, rests(s.ctx), TransferState::Finished),
                    Step::<()>::Ready(Ok(())),
                ),
                Event::Pending => (stands_at(s, rests(s.ctx), s.state), Step::<()>::Pending),
                Event::Failed(e) => goes_on_to_fail(s, s.ctx, e),
                _ => asking_at(s, s.ctx, s.state, Action::Shutdown),
            }
        },
{
}

/// A transfer that has failed answers with its error when shutting the writer down has
/// been tried, whatever came of it, and after that only says that it has; until then it
/// waits.
pub proof fn transfer_fails(s: IoState, ev: Event)
    requires
        s.state is Faulted,
    ensures
        ({
            let over = stands_at(
                s,
                rests(s.ctx),
                TransferState::Faulted { error: None, shut: true },
            );
            s.step(ev) == match s.state->Faulted_error {
                None => (over, Step::<()>::Ready(Err(Error::PolledAfterError))),
                Some(e) => if s.state->Faulted_shut {
                    (over, Step::<()>::Ready(Err(e)))
                } else if s.ctx.awaiting is None {
                    asking_at(s, s.ctx, s.state, Action::Shutdown)
                } else {
                    match ev {
                        Event::Ready => (over, Step::<()>::Ready(Err(e))),
                        Event::Failed(_) => (over, Step::<()>::Ready(Err(e))),
                        Event::Pending => (
                            stands_at(s, rests(s.ctx), s.state),
                            Step::<()>::Pending,
                        ),
                        _ => asking_at(s, s.ctx, s.state, Action::Shutdown),
                    }
                },
            }
        }),
{
}

} // verus!
