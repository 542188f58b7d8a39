//! `splice(2)` I/O.
use crate::context::{CtxState, SpliceIoCtx};
use crate::error::Error;
use crate::rate::{
    settled, LimiterState, RateCheck, RateLimitResult, RateLimiter, RATE_LIMITER_DISABLED,
    RATE_LIMITER_ENABLED,
};
use crate::step::{Action, BidiPoll, BidiStep, Direction, Event, Poll, Step};
use crate::traffic::TrafficResult;
use crate::utils::Drained;
use vstd::prelude::*;

verus! {

/// Where a transfer stands.
#[derive(Debug)]
pub enum TransferState {
    /// Draining data from `R` to pipe, at most `ideal_len` bytes at once.
    Draining { ideal_len: Option<usize> },
    /// Having `drained` bytes checked against the rate limit, at the time
    /// `now`.
    Metering { drained: usize, now: u64 },
    /// Rate limiter is throttling the I/O operations, until `millis`
    /// milliseconds after `now`.
    Throttled { now: u64, millis: u128 },
    /// Pumping data from pipe to `W`.
    Pumping,
    /// Flushing buffered data of `W`.
    Flushing,
    /// Transfer is finished, `W` is shutting down.
    Terminating,
    /// An error occurred during the transfer; it is kept until it is answered.
    /// `shut` tells that shutting `W` down has been tried.
    Faulted { error: Option<Error>, shut: bool },
    /// Transfer is finished.
    Finished,
}

/// What a [`SpliceIo`] is.
pub struct IoState {
    /// Its context.
    pub ctx: CtxState,
    /// Whether it is rate limited.
    pub limited: bool,
    /// Its rate limiter.
    pub limiter: LimiterState,
    /// Where it stands.
    pub state: TransferState,
}

impl IoState {
    /// See [`CtxState::wf`]; data is only ever drained in portions of at least
    /// one byte, and is checked only if there is a rate limit.
    pub open spec fn wf(self) -> bool {
        &&& self.ctx.wf()
        &&& self.state matches TransferState::Draining { ideal_len } ==> ideal_len != Some(0usize)
        &&& self.state is Metering ==> self.limited
    }

    /// A transfer with the context `ctx` and without rate limit, at its start.
    pub open spec fn start(ctx: CtxState) -> IoState {
        IoState {
            ctx,
            limited: false,
            limiter: LimiterState::init(),
            state: TransferState::Draining { ideal_len: None },
        }
    }

    /// Whether the transfer can take note of `ev`.
    pub open spec fn accepts(self, ev: Event) -> bool {
        self.ctx.countable(ev) && ev.wf()
    }

    /// The transfer with the context `ctx` and where it stands replaced.
    pub open spec fn at(self, ctx: CtxState, state: TransferState) -> IoState {
        IoState { ctx, state, ..self }
    }

    /// The transfer when it stands at `state` and asks for `action`.
    pub open spec fn ask_at(self, state: TransferState, action: Action) -> (IoState, Step<()>) {
        (self.at(self.ctx.asking(action), state), Step::Do(action))
    }

    /// How draining begins: a transfer that is rate limited first has to know
    /// the limit.
    pub open spec fn begin_drain(self) -> (IoState, Step<()>) {
        if self.limited {
            self.ask_at(TransferState::Draining { ideal_len: None }, Action::ReadLimit)
        } else {
            self.drain(Event::Polled, None)
        }
    }

    /// How draining goes on. Bytes that have been drained are checked against
    /// the rate limit, if there is one, before they are pumped.
    pub open spec fn drain(self, ev: Event, ideal_len: Option<usize>) -> (IoState, Step<()>) {
        match self.ctx.poll_drain(ev, ideal_len) {
            (ctx, Step::Do(action)) => (
                self.at(ctx, TransferState::Draining { ideal_len }),
                Step::Do(action),
            ),
            (ctx, Step::Pending) => (
                self.at(ctx, TransferState::Draining { ideal_len }),
                Step::Pending,
            ),
            (ctx, Step::Ready(Err(e))) => self.at(ctx, self.state).fault(e),
            (ctx, Step::Ready(Ok(Drained::Done))) => self.at(ctx, self.state).pump(Event::Polled),
            (ctx, Step::Ready(Ok(Drained::Bytes(n)))) => if self.limited {
                self.at(ctx, self.state).ask_at(
                    TransferState::Metering { drained: n, now: 0 },
                    Action::ReadClock,
                )
            } else {
                self.at(ctx, self.state).pump(Event::Polled)
            },
        }
    }

    /// How `drained` bytes are checked against the rate limit.
    pub open spec fn meter(self, drained: usize, now: u64, ev: Event) -> (IoState, Step<()>) {
        match (self.ctx.awaiting, ev) {
            (Some(Action::Charge(_)), Event::Charged(deficit)) => match settled(now, deficit) {
                RateLimitResult::Accepted => self.at(self.ctx.idle(), self.state).pump(
                    Event::Polled,
                ),
                RateLimitResult::Throttled { now, millis } => self.ask_at(
                    TransferState::Throttled { now, millis },
                    Action::Sleep { now, millis },
                ),
            },
            (Some(Action::Charge(charge)), _) => (self, Step::Do(Action::Charge(charge))),
            (_, Event::Clock { limit, now }) => {
                let (limiter, check) = self.limiter.check(drained, limit@.current(), now);
                let s = IoState { limiter, ..self };
                match check {
                    RateCheck::Accepted => s.at(s.ctx.idle(), s.state).pump(Event::Polled),
                    RateCheck::Charge(charge) => s.ask_at(
                        TransferState::Metering { drained, now },
                        Action::Charge(charge),
                    ),
                }
            },
            _ => self.ask_at(self.state, Action::ReadClock),
        }
    }

    /// How pumping goes on. When the pipe is empty, the writer is flushed, or
    /// shut down if that was all.
    pub open spec fn pump(self, ev: Event) -> (IoState, Step<()>) {
        match self.ctx.poll_pump(ev) {
            (ctx, Step::Do(action)) => (self.at(ctx, TransferState::Pumping), Step::Do(action)),
            (ctx, Step::Pending) => (self.at(ctx, TransferState::Pumping), Step::Pending),
            (ctx, Step::Ready(Err(e))) => self.at(ctx, self.state).fault(e),
            (ctx, Step::Ready(Ok(_))) => if ctx.finished() {
                self.at(ctx, self.state).ask_at(TransferState::Terminating, Action::Shutdown)
            } else {
                self.at(ctx, self.state).ask_at(TransferState::Flushing, Action::Flush)
            },
        }
    }

    /// How the transfer goes on after the error `e`: the writer is shut down.
    pub open spec fn fault(self, e: Error) -> (IoState, Step<()>) {
        self.ask_at(TransferState::Faulted { error: Some(e), shut: false }, Action::Shutdown)
    }

    /// The transfer once it has answered with its error.
    pub open spec fn answered(self) -> IoState {
        self.at(self.ctx.idle(), TransferState::Faulted { error: None, shut: true })
    }

    /// The transfer that has answered with the error `e`, when the answer has not
    /// been passed on: it keeps the error for the next poll.
    pub open spec fn keeping(self, e: Error) -> IoState {
        self.at(self.ctx, TransferState::Faulted { error: Some(e), shut: true })
    }

    /// The transfer with the writer flushed.
    pub open spec fn flushed(self) -> IoState {
        self.at(CtxState { need_flush: false, ..self.ctx.idle() }, self.state)
    }

    /// One step of the transfer.
    pub open spec fn step(self, ev: Event) -> (IoState, Step<()>) {
        match self.state {
            TransferState::Draining { ideal_len } => match (self.ctx.awaiting, ev) {
                (None, _) => self.begin_drain(),
                (Some(Action::ReadLimit), Event::Limit { limit, tick }) => self.at(
                    self.ctx.idle(),
                    self.state,
                ).drain(
                    Event::Polled,
                    crate::rate::ideal_len(limit@.current(), tick, self.ctx.pipe.size),
                ),
                (Some(Action::ReadLimit), _) => (self, Step::Do(Action::ReadLimit)),
                _ => self.drain(ev, ideal_len),
            },
            TransferState::Metering { drained, now } => self.meter(drained, now, ev),
            TransferState::Throttled { now, millis } => match (self.ctx.awaiting, ev) {
                (Some(_), Event::Ready) => self.at(self.ctx.idle(), self.state).pump(
                    Event::Polled,
                ),
                (Some(_), Event::Pending) => (
                    self.at(self.ctx.idle(), self.state),
                    Step::Pending,
                ),
                _ => self.ask_at(self.state, Action::Sleep { now, millis }),
            },
            TransferState::Pumping => self.pump(ev),
            TransferState::Flushing => match (self.ctx.awaiting, ev) {
                (Some(_), Event::Ready) => self.flushed().begin_drain(),
                (Some(_), Event::Pending) => (
                    self.at(self.ctx.idle(), self.state),
                    Step::Pending,
                ),
                (Some(_), Event::Failed(e)) => self.fault(e),
                _ => self.ask_at(self.state, Action::Flush),
            },
            TransferState::Terminating => match (self.ctx.awaiting, ev) {
                (Some(_), Event::Ready) => (
                    self.at(self.ctx.idle(), TransferState::Finished),
                    Step::Ready(Ok(())),
                ),
                (Some(_), Event::Pending) => (
                    self.at(self.ctx.idle(), self.state),
                    Step::Pending,
                ),
                (Some(_), Event::Failed(e)) => self.fault(e),
                _ => self.ask_at(self.state, Action::Shutdown),
            },
            TransferState::Faulted { error: Some(error), shut: true } => (
                self.answered(),
                Step::Ready(Err(error)),
            ),
            TransferState::Faulted { error: Some(error), shut: false } => match (
                self.ctx.awaiting,
                ev,
            ) {
                (Some(_), Event::Ready) | (Some(_), Event::Failed(_)) => (
                    self.answered(),
                    Step::Ready(Err(error)),
                ),
                (Some(_), Event::Pending) => (
                    self.at(self.ctx.idle(), self.state),
                    Step::Pending,
                ),
                _ => self.ask_at(self.state, Action::Shutdown),
            },
            TransferState::Faulted { error: None, .. } => (
                self.answered(),
                Step::Ready(Err(Error::PolledAfterError)),
            ),
            TransferState::Finished => (self, Step::Ready(Ok(()))),
        }
    }
}

/// Zero-copy unidirectional I/O with `splice(2)`.
///
/// For bidirectional I/O version, see [`SpliceBidiIo`].
#[derive(Debug)]
pub struct SpliceIo<R, W, const RATE_LIMITER_IS_ENABLED: bool> {
    /// Context for the splice I/O operation.
    ctx: SpliceIoCtx<R, W>,
    /// To limit the transfer speed.
    rate_limiter: RateLimiter<RATE_LIMITER_IS_ENABLED>,
    state: TransferState,
}

impl<R, W, const RATE_LIMITER_IS_ENABLED: bool> View for SpliceIo<R, W, RATE_LIMITER_IS_ENABLED> {
    type V = IoState;

    closed spec fn view(&self) -> IoState {
        IoState {
            ctx: self.ctx@,
            limited: RATE_LIMITER_IS_ENABLED,
            limiter: self.rate_limiter@,
            state: self.state,
        }
    }
}

impl<R, W> SpliceIo<R, W, RATE_LIMITER_DISABLED> {
    /// Creates a new `SpliceIo` instance with ctx.
    pub fn new(ctx: SpliceIoCtx<R, W>) -> (io: SpliceIo<R, W, RATE_LIMITER_DISABLED>)
        requires
            ctx@.wf(),
        ensures
            io@.wf(),
            io@ == IoState::start(ctx@),
    {
        SpliceIo {
            ctx,
            rate_limiter: RateLimiter::empty(),
            state: TransferState::Draining { ideal_len: None },
        }
    }

    /// Applies rate limitation during the splice I/O. The transfer reads the
    /// limit whenever it needs it, see [`Action::ReadLimit`].
    pub fn with_rate_limit(self) -> (io: SpliceIo<R, W, RATE_LIMITER_ENABLED>)
        requires
            self@.wf(),
        ensures
            io@.wf(),
            io@ == (IoState { limited: true, limiter: LimiterState::init(), ..self@ }),
    {
        SpliceIo { ctx: self.ctx, rate_limiter: RateLimiter::new(), state: self.state }
    }
}

impl<R, W, const RATE_LIMITER_IS_ENABLED: bool> SpliceIo<R, W, RATE_LIMITER_IS_ENABLED> {
    /// Returns the context.
    pub fn ctx(&self) -> (ctx: &SpliceIoCtx<R, W>)
        ensures
            ctx@ == self@.ctx,
    {
        &self.ctx
    }

    /// Returns what has been transmitted, and the error that occurred, if any.
    pub fn traffic(&self, error: Option<Error>) -> (r: TrafficResult)
        ensures
            r.tx == self@.ctx.written,
            r.rx == 0,
            r.error == error,
    {
        self.ctx.traffic_client_tx(error)
    }

    /// Returns whether the transfer can take note of `ev`.
    pub fn is_acceptable(&self, ev: &Event) -> (r: bool)
        requires
            self@.wf(),
            ev matches Event::Limit { limit, .. } ==> limit@.wf(),
            ev matches Event::Clock { limit, .. } ==> limit@.wf(),
        ensures
            r == self@.accepts(*ev),
    {
        let countable: bool = self.ctx.is_countable(ev);
        let wf: bool = match ev {
            Event::Limit { limit, tick } => limit.is_computable() && (limit.current().is_none()
                || (*tick >= 1 && *tick <= usize::MAX / 2)),
            Event::Clock { limit, .. } => limit.is_computable(),
            _ => true,
        };
        countable && wf
    }

    /// Performs zero-copy data transfer from reader `R` to writer `W` using the
    /// splice syscall: takes note of what has happened, and returns what to do
    /// next.
    ///
    /// The instance MUST NOT be reused after completion.
    pub fn poll_execute(&mut self, ev: Event) -> (step: Step<()>)
        requires
            old(self)@.wf(),
            old(self)@.accepts(ev),
        ensures
            final(self)@.wf(),
            (final(self)@, step) == old(self)@.step(ev),
    {
        match self.state {
            TransferState::Draining { ideal_len } => match self.ctx.awaiting() {
                None => self.begin_drain(),
                Some(Action::ReadLimit) => match ev {
                    Event::Limit { limit, tick } => {
                        self.ctx.settle();
                        let ideal_len =
                            RateLimiter::<RATE_LIMITER_IS_ENABLED>::ideal_len(
                            &limit,
                            tick,
                            self.ctx.pipe_size(),
                        );
                        self.drain(Event::Polled, ideal_len)
                    },
                    _ => Step::Do(Action::ReadLimit),
                },
                _ => self.drain(ev, ideal_len),
            },
            TransferState::Metering { drained, now } => self.meter(drained, now, ev),
            TransferState::Throttled { now, millis } => match (self.ctx.awaiting(), ev) {
                (Some(_), Event::Ready) => {
                    // After throttled, we shall continue to pump data from pipe to `W`.
                    self.ctx.settle();
                    self.pump(Event::Polled)
                },
                (Some(_), Event::Pending) => {
                    self.ctx.settle();
                    Step::Pending
                },
                _ => self.ctx.ask(Action::Sleep { now, millis }),
            },
            TransferState::Pumping => self.pump(ev),
            TransferState::Flushing => match (self.ctx.awaiting(), ev) {
                (Some(_), Event::Ready) => {
                    self.ctx.settle();
                    self.ctx.set_flushed();
                    self.begin_drain()
                },
                (Some(_), Event::Pending) => {
                    self.ctx.settle();
                    Step::Pending
                },
                (Some(_), Event::Failed(e)) => self.fault(e),
                _ => self.ctx.ask(Action::Flush),
            },
            TransferState::Terminating => match (self.ctx.awaiting(), ev) {
                (Some(_), Event::Ready) => {
                    self.ctx.settle();
                    self.state = TransferState::Finished;
                    Step::Ready(Ok(()))
                },
                (Some(_), Event::Pending) => {
                    self.ctx.settle();
                    Step::Pending
                },
                (Some(_), Event::Failed(e)) => self.fault(e),
                _ => self.ctx.ask(Action::Shutdown),
            },
            TransferState::Faulted { .. } => self.faulted(ev),
            TransferState::Finished => Step::Ready(Ok(())),
        }
    }

    fn begin_drain(&mut self) -> (step: Step<()>)
        requires
            old(self)@.ctx.wf(),
            old(self)@.ctx.awaiting is None,
        ensures
            final(self)@.wf(),
            (final(self)@, step) == old(self)@.begin_drain(),
    {
        if RATE_LIMITER_IS_ENABLED {
            self.state = TransferState::Draining { ideal_len: None };
            self.ctx.ask(Action::ReadLimit)
        } else {
            self.drain(Event::Polled, None)
        }
    }

    fn drain(&mut self, ev: Event, ideal_len: Option<usize>) -> (step: Step<()>)
        requires
            old(self)@.ctx.wf(),
            old(self)@.ctx.countable(ev),
            ideal_len != Some(0usize),
        ensures
            final(self)@.wf(),
            (final(self)@, step) == old(self)@.drain(ev, ideal_len),
    {
        match self.ctx.poll_splice_drain(ev, ideal_len) {
            Step::Do(action) => {
                self.state = TransferState::Draining { ideal_len };
                Step::Do(action)
            },
            Step::Pending => {
                self.state = TransferState::Draining { ideal_len };
                Step::Pending
            },
            Step::Ready(Err(e)) => self.fault(e),
            Step::Ready(Ok(Drained::Done)) => self.pump(Event::Polled),
            Step::Ready(Ok(Drained::Bytes(drained))) => {
                if RATE_LIMITER_IS_ENABLED {
                    self.state = TransferState::Metering { drained, now: 0 };
                    self.ctx.ask(Action::ReadClock)
                } else {
                    self.pump(Event::Polled)
                }
            },
        }
    }

    fn meter(&mut self, drained: usize, now: u64, ev: Event) -> (step: Step<()>)
        requires
            old(self)@.ctx.wf(),
            old(self)@.state is Metering,
            old(self)@.limited,
            ev.wf(),
        ensures
            final(self)@.wf(),
            (final(self)@, step) == old(self)@.meter(drained, now, ev),
    {
        match (self.ctx.awaiting(), ev) {
            (Some(Action::Charge(_)), Event::Charged(deficit)) => {
                match RateLimiter::<RATE_LIMITER_IS_ENABLED>::settle(now, deficit) {
                    RateLimitResult::Accepted => {
                        self.ctx.settle();
                        self.pump(Event::Polled)
                    },
                    RateLimitResult::Throttled { now, millis } => {
                        self.state = TransferState::Throttled { now, millis };
                        self.ctx.ask(Action::Sleep { now, millis })
                    },
                }
            },
            (Some(Action::Charge(charge)), _) => Step::Do(Action::Charge(charge)),
            (_, Event::Clock { limit, now }) => match self.rate_limiter.check(
                drained,
                &limit,
                now,
            ) {
                RateCheck::Accepted => {
                    self.ctx.settle();
                    self.pump(Event::Polled)
                },
                RateCheck::Charge(charge) => {
                    self.state = TransferState::Metering { drained, now };
                    self.ctx.ask(Action::Charge(charge))
                },
            },
            _ => self.ctx.ask(Action::ReadClock),
        }
    }

    fn pump(&mut self, ev: Event) -> (step: Step<()>)
        requires
            old(self)@.ctx.wf(),
            old(self)@.ctx.countable(ev),
        ensures
            final(self)@.wf(),
            (final(self)@, step) == old(self)@.pump(ev),
    {
        match self.ctx.poll_splice_pump(ev) {
            Step::Do(action) => {
                self.state = TransferState::Pumping;
                Step::Do(action)
            },
            Step::Pending => {
                self.state = TransferState::Pumping;
                Step::Pending
            },
            Step::Ready(Err(e)) => self.fault(e),
            Step::Ready(Ok(_)) => {
                if self.ctx.finished() {
                    // All done, shut `W` down.
                    self.state = TransferState::Terminating;
                    self.ctx.ask(Action::Shutdown)
                } else {
                    // Flush `W` after pumping data.
                    self.state = TransferState::Flushing;
                    self.ctx.ask(Action::Flush)
                }
            },
        }
    }

    fn fault(&mut self, e: Error) -> (step: Step<()>)
        requires
            old(self)@.ctx.wf(),
        ensures
            final(self)@.wf(),
            (final(self)@, step) == old(self)@.fault(e),
    {
        self.state = TransferState::Faulted { error: Some(e), shut: false };
        self.ctx.ask(Action::Shutdown)
    }

    fn faulted(&mut self, ev: Event) -> (step: Step<()>)
        requires
            old(self)@.ctx.wf(),
            old(self)@.state is Faulted,
        ensures
            final(self)@.wf(),
            (final(self)@, step) == old(self)@.step(ev),
    {
        let mut state = TransferState::Faulted { error: None, shut: true };
        std::mem::swap(&mut self.state, &mut state);
        match state {
            TransferState::Faulted { error: Some(error), shut } => {
                if shut {
                    self.ctx.settle();
                    return Step::Ready(Err(error));
                }
                match (self.ctx.awaiting(), ev) {
                    (Some(_), Event::Ready) | (Some(_), Event::Failed(_)) => {
                        // Shutting down was a best effort: the error is that of the transfer.
                        self.ctx.settle();
                        Step::Ready(Err(error))
                    },
                    (Some(_), Event::Pending) => {
                        self.ctx.settle();
                        self.state = TransferState::Faulted { error: Some(error), shut };
                        Step::Pending
                    },
                    _ => {
                        // Best effort to shut the writer down.
                        self.state = TransferState::Faulted { error: Some(error), shut };
                        self.ctx.ask(Action::Shutdown)
                    },
                }
            },
            _ => {
                self.ctx.settle();
                Step::Ready(Err(Error::PolledAfterError))
            },
        }
    }

    /// Keeps the error `e`, which has been answered but not passed on, for the
    /// next poll.
    fn keep(&mut self, e: Error)
        requires
            old(self)@.ctx.wf(),
        ensures
            final(self)@.wf(),
            final(self)@ == old(self)@.keeping(e),
    {
        self.state = TransferState::Faulted { error: Some(e), shut: true };
    }
}

impl<R, W, const RATE_LIMITER_IS_ENABLED: bool> core::ops::Deref for SpliceIo<
    R,
    W,
    RATE_LIMITER_IS_ENABLED,
> {
    type Target = SpliceIoCtx<R, W>;

    fn deref(&self) -> (ctx: &SpliceIoCtx<R, W>)
        ensures
            ctx@ == self@.ctx,
    {
        &self.ctx
    }
}

/// What two transfers that run side by side amount to: while one of them has to
/// wait, both have to; after that an error of either counts, the first one's
/// before the second one's.
pub open spec fn transfers_joined(
    sl2sr: Poll<Result<(), Error>>,
    sr2sl: Poll<Result<(), Error>>,
) -> Poll<Result<(), Error>> {
    match (sl2sr, sr2sl) {
        (Poll::Ready(Ok(_)), Poll::Ready(Ok(_))) => Poll::Ready(Ok(())),
        (Poll::Ready(Err(e)), Poll::Ready(_)) => Poll::Ready(Err(e)),
        (Poll::Ready(Ok(_)), Poll::Ready(Err(e))) => Poll::Ready(Err(e)),
        _ => Poll::Pending,
    }
}

/// What a [`SpliceBidiIo`] is, in the course of a poll.
pub struct BidiState {
    /// The transfer from `SL` to `SR`.
    pub forth: IoState,
    /// The transfer from `SR` to `SL`.
    pub back: IoState,
    /// What polling the first of them came to, once it has been polled.
    pub ret: Option<Poll<Result<(), Error>>>,
}

impl BidiState {
    /// See [`IoState::wf`].
    pub open spec fn wf(self) -> bool {
        self.forth.wf() && self.back.wf()
    }

    /// Whether the transfer that `ev` is for can take note of it.
    pub open spec fn accepts(self, ev: Event) -> bool {
        if self.ret is None {
            self.forth.accepts(ev)
        } else {
            self.back.accepts(ev)
        }
    }

    /// How the poll ends when the two transfers have come to `forth` and `back`.
    /// If it has to wait for one of them, an error of the other one is kept
    /// there.
    pub open spec fn ended(
        self,
        forth: Poll<Result<(), Error>>,
        back: Poll<Result<(), Error>>,
    ) -> (BidiState, BidiStep) {
        let s = BidiState { ret: None, ..self };
        let t = match (forth, back) {
            (Poll::Ready(Err(e)), Poll::Pending) => BidiState { forth: s.forth.keeping(e), ..s },
            (Poll::Pending, Poll::Ready(Err(e))) => BidiState { back: s.back.keeping(e), ..s },
            _ => s,
        };
        (t, BidiStep::Polled(transfers_joined(forth, back)))
    }

    /// One step of polling the transfer back; when that has been polled, the
    /// poll is over.
    pub open spec fn step_back(self, ev: Event) -> (BidiState, BidiStep) {
        let (back, step) = self.back.step(ev);
        let s = BidiState { back, ..self };
        match step {
            Step::Do(action) => (s, BidiStep::Do(Direction::Back, action)),
            _ => s.ended(self.ret->Some_0, step.spec_outcome()),
        }
    }

    /// One step of polling both transfers: the one back is polled when the one
    /// forth has been polled, whatever that came to.
    pub open spec fn step(self, ev: Event) -> (BidiState, BidiStep) {
        if self.ret is None {
            let (forth, step) = self.forth.step(ev);
            match step {
                Step::Do(action) => (
                    BidiState { forth, ..self },
                    BidiStep::Do(Direction::Forth, action),
                ),
                _ => BidiState { forth, ret: Some(step.spec_outcome()), ..self }.step_back(
                    Event::Polled,
                ),
            }
        } else {
            self.step_back(ev)
        }
    }
}

/// Bidirectional splice I/O, combining two `SpliceIo` instances.
#[derive(Debug)]
pub struct SpliceBidiIo<
    SL,
    SR,
    const SL_RATE_LIMITER_IS_ENABLED: bool,
    const SR_RATE_LIMITER_IS_ENABLED: bool,
> {
    /// Splice I/O instance, from `SL` to `SR`.
    pub io_sl2sr: SpliceIo<SL, SR, SL_RATE_LIMITER_IS_ENABLED>,
    /// Splice I/O instance, from `SR` to `SL`.
    pub io_sr2sl: SpliceIo<SR, SL, SR_RATE_LIMITER_IS_ENABLED>,
}

impl<
    SL,
    SR,
    const SL_RATE_LIMITER_IS_ENABLED: bool,
    const SR_RATE_LIMITER_IS_ENABLED: bool,
> SpliceBidiIo<SL, SR, SL_RATE_LIMITER_IS_ENABLED, SR_RATE_LIMITER_IS_ENABLED> where
    SL: IsNotFile,
    SR: IsNotFile,
 {
    /// The two transfers in the course of `poll`.
    pub open spec fn during(self, poll: BidiPoll) -> BidiState {
        BidiState { forth: self.io_sl2sr@, back: self.io_sr2sl@, ret: poll@ }
    }

    /// Returns whether the transfer that `ev` is for can take note of it.
    pub fn is_acceptable(&self, poll: &BidiPoll, ev: &Event) -> (r: bool)
        requires
            self.during(*poll).wf(),
            ev matches Event::Limit { limit, .. } ==> limit@.wf(),
            ev matches Event::Clock { limit, .. } ==> limit@.wf(),
        ensures
            r == self.during(*poll).accepts(*ev),
    {
        match poll.direction() {
            Direction::Forth => self.io_sl2sr.is_acceptable(ev),
            Direction::Back => self.io_sr2sl.is_acceptable(ev),
        }
    }

    /// Performs zero-copy data transfer between `SL` and `SR` using the splice
    /// syscall: takes note of what has happened in the course of `poll`, and
    /// returns what to do next.
    ///
    /// The instance MUST NOT be reused after completion.
    pub fn poll_execute(&mut self, poll: &mut BidiPoll, ev: Event) -> (step: BidiStep)
        requires
            old(self).during(*old(poll)).wf(),
            old(self).during(*old(poll)).accepts(ev),
        ensures
            final(self).during(*final(poll)).wf(),
            (final(self).during(*final(poll)), step) == old(self).during(*old(poll)).step(ev),
    {
        match poll.direction() {
            Direction::Forth => match self.io_sl2sr.poll_execute(ev) {
                Step::Do(action) => BidiStep::Do(Direction::Forth, action),
                step => {
                    poll.set_forth(step.outcome());
                    self.poll_back(poll, Event::Polled)
                },
            },
            Direction::Back => self.poll_back(poll, ev),
        }
    }

    fn poll_back(&mut self, poll: &mut BidiPoll, ev: Event) -> (step: BidiStep)
        requires
            old(self).during(*old(poll)).wf(),
            old(self).during(*old(poll)).accepts(ev),
            old(poll)@ is Some,
        ensures
            final(self).during(*final(poll)).wf(),
            (final(self).during(*final(poll)), step) == old(self).during(*old(poll)).step_back(ev),
    {
        match self.io_sr2sl.poll_execute(ev) {
            Step::Do(action) => BidiStep::Do(Direction::Back, action),
            step => {
                let forth = poll.take_forth();
                BidiStep::Polled(self.join(forth, step.outcome()))
            },
        }
    }

    fn join(
        &mut self,
        io_sl2sr_ret: Poll<Result<(), Error>>,
        io_sr2sl_ret: Poll<Result<(), Error>>,
    ) -> (poll: Poll<Result<(), Error>>)
        requires
            old(self).io_sl2sr@.wf(),
            old(self).io_sr2sl@.wf(),
        ensures
            final(self).io_sl2sr@.wf(),
            final(self).io_sr2sl@.wf(),
            forall|s: BidiState|
                s.forth == old(self).io_sl2sr@ && s.back == old(self).io_sr2sl@ ==> (
                #[trigger] s.ended(io_sl2sr_ret, io_sr2sl_ret)) == (
                    BidiState {
                        forth: final(self).io_sl2sr@,
                        back: final(self).io_sr2sl@,
                        ret: None,
                    },
                    BidiStep::Polled(poll),
                ),
    {
        match (io_sl2sr_ret, io_sr2sl_ret) {
            (Poll::Ready(Err(e)), Poll::Pending) => {
                self.io_sl2sr.keep(e);
                Poll::Pending
            },
            (Poll::Pending, Poll::Ready(Err(e))) => {
                self.io_sr2sl.keep(e);
                Poll::Pending
            },
            (Poll::Pending, _) | (_, Poll::Pending) => Poll::Pending,
            (Poll::Ready(Ok(())), Poll::Ready(Ok(()))) => Poll::Ready(Ok(())),
            (Poll::Ready(Err(e)), _) => Poll::Ready(Err(e)),
            (_, Poll::Ready(Err(e))) => Poll::Ready(Err(e)),
        }
    }

    /// Returns what has been transmitted in each direction, and the error that
    /// occurred, if any.
    pub fn traffic(&self, error: Option<Error>) -> (r: TrafficResult)
        ensures
            r.tx == self.io_sl2sr@.ctx.written,
            r.rx == self.io_sr2sl@.ctx.written,
            r.error == error,
    {
        self.io_sl2sr.ctx.traffic_client_tx(error).merge(
            self.io_sr2sl.ctx.traffic_client_rx(None),
        )
    }
}

/// Marker trait: indicate a file.
///
/// Since the compiler complains *conflicting implementations* when we try to
/// implement `IsFile` for every smart pointer to a file, you have to
/// implement this marker trait for your wrapper type over a file.
pub trait IsFile {

}

impl<T> IsFile for &mut T where T: IsFile {

}

/// Marker trait: indicate not a file.
///
/// We have to introduce this because Rust does not allow the syntax `!IsFile`
/// (at least only limited to some builtin marker traits like `Send`),
pub trait IsNotFile {

}

impl<T> IsNotFile for &mut T where T: IsNotFile {

}

} // verus!
