//! Copying with a context alone, polled or blocking.
use crate::context::{CtxState, SpliceIoCtx};
use crate::error::Error;
use crate::io::IsNotFile;
use crate::step::{Action, BidiPoll, BidiStep, Direction, Event, Poll, Step};
use vstd::prelude::*;

verus! {

impl CtxState {
    /// One round of copying: flush the writer if needed, drain, pump. It is
    /// over when everything is done.
    pub open spec fn copy_round(self) -> (CtxState, Step<()>) {
        if self.full_done() {
            (self.idle(), Step::Ready(Ok(())))
        } else if self.need_flush {
            (self.asking(Action::Flush), Step::Do(Action::Flush))
        } else {
            self.idle().copy_drain(Event::Polled)
        }
    }

    /// The draining part of a round; when it is done, pumping follows.
    pub open spec fn copy_drain(self, ev: Event) -> (CtxState, Step<()>) {
        match self.poll_drain(ev, None) {
            (s, Step::Ready(Ok(_))) => s.poll_pump(Event::Polled),
            (s, Step::Ready(Err(e))) => (s, Step::Ready(Err(e))),
            (s, Step::Do(action)) => (s, Step::Do(action)),
            (s, Step::Pending) => (s, Step::Pending),
        }
    }

    /// The pumping part of a round; when it is done, the next round follows.
    pub open spec fn copy_pump(self, ev: Event) -> (CtxState, Step<()>) {
        match self.poll_pump(ev) {
            (s, Step::Ready(Ok(_))) => s.copy_round(),
            (s, step) => (s, step),
        }
    }

    /// One step of copying without blocking.
    pub open spec fn poll_copy(self, ev: Event) -> (CtxState, Step<()>) {
        match self.awaiting {
            Some(Action::Flush) => match self.poll_flush(ev) {
                (s, Step::Ready(Ok(_))) => s.copy_drain(Event::Polled),
                (s, step) => (s, step),
            },
            Some(Action::WaitReadable) | Some(Action::TryRead) | Some(
                Action::SpliceIn(_),
            ) => self.copy_drain(ev),
            Some(Action::WaitWritable) | Some(Action::TryWrite) | Some(
                Action::SpliceOut(_),
            ) => self.copy_pump(ev),
            _ => self.copy_round(),
        }
    }

    /// One round of blocking copying: flush the writer if needed, then drain
    /// and pump. It is over when everything is done.
    pub open spec fn blocking_round(self) -> (CtxState, Step<()>) {
        if self.full_done() {
            (self.idle(), Step::Ready(Ok(())))
        } else if self.need_flush {
            (self.asking(Action::Flush), Step::Do(Action::Flush))
        } else {
            self.blocking_drain()
        }
    }

    /// The draining part of a blocking round. Without anything to drain, what
    /// is in the pipe is pumped, and if there is nothing either, both are
    /// finished and only the writer may have to be flushed.
    pub open spec fn blocking_drain(self) -> (CtxState, Step<()>) {
        match self.drain_call(None, false) {
            (s, Some(call)) => (
                s.asking(Action::SpliceIn(call)),
                Step::Do(Action::SpliceIn(call)),
            ),
            (s, None) => match s.pump_call(false) {
                (t, Some(call)) => (
                    t.asking(Action::SpliceOut(call)),
                    Step::Do(Action::SpliceOut(call)),
                ),
                (t, None) => if t.need_flush {
                    (t.asking(Action::Flush), Step::Do(Action::Flush))
                } else {
                    (t.idle(), Step::Ready(Ok(())))
                },
            },
        }
    }

    /// The pumping part of a blocking round; when the pipe is empty, the next
    /// round follows.
    pub open spec fn blocking_pump(self) -> (CtxState, Step<()>) {
        match self.pump_call(false) {
            (s, Some(call)) => (
                s.asking(Action::SpliceOut(call)),
                Step::Do(Action::SpliceOut(call)),
            ),
            (s, None) => s.blocking_round(),
        }
    }

    /// One step of copying with blocking calls. A call that would block all the
    /// same is made again.
    pub open spec fn blocking_copy(self, ev: Event) -> (CtxState, Step<()>) {
        match self.awaiting {
            Some(Action::Flush) => match ev {
                Event::Ready => CtxState { need_flush: false, ..self }.blocking_drain(),
                Event::Failed(e) => (self.idle(), Step::Ready(Err(e))),
                _ => (self, Step::Do(Action::Flush)),
            },
            Some(Action::SpliceIn(call)) => match ev {
                Event::Spliced { ret, offset } => match self.drain_done(ret, offset) {
                    (s, Ok(_)) => s.blocking_pump(),
                    (s, Err(e)) => if e.is_would_block() {
                        s.blocking_drain()
                    } else {
                        (s.idle(), Step::Ready(Err(e)))
                    },
                },
                _ => (self, Step::Do(Action::SpliceIn(call))),
            },
            Some(Action::SpliceOut(call)) => match ev {
                Event::Spliced { ret, offset } => match self.pump_done(ret, offset) {
                    (s, Ok(more)) => if more {
                        s.blocking_pump()
                    } else {
                        s.blocking_round()
                    },
                    (s, Err(e)) => if e.is_would_block() {
                        s.blocking_pump()
                    } else {
                        (s.idle(), Step::Ready(Err(e)))
                    },
                },
                _ => (self, Step::Do(Action::SpliceOut(call))),
            },
            _ => self.blocking_round(),
        }
    }
}

/// What two copies that run side by side amount to: an error of either, the
/// first one's before the second one's, ends both; otherwise both have to be
/// done.
pub open spec fn copies_joined(
    a_to_b: Poll<Result<(), Error>>,
    b_to_a: Poll<Result<(), Error>>,
) -> Poll<Result<(), Error>> {
    match (a_to_b, b_to_a) {
        (Poll::Ready(Err(e)), _) => Poll::Ready(Err(e)),
        (_, Poll::Ready(Err(e))) => Poll::Ready(Err(e)),
        (Poll::Ready(Ok(_)), Poll::Ready(Ok(_))) => Poll::Ready(Ok(())),
        _ => Poll::Pending,
    }
}

/// What two copies in opposite directions are, in the course of a poll.
pub struct BidiCopyState {
    /// The copy from `A` to `B`.
    pub forth: CtxState,
    /// The copy from `B` to `A`.
    pub back: CtxState,
    /// What polling the first of them came to, once it has been polled.
    pub ret: Option<Poll<Result<(), Error>>>,
}

impl BidiCopyState {
    /// See [`CtxState::wf`].
    pub open spec fn wf(self) -> bool {
        self.forth.wf() && self.back.wf()
    }

    /// Whether the copy that `ev` is for can count the bytes that it reports.
    pub open spec fn countable(self, ev: Event) -> bool {
        if self.ret is None {
            self.forth.countable(ev)
        } else {
            self.back.countable(ev)
        }
    }

    /// One step of polling the copy back; when that has been polled, the poll
    /// is over.
    pub open spec fn step_back(self, ev: Event) -> (BidiCopyState, BidiStep) {
        let (back, step) = self.back.poll_copy(ev);
        match step {
            Step::Do(action) => (
                BidiCopyState { back, ..self },
                BidiStep::Do(Direction::Back, action),
            ),
            _ => (
                BidiCopyState { back, ret: None, ..self },
                BidiStep::Polled(copies_joined(self.ret->Some_0, step.spec_outcome())),
            ),
        }
    }

    /// One step of polling both copies: the one back is polled when the one
    /// forth has been polled, whatever that came to.
    pub open spec fn step(self, ev: Event) -> (BidiCopyState, BidiStep) {
        if self.ret is None {
            let (forth, step) = self.forth.poll_copy(ev);
            match step {
                Step::Do(action) => (
                    BidiCopyState { forth, ..self },
                    BidiStep::Do(Direction::Forth, action),
                ),
                _ => BidiCopyState { forth, ret: Some(step.spec_outcome()), ..self }.step_back(
                    Event::Polled,
                ),
            }
        } else {
            self.step_back(ev)
        }
    }
}

/// Two copies in opposite directions in the course of `poll`.
pub open spec fn copies_during(
    a_to_b: CtxState,
    b_to_a: CtxState,
    poll: BidiPoll,
) -> BidiCopyState {
    BidiCopyState { forth: a_to_b, back: b_to_a, ret: poll@ }
}

impl<R, W> SpliceIoCtx<R, W> {
    /// Copies data from `R` to `W` using `splice(2)`: takes note of what has
    /// happened, and returns what to do next.
    ///
    /// Notice
    ///
    /// - The caller MUST NOT reuse the `SpliceIoCtx` after copy finished.
    /// - The traffic result is not returned, please use
    ///   [`TrafficResult::new_from_io_result`](crate::traffic::TrafficResult::new_from_io_result)
    ///   after copy done to extract it from the ctx.
    pub fn poll_copy(&mut self, ev: Event) -> (step: Step<()>)
        requires
            old(self)@.wf(),
            old(self)@.countable(ev),
        ensures
            final(self)@.wf(),
            (final(self)@, step) == old(self)@.poll_copy(ev),
            step matches Step::Ready(Ok(_)) ==> final(self)@.full_done(),
    {
        match self.awaiting() {
            Some(Action::Flush) => match self.poll_flush(ev) {
                Step::Ready(Ok(_)) => self.copy_drain(Event::Polled),
                step => step,
            },
            Some(Action::WaitReadable) | Some(Action::TryRead) | Some(Action::SpliceIn(_)) => {
                self.copy_drain(ev)
            },
            Some(Action::WaitWritable) | Some(Action::TryWrite) | Some(Action::SpliceOut(_)) => {
                match self.poll_splice_pump(ev) {
                    Step::Ready(Ok(_)) => self.copy_round(),
                    step => step,
                }
            },
            _ => self.copy_round(),
        }
    }

    fn copy_round(&mut self) -> (step: Step<()>)
        requires
            old(self)@.wf(),
        ensures
            final(self)@.wf(),
            (final(self)@, step) == old(self)@.copy_round(),
    {
        self.settle();
        if self.full_done() {
            return Step::Ready(Ok(()));
        }
        match self.poll_flush(Event::Polled) {
            Step::Ready(Ok(_)) => self.copy_drain(Event::Polled),
            step => step,
        }
    }

    fn copy_drain(&mut self, ev: Event) -> (step: Step<()>)
        requires
            old(self)@.wf(),
            old(self)@.countable(ev),
        ensures
            final(self)@.wf(),
            (final(self)@, step) == old(self)@.copy_drain(ev),
    {
        match self.poll_splice_drain(ev, None) {
            Step::Ready(Ok(_)) => self.poll_splice_pump(Event::Polled),
            Step::Ready(Err(e)) => Step::Ready(Err(e)),
            Step::Do(action) => Step::Do(action),
            Step::Pending => Step::Pending,
        }
    }

    /// Copies data from `R` to `W` using `splice(2)`, but blocking mode: takes
    /// note of what has happened, and returns what to do next.
    ///
    /// For blocking mode copy, `R` and `W` MUST NOT be in non-blocking mode, or
    /// a dead loop waiting for I/O ready will lead to high CPU consumption.
    pub fn blocking_copy(&mut self, ev: Event) -> (step: Step<()>)
        requires
            old(self)@.wf(),
            old(self)@.countable(ev),
        ensures
            final(self)@.wf(),
            (final(self)@, step) == old(self)@.blocking_copy(ev),
            step !is Pending,
            step matches Step::Ready(Ok(_)) ==> final(self)@.full_done(),
    {
        match self.awaiting() {
            Some(Action::Flush) => match ev {
                Event::Ready => {
                    self.set_flushed();
                    self.blocking_drain()
                },
                Event::Failed(e) => {
                    self.settle();
                    Step::Ready(Err(e))
                },
                _ => Step::Do(Action::Flush),
            },
            Some(Action::SpliceIn(call)) => match ev {
                Event::Spliced { ret, offset } => match self.splice_drain_done(ret, offset) {
                    Ok(_) => self.blocking_pump(),
                    Err(e) => {
                        if e.would_block() {
                            // `R` is not ready for reading from?
                            self.blocking_drain()
                        } else {
                            self.settle();
                            Step::Ready(Err(e))
                        }
                    },
                },
                _ => Step::Do(Action::SpliceIn(call)),
            },
            Some(Action::SpliceOut(call)) => match ev {
                Event::Spliced { ret, offset } => match self.splice_pump_done(ret, offset) {
                    Ok(more) => {
                        if more {
                            self.blocking_pump()
                        } else {
                            self.blocking_round()
                        }
                    },
                    Err(e) => {
                        if e.would_block() {
                            // `W` is not ready for being written to?
                            self.blocking_pump()
                        } else {
                            self.settle();
                            Step::Ready(Err(e))
                        }
                    },
                },
                _ => Step::Do(Action::SpliceOut(call)),
            },
            _ => self.blocking_round(),
        }
    }

    fn blocking_round(&mut self) -> (step: Step<()>)
        requires
            old(self)@.wf(),
        ensures
            final(self)@.wf(),
            (final(self)@, step) == old(self)@.blocking_round(),
    {
        if self.full_done() {
            self.settle();
            Step::Ready(Ok(()))
        } else if self.need_flush() {
            self.ask(Action::Flush)
        } else {
            self.blocking_drain()
        }
    }

    fn blocking_drain(&mut self) -> (step: Step<()>)
        requires
            old(self)@.wf(),
        ensures
            final(self)@.wf(),
            (final(self)@, step) == old(self)@.blocking_drain(),
    {
        if let Some(call) = self.splice_drain(None, false) {
            return self.ask(Action::SpliceIn(call));
        }
        if let Some(call) = self.splice_pump(false) {
            return self.ask(Action::SpliceOut(call));
        }
        if self.need_flush() {
            self.ask(Action::Flush)
        } else {
            self.settle();
            Step::Ready(Ok(()))
        }
    }

    fn blocking_pump(&mut self) -> (step: Step<()>)
        requires
            old(self)@.wf(),
        ensures
            final(self)@.wf(),
            (final(self)@, step) == old(self)@.blocking_pump(),
    {
        match self.splice_pump(false) {
            Some(call) => self.ask(Action::SpliceOut(call)),
            None => self.blocking_round(),
        }
    }

    /// Copies data between `A` and `B` in both directions using `splice(2)`:
    /// takes note of what has happened in the course of `poll`, and returns what
    /// to do next.
    ///
    /// Notice
    ///
    /// - The caller MUST NOT reuse the `SpliceIoCtx` after copy finished.
    /// - The traffic result is not returned, please use
    ///   [`TrafficResult::new_from_io_result`](crate::traffic::TrafficResult::new_from_io_result)
    ///   after copy done (successfully or not).
    pub fn poll_copy_bidirectional(
        poll: &mut BidiPoll,
        ctx_a_to_b: &mut SpliceIoCtx<R, W>,
        ctx_b_to_a: &mut SpliceIoCtx<W, R>,
        ev: Event,
    ) -> (step: BidiStep) where R: IsNotFile, W: IsNotFile
        requires
            copies_during(old(ctx_a_to_b)@, old(ctx_b_to_a)@, *old(poll)).wf(),
            copies_during(old(ctx_a_to_b)@, old(ctx_b_to_a)@, *old(poll)).countable(ev),
        ensures
            copies_during(final(ctx_a_to_b)@, final(ctx_b_to_a)@, *final(poll)).wf(),
            (copies_during(final(ctx_a_to_b)@, final(ctx_b_to_a)@, *final(poll)), step)
                == copies_during(old(ctx_a_to_b)@, old(ctx_b_to_a)@, *old(poll)).step(ev),
    {
        match poll.direction() {
            Direction::Forth => match ctx_a_to_b.poll_copy(ev) {
                Step::Do(action) => BidiStep::Do(Direction::Forth, action),
                step => {
                    poll.set_forth(step.outcome());
                    Self::poll_copy_back(poll, ctx_b_to_a, Event::Polled)
                },
            },
            Direction::Back => Self::poll_copy_back(poll, ctx_b_to_a, ev),
        }
    }

    fn poll_copy_back(
        poll: &mut BidiPoll,
        ctx_b_to_a: &mut SpliceIoCtx<W, R>,
        ev: Event,
    ) -> (step: BidiStep)
        requires
            old(ctx_b_to_a)@.wf(),
            old(ctx_b_to_a)@.countable(ev),
            old(poll)@ is Some,
        ensures
            final(ctx_b_to_a)@.wf(),
            forall|forth: CtxState|
                (#[trigger] copies_during(forth, final(ctx_b_to_a)@, *final(poll)), step)
                    == copies_during(forth, old(ctx_b_to_a)@, *old(poll)).step_back(ev),
    {
        match ctx_b_to_a.poll_copy(ev) {
            Step::Do(action) => BidiStep::Do(Direction::Back, action),
            step => BidiStep::Polled(Self::join_copies(poll.take_forth(), step.outcome())),
        }
    }

    fn join_copies(
        a_to_b: Poll<Result<(), Error>>,
        b_to_a: Poll<Result<(), Error>>,
    ) -> (poll: Poll<Result<(), Error>>)
        ensures
            poll == copies_joined(a_to_b, b_to_a),
    {
        match (a_to_b, b_to_a) {
            (Poll::Ready(Ok(_)), Poll::Ready(Ok(_))) => Poll::Ready(Ok(())),
            (Poll::Ready(Err(e)), _) => Poll::Ready(Err(e)),
            (_, Poll::Ready(Err(e))) => Poll::Ready(Err(e)),
            _ => Poll::Pending,
        }
    }
}

} // verus!
