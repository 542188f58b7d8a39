//! How two transfers, or two copies, in opposite directions go on together, and that they
//! come to an end.
use crate::context::CtxState;
use crate::error::Error;
use crate::io::{BidiState, IoState, IsNotFile, SpliceBidiIo, TransferState};
use crate::laws::bidi::{is_over, lemma_tracks_run, same_but_for_kept_error};
use crate::laws::progress::lemma_advance;
use crate::laws::transfer;
use crate::splice::{copies_during, BidiCopyState};
use crate::step::{BidiPoll, BidiStep, Direction, Event, Poll, Step};
use vstd::prelude::*;

verus! {

/// What polling a single transfer or copy came to when it has given the answer `step`.
pub open spec fn came_to(step: Step<()>) -> Poll<Result<(), Error>> {
    match step {
        Step::Ready(ret) => Poll::Ready(ret),
        _ => Poll::Pending,
    }
}

/// A transfer that keeps the error `e`, which it has answered.
pub open spec fn keeps(s: IoState, e: Error) -> IoState {
    IoState { state: TransferState::Faulted { error: Some(e), shut: true }, ..s }
}

/// The transfer forth is the one from the first stream to the second, and the transfer
/// back the other one, at every point of a poll.
pub proof fn directions_are_those_of_the_streams<
    SL: IsNotFile,
    SR: IsNotFile,
    const SL_LIMITED: bool,
    const SR_LIMITED: bool,
>(io: SpliceBidiIo<SL, SR, SL_LIMITED, SR_LIMITED>, poll: BidiPoll, a: CtxState, b: CtxState)
    ensures
        io.during(poll).forth == io.io_sl2sr@,
        io.during(poll).back == io.io_sr2sl@,
        io.during(poll).ret == poll@,
        copies_during(a, b, poll) == (BidiCopyState { forth: a, back: b, ret: poll@ }),
{
}

/// Which of two transfers an event is for depends on how far the poll is, and that one
/// has to be able to take note of it.
pub proof fn events_are_for_one_direction(s: BidiState, ev: Event)
    ensures
        s.wf() <==> s.forth.wf() && s.back.wf(),
        s.ret is None ==> (s.accepts(ev) <==> s.forth.accepts(ev)),
        s.ret is Some ==> (s.accepts(ev) <==> s.back.accepts(ev)),
{
}

/// Which of two copies an event is for depends on how far the poll is, and that one has to
/// be able to count what it reports.
pub proof fn events_are_for_one_copy(s: BidiCopyState, ev: Event)
    ensures
        s.wf() <==> s.forth.wf() && s.back.wf(),
        s.ret is None ==> (s.countable(ev) <==> s.forth.countable(ev)),
        s.ret is Some ==> (s.countable(ev) <==> s.back.countable(ev)),
{
}

/// As long as the transfer forth asks for something, only it goes on.
pub proof fn forth_goes_first(s: BidiState, ev: Event)
    requires
        s.ret is None,
        s.forth.step(ev).1 is Do,
    ensures
        ({
            let (forth, step) = s.forth.step(ev);
            s.step(ev) == (
                BidiState { forth, back: s.back, ret: None },
                BidiStep::Do(Direction::Forth, step->Do_0),
            )
        }),
{
}

/// When the transfer forth has been polled, whatever that came to, the one back is polled
/// in the same step, and what the first came to is not lost.
pub proof fn back_goes_second(s: BidiState, ev: Event)
    requires
        s.ret is None,
        s.forth.step(ev).1 !is Do,
    ensures
        ({
            let (forth, step) = s.forth.step(ev);
            s.step(ev) == BidiState { forth, back: s.back, ret: Some(came_to(step)) }.step(
                Event::Polled,
            )
        }),
{
}

/// From then on only the transfer back goes on, as long as it asks for something.
pub proof fn back_goes_on(s: BidiState, ev: Event)
    requires
        s.ret is Some,
        s.back.step(ev).1 is Do,
    ensures
        ({
            let (back, step) = s.back.step(ev);
            s.step(ev) == (
                BidiState { forth: s.forth, back, ret: s.ret },
                BidiStep::Do(Direction::Back, step->Do_0),
            )
        }),
{
}

/// When both transfers have been polled, the poll is over. It has to wait just if one of
/// the two has to, and an error of the other one is then kept there. If neither has to
/// wait, all went well just if both went well, and if not, the error of the one forth is
/// reported, or that of the one back if it alone has failed.
pub proof fn both_have_been_polled(s: BidiState, ev: Event)
    requires
        s.ret is Some,
        s.back.step(ev).1 !is Do,
    ensures
        ({
            let (back, step) = s.back.step(ev);
            let (t, answer) = s.step(ev);
            let (f, b) = (s.ret->Some_0, came_to(step));
            &&& answer is Polled
            &&& t.ret is None
            &&& answer->Polled_0 is Pending <==> f is Pending || b is Pending
            &&& f is Ready && b is Ready ==> {
                &&& t.forth == s.forth
                &&& t.back == back
                &&& f->Ready_0 is Ok && b->Ready_0 is Ok <==> answer->Polled_0->Ready_0 is Ok
                &&& f->Ready_0 is Err ==> answer->Polled_0->Ready_0 == f->Ready_0
                &&& f->Ready_0 is Ok && b->Ready_0 is Err ==> answer->Polled_0->Ready_0
                    == b->Ready_0
            }
            &&& f is Pending || b is Pending ==> {
                &&& t.forth == if f is Ready && f->Ready_0 is Err {
                    keeps(s.forth, f->Ready_0->Err_0)
                } else {
                    s.forth
                }
                &&& t.back == if b is Ready && b->Ready_0 is Err {
                    keeps(back, b->Ready_0->Err_0)
                } else {
                    back
                }
            }
        }),
{
}

/// Once the transfers in both directions are finished, however much each has transferred,
/// a poll says so at once, and changes nothing.
pub proof fn finished_directions_are_over(s: BidiState, ev: Event)
    requires
        s.ret is None,
        s.forth.state is Finished,
        s.back.state is Finished,
    ensures
        s.step(ev) == (s, BidiStep::Polled(Poll::Ready(Ok(())))),
{
}

/// When one direction is finished and the other one becomes so, the poll in which that
/// happens is over and says that all went well.
pub proof fn last_direction_ends_the_transfer(s: BidiState, ev: Event)
    ensures
        s.ret matches Some(Poll::Ready(Ok(_))) && s.back.step(ev).1 == Step::<()>::Ready(Ok(()))
            ==> s.step(ev).1 == BidiStep::Polled(Poll::Ready(Ok(()))),
        s.ret is None && s.back.state is Finished && s.forth.step(ev).1 == Step::<()>::Ready(
            Ok(()),
        ) ==> s.step(ev).1 == BidiStep::Polled(Poll::Ready(Ok(()))),
{
}

/// As long as the copy forth asks for something, only it goes on.
pub proof fn copy_forth_goes_first(s: BidiCopyState, ev: Event)
    requires
        s.ret is None,
        s.forth.poll_copy(ev).1 is Do,
    ensures
        ({
            let (forth, step) = s.forth.poll_copy(ev);
            s.step(ev) == (
                BidiCopyState { forth, back: s.back, ret: None },
                BidiStep::Do(Direction::Forth, step->Do_0),
            )
        }),
{
}

/// When the copy forth has been polled, whatever that came to, the one back is polled in
/// the same step, and what the first came to is not lost.
pub proof fn copy_back_goes_second(s: BidiCopyState, ev: Event)
    requires
        s.ret is None,
        s.forth.poll_copy(ev).1 !is Do,
    ensures
        ({
            let (forth, step) = s.forth.poll_copy(ev);
            s.step(ev) == BidiCopyState { forth, back: s.back, ret: Some(came_to(step)) }.step(
                Event::Polled,
            )
        }),
{
}

/// From then on only the copy back goes on, as long as it asks for something.
pub proof fn copy_back_goes_on(s: BidiCopyState, ev: Event)
    requires
        s.ret is Some,
        s.back.poll_copy(ev).1 is Do,
    ensures
        ({
            let (back, step) = s.back.poll_copy(ev);
            s.step(ev) == (
                BidiCopyState { forth: s.forth, back, ret: s.ret },
                BidiStep::Do(Direction::Back, step->Do_0),
            )
        }),
{
}

/// When both copies have been polled, the poll is over. An error of either ends both at
/// once, though the other one has to wait, and it is that of the one forth if both have
/// failed. All went well just if both went well, and else one of them has to wait.
pub proof fn both_copies_have_been_polled(s: BidiCopyState, ev: Event)
    requires
        s.ret is Some,
        s.back.poll_copy(ev).1 !is Do,
    ensures
        ({
            let (back, step) = s.back.poll_copy(ev);
            let (t, answer) = s.step(ev);
            let (f, b) = (s.ret->Some_0, came_to(step));
            let f_failed = f is Ready && f->Ready_0 is Err;
            let b_failed = b is Ready && b->Ready_0 is Err;
            &&& t == BidiCopyState { forth: s.forth, back, ret: None }
            &&& answer is Polled
            &&& f_failed ==> answer->Polled_0 == f
            &&& b_failed && !f_failed ==> answer->Polled_0 == b
            &&& answer->Polled_0 is Pending <==> !f_failed && !b_failed && (f is Pending || b
                is Pending)
            &&& f is Ready && b is Ready && !f_failed && !b_failed ==> answer->Polled_0
                == Poll::Ready(Result::<(), Error>::Ok(()))
        }),
{
}

/// The answer that a copy gives when `ev` happens to two of them, if it is an error: the
/// copy that `ev` is for, or the one back if it is polled on that occasion.
pub open spec fn copy_fails_now(s: BidiCopyState, ev: Event, e: Error) -> bool {
    let failed = Step::<()>::Ready(Err(e));
    if s.ret is None {
        ||| s.forth.poll_copy(ev).1 == failed
        ||| s.forth.poll_copy(ev).1 !is Do && s.back.poll_copy(Event::Polled).1 == failed
    } else {
        s.back.poll_copy(ev).1 == failed
    }
}

impl BidiCopyState {
    /// Whether one of the two copies fails with the error `e` in one of the steps that
    /// `evs` bring about.
    pub open spec fn fails_during(self, evs: Seq<Event>, e: Error) -> bool
        decreases evs.len(),
    {
        evs.len() > 0 && (self.fails_during(evs.drop_last(), e) || copy_fails_now(
            self.run(evs.drop_last()),
            evs.last(),
            e,
        ))
    }

    /// Whether the two copies are not over after any of `evs`.
    pub open spec fn goes_on(self, evs: Seq<Event>) -> bool
        decreases evs.len(),
    {
        evs.len() > 0 ==> {
            &&& self.goes_on(evs.drop_last())
            &&& !is_over(self.run(evs.drop_last()).step(evs.last()).1)
        }
    }
}

/// Whether a step does not say that two copies have failed.
pub open spec fn reports_no_error(step: BidiStep) -> bool {
    match step {
        BidiStep::Polled(Poll::Ready(Err(_))) => false,
        _ => true,
    }
}

/// Whether a step ends a poll of two copies without an error: it has to wait, or all went
/// well.
pub open spec fn ends_poll_without_error(step: BidiStep) -> bool {
    step is Polled && reports_no_error(step)
}

proof fn lemma_copy_back_failure(s: BidiCopyState, ev: Event)
    requires
        s.ret is Some,
    ensures
        ({
            let (t, answer) = s.step(ev);
            let failed = s.ret matches Some(Poll::Ready(Err(_)));
            let fails = s.back.poll_copy(ev).1 matches Step::Ready(Err(_));
            &&& failed || fails ==> !ends_poll_without_error(answer)
            &&& !is_over(answer) && failed ==> t.ret == s.ret
            &&& !is_over(answer) ==> !fails
            &&& answer matches BidiStep::Polled(Poll::Ready(Err(e))) ==> s.ret == Some(
                Poll::Ready(Result::<(), Error>::Err(e)),
            ) || s.back.poll_copy(ev).1 == Step::<()>::Ready(Err(e))
        }),
{
    if s.back.poll_copy(ev).1 is Do {
        copy_back_goes_on(s, ev);
    } else {
        both_copies_have_been_polled(s, ev);
    }
}

proof fn lemma_copy_failure(s: BidiCopyState, ev: Event, e: Error)
    ensures
        ({
            let (t, answer) = s.step(ev);
            let failed = s.ret matches Some(Poll::Ready(Err(_)));
            let fails = copy_fails_now(s, ev, e);
            &&& failed || fails ==> !ends_poll_without_error(answer)
            &&& !is_over(answer) && (failed || fails) ==> t.ret matches Some(Poll::Ready(Err(_)))
        }),
        s.step(ev).1 matches BidiStep::Polled(Poll::Ready(Err(x))) ==> s.ret == Some(
            Poll::Ready(Result::<(), Error>::Err(x)),
        ) || copy_fails_now(s, ev, x),
        !is_over(s.step(ev).1) ==> (s.step(ev).0.ret matches Some(Poll::Ready(Err(x))) ==> s.ret
            == Some(Poll::Ready(Result::<(), Error>::Err(x))) || copy_fails_now(s, ev, x)),
{
    if s.ret is None {
        let (forth, step) = s.forth.poll_copy(ev);
        if step is Do {
            copy_forth_goes_first(s, ev);
        } else {
            let t = BidiCopyState { forth, back: s.back, ret: Some(came_to(step)) };
            copy_back_goes_second(s, ev);
            lemma_copy_back_failure(t, Event::Polled);
            if t.back.poll_copy(Event::Polled).1 is Do {
                copy_back_goes_on(t, Event::Polled);
            } else {
                both_copies_have_been_polled(t, Event::Polled);
            }
        }
    } else {
        lemma_copy_back_failure(s, ev);
        if s.back.poll_copy(ev).1 is Do {
            copy_back_goes_on(s, ev);
        } else {
            both_copies_have_been_polled(s, ev);
        }
    }
}

proof fn lemma_copy_failures(begin: BidiCopyState, evs: Seq<Event>, e: Error)
    requires
        begin.ret is None,
        begin.goes_on(evs),
    ensures
        begin.fails_during(evs, e) ==> begin.run(evs).ret matches Some(Poll::Ready(Err(_))),
        begin.run(evs).ret matches Some(Poll::Ready(Err(x))) ==> begin.fails_during(evs, x),
    decreases evs.len(),
{
    if evs.len() > 0 {
        let s = begin.run(evs.drop_last());
        lemma_copy_failures(begin, evs.drop_last(), e);
        lemma_copy_failure(s, evs.last(), e);
        if let Some(Poll::Ready(Err(x))) = begin.run(evs).ret {
            lemma_copy_failures(begin, evs.drop_last(), x);
            lemma_copy_failure(s, evs.last(), x);
        }
    }
}

/// Once one of two copies has failed, the poll in which that happens comes to an error,
/// though the other one may have to wait: it neither has to wait itself nor ends as if all
/// had gone well. The error is one with which one of the two has failed.
pub proof fn copy_failure_ends_both(
    begin: BidiCopyState,
    evs: Seq<Event>,
    ev: Event,
    e: Error,
)
    requires
        begin.ret is None,
        begin.goes_on(evs),
    ensures
        begin.fails_during(evs.push(ev), e) ==> !ends_poll_without_error(
            begin.run(evs).step(ev).1,
        ),
        begin.run(evs).step(ev).1 == BidiStep::Polled(
            Poll::Ready(Result::<(), Error>::Err(e)),
        ) ==> begin.fails_during(evs.push(ev), e),
{
    assert(evs.push(ev).drop_last() =~= evs);
    lemma_copy_failures(begin, evs, e);
    lemma_copy_failure(begin.run(evs), ev, e);
}

impl BidiState {
    /// Whether `ev` settles what the transfer that it is for awaits, if anything.
    pub open spec fn is_advanced_by(self, ev: Event) -> bool {
        if self.ret is None {
            self.forth.ctx.is_advanced_by(ev)
        } else {
            self.back.ctx.is_advanced_by(ev)
        }
    }

    /// Whether each of `evs`, when they happen to the two transfers one after the other,
    /// advances one of them, and none ends both.
    pub open spec fn advances(self, evs: Seq<Event>) -> bool
        decreases evs.len(),
    {
        evs.len() > 0 ==> {
            let s = self.run(evs.drop_last());
            &&& self.advances(evs.drop_last())
            &&& s.is_advanced_by(evs.last())
            &&& !is_over(s.step(evs.last()).1)
        }
    }

    /// How many steps are left at most before the two transfers are over, if none has to
    /// be repeated.
    pub open spec fn steps_left(self) -> int {
        self.forth.steps_left() + self.back.steps_left() + (if self.ret is None {
            2int
        } else {
            0
        })
    }
}

proof fn lemma_same_inv(s: IoState, t: IoState, start: CtxState, eof: bool)
    requires
        same_but_for_kept_error(s, t),
        t.inv(start, eof),
    ensures
        s.inv(start, eof),
{
}

proof fn lemma_advanced(s: IoState, ev: Event, start: CtxState, eof: bool)
    requires
        start.is_start(),
        s.inv(start, eof),
        s.accepts(ev),
        s.ctx.faithful(ev),
        s.ctx.is_advanced_by(ev),
    ensures
        s.step(ev).1 !is Pending,
        s.step(ev).1 is Ready || s.step(ev).0.steps_left() < s.steps_left(),
        s.step(ev).0.steps_left() <= s.steps_left() + 1,
{
    lemma_advance(s, ev, start, eof);
}

/// A bidirectional transfer comes to an end: however it goes, both directions are over
/// after a number of steps that depends only on how many bytes are to be transferred, not
/// counting those on which it has to wait or to try again, and then the whole is over.
pub proof fn bidirectional_transfer_comes_to_an_end(
    forth: CtxState,
    back: CtxState,
    limited: (bool, bool),
    evs: Seq<Event>,
)
    requires
        forth.is_start(),
        back.is_start(),
        BidiState::begin(forth, back, limited).can_run(evs),
        BidiState::begin(forth, back, limited).advances(evs),
    ensures
        evs.len() <= 38 * (forth.target + back.target + 2) + 34,
{
    let begin = BidiState::begin(forth, back, limited);
    lemma_both_advance(forth, back, limited, evs);
    lemma_tracks_run(begin, evs);
    transfer::lemma_run(forth, limited.0, begin.heard_forth(evs));
    transfer::lemma_run(back, limited.1, begin.heard_back(evs));
}

proof fn lemma_both_advance(
    forth: CtxState,
    back: CtxState,
    limited: (bool, bool),
    evs: Seq<Event>,
)
    requires
        forth.is_start(),
        back.is_start(),
        BidiState::begin(forth, back, limited).can_run(evs),
        BidiState::begin(forth, back, limited).advances(evs),
    ensures
        ({
            let begin = BidiState::begin(forth, back, limited);
            let s = begin.run(evs);
            &&& evs.len() + s.steps_left() <= begin.steps_left()
            &&& s.ret is None ==> s.back == begin.back
            &&& s.ret is Some ==> s.ret->Some_0 is Ready
        }),
    decreases evs.len(),
{
    let begin = BidiState::begin(forth, back, limited);
    if evs.len() > 0 {
        let (earlier, ev) = (evs.drop_last(), evs.last());
        lemma_both_advance(forth, back, limited, earlier);
        lemma_tracks_run(begin, earlier);
        let (heard_forth, heard_back) = (begin.heard_forth(earlier), begin.heard_back(earlier));
        transfer::lemma_run(forth, limited.0, heard_forth);
        transfer::lemma_run(back, limited.1, heard_back);
        let s = begin.run(earlier);
        let eof_forth = begin.forth.meets_eof(heard_forth);
        let eof_back = begin.back.meets_eof(heard_back);
        lemma_same_inv(s.forth, begin.forth.run(heard_forth), forth, eof_forth);
        lemma_same_inv(s.back, begin.back.run(heard_back), back, eof_back);
        if s.ret is None {
            lemma_advanced(s.forth, ev, forth, eof_forth);
            let (t, step) = s.forth.step(ev);
            if step is Do {
                forth_goes_first(s, ev);
            } else {
                let u = BidiState { forth: t, back: s.back, ret: Some(came_to(step)) };
                back_goes_second(s, ev);
                lemma_advanced(s.back, Event::Polled, back, eof_back);
                if s.back.step(Event::Polled).1 is Do {
                    back_goes_on(u, Event::Polled);
                } else {
                    both_have_been_polled(u, Event::Polled);
                }
            }
        } else {
            lemma_advanced(s.back, ev, back, eof_back);
            if s.back.step(ev).1 is Do {
                back_goes_on(s, ev);
            } else {
                both_have_been_polled(s, ev);
            }
        }
    }
}

} // verus!
