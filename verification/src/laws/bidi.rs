//! What holds of every [`SpliceBidiIo`](crate::io::SpliceBidiIo), and of every
//! two copies in opposite directions.
use crate::context::CtxState;
use crate::error::Error;
use crate::io::{BidiState, IoState, TransferState};
use crate::laws::copy::{copy_delivers_what_it_reads, copy_success_means_done};
use crate::laws::transfer::{
    fails_with, lemma_run, success_means_finished, transfer_delivers_what_it_reads,
};
use crate::splice::BidiCopyState;
use crate::step::{BidiStep, Event, Poll, Step};
use vstd::prelude::*;

verus! {

impl BidiState {
    /// Two transfers with the contexts `forth` and `back`, at their start, with
    /// a rate limit where `limited` says so.
    pub open spec fn begin(forth: CtxState, back: CtxState, limited: (bool, bool)) -> BidiState {
        BidiState {
            forth: IoState::begin(forth, limited.0),
            back: IoState::begin(back, limited.1),
            ret: None,
        }
    }

    /// The two transfers after `evs` have happened to them.
    pub open spec fn run(self, evs: Seq<Event>) -> BidiState
        decreases evs.len(),
    {
        if evs.len() == 0 {
            self
        } else {
            self.run(evs.drop_last()).step(evs.last()).0
        }
    }

    /// Whether `ev` is what the kernel may tell the transfer that it is for.
    pub open spec fn faithful(self, ev: Event) -> bool {
        if self.ret is None {
            self.forth.ctx.faithful(ev)
        } else {
            self.back.ctx.faithful(ev)
        }
    }

    /// Whether `evs` can happen to the two transfers, one after the other.
    pub open spec fn can_run(self, evs: Seq<Event>) -> bool
        decreases evs.len(),
    {
        evs.len() > 0 ==> {
            let s = self.run(evs.drop_last());
            &&& self.can_run(evs.drop_last())
            &&& s.accepts(evs.last())
            &&& s.faithful(evs.last())
        }
    }

    /// Which of `evs` happen to the transfer forth.
    pub open spec fn heard_forth(self, evs: Seq<Event>) -> Seq<Event>
        decreases evs.len(),
    {
        if evs.len() == 0 {
            evs
        } else {
            let heard = self.heard_forth(evs.drop_last());
            if self.run(evs.drop_last()).ret is None {
                heard.push(evs.last())
            } else {
                heard
            }
        }
    }

    /// What happens to the transfer back when `evs` happen to the two of them:
    /// it is polled when the transfer forth has been polled, and hears what is
    /// told from then on until the poll is over.
    pub open spec fn heard_back(self, evs: Seq<Event>) -> Seq<Event>
        decreases evs.len(),
    {
        if evs.len() == 0 {
            evs
        } else {
            let heard = self.heard_back(evs.drop_last());
            let s = self.run(evs.drop_last());
            if s.ret is Some {
                heard.push(evs.last())
            } else if s.forth.step(evs.last()).1 !is Do {
                heard.push(Event::Polled)
            } else {
                heard
            }
        }
    }
}

/// Whether `s` is `t`, but for an error that `t` has answered and `s` keeps since
/// the answer has not been passed on.
pub open spec fn same_but_for_kept_error(s: IoState, t: IoState) -> bool {
    &&& s.ctx == t.ctx
    &&& s.limited == t.limited
    &&& s.limiter == t.limiter
    &&& {
        ||| s.state == t.state
        ||| {
            &&& t.state matches TransferState::Faulted { error: None, .. }
            &&& s.state matches TransferState::Faulted { error: Some(_), shut: true }
        }
    }
}

proof fn lemma_same_step(s: IoState, t: IoState, ev: Event)
    requires
        same_but_for_kept_error(s, t),
    ensures
        same_but_for_kept_error(s.step(ev).0, t.step(ev).0),
        s.step(ev).1 is Do <==> t.step(ev).1 is Do,
        s.step(ev).1 matches Step::Ready(Err(_)) ==> t.step(ev).0.state
            matches TransferState::Faulted { error: None, .. },
{
    if s.state == t.state {
        assert(s == t);
    }
}

/// What holds of two transfers `s` at each point of a poll, where `forth` and
/// `back` are what the transfers would be on their own.
pub(crate) open spec fn tracks(s: BidiState, forth: IoState, back: IoState) -> bool {
    &&& same_but_for_kept_error(s.forth, forth)
    &&& same_but_for_kept_error(s.back, back)
    &&& s.ret matches Some(Poll::Ready(Err(_))) ==> forth.state
        matches TransferState::Faulted { error: None, .. }
}

proof fn lemma_tracks_ended(
    s: BidiState,
    forth: IoState,
    back: IoState,
    ret: Poll<Result<(), Error>>,
)
    requires
        s.ret is Some,
        tracks(s, forth, back),
        ret matches Poll::Ready(Err(_)) ==> back.state
            matches TransferState::Faulted { error: None, .. },
    ensures
        tracks(s.ended(s.ret->Some_0, ret).0, forth, back),
{
}

proof fn lemma_tracks_back(s: BidiState, forth: IoState, back: IoState, ev: Event)
    requires
        s.ret is Some,
        tracks(s, forth, back),
    ensures
        tracks(s.step_back(ev).0, forth, back.step(ev).0),
{
    lemma_same_step(s.back, back, ev);
    let (t, step) = s.back.step(ev);
    if step !is Do {
        lemma_tracks_ended(
            BidiState { back: t, ..s },
            forth,
            back.step(ev).0,
            step.spec_outcome(),
        );
    }
}

proof fn lemma_tracks_forth(s: BidiState, forth: IoState, back: IoState, ev: Event)
    requires
        s.ret is None,
        tracks(s, forth, back),
    ensures
        s.forth.step(ev).1 is Do ==> tracks(s.step(ev).0, forth.step(ev).0, back),
        s.forth.step(ev).1 !is Do ==> tracks(
            s.step(ev).0,
            forth.step(ev).0,
            back.step(Event::Polled).0,
        ),
{
    lemma_same_step(s.forth, forth, ev);
    let (t, step) = s.forth.step(ev);
    if step !is Do {
        lemma_tracks_back(
            BidiState { forth: t, ret: Some(step.spec_outcome()), ..s },
            forth.step(ev).0,
            back,
            Event::Polled,
        );
    }
}

pub(crate) proof fn lemma_tracks_run(begin: BidiState, evs: Seq<Event>)
    requires
        begin.ret is None,
        begin.can_run(evs),
    ensures
        tracks(
            begin.run(evs),
            begin.forth.run(begin.heard_forth(evs)),
            begin.back.run(begin.heard_back(evs)),
        ),
        begin.forth.can_run(begin.heard_forth(evs)),
        begin.back.can_run(begin.heard_back(evs)),
    decreases evs.len(),
{
    if evs.len() > 0 {
        lemma_tracks_run(begin, evs.drop_last());
        let s = begin.run(evs.drop_last());
        let heard_forth = begin.heard_forth(evs.drop_last());
        let heard_back = begin.heard_back(evs.drop_last());
        let forth = begin.forth.run(heard_forth);
        let back = begin.back.run(heard_back);
        assert(heard_forth.push(evs.last()).drop_last() =~= heard_forth);
        assert(heard_back.push(evs.last()).drop_last() =~= heard_back);
        assert(heard_back.push(Event::Polled).drop_last() =~= heard_back);
        if s.ret is Some {
            lemma_tracks_back(s, forth, back, evs.last());
        } else {
            lemma_tracks_forth(s, forth, back, evs.last());
        }
    }
}

/// The transfers in the two directions do not disturb each other: each of them is
/// what it would be if only its own events had happened, and it alone, except that
/// it keeps an error which it has answered while the other one still has to wait.
/// So all that holds of every transfer holds of both.
pub proof fn directions_are_independent(
    forth: CtxState,
    back: CtxState,
    limited: (bool, bool),
    evs: Seq<Event>,
)
    requires
        BidiState::begin(forth, back, limited).can_run(evs),
    ensures
        ({
            let begin = BidiState::begin(forth, back, limited);
            &&& same_but_for_kept_error(
                begin.run(evs).forth,
                begin.forth.run(begin.heard_forth(evs)),
            )
            &&& same_but_for_kept_error(
                begin.run(evs).back,
                begin.back.run(begin.heard_back(evs)),
            )
            &&& begin.forth.can_run(begin.heard_forth(evs))
            &&& begin.back.can_run(begin.heard_back(evs))
        }),
{
    lemma_tracks_run(BidiState::begin(forth, back, limited), evs);
}

proof fn lemma_back(s: BidiState, ev: Event)
    requires
        s.ret matches Some(Poll::Ready(Ok(_))) ==> s.forth.state is Finished,
        s.ret is Some,
    ensures
        ({
            let (t, step) = s.step_back(ev);
            step matches BidiStep::Polled(Poll::Ready(Ok(_))) ==> t.forth.state is Finished
                && t.back.state is Finished
        }),
{
    success_means_finished(s.back, ev);
}

proof fn lemma_success(begin: BidiState, evs: Seq<Event>, ev: Event)
    requires
        begin.ret is None,
    ensures
        ({
            let (t, step) = begin.run(evs).step(ev);
            step matches BidiStep::Polled(Poll::Ready(Ok(_))) ==> t.forth.state is Finished
                && t.back.state is Finished
        }),
{
    lemma_ret(begin, evs);
    let s = begin.run(evs);
    if s.ret is None {
        let (forth, step) = s.forth.step(ev);
        if step !is Do {
            success_means_finished(s.forth, ev);
            lemma_back(
                BidiState { forth, ret: Some(step.spec_outcome()), ..s },
                Event::Polled,
            );
        }
    } else {
        lemma_back(s, ev);
    }
}

proof fn lemma_ret(begin: BidiState, evs: Seq<Event>)
    requires
        begin.ret is None,
    ensures
        begin.run(evs).ret matches Some(Poll::Ready(Ok(_))) ==> begin.run(evs).forth.state
            is Finished,
    decreases evs.len(),
{
    if evs.len() > 0 {
        lemma_ret(begin, evs.drop_last());
    }
}

/// When a bidirectional transfer is over without an error, every byte that was
/// read has been written and flushed, in both directions: all that were to be
/// transferred, unless the reader had no more.
pub proof fn bidirectional_transfer_delivers_both_ways(
    forth: CtxState,
    back: CtxState,
    limited: (bool, bool),
    evs: Seq<Event>,
    ev: Event,
)
    requires
        forth.is_start(),
        back.is_start(),
        BidiState::begin(forth, back, limited).can_run(evs.push(ev)),
        BidiState::begin(forth, back, limited).run(evs).step(ev).1 matches BidiStep::Polled(
            Poll::Ready(Ok(_)),
        ),
    ensures
        ({
            let begin = BidiState::begin(forth, back, limited);
            let s = begin.run(evs).step(ev).0;
            &&& s.forth.ctx.written == s.forth.ctx.read
            &&& s.back.ctx.written == s.back.ctx.read
            &&& !s.forth.ctx.need_flush
            &&& !s.back.ctx.need_flush
            &&& s.forth.ctx.written == forth.target || begin.forth.meets_eof(
                begin.heard_forth(evs.push(ev)),
            )
            &&& s.back.ctx.written == back.target || begin.back.meets_eof(
                begin.heard_back(evs.push(ev)),
            )
        }),
{
    let begin = BidiState::begin(forth, back, limited);
    assert(evs.push(ev).drop_last() =~= evs);
    lemma_success(begin, evs, ev);
    directions_are_independent(forth, back, limited, evs.push(ev));
    transfer_delivers_what_it_reads(forth, limited.0, begin.heard_forth(evs.push(ev)));
    transfer_delivers_what_it_reads(back, limited.1, begin.heard_back(evs.push(ev)));
}

impl BidiState {
    /// Whether the step that `ev` brings about is one in which the transfer that
    /// `ev` is for fails with the error `e`.
    pub open spec fn fails_now(self, ev: Event, e: Error) -> bool {
        if self.ret is None {
            fails_with(self.forth, ev, e)
        } else {
            fails_with(self.back, ev, e)
        }
    }

    /// Whether one of the two transfers fails with the error `e` in one of the
    /// steps that `evs` bring about.
    pub open spec fn fails_during(self, evs: Seq<Event>, e: Error) -> bool
        decreases evs.len(),
    {
        evs.len() > 0 && (self.fails_during(evs.drop_last(), e) || self.run(
            evs.drop_last(),
        ).fails_now(evs.last(), e))
    }

    /// Whether the two transfers are not over after any of `evs`.
    pub open spec fn goes_on(self, evs: Seq<Event>) -> bool
        decreases evs.len(),
    {
        evs.len() > 0 ==> {
            &&& self.goes_on(evs.drop_last())
            &&& !is_over(self.run(evs.drop_last()).step(evs.last()).1)
        }
    }
}

/// Whether the step says that two transfers are over.
pub open spec fn is_over(step: BidiStep) -> bool {
    step matches BidiStep::Polled(Poll::Ready(_))
}

/// The error that a transfer holds, to be answered.
spec fn held(s: IoState) -> Option<Error> {
    match s.state {
        TransferState::Faulted { error, .. } => error,
        _ => None,
    }
}

/// Whether a transfer has answered with its error.
spec fn gave_error(s: IoState) -> bool {
    s.state matches TransferState::Faulted { error: None, .. }
}

proof fn lemma_error(s: IoState, ev: Event)
    requires
        s.stands(),
    ensures
        held(s.step(ev).0) matches Some(e) ==> held(s) == Some(e) || fails_with(s, ev, e),
        s.step(ev).1 matches Step::Ready(Err(e)) ==> gave_error(s.step(ev).0) && (held(s) == Some(
            e,
        ) || gave_error(s)),
        gave_error(s.step(ev).0) ==> s.step(ev).1 matches Step::Ready(Err(_)),
        s.state is Faulted ==> s.step(ev).0.state is Faulted,
        forall|e: Error| #[trigger] fails_with(s, ev, e) ==> s.step(ev).0.state is Faulted,
        ev is Polled ==> forall|e: Error| !#[trigger] fails_with(s, ev, e),
{
}

/// The error that a poll came to.
spec fn polled_error(poll: Poll<Result<(), Error>>) -> Option<Error> {
    match poll {
        Poll::Ready(Err(e)) => Some(e),
        _ => None,
    }
}

/// The error that polling the transfer forth came to.
spec fn forth_error(s: BidiState) -> Option<Error> {
    match s.ret {
        Some(poll) => polled_error(poll),
        None => None,
    }
}

/// What holds of the errors of two transfers that are not over, where `failed`
/// tells with which errors they have failed, and `back` is what polling the
/// transfer back came to.
spec fn errors_kept(
    s: BidiState,
    back: Option<Error>,
    failed: spec_fn(Error) -> bool,
) -> bool {
    &&& s.forth.stands()
    &&& s.back.stands()
    &&& held(s.forth) is Some ==> failed(held(s.forth)->Some_0)
    &&& held(s.back) is Some ==> failed(held(s.back)->Some_0)
    &&& forth_error(s) is Some ==> failed(forth_error(s)->Some_0)
    &&& back is Some ==> failed(back->Some_0)
    &&& gave_error(s.forth) <==> forth_error(s) is Some
    &&& gave_error(s.back) <==> back is Some
    &&& (exists|e: Error| #[trigger] failed(e)) ==> s.forth.state is Faulted || s.back.state
        is Faulted
}

/// Whether a step says that two transfers are over with an error that `failed`
/// does not tell of.
spec fn error_from_nowhere(step: BidiStep, failed: spec_fn(Error) -> bool) -> bool {
    match step {
        BidiStep::Polled(poll) => polled_error(poll) is Some && !failed(
            polled_error(poll)->Some_0,
        ),
        _ => false,
    }
}

proof fn lemma_errors_ended(
    s: BidiState,
    ret: Poll<Result<(), Error>>,
    failed: spec_fn(Error) -> bool,
)
    requires
        s.ret is Some,
        errors_kept(s, polled_error(ret), failed),
    ensures
        ({
            let (t, step) = s.ended(s.ret->Some_0, ret);
            &&& !is_over(step) ==> errors_kept(t, None, failed)
            &&& !error_from_nowhere(step, failed)
        }),
{
}

proof fn lemma_errors_back(
    s: BidiState,
    ev: Event,
    before: spec_fn(Error) -> bool,
    failed: spec_fn(Error) -> bool,
)
    requires
        s.ret is Some,
        errors_kept(s, None, before),
        s.back.step(ev).0.stands(),
        forall|e: Error| #[trigger] failed(e) <==> before(e) || fails_with(s.back, ev, e),
    ensures
        !is_over(s.step_back(ev).1) ==> errors_kept(s.step_back(ev).0, None, failed),
        !error_from_nowhere(s.step_back(ev).1, failed),
{
    lemma_error(s.back, ev);
    let (back, step) = s.back.step(ev);
    let t = BidiState { back, ..s };
    let ret = step.spec_outcome();
    if step is Do {
        assert(errors_kept(t, None, failed));
    } else {
        assert(errors_kept(t, polled_error(ret), failed));
        lemma_errors_ended(t, ret, failed);
    }
}

proof fn lemma_errors_forth(
    s: BidiState,
    ev: Event,
    before: spec_fn(Error) -> bool,
    failed: spec_fn(Error) -> bool,
)
    requires
        s.ret is None,
        errors_kept(s, None, before),
        s.forth.step(ev).0.stands(),
        s.forth.step(ev).1 !is Do ==> s.back.step(Event::Polled).0.stands(),
        forall|e: Error| #[trigger] failed(e) <==> before(e) || fails_with(s.forth, ev, e),
    ensures
        !is_over(s.step(ev).1) ==> errors_kept(s.step(ev).0, None, failed),
        !error_from_nowhere(s.step(ev).1, failed),
{
    lemma_error(s.forth, ev);
    let (forth, step) = s.forth.step(ev);
    if step is Do {
        assert(errors_kept(BidiState { forth, ..s }, None, failed));
    } else {
        let t = BidiState { forth, ret: Some(step.spec_outcome()), ..s };
        assert(errors_kept(t, None, failed));
        lemma_error(s.back, Event::Polled);
        lemma_errors_back(t, Event::Polled, failed, failed);
    }
}

proof fn lemma_same_stands(s: IoState, t: IoState)
    requires
        same_but_for_kept_error(s, t),
        t.stands(),
    ensures
        s.stands(),
{
}

proof fn lemma_errors_run(
    forth: CtxState,
    back: CtxState,
    limited: (bool, bool),
    evs: Seq<Event>,
)
    requires
        forth.is_start(),
        back.is_start(),
        BidiState::begin(forth, back, limited).can_run(evs),
        evs.len() > 0 ==> BidiState::begin(forth, back, limited).goes_on(evs.drop_last()),
    ensures
        ({
            let begin = BidiState::begin(forth, back, limited);
            let failed = |e: Error| begin.fails_during(evs, e);
            &&& begin.goes_on(evs) ==> errors_kept(begin.run(evs), None, failed)
            &&& evs.len() > 0 ==> !error_from_nowhere(
                begin.run(evs.drop_last()).step(evs.last()).1,
                failed,
            )
        }),
    decreases evs.len(),
{
    let begin = BidiState::begin(forth, back, limited);
    let failed = |e: Error| begin.fails_during(evs, e);
    if evs.len() > 0 {
        let (earlier, ev) = (evs.drop_last(), evs.last());
        let before = |e: Error| begin.fails_during(earlier, e);
        lemma_errors_run(forth, back, limited, earlier);
        lemma_tracks_run(begin, earlier);
        lemma_tracks_run(begin, evs);
        lemma_run(forth, limited.0, begin.heard_forth(evs));
        lemma_run(back, limited.1, begin.heard_back(evs));
        let s = begin.run(earlier);
        let heard_forth = begin.heard_forth(earlier);
        let heard_back = begin.heard_back(earlier);
        let (f, b) = (begin.forth.run(heard_forth), begin.back.run(heard_back));
        assert(heard_forth.push(ev).drop_last() =~= heard_forth);
        assert(heard_back.push(ev).drop_last() =~= heard_back);
        assert(heard_back.push(Event::Polled).drop_last() =~= heard_back);
        if s.ret is Some {
            lemma_same_step(s.back, b, ev);
            lemma_same_stands(s.back.step(ev).0, b.step(ev).0);
            lemma_errors_back(s, ev, before, failed);
        } else {
            lemma_same_step(s.forth, f, ev);
            lemma_same_stands(s.forth.step(ev).0, f.step(ev).0);
            if s.forth.step(ev).1 !is Do {
                lemma_same_step(s.back, b, Event::Polled);
                lemma_same_stands(s.back.step(Event::Polled).0, b.step(Event::Polled).0);
            }
            lemma_errors_forth(s, ev, before, failed);
        }
    }
}

/// The error with which a bidirectional transfer ends is one with which the
/// transfer in one of the two directions has failed, also if the other one had to
/// wait in the meantime.
pub proof fn bidirectional_error_is_one_that_occurred(
    forth: CtxState,
    back: CtxState,
    limited: (bool, bool),
    evs: Seq<Event>,
    ev: Event,
    e: Error,
)
    requires
        forth.is_start(),
        back.is_start(),
        BidiState::begin(forth, back, limited).can_run(evs.push(ev)),
        BidiState::begin(forth, back, limited).goes_on(evs),
        BidiState::begin(forth, back, limited).run(evs).step(ev).1 == BidiStep::Polled(
            Poll::Ready(Result::<(), Error>::Err(e)),
        ),
    ensures
        BidiState::begin(forth, back, limited).fails_during(evs.push(ev), e),
{
    assert(evs.push(ev).drop_last() =~= evs);
    lemma_errors_run(forth, back, limited, evs.push(ev));
}

proof fn lemma_faulted_stays(s: BidiState, ev: Event, e: Error)
    requires
        s.forth.stands(),
        s.back.stands(),
        s.forth.state is Faulted || s.back.state is Faulted || s.fails_now(ev, e),
    ensures
        s.step(ev).0.forth.state !is Finished || s.step(ev).0.back.state !is Finished,
{
    if s.ret is None {
        lemma_error(s.forth, ev);
        lemma_error(s.back, Event::Polled);
    } else {
        lemma_error(s.back, ev);
    }
}

/// A bidirectional transfer of which one direction has failed, with whatever
/// error, never ends as if all had gone well.
pub proof fn bidirectional_failure_is_not_passed_over(
    forth: CtxState,
    back: CtxState,
    limited: (bool, bool),
    evs: Seq<Event>,
    ev: Event,
    e: Error,
)
    requires
        forth.is_start(),
        back.is_start(),
        BidiState::begin(forth, back, limited).can_run(evs.push(ev)),
        BidiState::begin(forth, back, limited).goes_on(evs),
        BidiState::begin(forth, back, limited).fails_during(evs.push(ev), e),
    ensures
        !(BidiState::begin(forth, back, limited).run(evs).step(ev).1 matches BidiStep::Polled(
            Poll::Ready(Ok(_)),
        )),
{
    let begin = BidiState::begin(forth, back, limited);
    let s = begin.run(evs);
    let failed = |x: Error| begin.fails_during(evs, x);
    assert(evs.push(ev).drop_last() =~= evs);
    lemma_errors_run(forth, back, limited, evs);
    lemma_success(begin, evs, ev);
    if begin.fails_during(evs, e) {
        assert(failed(e));
    }
    lemma_faulted_stays(s, ev, e);
}

impl BidiCopyState {
    /// Two copies with the contexts `forth` and `back`, at their start.
    pub open spec fn begin(forth: CtxState, back: CtxState) -> BidiCopyState {
        BidiCopyState { forth, back, ret: None }
    }

    /// The two copies after `evs` have happened to them.
    pub open spec fn run(self, evs: Seq<Event>) -> BidiCopyState
        decreases evs.len(),
    {
        if evs.len() == 0 {
            self
        } else {
            self.run(evs.drop_last()).step(evs.last()).0
        }
    }

    /// Which of `evs` happen to the copy forth.
    pub open spec fn heard_forth(self, evs: Seq<Event>) -> Seq<Event>
        decreases evs.len(),
    {
        if evs.len() == 0 {
            evs
        } else {
            let heard = self.heard_forth(evs.drop_last());
            if self.run(evs.drop_last()).ret is None {
                heard.push(evs.last())
            } else {
                heard
            }
        }
    }

    /// What happens to the copy back when `evs` happen to the two of them: see
    /// [`BidiState::heard_back`].
    pub open spec fn heard_back(self, evs: Seq<Event>) -> Seq<Event>
        decreases evs.len(),
    {
        if evs.len() == 0 {
            evs
        } else {
            let heard = self.heard_back(evs.drop_last());
            let s = self.run(evs.drop_last());
            if s.ret is Some {
                heard.push(evs.last())
            } else if s.forth.poll_copy(evs.last()).1 !is Do {
                heard.push(Event::Polled)
            } else {
                heard
            }
        }
    }
}

/// The copies in the two directions do not disturb each other: each of them is
/// what it would be if only its own events had happened, and it alone.
pub proof fn copies_are_independent(forth: CtxState, back: CtxState, evs: Seq<Event>)
    ensures
        ({
            let begin = BidiCopyState::begin(forth, back);
            &&& begin.run(evs).forth == forth.copy_run(false, begin.heard_forth(evs))
            &&& begin.run(evs).back == back.copy_run(false, begin.heard_back(evs))
        }),
    decreases evs.len(),
{
    let begin = BidiCopyState::begin(forth, back);
    if evs.len() > 0 {
        copies_are_independent(forth, back, evs.drop_last());
        let heard_forth = begin.heard_forth(evs.drop_last());
        let heard_back = begin.heard_back(evs.drop_last());
        assert(heard_forth.push(evs.last()).drop_last() =~= heard_forth);
        assert(heard_back.push(evs.last()).drop_last() =~= heard_back);
        assert(heard_back.push(Event::Polled).drop_last() =~= heard_back);
    }
}

proof fn lemma_copies_ret(begin: BidiCopyState, evs: Seq<Event>)
    requires
        begin.ret is None,
    ensures
        begin.run(evs).ret matches Some(Poll::Ready(Ok(_))) ==> begin.run(evs).forth.full_done(),
    decreases evs.len(),
{
    if evs.len() > 0 {
        lemma_copies_ret(begin, evs.drop_last());
        copy_success_means_done(begin.run(evs.drop_last()).forth, false, evs.last());
    }
}

proof fn lemma_copies_back(s: BidiCopyState, ev: Event)
    requires
        s.ret matches Some(Poll::Ready(Ok(_))) ==> s.forth.full_done(),
        s.ret is Some,
    ensures
        ({
            let (t, step) = s.step_back(ev);
            step matches BidiStep::Polled(Poll::Ready(Ok(_))) ==> t.forth.full_done()
                && t.back.full_done()
        }),
{
    copy_success_means_done(s.back, false, ev);
}

proof fn lemma_copies_success(begin: BidiCopyState, evs: Seq<Event>, ev: Event)
    requires
        begin.ret is None,
    ensures
        ({
            let (t, step) = begin.run(evs).step(ev);
            step matches BidiStep::Polled(Poll::Ready(Ok(_))) ==> t.forth.full_done()
                && t.back.full_done()
        }),
{
    lemma_copies_ret(begin, evs);
    let s = begin.run(evs);
    if s.ret is None {
        let (forth, step) = s.forth.poll_copy(ev);
        if step !is Do {
            copy_success_means_done(s.forth, false, ev);
            lemma_copies_back(
                BidiCopyState { forth, ret: Some(step.spec_outcome()), ..s },
                Event::Polled,
            );
        }
    } else {
        lemma_copies_back(s, ev);
    }
}

/// When two copies in opposite directions are over without an error, every byte
/// that was read has been written and flushed, in both directions: all that were
/// to be copied, unless the reader had no more.
pub proof fn bidirectional_copy_delivers_both_ways(
    forth: CtxState,
    back: CtxState,
    evs: Seq<Event>,
    ev: Event,
)
    requires
        forth.is_start(),
        back.is_start(),
        forth.can_copy(false, BidiCopyState::begin(forth, back).heard_forth(evs.push(ev))),
        back.can_copy(false, BidiCopyState::begin(forth, back).heard_back(evs.push(ev))),
        BidiCopyState::begin(forth, back).run(evs).step(ev).1 matches BidiStep::Polled(
            Poll::Ready(Ok(_)),
        ),
    ensures
        ({
            let begin = BidiCopyState::begin(forth, back);
            let s = begin.run(evs).step(ev).0;
            &&& s.forth.written == s.forth.read
            &&& s.back.written == s.back.read
            &&& !s.forth.need_flush
            &&& !s.back.need_flush
            &&& s.forth.written == forth.target || forth.copy_meets_eof(
                false,
                begin.heard_forth(evs.push(ev)),
            )
            &&& s.back.written == back.target || back.copy_meets_eof(
                false,
                begin.heard_back(evs.push(ev)),
            )
        }),
{
    let begin = BidiCopyState::begin(forth, back);
    assert(evs.push(ev).drop_last() =~= evs);
    lemma_copies_success(begin, evs, ev);
    copies_are_independent(forth, back, evs.push(ev));
    copy_delivers_what_it_reads(forth, false, begin.heard_forth(evs.push(ev)));
    copy_delivers_what_it_reads(back, false, begin.heard_back(evs.push(ev)));
}

} // verus!
