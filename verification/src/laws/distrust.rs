//! What holds of a transfer even if it is told of more bytes than it asked for.
use crate::context::CtxState;
use crate::io::{IoState, TransferState};
use crate::step::{Action, Event};
use vstd::prelude::*;

verus! {

impl IoState {
    /// Whether the transfer can take note of `evs`, one after the other.
    pub open spec fn can_note(self, evs: Seq<Event>) -> bool
        decreases evs.len(),
    {
        evs.len() > 0 ==> {
            &&& self.can_note(evs.drop_last())
            &&& self.run(evs.drop_last()).accepts(evs.last())
        }
    }

    /// What holds of the counts of a transfer at each point of it, whatever it
    /// is told.
    pub open spec fn balanced(self) -> bool {
        &&& self.wf()
        &&& self.stands()
        &&& self.state !is Faulted ==> self.ctx.written <= self.ctx.read
        &&& self.ctx.awaiting matches Some(Action::SpliceOut(_)) ==> self.ctx.written
            < self.ctx.read
    }
}

spec fn can_pump(s: IoState) -> bool {
    &&& s.ctx.wf()
    &&& !s.ctx.pipe.pump_finished()
    &&& s.ctx.written <= s.ctx.read
    &&& s.ctx.need_flush || !s.ctx.pipe.drain_finished() ==> s.ctx.written < s.ctx.read
    &&& match s.ctx.awaiting {
        None
        | Some(Action::WaitWritable)
        | Some(Action::TryWrite) => true,
        Some(Action::SpliceOut(_)) => s.ctx.written < s.ctx.read,
        _ => false,
    }
}

spec fn can_drain(s: IoState, ideal_len: Option<usize>) -> bool {
    &&& s.ctx.wf()
    &&& !s.ctx.pipe.pump_finished()
    &&& !s.ctx.need_flush
    &&& s.ctx.read == s.ctx.written
    &&& ideal_len matches Some(len) ==> 1 <= len <= s.ctx.pipe.size
    &&& match s.ctx.awaiting {
        None | Some(Action::WaitReadable) | Some(Action::TryRead) => true,
        Some(Action::SpliceIn(call)) => ideal_len matches Some(len) ==> call.len <= len,
        _ => false,
    }
}

proof fn lemma_pump(s: IoState, ev: Event)
    requires
        can_pump(s),
        s.ctx.countable(ev),
    ensures
        s.pump(ev).0.balanced(),
{
}

proof fn lemma_drain(s: IoState, ev: Event, ideal_len: Option<usize>)
    requires
        can_drain(s, ideal_len),
        s.ctx.countable(ev),
    ensures
        s.drain(ev, ideal_len).0.balanced(),
{
    let (ctx, step) = s.ctx.poll_drain(ev, ideal_len);
    let t = s.at(ctx, s.state);
    if step is Ready && step->Ready_0 is Ok {
        assert(can_pump(t));
        lemma_pump(t, Event::Polled);
    }
}

proof fn lemma_step(s: IoState, ev: Event)
    requires
        s.balanced(),
        s.accepts(ev),
    ensures
        s.step(ev).0.balanced(),
{
    let idle = s.at(s.ctx.idle(), s.state);
    match s.state {
        TransferState::Draining { ideal_len } => {
            match (s.ctx.awaiting, ev) {
                (None, _) => {
                    if !s.limited {
                        lemma_drain(s, Event::Polled, None);
                    }
                },
                (Some(Action::ReadLimit), Event::Limit { limit, tick }) => {
                    let ideal_len = crate::rate::ideal_len(
                        limit@.current(),
                        tick,
                        s.ctx.pipe.size,
                    );
                    lemma_drain(idle, Event::Polled, ideal_len);
                },
                (Some(Action::ReadLimit), _) => {},
                _ => {
                    lemma_drain(s, ev, ideal_len);
                },
            }
        },
        TransferState::Metering { drained, now } => {
            if let Event::Clock { limit, now } = ev {
                let t = IoState {
                    limiter: s.limiter.check(drained, limit@.current(), now).0,
                    ..idle
                };
                lemma_pump(t, Event::Polled);
            }
            lemma_pump(idle, Event::Polled);
        },
        TransferState::Throttled { now, millis } => {
            lemma_pump(idle, Event::Polled);
        },
        TransferState::Pumping => {
            lemma_pump(s, ev);
        },
        TransferState::Flushing => {
            if !s.limited {
                lemma_drain(s.flushed(), Event::Polled, None);
            }
        },
        _ => {},
    }
}

proof fn lemma_run(start: CtxState, limited: bool, evs: Seq<Event>)
    requires
        start.is_start(),
        IoState::begin(start, limited).can_note(evs),
    ensures
        IoState::begin(start, limited).run(evs).balanced(),
    decreases evs.len(),
{
    let begin = IoState::begin(start, limited);
    if evs.len() > 0 {
        lemma_run(start, limited, evs.drop_last());
        lemma_step(begin.run(evs.drop_last()), evs.last());
    }
}

/// Whatever a transfer is told, also if it is told that more bytes have been
/// written than were there, it never passes for finished unless as many bytes have
/// been written as were read and the writer is flushed; and as long as it has not
/// failed, no more have been written than read.
pub proof fn success_means_balanced(start: CtxState, limited: bool, evs: Seq<Event>)
    requires
        start.is_start(),
        IoState::begin(start, limited).can_note(evs),
    ensures
        ({
            let s = IoState::begin(start, limited).run(evs);
            &&& s.state !is Faulted ==> s.ctx.written <= s.ctx.read
            &&& s.state is Finished ==> {
                &&& s.ctx.written == s.ctx.read
                &&& !s.ctx.need_flush
                &&& s.ctx.finished()
            }
        }),
{
    lemma_run(start, limited, evs);
}

} // verus!
