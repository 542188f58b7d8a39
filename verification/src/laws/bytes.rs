//! Which bytes a transfer or a copy delivers.
//!
//! The laws speak of what lies outside: what the reader has to give, what is in the
//! pipe and what the writer has got.
use crate::context::CtxState;
use crate::io::{BidiState, IoState};
use crate::laws::bidi::{copies_are_independent, directions_are_independent};
use crate::laws::{copy, transfer};
use crate::splice::BidiCopyState;
use crate::step::{Action, Event};
use vstd::prelude::*;

verus! {

/// What a transfer moves bytes between.
pub struct World {
    /// The contents of the file that is read, or all that a stream has to give.
    pub source: Seq<u8>,
    /// How many bytes have been taken from the reader.
    pub taken: nat,
    /// What is in the pipe; it comes out in the order in which it went in.
    pub pipe: Seq<u8>,
    /// The contents of the file that is written, or all that a stream has got.
    pub sink: Seq<u8>,
}

/// What a writer has when it had `sink` and gets `bytes`: a stream gets them after
/// what it has, a file at the given offset, in place of what is there.
pub open spec fn put(sink: Seq<u8>, offset: Option<u64>, bytes: Seq<u8>) -> Seq<u8> {
    match offset {
        None => sink + bytes,
        Some(off) => {
            let end = off + bytes.len();
            sink.take(off as int) + bytes + (if end < sink.len() {
                sink.skip(end)
            } else {
                Seq::empty()
            })
        },
    }
}

/// Where in the source a transfer that starts as `start` begins.
pub open spec fn source_start(start: CtxState) -> nat {
    match start.offset.spec_off_in() {
        Some(off) => off as nat,
        None => 0,
    }
}

impl World {
    /// Where the bytes come from that a call reads which has the offset `offset`.
    pub open spec fn position(self, offset: Option<u64>) -> nat {
        match offset {
            Some(off) => off as nat,
            None => self.taken,
        }
    }

    /// Whether the reader has the bytes which `ev` tells to have been read, if it
    /// tells of some, when `awaiting` was asked for.
    pub open spec fn supplies(self, awaiting: Option<Action>, ev: Event) -> bool {
        match (awaiting, ev) {
            (Some(Action::SpliceIn(call)), Event::Spliced { ret: Ok(n), .. }) => self.position(
                call.offset,
            ) + n <= self.source.len(),
            _ => true,
        }
    }

    /// What `splice(2)` has done when it is told of by `ev` and `awaiting` was
    /// asked for.
    pub open spec fn after(self, awaiting: Option<Action>, ev: Event) -> World {
        match (awaiting, ev) {
            (Some(Action::SpliceIn(call)), Event::Spliced { ret: Ok(n), .. }) => {
                let from = self.position(call.offset) as int;
                World {
                    taken: self.taken + n as nat,
                    pipe: self.pipe + self.source.subrange(from, from + n),
                    ..self
                }
            },
            (Some(Action::SpliceOut(call)), Event::Spliced { ret: Ok(n), .. }) => World {
                pipe: self.pipe.skip(n as int),
                sink: put(self.sink, call.offset, self.pipe.take(n as int)),
                ..self
            },
            _ => self,
        }
    }

    /// Whether a transfer can start as `start`: nothing has been moved yet, and
    /// the offset, if there is one, lies in the file.
    pub open spec fn is_ready_for(self, start: CtxState) -> bool {
        &&& self.taken == 0
        &&& self.pipe.len() == 0
        &&& source_start(start) <= self.source.len()
        &&& start.offset.spec_off_out() matches Some(off) ==> off <= self.sink.len()
    }

    /// Whether a transfer that started as `start`, when all was as `before`, has
    /// moved the bytes that `ctx` counts: the bytes that are read and not written
    /// are in the pipe, and the writer has got those that are written, from the
    /// start of the range on and in order.
    pub open spec fn is_moved(self, before: World, start: CtxState, ctx: CtxState) -> bool {
        let from = source_start(start) as int;
        &&& self.source == before.source
        &&& self.taken == ctx.read
        &&& from + ctx.read <= before.source.len()
        &&& self.pipe == before.source.subrange(from + ctx.written, from + ctx.read)
        &&& self.sink == put(
            before.sink,
            start.offset.spec_off_out(),
            before.source.subrange(from, from + ctx.written),
        )
    }
}

impl CtxState {
    /// How many bytes are read, and how many written, once `ev` has been taken
    /// note of.
    pub open spec fn counts_after(self, ev: Event) -> (nat, nat) {
        match (self.awaiting, ev) {
            (Some(Action::SpliceIn(_)), Event::Spliced { ret: Ok(n), .. }) => (
                self.read + n as nat,
                self.written,
            ),
            (Some(Action::SpliceOut(_)), Event::Spliced { ret: Ok(n), .. }) => (
                self.read,
                self.written + n as nat,
            ),
            _ => (self.read, self.written),
        }
    }

    /// What has become of `world` after `evs` have happened to the copy.
    pub open spec fn copy_world(self, blocking: bool, world: World, evs: Seq<Event>) -> World
        decreases evs.len(),
    {
        if evs.len() == 0 {
            world
        } else {
            let earlier = evs.drop_last();
            self.copy_world(blocking, world, earlier).after(
                self.copy_run(blocking, earlier).awaiting,
                evs.last(),
            )
        }
    }

    /// Whether the reader has all the bytes that `evs` tell to have been read.
    pub open spec fn copy_supplied(self, blocking: bool, world: World, evs: Seq<Event>) -> bool
        decreases evs.len(),
    {
        evs.len() > 0 ==> {
            let earlier = evs.drop_last();
            &&& self.copy_supplied(blocking, world, earlier)
            &&& self.copy_world(blocking, world, earlier).supplies(
                self.copy_run(blocking, earlier).awaiting,
                evs.last(),
            )
        }
    }
}

impl IoState {
    /// What has become of `world` after `evs` have happened to the transfer.
    pub open spec fn world(self, world: World, evs: Seq<Event>) -> World
        decreases evs.len(),
    {
        if evs.len() == 0 {
            world
        } else {
            let earlier = evs.drop_last();
            self.world(world, earlier).after(self.run(earlier).ctx.awaiting, evs.last())
        }
    }

    /// Whether the reader has all the bytes that `evs` tell to have been read.
    pub open spec fn supplied(self, world: World, evs: Seq<Event>) -> bool
        decreases evs.len(),
    {
        evs.len() > 0 ==> {
            let earlier = evs.drop_last();
            &&& self.supplied(world, earlier)
            &&& self.world(world, earlier).supplies(self.run(earlier).ctx.awaiting, evs.last())
        }
    }
}

/// Bytes that a writer gets one after the other are those that it gets at once.
proof fn lemma_put(sink: Seq<u8>, offset: Option<u64>, a: Seq<u8>, b: Seq<u8>)
    requires
        offset matches Some(off) ==> off <= sink.len() && off + a.len() <= u64::MAX,
    ensures
        put(
            put(sink, offset, a),
            match offset {
                Some(off) => Some((off + a.len()) as u64),
                None => None,
            },
            b,
        ) == put(sink, offset, a + b),
{
    match offset {
        None => {
            assert(sink + a + b =~= sink + (a + b));
        },
        Some(off) => {
            let next = (off + a.len()) as u64;
            let mid = put(sink, offset, a);
            assert(mid.take(next as int) =~= sink.take(off as int) + a);
            assert(put(mid, Some(next), b) =~= put(sink, offset, a + b));
        },
    }
}

proof fn lemma_move(
    world: World,
    ev: Event,
    ctx: CtxState,
    next: CtxState,
    before: World,
    start: CtxState,
)
    requires
        start.is_start(),
        before.is_ready_for(start),
        world.is_moved(before, start, ctx),
        ctx.adds_up(start),
        ctx.asks_rightly(),
        ctx.faithful(ev),
        world.supplies(ctx.awaiting, ev),
        (next.read, next.written) == ctx.counts_after(ev),
    ensures
        world.after(ctx.awaiting, ev).is_moved(before, start, next),
{
    let from = source_start(start) as int;
    let source = before.source;
    match (ctx.awaiting, ev) {
        (Some(Action::SpliceIn(call)), Event::Spliced { ret: Ok(n), .. }) => {
            assert(world.position(call.offset) == from + ctx.read);
            assert(world.after(ctx.awaiting, ev).pipe =~= source.subrange(
                from + next.written,
                from + next.read,
            ));
        },
        (Some(Action::SpliceOut(call)), Event::Spliced { ret: Ok(n), .. }) => {
            let a = source.subrange(from, from + ctx.written);
            let b = source.subrange(from + ctx.written, from + next.written);
            assert(world.pipe.take(n as int) =~= b);
            assert(world.pipe.skip(n as int) =~= source.subrange(
                from + next.written,
                from + next.read,
            ));
            assert(a + b =~= source.subrange(from, from + next.written));
            lemma_put(before.sink, start.offset.spec_off_out(), a, b);
        },
        _ => {},
    }
}

proof fn lemma_start(before: World, start: CtxState)
    requires
        start.is_start(),
        before.is_ready_for(start),
    ensures
        before.is_moved(before, start, start),
{
    let from = source_start(start) as int;
    assert(before.source.subrange(from, from) =~= Seq::<u8>::empty());
    assert(before.pipe =~= Seq::<u8>::empty());
    assert(put(before.sink, start.offset.spec_off_out(), Seq::<u8>::empty()) =~= before.sink);
}

proof fn lemma_transfer_counts(s: IoState, ev: Event, start: CtxState, eof: bool)
    requires
        s.inv(start, eof),
        s.ctx.faithful(ev),
    ensures
        (s.step(ev).0.ctx.read, s.step(ev).0.ctx.written) == s.ctx.counts_after(ev),
{
}

proof fn lemma_copy_counts(s: CtxState, blocking: bool, ev: Event, start: CtxState, eof: bool)
    requires
        s.copy_inv(start, blocking, eof),
        s.faithful(ev),
    ensures
        (s.copy_step(blocking, ev).0.read, s.copy_step(blocking, ev).0.written) == s.counts_after(
            ev,
        ),
{
}

/// At each point of a transfer the writer has got the bytes of the source from the
/// start of the range on, in order, as many as have been written; those that have
/// been read and not written are in the pipe, in order as well. Nothing else of a
/// file that is written has changed. When the transfer is finished, nothing is left
/// in the pipe.
pub proof fn transfer_delivers_the_bytes_in_order(
    start: CtxState,
    limited: bool,
    world: World,
    evs: Seq<Event>,
)
    requires
        start.is_start(),
        world.is_ready_for(start),
        IoState::begin(start, limited).can_run(evs),
        IoState::begin(start, limited).supplied(world, evs),
    ensures
        ({
            let begin = IoState::begin(start, limited);
            let s = begin.run(evs);
            &&& begin.world(world, evs).is_moved(world, start, s.ctx)
            &&& s.state is Finished ==> begin.world(world, evs).pipe.len() == 0
        }),
    decreases evs.len(),
{
    let begin = IoState::begin(start, limited);
    if evs.len() == 0 {
        lemma_start(world, start);
    } else {
        let (earlier, ev) = (evs.drop_last(), evs.last());
        transfer_delivers_the_bytes_in_order(start, limited, world, earlier);
        transfer::lemma_run(start, limited, earlier);
        let s = begin.run(earlier);
        lemma_transfer_counts(s, ev, start, begin.meets_eof(earlier));
        lemma_move(begin.world(world, earlier), ev, s.ctx, s.step(ev).0.ctx, world, start);
    }
    transfer::lemma_run(start, limited, evs);
}

/// At each point of a copy, blocking or not, the writer has got the bytes of the
/// source from the start of the range on, in order, as many as have been written;
/// those that have been read and not written are in the pipe, in order as well.
/// Nothing else of a file that is written has changed. When all is done, nothing is
/// left in the pipe.
pub proof fn copy_delivers_the_bytes_in_order(
    start: CtxState,
    blocking: bool,
    world: World,
    evs: Seq<Event>,
)
    requires
        start.is_start(),
        world.is_ready_for(start),
        start.can_copy(blocking, evs),
        start.copy_supplied(blocking, world, evs),
    ensures
        ({
            let s = start.copy_run(blocking, evs);
            &&& start.copy_world(blocking, world, evs).is_moved(world, start, s)
            &&& s.full_done() ==> start.copy_world(blocking, world, evs).pipe.len() == 0
        }),
    decreases evs.len(),
{
    if evs.len() == 0 {
        lemma_start(world, start);
    } else {
        let (earlier, ev) = (evs.drop_last(), evs.last());
        copy_delivers_the_bytes_in_order(start, blocking, world, earlier);
        copy::lemma_run(start, blocking, earlier);
        let s = start.copy_run(blocking, earlier);
        lemma_copy_counts(s, blocking, ev, start, start.copy_meets_eof(blocking, earlier));
        lemma_move(
            start.copy_world(blocking, world, earlier),
            ev,
            s,
            s.copy_step(blocking, ev).0,
            world,
            start,
        );
    }
    copy::lemma_run(start, blocking, evs);
}

/// What holds of the bytes of every transfer holds of both directions of a
/// bidirectional one.
pub proof fn both_directions_deliver_the_bytes_in_order(
    forth: CtxState,
    back: CtxState,
    limited: (bool, bool),
    worlds: (World, World),
    evs: Seq<Event>,
)
    requires
        forth.is_start(),
        back.is_start(),
        worlds.0.is_ready_for(forth),
        worlds.1.is_ready_for(back),
        BidiState::begin(forth, back, limited).can_run(evs),
        IoState::begin(forth, limited.0).supplied(
            worlds.0,
            BidiState::begin(forth, back, limited).heard_forth(evs),
        ),
        IoState::begin(back, limited.1).supplied(
            worlds.1,
            BidiState::begin(forth, back, limited).heard_back(evs),
        ),
    ensures
        ({
            let begin = BidiState::begin(forth, back, limited);
            let s = begin.run(evs);
            &&& begin.forth.world(worlds.0, begin.heard_forth(evs)).is_moved(
                worlds.0,
                forth,
                s.forth.ctx,
            )
            &&& begin.back.world(worlds.1, begin.heard_back(evs)).is_moved(
                worlds.1,
                back,
                s.back.ctx,
            )
        }),
{
    let begin = BidiState::begin(forth, back, limited);
    directions_are_independent(forth, back, limited, evs);
    transfer_delivers_the_bytes_in_order(forth, limited.0, worlds.0, begin.heard_forth(evs));
    transfer_delivers_the_bytes_in_order(back, limited.1, worlds.1, begin.heard_back(evs));
}

/// What holds of the bytes of every copy holds of two copies in opposite directions.
pub proof fn both_copies_deliver_the_bytes_in_order(
    forth: CtxState,
    back: CtxState,
    worlds: (World, World),
    evs: Seq<Event>,
)
    requires
        forth.is_start(),
        back.is_start(),
        worlds.0.is_ready_for(forth),
        worlds.1.is_ready_for(back),
        forth.can_copy(false, BidiCopyState::begin(forth, back).heard_forth(evs)),
        back.can_copy(false, BidiCopyState::begin(forth, back).heard_back(evs)),
        forth.copy_supplied(
            false,
            worlds.0,
            BidiCopyState::begin(forth, back).heard_forth(evs),
        ),
        back.copy_supplied(
            false,
            worlds.1,
            BidiCopyState::begin(forth, back).heard_back(evs),
        ),
    ensures
        ({
            let begin = BidiCopyState::begin(forth, back);
            let s = begin.run(evs);
            &&& forth.copy_world(false, worlds.0, begin.heard_forth(evs)).is_moved(
                worlds.0,
                forth,
                s.forth,
            )
            &&& back.copy_world(false, worlds.1, begin.heard_back(evs)).is_moved(
                worlds.1,
                back,
                s.back,
            )
        }),
{
    let begin = BidiCopyState::begin(forth, back);
    copies_are_independent(forth, back, evs);
    copy_delivers_the_bytes_in_order(forth, false, worlds.0, begin.heard_forth(evs));
    copy_delivers_the_bytes_in_order(back, false, worlds.1, begin.heard_back(evs));
}

} // verus!
