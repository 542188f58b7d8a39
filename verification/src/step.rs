//! What a transfer and its surroundings say to each other.
//!
//! A transfer is a state machine. It does no I/O of its own: each time it is
//! handed an [`Event`] it answers with a [`Step`], which either asks for one
//! [`Action`] to be performed, the outcome of which is the next event, or says
//! that the transfer is over or has to wait.
use crate::error::Error;
use crate::rate::{Charge, RateSetting};
use vstd::prelude::*;

verus! {

/// A call of `splice(2)` between the reader or the writer and the pipe.
#[derive(Debug, Clone, Copy, PartialEq, Eq)]
pub struct SpliceCall {
    /// The offset into the file at the other end of the pipe, if it is one.
    pub offset: Option<u64>,
    /// How many bytes to move at most.
    pub len: usize,
    /// Whether the call returns rather than waits (`SPLICE_F_NONBLOCK`).
    pub nonblock: bool,
}

/// Something that a transfer asks for.
#[derive(Debug, Clone, Copy, PartialEq, Eq)]
pub enum Action {
    /// Read the rate limit; the answer is [`Event::Limit`].
    ReadLimit,
    /// See whether the reader is ready for reading.
    WaitReadable,
    /// Try to read from the reader. If it lets the attempt go ahead, the answer
    /// is [`Event::Entered`].
    TryRead,
    /// Move data from the reader to the pipe; the answer is
    /// [`Event::Spliced`].
    SpliceIn(SpliceCall),
    /// Read the rate limit and the clock; the answer is [`Event::Clock`].
    ReadClock,
    /// Refill the token bucket and take tokens from it; the answer is
    /// [`Event::Charged`].
    Charge(Charge),
    /// Wait until `millis` milliseconds after `now`.
    Sleep { now: u64, millis: u128 },
    /// See whether the writer is ready for being written to.
    WaitWritable,
    /// Try to write to the writer. If it lets the attempt go ahead, the answer
    /// is [`Event::Entered`].
    TryWrite,
    /// Move data from the pipe to the writer; the answer is
    /// [`Event::Spliced`].
    SpliceOut(SpliceCall),
    /// Flush the writer.
    Flush,
    /// Shut the writer down.
    Shutdown,
}

/// Something that has happened to a transfer.
#[derive(Debug)]
pub enum Event {
    /// The transfer is polled.
    Polled,
    /// What was asked for is done.
    Ready,
    /// What was asked for is not done yet.
    Pending,
    /// What was asked for failed.
    Failed(Error),
    /// The attempt to read or write goes ahead.
    Entered,
    /// `splice(2)` returned: the number of bytes that it moved, and the offset
    /// into the file as the call left it.
    Spliced { ret: Result<usize, Error>, offset: Option<u64> },
    /// The rate limit, and the number of bytes that it lets pass in one tick of
    /// the timer, rounded up.
    Limit { limit: RateSetting, tick: usize },
    /// The rate limit, and the time in nanoseconds since some fixed moment.
    Clock { limit: RateSetting, now: u64 },
    /// The outcome of taking tokens: where they did not suffice, in how many
    /// whole seconds the missing ones would be there.
    Charged(Option<u64>),
}

impl Event {
    /// Whether the limit of a single connection, if the event tells it, and the
    /// length that suits it, can be computed.
    pub open spec fn wf(self) -> bool {
        match self {
            Event::Limit { limit, tick } => {
                &&& limit@.wf()
                &&& limit@.computable()
                &&& limit@.current() is Some ==> 1 <= tick && tick * 2 <= usize::MAX
            },
            Event::Clock { limit, .. } => limit@.wf() && limit@.computable(),
            _ => true,
        }
    }
}

/// How a transfer answers an event.
#[derive(Debug)]
pub enum Step<T> {
    /// Perform the action.
    Do(Action),
    /// It is over.
    Ready(Result<T, Error>),
    /// It has to wait; it is to be polled again later.
    Pending,
}

/// What polling a transfer came to.
#[derive(Debug)]
pub enum Poll<T> {
    /// It is over.
    Ready(T),
    /// It has to wait.
    Pending,
}

impl Step<()> {
    /// What the poll came to that the step ends.
    pub open spec fn spec_outcome(self) -> Poll<Result<(), Error>>
        recommends
            self !is Do,
    {
        match self {
            Step::Ready(ret) => Poll::Ready(ret),
            _ => Poll::Pending,
        }
    }

    /// Returns what the poll came to that the step ends.
    pub fn outcome(self) -> (poll: Poll<Result<(), Error>>)
        requires
            self !is Do,
        ensures
            poll == self.spec_outcome(),
    {
        match self {
            Step::Ready(ret) => Poll::Ready(ret),
            _ => Poll::Pending,
        }
    }
}

/// One of two opposite directions.
#[derive(Debug, Clone, Copy, PartialEq, Eq)]
pub enum Direction {
    /// From the first stream to the second one.
    Forth,
    /// From the second stream to the first one.
    Back,
}

/// One poll of two transfers in opposite directions: first the one forth is
/// polled, then the one back.
#[derive(Debug)]
pub struct BidiPoll {
    /// What polling the transfer forth came to, once it has been polled.
    forth: Option<Poll<Result<(), Error>>>,
}

impl View for BidiPoll {
    type V = Option<Poll<Result<(), Error>>>;

    closed spec fn view(&self) -> Option<Poll<Result<(), Error>>> {
        self.forth
    }
}

impl BidiPoll {
    /// No transfer has been polled yet.
    pub fn new() -> (poll: BidiPoll)
        ensures
            poll@ is None,
    {
        BidiPoll { forth: None }
    }

    /// Returns which of the transfers the next event is for.
    pub fn direction(&self) -> (direction: Direction)
        ensures
            direction == (if self@ is None {
                Direction::Forth
            } else {
                Direction::Back
            }),
    {
        match self.forth {
            None => Direction::Forth,
            Some(_) => Direction::Back,
        }
    }

    /// Takes note of what polling the transfer forth came to.
    pub(crate) fn set_forth(&mut self, ret: Poll<Result<(), Error>>)
        ensures
            final(self)@ == Some(ret),
    {
        self.forth = Some(ret);
    }

    /// Ends the poll, and returns what polling the transfer forth came to.
    pub(crate) fn take_forth(&mut self) -> (ret: Poll<Result<(), Error>>)
        requires
            old(self)@ is Some,
        ensures
            final(self)@ is None,
            Some(ret) == old(self)@,
    {
        let mut forth: Option<Poll<Result<(), Error>>> = None;
        std::mem::swap(&mut self.forth, &mut forth);
        forth.unwrap()
    }
}

/// How two transfers in opposite directions answer an event.
#[derive(Debug)]
pub enum BidiStep {
    /// Perform the action for the transfer in that direction.
    Do(Direction, Action),
    /// The poll is over, and has come to that.
    Polled(Poll<Result<(), Error>>),
}

/// A poll is over with just what the transfer answered, and else has to wait.
pub proof fn outcome_is_the_answer(ret: Result<(), Error>)
    ensures
        Step::<()>::Ready(ret).spec_outcome() == Poll::Ready(ret),
        Step::<()>::Pending.spec_outcome() == Poll::<Result<(), Error>>::Pending,
{
}

/// What a transfer is told of a rate limit can be used if the share of an instance can
/// be computed, and if twice what passes in a tick can, of which there is at least one
/// byte; all else can be used as it is.
pub proof fn usable_limits(ev: Event)
    ensures
        ev.wf() <==> match ev {
            Event::Limit { limit, tick } => {
                &&& 1 <= limit@.shared_by <= 65535
                &&& limit@.total <= u64::MAX
                &&& limit@.total > 0 ==> {
                    &&& limit@.total + limit@.shared_by <= u64::MAX
                    &&& 1 <= tick
                    &&& tick + tick <= usize::MAX
                }
            },
            Event::Clock { limit, .. } => {
                &&& 1 <= limit@.shared_by <= 65535
                &&& limit@.total <= u64::MAX
                &&& limit@.total > 0 ==> limit@.total + limit@.shared_by <= u64::MAX
            },
            _ => true,
        },
{
}

} // verus!
