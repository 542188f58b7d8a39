//! Pipe pool to reuse pipes.
use crate::error::Error;
use crate::pipe::Pipe;
use std::collections::VecDeque;
use vstd::prelude::*;

verus! {

/// The number of pipes from which on the pool is not refilled but cut down.
pub const PIPE_POOL_LIMIT: usize = 512;

/// The number of pipes that are left when the pool is cut down.
pub const PIPE_POOL_REST: usize = 256;

/// How often refilling the pool is tried again after it failed.
pub const REFILL_RETRIES: u32 = 3;

/// How long to wait after each failure, in milliseconds.
pub const REFILL_RETRY_MILLIS: u64 = 100;

/// The pipe pool: pipes are put in at the front and taken out at the back.
#[derive(Debug)]
pub struct PipePool {
    inner: VecDeque<Pipe>,
}

impl View for PipePool {
    type V = Seq<Pipe>;

    closed spec fn view(&self) -> Seq<Pipe> {
        self.inner@
    }
}

/// Whether each pipe of a pool can be used for a transfer.
pub open spec fn all_fresh(pool: Seq<Pipe>) -> bool {
    forall|i: int| 0 <= i < pool.len() ==> (#[trigger] pool[i])@.fresh()
}

/// What to do after a pipe has come back.
#[derive(Debug, Clone, Copy, PartialEq, Eq)]
pub enum Recycled {
    /// The pipe is in the pool again.
    Kept,
    /// The pipe could not be reused; refill the pool.
    Refill,
}

/// What to do to refill the pool.
#[derive(Debug, Clone, Copy, PartialEq, Eq)]
pub enum Refill {
    /// The pool was too large and has been cut down; there is nothing to do.
    CutDown,
    /// Create a pipe and hand it to [`PipePool::put_one`].
    Create,
}

impl PipePool {
    /// Creates an empty pool.
    pub fn new() -> (pool: PipePool)
        ensures
            pool@ == Seq::<Pipe>::empty(),
            all_fresh(pool@),
    {
        PipePool { inner: VecDeque::new() }
    }

    /// Whether reading from a pipe that came back shows that it is empty: the
    /// read would have to wait.
    pub open spec fn probe_empty(probe: Result<usize, Error>) -> bool {
        probe matches Err(e) && e.is_would_block()
    }

    /// Takes back a pipe that is not in use any more. `probe` is the outcome of
    /// trying to read a byte from it: the pipe is reused only if it is empty.
    pub fn recycle(&mut self, pipe: Pipe, probe: Result<usize, Error>) -> (recycled: Recycled)
        requires
            all_fresh(old(self)@),
            pipe@.fresh(),
        ensures
            all_fresh(final(self)@),
            Self::probe_empty(probe) ==> recycled == Recycled::Kept && final(self)@ == seq![pipe]
                + old(self)@,
            !Self::probe_empty(probe) ==> recycled == Recycled::Refill && final(self)@ == old(
                self,
            )@,
    {
        if let Err(e) = &probe {
            if e.would_block() {
                self.inner.push_front(pipe);
                return Recycled::Kept;
            }
        }
        Recycled::Refill
    }

    /// Starts to refill the pool: a pool that has grown too large is cut down
    /// to the pipes at its front, another gets one more pipe.
    pub fn refill_one(&mut self) -> (refill: Refill)
        requires
            all_fresh(old(self)@),
        ensures
            all_fresh(final(self)@),
            old(self)@.len() >= PIPE_POOL_LIMIT ==> refill == Refill::CutDown && final(self)@
                == old(self)@.take(PIPE_POOL_REST as int),
            old(self)@.len() < PIPE_POOL_LIMIT ==> refill == Refill::Create && final(self)@ == old(
                self,
            )@,
    {
        if self.inner.len() >= PIPE_POOL_LIMIT {
            self.inner.truncate(PIPE_POOL_REST);
            Refill::CutDown
        } else {
            Refill::Create
        }
    }

    /// Finishes refilling the pool with the pipe that was created, if creating
    /// it succeeded.
    pub fn put_one(&mut self, pipe: Result<Pipe, Error>) -> (r: Result<(), Error>)
        requires
            all_fresh(old(self)@),
            pipe matches Ok(pipe) ==> pipe@.fresh(),
        ensures
            all_fresh(final(self)@),
            match pipe {
                Ok(pipe) => r == Result::<(), Error>::Ok(()) && final(self)@ == seq![pipe] + old(
                    self,
                )@,
                Err(e) => r == Result::<(), Error>::Err(e) && final(self)@ == old(self)@,
            },
    {
        match pipe {
            Ok(pipe) => {
                self.inner.push_front(pipe);
                Ok(())
            },
            Err(e) => Err(e),
        }
    }

    /// Takes a pipe out of the pool. Where there is none, the pool is to be
    /// refilled and the caller creates a pipe of its own.
    pub fn take_one(&mut self) -> (pipe: Option<Pipe>)
        requires
            all_fresh(old(self)@),
        ensures
            all_fresh(final(self)@),
            pipe matches Some(pipe) ==> pipe@.fresh(),
            match pipe {
                Some(pipe) => old(self)@.len() > 0 && pipe == old(self)@.last() && final(self)@
                    == old(self)@.drop_last(),
                None => old(self)@.len() == 0 && final(self)@ == old(self)@,
            },
    {
        self.inner.pop_back()
    }
}

/// The retries of a refill that failed.
#[derive(Debug, Clone, Copy, PartialEq, Eq)]
pub struct RefillRetry {
    retry: u32,
}

/// What to do next in a [`RefillRetry`].
#[derive(Debug, Clone, Copy, PartialEq, Eq)]
pub enum RetryStep {
    /// Try to refill the pool.
    Refill,
    /// Give up, and say so.
    GiveUp,
}

impl RefillRetry {
    /// How many tries have failed.
    pub closed spec fn failures(self) -> nat {
        self.retry as nat
    }

    /// No try has failed yet.
    pub fn new() -> (retry: RefillRetry)
        ensures
            retry.failures() == 0,
    {
        RefillRetry { retry: 0 }
    }

    /// Returns what to do now.
    pub fn next(&self) -> (step: RetryStep)
        ensures
            step == RetryStep::Refill <==> self.failures() < REFILL_RETRIES,
            step == RetryStep::GiveUp <==> self.failures() >= REFILL_RETRIES,
    {
        if self.retry < REFILL_RETRIES {
            RetryStep::Refill
        } else {
            RetryStep::GiveUp
        }
    }

    /// Takes note of a try that failed, and returns for how many milliseconds
    /// to wait now.
    pub fn failed(&mut self) -> (millis: u64)
        requires
            old(self).failures() < REFILL_RETRIES,
        ensures
            final(self).failures() == old(self).failures() + 1,
            millis == REFILL_RETRY_MILLIS,
    {
        self.retry = self.retry + 1;
        REFILL_RETRY_MILLIS
    }
}

/// The pool after it has been refilled, where a pipe that is created for that is
/// `pipe`.
pub open spec fn refilled(pool: Seq<Pipe>, pipe: Pipe) -> Seq<Pipe> {
    if pool.len() >= PIPE_POOL_LIMIT {
        pool.take(PIPE_POOL_REST as int)
    } else {
        seq![pipe] + pool
    }
}

/// Whatever the pool held, refilling it leaves no more than
/// [`PIPE_POOL_LIMIT`] pipes in it, and never none.
pub proof fn refilling_bounds_the_pool(pool: Seq<Pipe>, pipe: Pipe)
    ensures
        1 <= refilled(pool, pipe).len() <= PIPE_POOL_LIMIT,
{
}

/// The pool is a queue: a pipe that is put in when `n` others are there is the
/// one that is taken out after those `n`.
pub proof fn pool_is_a_queue(pool: Seq<Pipe>, pipe: Pipe)
    ensures
        (seq![pipe] + pool)[(seq![pipe] + pool).len() - 1 - pool.len()] == pipe,
        pool.len() > 0 ==> {
            &&& (seq![pipe] + pool).last() == pool.last()
            &&& (seq![pipe] + pool).drop_last() == seq![pipe] + pool.drop_last()
        },
        pool.len() == 0 ==> {
            &&& (seq![pipe] + pool).last() == pipe
            &&& (seq![pipe] + pool).drop_last() == pool
        },
{
    if pool.len() > 0 {
        assert((seq![pipe] + pool).drop_last() =~= seq![pipe] + pool.drop_last());
    } else {
        assert((seq![pipe] + pool).drop_last() =~= pool);
    }
}

/// A pipe that came back is taken to be empty only if reading from it would have had to
/// wait: not if it gave a byte, nor at its end, nor if reading failed otherwise.
pub proof fn only_blocking_shows_an_empty_pipe(probe: Result<usize, Error>)
    ensures
        PipePool::probe_empty(probe) <==> probe is Err && probe->Err_0 is Io
            && probe->Err_0->Io_kind == crate::error::ErrorKind::WouldBlock,
        probe is Ok ==> !PipePool::probe_empty(probe),
{
}

} // verus!
