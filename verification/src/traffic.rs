//! Traffic transmitted result.
use crate::context::SpliceIoCtx;
use crate::error::Error;
use vstd::prelude::*;

verus! {

/// Traffic transmitted throughout the `splice(2)` operation, regardless of any
/// errors.
#[derive(Debug)]
pub struct TrafficResult {
    /// The number of bytes that have been transferred from a to b
    pub tx: usize,
    /// The number of bytes that have been transferred from b to a.
    pub rx: usize,
    /// The error that occurred during the `splice(2)` operation, if any.
    pub error: Option<Error>,
}

impl TrafficResult {
    /// The first error of two operations, if there is one.
    pub open spec fn first_error(a: Option<Error>, b: Option<Error>) -> Option<Error> {
        if a is Some {
            a
        } else {
            b
        }
    }

    /// What two operations have transmitted together.
    pub open spec fn merged(self, other: TrafficResult) -> TrafficResult
        recommends
            self.tx + other.tx <= usize::MAX,
            self.rx + other.rx <= usize::MAX,
    {
        TrafficResult {
            tx: (self.tx + other.tx) as usize,
            rx: (self.rx + other.rx) as usize,
            error: Self::first_error(self.error, other.error),
        }
    }

    /// What has been transmitted, as far as it can be counted.
    pub open spec fn spec_sum(self) -> int {
        if self.tx + self.rx <= usize::MAX {
            self.tx + self.rx
        } else {
            usize::MAX as int
        }
    }

    /// Merges two `TrafficResult` instances.
    #[must_use]
    #[inline]
    pub fn merge(self, other: TrafficResult) -> (r: TrafficResult)
        requires
            self.tx + other.tx <= usize::MAX,
            self.rx + other.rx <= usize::MAX,
        ensures
            r == self.merged(other),
            r.tx == self.tx + other.tx,
            r.rx == self.rx + other.rx,
    {
        TrafficResult {
            tx: self.tx + other.tx,
            rx: self.rx + other.rx,
            error: match self.error {
                Some(error) => Some(error),
                None => other.error,
            },
        }
    }

    /// Returns the total number of bytes transmitted in both directions.
    #[must_use]
    #[inline]
    pub fn sum(&self) -> (sum: usize)
        ensures
            sum == self.spec_sum(),
    {
        self.tx.saturating_add(self.rx)
    }

    /// Turns the `TrafficResult` into a `Result`.
    ///
    /// ## Errors
    ///
    /// Extracts the error from the `TrafficResult` if it exists.
    #[inline]
    pub fn into_result(self) -> (r: Result<TrafficResult, Error>)
        ensures
            match self.error {
                Some(error) => r == Result::<TrafficResult, Error>::Err(error),
                None => r == Result::<TrafficResult, Error>::Ok(self),
            },
    {
        if let Some(error) = self.error {
            Err(error)
        } else {
            Ok(TrafficResult { tx: self.tx, rx: self.rx, error: None })
        }
    }

    /// Returns what a copy from `A` to `B`, and one from `B` to `A` if there is
    /// one, have transmitted when they ended with `ret`.
    pub fn new_from_io_result<A, B>(
        ctx_a_to_b: &SpliceIoCtx<A, B>,
        ctx_b_to_a: Option<&SpliceIoCtx<B, A>>,
        ret: Result<(), Error>,
    ) -> (r: TrafficResult)
        ensures
            r.tx == ctx_a_to_b@.written,
            r.rx == (match ctx_b_to_a {
                Some(ctx) => ctx@.written,
                None => 0,
            }),
            r.error == (match ret {
                Ok(_) => None,
                Err(e) => Some(e),
            }),
    {
        let tx = ctx_a_to_b.traffic_client_tx(ret.err());
        match ctx_b_to_a {
            Some(ctx_b_to_a) => tx.merge(ctx_b_to_a.traffic_client_rx(None)),
            None => tx,
        }
    }
}

/// Merging loses no byte and no error: the directions are counted separately,
/// the total is that of both as far as it can be counted, an operation that transmitted nothing and did not fail changes nothing, and
/// it does not matter in which order three operations are merged.
pub proof fn merging_keeps_everything(a: TrafficResult, b: TrafficResult, c: TrafficResult)
    requires
        a.tx + b.tx + c.tx <= usize::MAX,
        a.rx + b.rx + c.rx <= usize::MAX,
    ensures
        a.merged(b).merged(c) == a.merged(b.merged(c)),
        c.tx == 0 && c.rx == 0 && c.error is None ==> a.merged(c) == a && c.merged(a) == a,
        a.merged(b).error is None <==> a.error is None && b.error is None,
        a.merged(b).tx + a.merged(b).rx == a.tx + a.rx + b.tx + b.rx,
        a.merged(b).spec_sum() == (if a.spec_sum() + b.spec_sum() <= usize::MAX {
            a.spec_sum() + b.spec_sum()
        } else {
            usize::MAX as int
        }),
{
}

/// Of two errors the first one counts, and the second one only if there is no first;
/// the sum is what has been transmitted in both directions, as far as it can be
/// counted.
pub proof fn first_error_counts(a: TrafficResult, b: TrafficResult)
    requires
        a.tx + b.tx <= usize::MAX,
        a.rx + b.rx <= usize::MAX,
    ensures
        a.error is Some ==> a.merged(b).error == a.error,
        a.error is None ==> a.merged(b).error == b.error,
        a.merged(b).tx == a.tx + b.tx,
        a.merged(b).rx == a.rx + b.rx,
        a.tx + a.rx <= usize::MAX ==> a.spec_sum() == a.tx + a.rx,
        a.tx + a.rx > usize::MAX ==> a.spec_sum() == usize::MAX,
{
}

} // verus!
