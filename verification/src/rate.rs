//! Token bucket rate limiter for bytes transfer rate limitation.
//!
//! The number of tokens is a fraction that the caller keeps: the limiter says
//! when the bucket starts, for how long it is refilled and when tokens are
//! taken from it, and turns a shortage into a time to wait.
use crate::error::Error;
use vstd::arithmetic::div_mod::{
    lemma_div_is_ordered, lemma_div_is_ordered_by_denominator, lemma_div_plus_one,
    lemma_fundamental_div_mod,
};
use vstd::prelude::*;

verus! {

/// One tick of the timer, the shortest time to wait, in milliseconds.
pub const TIMER_MIN_MILLIS: u128 = 1;

/// Of a transfer that is rate limited.
pub const RATE_LIMITER_ENABLED: bool = true;

/// Of a transfer that is not rate limited.
pub const RATE_LIMITER_DISABLED: bool = false;

/// What a rate limit is set to, as it was at the moment when it was read.
#[derive(Debug, Clone, Copy, PartialEq, Eq)]
pub struct RateSetting {
    total: u64,
    shared_by: u16,
}

/// What a rate limit is set to: the limit of all instances together, 0 if there is
/// none, and the number of instances that share it.
pub struct RateState {
    pub total: nat,
    pub shared_by: nat,
}

impl RateState {
    /// A limit is shared by at least one instance.
    pub open spec fn wf(self) -> bool {
        self.total <= u64::MAX && 1 <= self.shared_by <= u16::MAX
    }

    /// Whether the limit of one instance can be computed without overflow.
    pub open spec fn computable(self) -> bool {
        self.total == 0 || self.total + self.shared_by <= u64::MAX
    }

    /// The limit of one instance, if there is a limit: its part of the total,
    /// and one more.
    pub open spec fn current(self) -> Option<u64>
        recommends
            self.wf(),
            self.computable(),
    {
        if self.total == 0 {
            None
        } else {
            Some(((self.total + self.shared_by) / self.shared_by) as u64)
        }
    }

    /// The limit once it is disabled.
    pub open spec fn disabled(self) -> RateState {
        RateState { total: 0, ..self }
    }

    /// The limit with `inc` more instances, as far as they can be counted.
    pub open spec fn inc(self, inc: nat) -> RateState {
        RateState {
            shared_by: if self.shared_by + inc <= u16::MAX {
                self.shared_by + inc
            } else {
                u16::MAX as nat
            },
            ..self
        }
    }

    /// The limit with `dec` instances less.
    pub open spec fn dec(self, dec: nat) -> RateState
        recommends
            dec < self.shared_by,
    {
        RateState { shared_by: (self.shared_by - dec) as nat, ..self }
    }
}

impl View for RateSetting {
    type V = RateState;

    closed spec fn view(&self) -> RateState {
        RateState { total: self.total as nat, shared_by: self.shared_by as nat }
    }
}

impl RateSetting {
    /// Returns the limit of all instances together, 0 if there is none.
    #[must_use]
    pub fn total(&self) -> (total: u64)
        ensures
            total == self@.total,
    {
        self.total
    }

    /// Returns the number of instances that share the limit.
    #[must_use]
    pub fn shared_by(&self) -> (shared_by: u16)
        ensures
            shared_by == self@.shared_by,
    {
        self.shared_by
    }

    /// Returns whether [`RateSetting::current`] can compute the limit of a single
    /// connection.
    #[must_use]
    pub fn is_computable(&self) -> (r: bool)
        ensures
            r == self@.computable(),
    {
        self.total == 0 || self.total <= u64::MAX - (self.shared_by as u64)
    }

    /// Returns the limit for a single connection.
    #[must_use]
    pub fn current(&self) -> (limit: Option<u64>)
        requires
            self@.wf(),
            self@.computable(),
        ensures
            limit == self@.current(),
            limit is None <==> self@.total == 0,
            limit matches Some(limit) ==> limit == (self@.total + self@.shared_by)
                / self@.shared_by && limit > 0,
    {
        if self.total == 0 {
            None
        } else {
            let shared_by: u64 = self.shared_by as u64;
            proof {
                lemma_share(self@);
            }
            Some((self.total + shared_by) / shared_by)
        }
    }
}

/// The rate limits that there are, which [`RateLimit`]s refer to.
#[derive(Debug)]
pub struct RateLimits {
    limits: Vec<RateSetting>,
}

impl View for RateLimits {
    type V = Seq<RateState>;

    closed spec fn view(&self) -> Seq<RateState> {
        Seq::new(self.limits@.len(), |i: int| self.limits@[i]@)
    }
}

/// Whether each of the limits is one that [`RateState::wf`] describes.
pub open spec fn all_wf(limits: Seq<RateState>) -> bool {
    forall|i: int| 0 <= i < limits.len() ==> (#[trigger] limits[i]).wf()
}

impl RateLimits {
    /// There are no limits yet.
    #[must_use]
    pub fn new() -> (limits: RateLimits)
        ensures
            limits@ == Seq::<RateState>::empty(),
            all_wf(limits@),
    {
        let limits = RateLimits { limits: Vec::new() };
        assert(limits@ =~= Seq::<RateState>::empty());
        limits
    }

    /// Returns whether `limit` is one of these limits.
    #[must_use]
    pub fn contains(&self, limit: &RateLimit) -> (r: bool)
        ensures
            r == (limit@ < self@.len()),
    {
        limit.at < self.limits.len()
    }

    /// Adds a limit.
    fn add_limit(&mut self, setting: RateSetting) -> (limit: RateLimit)
        ensures
            limit@ == old(self)@.len(),
            final(self)@ == old(self)@.push(setting@),
    {
        let at: usize = self.limits.len();
        self.limits.push(setting);
        assert(self@ =~= old(self)@.push(setting@));
        RateLimit { at }
    }

    /// Sets a limit.
    fn set_limit(&mut self, limit: &RateLimit, setting: RateSetting)
        requires
            limit@ < old(self)@.len(),
        ensures
            final(self)@ == old(self)@.update(limit@ as int, setting@),
    {
        self.limits.set(limit.at, setting);
        assert(self@ =~= old(self)@.update(limit@ as int, setting@));
    }
}

/// Bytes transfer rate limitation, `B/s`.
///
/// The limitation can be shared by multiple connections, see
/// [`RateLimit::new_shared_by`], [`RateLimit::set_share_by`] or
/// [`RateLimit::clone_shared`]. A `RateLimit` is one instance of a limit that is
/// among some [`RateLimits`]: all clones of it are the same limit, and what is done
/// through one of them is seen through the others.
#[derive(Debug, Clone, Copy, PartialEq, Eq)]
pub struct RateLimit {
    at: usize,
}

/// Which of the limits it is.
impl View for RateLimit {
    type V = nat;

    closed spec fn view(&self) -> nat {
        self.at as nat
    }
}

impl RateLimit {
    /// Creates a new [`RateLimit`].
    #[must_use]
    pub fn new(limits: &mut RateLimits, limit: u64) -> (r: RateLimit)
        requires
            limit > 0,
            all_wf(old(limits)@),
        ensures
            all_wf(final(limits)@),
            r@ == old(limits)@.len(),
            final(limits)@ == old(limits)@.push(RateState { total: limit as nat, shared_by: 1 }),
    {
        limits.add_limit(RateSetting { total: limit, shared_by: 1 })
    }

    /// Creates a new [`RateLimit`] that is disabled (total = 0).
    #[must_use]
    pub fn new_disabled(limits: &mut RateLimits) -> (r: RateLimit)
        requires
            all_wf(old(limits)@),
        ensures
            all_wf(final(limits)@),
            r@ == old(limits)@.len(),
            final(limits)@ == old(limits)@.push(RateState { total: 0, shared_by: 1 }),
    {
        limits.add_limit(RateSetting { total: 0, shared_by: 1 })
    }

    /// Creates a new [`RateLimit`] that is shared by `N` instances.
    #[must_use]
    pub fn new_shared_by<const N: u16>(limits: &mut RateLimits, limit: u64) -> (r: RateLimit)
        requires
            limit > 0,
            N > 0,
            all_wf(old(limits)@),
        ensures
            all_wf(final(limits)@),
            r@ == old(limits)@.len(),
            final(limits)@ == old(limits)@.push(
                RateState { total: limit as nat, shared_by: N as nat },
            ),
    {
        limits.add_limit(RateSetting { total: limit, shared_by: N })
    }

    /// Returns what the limit is set to.
    #[must_use]
    pub fn setting(&self, limits: &RateLimits) -> (setting: RateSetting)
        requires
            self@ < limits@.len(),
        ensures
            setting@ == limits@[self@ as int],
    {
        limits.limits[self.at]
    }

    /// Gets the current limit for a single connection.
    #[must_use]
    pub fn current(&self, limits: &RateLimits) -> (limit: Option<u64>)
        requires
            self@ < limits@.len(),
            all_wf(limits@),
            limits@[self@ as int].computable(),
        ensures
            limit == limits@[self@ as int].current(),
            limit is None <==> limits@[self@ as int].total == 0,
            limit matches Some(limit) ==> limit > 0,
    {
        self.setting(limits).current()
    }

    /// Disables the rate limit (by setting it to 0).
    pub fn set_disable(&self, limits: &mut RateLimits)
        requires
            self@ < old(limits)@.len(),
            all_wf(old(limits)@),
        ensures
            all_wf(final(limits)@),
            final(limits)@ == old(limits)@.update(
                self@ as int,
                old(limits)@[self@ as int].disabled(),
            ),
    {
        let setting = self.setting(limits);
        limits.set_limit(self, RateSetting { total: 0, ..setting });
    }

    /// Sets the total rate limit.
    pub fn set_total(&self, limits: &mut RateLimits, limit: u64)
        requires
            limit > 0,
            self@ < old(limits)@.len(),
            all_wf(old(limits)@),
        ensures
            all_wf(final(limits)@),
            final(limits)@ == old(limits)@.update(
                self@ as int,
                (RateState { total: limit as nat, ..old(limits)@[self@ as int] }),
            ),
    {
        let setting = self.setting(limits);
        limits.set_limit(self, RateSetting { total: limit, ..setting });
    }

    /// Updates the number of shared instances.
    pub fn set_share_by(&self, limits: &mut RateLimits, shared_by: u16)
        requires
            shared_by > 0,
            self@ < old(limits)@.len(),
            all_wf(old(limits)@),
        ensures
            all_wf(final(limits)@),
            final(limits)@ == old(limits)@.update(
                self@ as int,
                (RateState { shared_by: shared_by as nat, ..old(limits)@[self@ as int] }),
            ),
    {
        let setting = self.setting(limits);
        limits.set_limit(self, RateSetting { shared_by, ..setting });
    }

    /// Increases the number of shared instances by `N`.
    pub fn inc_shared_by_n<const N: u16>(&self, limits: &mut RateLimits)
        requires
            N > 0,
            self@ < old(limits)@.len(),
            all_wf(old(limits)@),
        ensures
            all_wf(final(limits)@),
            final(limits)@ == old(limits)@.update(
                self@ as int,
                old(limits)@[self@ as int].inc(N as nat),
            ),
    {
        self.inc_shared_by(limits, N)
    }

    /// Increases the number of shared instances.
    pub fn inc_shared_by(&self, limits: &mut RateLimits, inc: u16)
        requires
            inc > 0,
            self@ < old(limits)@.len(),
            all_wf(old(limits)@),
        ensures
            all_wf(final(limits)@),
            final(limits)@ == old(limits)@.update(
                self@ as int,
                old(limits)@[self@ as int].inc(inc as nat),
            ),
    {
        let setting = self.setting(limits);
        let shared_by: u16 = setting.shared_by.saturating_add(inc);
        limits.set_limit(self, RateSetting { shared_by, ..setting });
    }

    /// Decreases the number of shared instances by `N`.
    ///
    /// ## Errors
    ///
    /// See [`dec_shared_by`](Self::dec_shared_by).
    pub fn dec_shared_by_n<const N: u16>(&self, limits: &mut RateLimits) -> (r: Result<(), Error>)
        requires
            N > 0,
            self@ < old(limits)@.len(),
            all_wf(old(limits)@),
        ensures
            all_wf(final(limits)@),
            r is Ok <==> old(limits)@[self@ as int].shared_by > N,
            r is Ok ==> final(limits)@ == old(limits)@.update(
                self@ as int,
                old(limits)@[self@ as int].dec(N as nat),
            ),
            r matches Err(e) ==> e == Error::SharedByZero && final(limits)@ == old(limits)@,
    {
        self.dec_shared_by(limits, N)
    }

    /// Decreases the number of shared instances.
    ///
    /// ## Errors
    ///
    /// Cannot decrease `shared_by` to 0.
    pub fn dec_shared_by(&self, limits: &mut RateLimits, dec: u16) -> (r: Result<(), Error>)
        requires
            dec > 0,
            self@ < old(limits)@.len(),
            all_wf(old(limits)@),
        ensures
            all_wf(final(limits)@),
            r is Ok <==> old(limits)@[self@ as int].shared_by > dec,
            r is Ok ==> final(limits)@ == old(limits)@.update(
                self@ as int,
                old(limits)@[self@ as int].dec(dec as nat),
            ),
            r matches Err(e) ==> e == Error::SharedByZero && final(limits)@ == old(limits)@,
    {
        let setting = self.setting(limits);
        match setting.shared_by.checked_sub(dec) {
            Some(shared_by) => {
                if shared_by > 0 {
                    limits.set_limit(self, RateSetting { shared_by, ..setting });
                    Ok(())
                } else {
                    Err(Error::SharedByZero)
                }
            },
            None => Err(Error::SharedByZero),
        }
    }

    /// Clones the `RateLimit`, which is the same limit then, and increases the
    /// shared instances count by 1.
    #[must_use]
    pub fn clone_shared(&self, limits: &mut RateLimits) -> (r: RateLimit)
        requires
            self@ < old(limits)@.len(),
            all_wf(old(limits)@),
        ensures
            all_wf(final(limits)@),
            r@ == self@,
            final(limits)@ == old(limits)@.update(
                self@ as int,
                old(limits)@[self@ as int].inc(1),
            ),
    {
        self.inc_shared_by_n::<1>(limits);
        *self
    }
}

/// Tokens to be put into and taken from the bucket.
#[derive(Debug, Clone, Copy, PartialEq, Eq)]
pub struct Charge {
    /// The limit, `B/s`.
    pub limit: u64,
    /// Whether the bucket is new. It then starts with what the limit lets pass
    /// in one tick.
    pub fresh: bool,
    /// For how many nanoseconds the bucket is to be refilled, up to what the
    /// limit lets pass in one tick; if `None`, it is not refilled.
    pub elapsed: Option<u64>,
    /// How many tokens to take.
    pub bytes: usize,
}

/// What a [`RateLimiter`] wants after some bytes have been read.
#[derive(Debug, Clone, Copy, PartialEq, Eq)]
pub enum RateCheck {
    /// The bytes are accepted.
    Accepted,
    /// Tokens have to be taken for them.
    Charge(Charge),
}

/// Rate limit result.
#[derive(Debug, Clone, Copy, PartialEq, Eq)]
pub enum RateLimitResult {
    /// The number of bytes is accepted.
    Accepted,
    /// The number of bytes is throttled, should stop reading until `millis`
    /// milliseconds after `now`.
    Throttled { now: u64, millis: u128 },
}

/// What a [`RateLimiter`] is: whether it has a bucket of tokens, and the time of
/// its last update in nanoseconds.
pub struct LimiterState {
    pub has_tokens: bool,
    pub last_updated: Option<u64>,
}

impl LimiterState {
    /// The state of a new limiter.
    pub open spec fn init() -> LimiterState {
        LimiterState { has_tokens: false, last_updated: None }
    }

    /// How a limiter that is enabled treats `bytes` bytes at the time `now`
    /// under a limit of `limit`: without a limit it starts over; at first it
    /// only notes the time; and from then on it takes tokens, after the bucket
    /// has been refilled for the time since its last update. If that lies in
    /// the future, there is no such time.
    pub open spec fn check(self, bytes: usize, limit: Option<u64>, now: u64) -> (
        LimiterState,
        RateCheck,
    ) {
        match (limit, self.last_updated) {
            (None, _) => (LimiterState::init(), RateCheck::Accepted),
            (Some(_), None) => (
                LimiterState { last_updated: Some(now), ..self },
                RateCheck::Accepted,
            ),
            (Some(limit), Some(last)) => (
                LimiterState { has_tokens: true, last_updated: Some(now) },
                RateCheck::Charge(
                    Charge {
                        limit,
                        fresh: !self.has_tokens,
                        elapsed: if last <= now {
                            Some((now - last) as u64)
                        } else {
                            None
                        },
                        bytes,
                    },
                ),
            ),
        }
    }
}

/// How long to wait for tokens that would be there in `secs` whole seconds: no
/// shorter than one tick of the timer.
pub open spec fn throttle_millis(secs: u64) -> u128 {
    if secs == 0 {
        TIMER_MIN_MILLIS
    } else {
        (secs * 1000) as u128
    }
}

/// What to do at the time `now` when the tokens for some bytes have been taken.
pub open spec fn settled(now: u64, deficit: Option<u64>) -> RateLimitResult {
    match deficit {
        None => RateLimitResult::Accepted,
        Some(secs) => RateLimitResult::Throttled { now, millis: throttle_millis(secs) },
    }
}

/// The ideal length of a splice under a limit that lets `tick` bytes pass in a
/// tick of the timer: two ticks' worth, but no more than the pipe holds. There
/// is none if there is no limit.
pub open spec fn ideal_len(limit: Option<u64>, tick: usize, pipe_size: nat) -> Option<usize> {
    match limit {
        None => None,
        Some(_) => Some(
            if tick * 2 <= pipe_size {
                (tick * 2) as usize
            } else {
                pipe_size as usize
            },
        ),
    }
}

/// A rate limiter. It takes part in a transfer only if `ENABLED`.
#[derive(Debug)]
pub struct RateLimiter<const ENABLED: bool> {
    /// Whether there is a bucket of tokens.
    has_tokens: bool,
    /// The last time the tokens were updated.
    last_updated: Option<u64>,
}

impl<const ENABLED: bool> View for RateLimiter<ENABLED> {
    type V = LimiterState;

    closed spec fn view(&self) -> LimiterState {
        LimiterState { has_tokens: self.has_tokens, last_updated: self.last_updated }
    }
}

impl RateLimiter<RATE_LIMITER_DISABLED> {
    /// Creates a new rate limiter that is disabled.
    pub fn empty() -> (r: RateLimiter<RATE_LIMITER_DISABLED>)
        ensures
            r@ == LimiterState::init(),
    {
        RateLimiter { has_tokens: false, last_updated: None }
    }
}

impl<const ENABLED: bool> RateLimiter<ENABLED> {
    /// Creates a new rate limiter.
    pub fn new() -> (r: RateLimiter<ENABLED>)
        ensures
            r@ == LimiterState::init(),
    {
        RateLimiter { has_tokens: false, last_updated: None }
    }

    /// Returns the ideal length of a splice under the limit `limit`, which lets
    /// `tick` bytes pass in one tick of the timer.
    #[inline]
    pub fn ideal_len(limit: &RateSetting, tick: usize, pipe_size: usize) -> (len: Option<usize>)
        requires
            limit@.wf(),
            limit@.computable(),
            limit@.current() is Some ==> 1 <= tick && tick * 2 <= usize::MAX,
            1 <= pipe_size,
        ensures
            len == ideal_len(limit@.current(), tick, pipe_size as nat),
            len matches Some(len) ==> 1 <= len <= pipe_size,
    {
        match limit.current() {
            None => None,
            Some(_) => {
                let len: usize = tick * 2;
                if len <= pipe_size {
                    Some(len)
                } else {
                    Some(pipe_size)
                }
            },
        }
    }

    /// Checks if the rate limiter allows a transfer that has read `has_read`
    /// bytes to proceed.
    pub fn check(&mut self, has_read: usize, limit: &RateSetting, now: u64) -> (check: RateCheck)
        requires
            limit@.wf(),
            limit@.computable(),
        ensures
            ENABLED ==> (final(self)@, check) == old(self)@.check(has_read, limit@.current(), now),
            !ENABLED ==> final(self)@ == old(self)@ && check == RateCheck::Accepted,
    {
        if !ENABLED {
            return RateCheck::Accepted;
        }
        let limit = match limit.current() {
            None => {
                self.has_tokens = false;
                self.last_updated = None;
                return RateCheck::Accepted;
            },
            Some(limit) => limit,
        };
        match self.last_updated {
            None => {
                self.last_updated = Some(now);
                RateCheck::Accepted
            },
            Some(last_updated) => {
                let fresh = !self.has_tokens;
                self.has_tokens = true;
                let elapsed = self.refill(now, last_updated);
                RateCheck::Charge(Charge { limit, fresh, elapsed, bytes: has_read })
            },
        }
    }

    /// Notes the time of an update of the bucket, and returns for how long it
    /// is to be refilled.
    #[inline]
    fn refill(&mut self, now: u64, last_updated: u64) -> (elapsed: Option<u64>)
        ensures
            final(self)@ == (LimiterState { last_updated: Some(now), ..old(self)@ }),
            last_updated <= now ==> elapsed == Some((now - last_updated) as u64),
            last_updated > now ==> elapsed is None,
    {
        self.last_updated = Some(now);
        now.checked_sub(last_updated)
    }

    /// Returns what to do at the time `now` when the tokens for some bytes have
    /// been taken. `deficit` tells, where they did not suffice, in how many
    /// whole seconds the missing ones would be there.
    pub fn settle(now: u64, deficit: Option<u64>) -> (r: RateLimitResult)
        ensures
            r == settled(now, deficit),
    {
        match deficit {
            None => RateLimitResult::Accepted,
            Some(secs) => {
                let millis: u128 = if secs == 0 {
                    TIMER_MIN_MILLIS
                } else {
                    secs as u128 * 1000
                };
                RateLimitResult::Throttled { now, millis }
            },
        }
    }
}

proof fn lemma_share(limit: RateState)
    requires
        limit.wf(),
        limit.total > 0,
    ensures
        ({
            let share = (limit.total + limit.shared_by) / limit.shared_by;
            &&& share == limit.total / limit.shared_by + 1
            &&& 0 < share <= limit.total + limit.shared_by
            &&& share * limit.shared_by > limit.total
            &&& share * limit.shared_by <= limit.total + limit.shared_by
        }),
{
    let t = limit.total as int;
    let n = limit.shared_by as int;
    let share = (t + n) / n;
    lemma_div_plus_one(t, n);
    lemma_fundamental_div_mod(t + n, n);
    assert(n * share == share * n) by (nonlinear_arith);
    assert(share <= share * n) by (nonlinear_arith)
        requires
            n >= 1,
            share >= 0,
    ;
    assert(share >= 1) by (nonlinear_arith)
        requires
            share * n > t,
            t >= 0,
            n >= 1,
    ;
}

/// The instances that share a limit may together transfer more than the whole of
/// it, but no more than one byte per second and instance above it; and each of
/// them may transfer something.
pub proof fn shares_make_up_the_total(limit: RateState)
    requires
        limit.wf(),
        limit.computable(),
        limit.total > 0,
    ensures
        limit.current() matches Some(share) && {
            &&& share >= 1
            &&& share * limit.shared_by > limit.total
            &&& share * limit.shared_by <= limit.total + limit.shared_by
        },
{
    lemma_share(limit);
}

/// The more instances share a limit, the less each of them may transfer; and
/// the higher the limit, the more.
pub proof fn shares_are_monotone(a: RateState, b: RateState)
    requires
        a.wf(),
        b.wf(),
        a.computable(),
        b.computable(),
        0 < a.total <= b.total,
        a.shared_by >= b.shared_by,
    ensures
        a.current()->Some_0 <= b.current()->Some_0,
{
    lemma_share(a);
    lemma_share(b);
    let (t, u, m, n) = (a.total as int, b.total as int, a.shared_by as int, b.shared_by as int);
    lemma_div_is_ordered_by_denominator(t, n, m);
    lemma_div_is_ordered(t, u, n);
}

/// What is done through one instance of a limit is seen through every other: all of
/// them read the same. Other limits are not changed by it.
pub proof fn instances_see_one_limit(limits: Seq<RateState>, a: nat, b: nat, now: RateState)
    requires
        a < limits.len(),
        b < limits.len(),
    ensures
        ({
            let changed = limits.update(a as int, now);
            &&& changed.len() == limits.len()
            &&& a == b ==> changed[b as int] == now
            &&& a != b ==> changed[b as int] == limits[b as int]
        }),
{
}

/// The limits after `n` instances have been cloned, one after the other, of the
/// limit at `at`.
pub open spec fn cloned_shared(limits: Seq<RateState>, at: nat, n: nat) -> Seq<RateState>
    decreases n,
{
    if n == 0 {
        limits
    } else {
        let before = cloned_shared(limits, at, (n - 1) as nat);
        before.update(at as int, before[at as int].inc(1))
    }
}

/// A new limit and `n` clones of it, which are the same limit, share it among
/// them: all see the same share, and together they may transfer more than the total,
/// but no more than one byte per second and instance above it.
pub proof fn clones_share_the_total(limits: Seq<RateState>, total: nat, n: nat)
    requires
        0 < total <= u64::MAX,
        1 + n <= u16::MAX,
        total + 1 + n <= u64::MAX,
    ensures
        ({
            let at = limits.len();
            let start = limits.push(RateState { total, shared_by: 1 });
            let limit = cloned_shared(start, at, n)[at as int];
            &&& limit == RateState { total, shared_by: 1 + n }
            &&& limit.current() matches Some(share)
            &&& share * (1 + n) > total
            &&& share * (1 + n) <= total + 1 + n
        }),
{
    let at = limits.len();
    let start = limits.push(RateState { total, shared_by: 1 });
    lemma_cloned(start, at, n);
    shares_make_up_the_total(RateState { total, shared_by: 1 + n });
}

proof fn lemma_cloned(limits: Seq<RateState>, at: nat, n: nat)
    requires
        at < limits.len(),
        limits[at as int].shared_by + n <= u16::MAX,
    ensures
        cloned_shared(limits, at, n).len() == limits.len(),
        cloned_shared(limits, at, n)[at as int] == limits[at as int].inc(n),
    decreases n,
{
    if n > 0 {
        lemma_cloned(limits, at, (n - 1) as nat);
    }
}

/// Whatever is done to a limit, at least one instance shares it; only setting
/// its total and disabling it change the total.
pub proof fn limit_stays_shared(limit: RateState, n: nat)
    requires
        limit.wf(),
    ensures
        limit.inc(n).wf(),
        limit.inc(n).total == limit.total,
        n < limit.shared_by ==> limit.dec(n).wf() && limit.dec(n).total == limit.total,
        limit.disabled().wf(),
        limit.disabled().current() is None,
{
}

/// Instances that were added can be taken away again, which restores the limit,
/// unless there were too many to be counted.
pub proof fn inc_is_undone_by_dec(limit: RateState, n: nat)
    requires
        limit.wf(),
        limit.shared_by + n <= u16::MAX,
    ensures
        limit.inc(n).shared_by > n,
        limit.inc(n).dec(n) == limit,
{
}

/// Without a limit a limiter starts over. Under a limit it accepts what is read
/// first, whatever it is, and from then on takes tokens for what is read: from a
/// new bucket at first, and then from that one, refilled for the time since.
pub proof fn limiter_starts_over_without_limit(
    s: LimiterState,
    bytes: usize,
    limit: u64,
    t0: u64,
    t1: u64,
    t2: u64,
    t3: u64,
)
    requires
        t1 <= t2 <= t3,
    ensures
        ({
            let (s0, r0) = s.check(bytes, None, t0);
            let (s1, r1) = s0.check(bytes, Some(limit), t1);
            let (s2, r2) = s1.check(bytes, Some(limit), t2);
            let (s3, r3) = s2.check(bytes, Some(limit), t3);
            &&& r0 is Accepted
            &&& s0 == LimiterState::init()
            &&& r1 is Accepted
            &&& r2 == RateCheck::Charge(
                Charge { limit, fresh: true, elapsed: Some((t2 - t1) as u64), bytes },
            )
            &&& r3 == RateCheck::Charge(
                Charge { limit, fresh: false, elapsed: Some((t3 - t2) as u64), bytes },
            )
        }),
{
}

/// A transfer that is throttled waits for at least one tick of the timer, and
/// one whose tokens suffice does not wait.
pub proof fn throttling_waits_for_a_tick(now: u64, deficit: Option<u64>)
    ensures
        match settled(now, deficit) {
            RateLimitResult::Accepted => deficit is None,
            RateLimitResult::Throttled { now: at, millis } => {
                &&& deficit is Some
                &&& at == now
                &&& millis >= TIMER_MIN_MILLIS
                &&& millis >= deficit->Some_0 * 1000
            },
        },
{
}

/// The length that suits a limit is one that can be read at once: at least one
/// byte, and no more than the pipe holds.
pub proof fn ideal_len_fits_the_pipe(limit: Option<u64>, tick: usize, pipe_size: nat)
    requires
        1 <= tick,
        1 <= pipe_size <= usize::MAX,
    ensures
        limit is None <==> ideal_len(limit, tick, pipe_size) is None,
        ideal_len(limit, tick, pipe_size) matches Some(len) ==> {
            &&& 1 <= len <= pipe_size
            &&& len <= tick * 2
        },
{
}

/// Instances are added up to what can be counted, and taken away one for one; neither
/// changes the total. A limit is disabled by a total of 0, and then has no share.
pub proof fn instances_are_counted(limit: RateState, n: nat)
    requires
        limit.wf(),
    ensures
        limit.inc(n).total == limit.total,
        limit.inc(n).shared_by == if limit.shared_by + n <= 65535 {
            limit.shared_by + n
        } else {
            65535nat
        },
        n < limit.shared_by ==> limit.dec(n).total == limit.total && limit.dec(n).shared_by + n
            == limit.shared_by,
        limit.disabled().total == 0,
        limit.disabled().shared_by == limit.shared_by,
        limit.current() is None <==> limit.total == 0,
        limit.wf() <==> limit.total <= u64::MAX && 1 <= limit.shared_by <= 65535,
        limit.computable() <==> limit.total == 0 || limit.total + limit.shared_by <= u64::MAX,
{
}

/// Whatever has been read, a limiter takes tokens for all of it once it knows the time
/// of its last update, at the limit as it is now and for just the time since then, from
/// a new bucket if it has none. Without such a time it notes the time, and without a
/// limit it forgets all.
pub proof fn tokens_are_taken_for_all_that_is_read(
    s: LimiterState,
    bytes: usize,
    limit: u64,
    now: u64,
)
    ensures
        LimiterState::init() == (LimiterState { has_tokens: false, last_updated: None }),
        s.check(bytes, None, now) == (
            LimiterState { has_tokens: false, last_updated: None },
            RateCheck::Accepted,
        ),
        s.last_updated is None ==> s.check(bytes, Some(limit), now) == (
            LimiterState { has_tokens: s.has_tokens, last_updated: Some(now) },
            RateCheck::Accepted,
        ),
        s.last_updated matches Some(last) ==> {
            let (t, check) = s.check(bytes, Some(limit), now);
            &&& t == LimiterState { has_tokens: true, last_updated: Some(now) }
            &&& check matches RateCheck::Charge(charge)
            &&& charge.bytes == bytes
            &&& charge.limit == limit
            &&& charge.fresh == !s.has_tokens
            &&& charge.elapsed is Some <==> last <= now
            &&& charge.elapsed is Some ==> last + charge.elapsed->Some_0 == now
        },
{
}

/// How long a transfer is throttled is the number of whole seconds in which the tokens
/// would be there, and a millisecond if that is none.
pub proof fn throttling_takes_as_long_as_the_tokens(now: u64, secs: u64)
    ensures
        settled(now, None) == RateLimitResult::Accepted,
        settled(now, Some(0)) == (RateLimitResult::Throttled { now, millis: 1 }),
        secs > 0 ==> (settled(now, Some(secs)) matches RateLimitResult::Throttled {
            now: at,
            millis,
        } && at == now && millis == secs * 1000),
{
}

/// The length that suits a limit is what passes in two ticks, whatever the limit is, or
/// all that the pipe holds if that is less.
pub proof fn ideal_len_is_two_ticks(limit: u64, tick: usize, pipe_size: nat)
    requires
        1 <= pipe_size <= usize::MAX,
    ensures
        ideal_len(None, tick, pipe_size) is None,
        tick + tick <= pipe_size ==> (ideal_len(Some(limit), tick, pipe_size) matches Some(len)
            && len == tick + tick),
        tick + tick > pipe_size ==> (ideal_len(Some(limit), tick, pipe_size) matches Some(len)
            && len == pipe_size),
{
}

} // verus!
