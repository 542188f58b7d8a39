//! Rate limits.

use tokio_splice2::error::Error;
use tokio_splice2::rate::{Charge, RateCheck, RateLimitResult, RateLimiter, RateSetting};
use tokio_splice2::{RateLimit, RateLimits};

fn limit_of(total: u64) -> RateSetting {
    let mut limits = RateLimits::new();
    RateLimit::new(&mut limits, total).setting(&limits)
}

fn shared<const N: u16>(total: u64) -> RateSetting {
    let mut limits = RateLimits::new();
    RateLimit::new_shared_by::<N>(&mut limits, total).setting(&limits)
}

fn no_limit() -> RateSetting {
    let mut limits = RateLimits::new();
    RateLimit::new_disabled(&mut limits).setting(&limits)
}

fn read(limit: &RateLimit, limits: &RateLimits) -> (u64, u16) {
    let setting = limit.setting(limits);
    (setting.total(), setting.shared_by())
}

#[test]
fn share_is_rounded_up() {
    assert_eq!(limit_of(100).current(), Some(101));
    assert_eq!(shared::<3>(100).current(), Some(34));
    assert_eq!(shared::<4>(100).current(), Some(26));
    assert_eq!(shared::<65535>(1).current(), Some(1));
    assert_eq!(no_limit().current(), None);
    let mut limits = RateLimits::new();
    let limit = RateLimit::new_shared_by::<3>(&mut limits, 100);
    assert_eq!(limit.current(&limits), Some(34));
}

#[test]
fn shares_add_up_to_the_total() {
    for (total, n) in [(1, 7), (100, 3), (1_000_000_007, 65535), (12, 12)] {
        let mut limits = RateLimits::new();
        let limit = RateLimit::new(&mut limits, total);
        limit.set_share_by(&mut limits, n);
        let all = limit.current(&limits).unwrap() * u64::from(n);
        assert!(total < all && all <= total + u64::from(n));
    }
}

#[test]
fn limit_can_be_changed() {
    let mut limits = RateLimits::new();
    let limit = RateLimit::new(&mut limits, 100);
    limit.set_total(&mut limits, 50);
    assert_eq!(read(&limit, &limits), (50, 1));
    limit.set_share_by(&mut limits, 5);
    assert_eq!(limit.current(&limits), Some(11));
    limit.set_disable(&mut limits);
    assert_eq!(limit.current(&limits), None);
    assert_eq!(read(&limit, &limits), (0, 5));
    limit.set_total(&mut limits, 60);
    assert_eq!(limit.current(&limits), Some(13));
}

#[test]
fn instances_are_counted() {
    let mut limits = RateLimits::new();
    let limit = RateLimit::new(&mut limits, 100);
    limit.inc_shared_by_n::<4>(&mut limits);
    assert_eq!(read(&limit, &limits), (100, 5));
    limit.inc_shared_by(&mut limits, 2);
    assert_eq!(read(&limit, &limits), (100, 7));
    assert!(limit.dec_shared_by_n::<4>(&mut limits).is_ok());
    assert_eq!(read(&limit, &limits), (100, 3));
    assert!(limit.dec_shared_by(&mut limits, 2).is_ok());
    assert_eq!(read(&limit, &limits), (100, 1));
    assert!(matches!(limit.dec_shared_by(&mut limits, 1), Err(Error::SharedByZero)));
    assert!(matches!(limit.dec_shared_by_n::<9>(&mut limits), Err(Error::SharedByZero)));
    assert_eq!(read(&limit, &limits), (100, 1));
    limit.inc_shared_by(&mut limits, u16::MAX);
    assert_eq!(read(&limit, &limits), (100, u16::MAX));
    limit.inc_shared_by_n::<1>(&mut limits);
    assert_eq!(read(&limit, &limits), (100, u16::MAX));
}

#[test]
fn clone_is_the_same_limit_with_one_more_instance() {
    let mut limits = RateLimits::new();
    let limit = RateLimit::new_shared_by::<2>(&mut limits, 90);
    let clone = limit.clone_shared(&mut limits);
    assert_eq!(clone, limit);
    assert_eq!(read(&clone, &limits), (90, 3));
    assert_eq!(limit.current(&limits), Some(31));
    assert_eq!(clone.current(&limits), Some(31));
    // What is done through one of them is seen through the other.
    clone.set_total(&mut limits, 5);
    assert_eq!(read(&limit, &limits), (5, 3));
    limit.set_share_by(&mut limits, 9);
    assert_eq!(read(&clone, &limits), (5, 9));
    limit.inc_shared_by(&mut limits, 4);
    assert_eq!(read(&clone, &limits), (5, 13));
    assert!(clone.dec_shared_by_n::<12>(&mut limits).is_ok());
    assert_eq!(read(&limit, &limits), (5, 1));
    limit.set_disable(&mut limits);
    assert_eq!(clone.current(&limits), None);
}

#[test]
fn clones_share_the_total_among_them() {
    let mut limits = RateLimits::new();
    let mut instances = vec![RateLimit::new(&mut limits, 100)];
    for n in 1..=20u64 {
        let clone = instances[0].clone_shared(&mut limits);
        instances.push(clone);
        let all: u64 = instances.iter().map(|i| i.current(&limits).unwrap()).sum();
        assert!(100 < all && all <= 100 + n + 1);
    }
}

#[test]
fn limits_do_not_disturb_each_other() {
    let mut limits = RateLimits::new();
    let a = RateLimit::new(&mut limits, 10);
    let b = RateLimit::new(&mut limits, 20);
    assert!(limits.contains(&a) && limits.contains(&b));
    assert!(!RateLimits::new().contains(&a));
    a.set_total(&mut limits, 30);
    let _c = a.clone_shared(&mut limits);
    assert_eq!(read(&a, &limits), (30, 2));
    assert_eq!(read(&b, &limits), (20, 1));
}

#[test]
fn limit_near_the_top_is_not_computable() {
    assert!(limit_of(u64::MAX - 1).is_computable());
    assert_eq!(limit_of(u64::MAX - 1).current(), Some(u64::MAX));
    assert!(!limit_of(u64::MAX).is_computable());
    assert!(!shared::<2>(u64::MAX - 1).is_computable());
    assert!(no_limit().is_computable());
}

#[test]
fn ideal_len_is_two_ticks_worth() {
    let limit = limit_of(1000);
    assert_eq!(RateLimiter::<true>::ideal_len(&limit, 2, 65536), Some(4));
    assert_eq!(RateLimiter::<true>::ideal_len(&limit, 32768, 65536), Some(65536));
    assert_eq!(RateLimiter::<true>::ideal_len(&limit, 32769, 65536), Some(65536));
    assert_eq!(RateLimiter::<true>::ideal_len(&limit, 1, 1), Some(1));
    assert_eq!(RateLimiter::<true>::ideal_len(&no_limit(), 2, 65536), None);
}

#[test]
fn limiter_takes_tokens_from_the_second_time_on() {
    let limit = limit_of(1000);
    let mut limiter = RateLimiter::<true>::new();
    assert_eq!(limiter.check(50, &limit, 100), RateCheck::Accepted);
    let charge = Charge { limit: 1001, fresh: true, elapsed: Some(20), bytes: 60 };
    assert_eq!(limiter.check(60, &limit, 120), RateCheck::Charge(charge));
    let charge = Charge { limit: 1001, fresh: false, elapsed: None, bytes: 70 };
    assert_eq!(limiter.check(70, &limit, 119), RateCheck::Charge(charge));
    let charge = Charge { limit: 1001, fresh: false, elapsed: Some(0), bytes: 80 };
    assert_eq!(limiter.check(80, &limit, 119), RateCheck::Charge(charge));
    // It starts over without a limit.
    assert_eq!(limiter.check(90, &no_limit(), 130), RateCheck::Accepted);
    assert_eq!(limiter.check(100, &limit, 140), RateCheck::Accepted);
    let charge = Charge { limit: 1001, fresh: true, elapsed: Some(10), bytes: 110 };
    assert_eq!(limiter.check(110, &limit, 150), RateCheck::Charge(charge));
}

#[test]
fn disabled_limiter_accepts_everything() {
    let limit = limit_of(1);
    let mut limiter = RateLimiter::<false>::empty();
    for now in 0..5 {
        assert_eq!(limiter.check(1_000_000, &limit, now), RateCheck::Accepted);
    }
}

#[test]
fn throttling_takes_whole_seconds_or_a_tick() {
    assert_eq!(RateLimiter::<true>::settle(7, None), RateLimitResult::Accepted);
    assert_eq!(
        RateLimiter::<true>::settle(7, Some(0)),
        RateLimitResult::Throttled { now: 7, millis: 1 }
    );
    assert_eq!(
        RateLimiter::<true>::settle(7, Some(2)),
        RateLimitResult::Throttled { now: 7, millis: 2000 }
    );
    assert_eq!(
        RateLimiter::<true>::settle(0, Some(u64::MAX)),
        RateLimitResult::Throttled { now: 0, millis: u128::from(u64::MAX) * 1000 }
    );
}
