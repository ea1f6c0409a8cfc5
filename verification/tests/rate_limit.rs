use sp2ytm::rate_limit::{LeakyBucket, RateDecision};

#[test]
fn burst_of_capacity_admits_then_blocks() {
    // ten per second: capacity 10, one refill every 100ms
    let mut b = LeakyBucket::per_second(10, 0);
    assert_eq!(b.interval, 100_000_000);
    for _ in 0..10 {
        match b.check(0) {
            RateDecision::Admit => {}
            RateDecision::WaitUntil(t) => panic!("blocked inside the burst, until {}", t),
        }
    }
    // the eleventh rapid call must wait (11 - 10) / R = one interval
    match b.check(0) {
        RateDecision::Admit => panic!("eleventh rapid call admitted"),
        RateDecision::WaitUntil(t) => assert_eq!(t, 100_000_000),
    }
    // after sleeping to the announced time the re-check admits
    match b.check(100_000_000) {
        RateDecision::Admit => {}
        RateDecision::WaitUntil(t) => panic!("still blocked at the announced time {}", t),
    }
}

#[test]
fn one_per_second_bucket_spaces_calls_out() {
    let mut b = LeakyBucket::per_second(1, 0);
    assert_eq!(b.interval, 1_000_000_000);
    match b.check(0) {
        RateDecision::Admit => {}
        RateDecision::WaitUntil(_) => panic!("fresh bucket blocked"),
    }
    match b.check(1) {
        RateDecision::Admit => panic!("second call in the same second admitted"),
        RateDecision::WaitUntil(t) => assert_eq!(t, 1_000_000_000),
    }
}

#[test]
fn idle_time_refills_the_bucket() {
    let mut b = LeakyBucket::per_second(10, 0);
    for _ in 0..10 {
        match b.check(0) {
            RateDecision::Admit => {}
            RateDecision::WaitUntil(_) => panic!("blocked inside the burst"),
        }
    }
    // long enough later the bucket has fully drained: a whole new burst
    // passes, and the call after it blocks again
    let later = 1_200_000_000u64;
    for _ in 0..10 {
        match b.check(later) {
            RateDecision::Admit => {}
            RateDecision::WaitUntil(_) => panic!("refilled capacity not admitted"),
        }
    }
    match b.check(later) {
        RateDecision::Admit => panic!("admitted beyond the refilled capacity"),
        RateDecision::WaitUntil(t) => assert!(t > later),
    }
}
