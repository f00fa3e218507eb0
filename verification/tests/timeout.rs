use futures_time::future::{FuturePoll, FutureExt, TimeoutError};
use futures_time::time::{Duration, Instant};

fn at(t: u64) -> Instant {
    Instant::from_ticks(t)
}

#[test]
fn inner_value_within_the_deadline_wins() {
    let mut t = "inner".timeout(Duration::from_ticks(10), at(0));
    assert_eq!(t.poll(at(1), FuturePoll::<i32>::Pending), FuturePoll::Pending);
    assert!(!t.completed());
    assert_eq!(t.poll(at(5), FuturePoll::Ready(42)), FuturePoll::Ready(Ok(42)));
    assert!(t.completed());
}

#[test]
fn deadline_first_gives_the_timeout_error() {
    let mut t = "inner".timeout(Duration::from_ticks(5), at(0));
    assert_eq!(t.poll(at(4), FuturePoll::<i32>::Pending), FuturePoll::Pending);
    assert_eq!(
        t.poll(at(5), FuturePoll::<i32>::Pending),
        FuturePoll::Ready(Err(TimeoutError))
    );
    assert!(t.completed());
}

#[test]
fn inner_wins_a_tie_with_the_deadline() {
    // the inner producer becomes ready in the same turn as the deadline
    let mut t = "inner".timeout(Duration::from_ticks(5), at(0));
    assert_eq!(t.poll(at(5), FuturePoll::Ready(7u8)), FuturePoll::Ready(Ok(7u8)));
}

#[test]
fn inner_outcome_passes_through_unchanged() {
    // the wrapped producer's own error-like outcome is not transformed
    let mut t = "inner".timeout(Duration::from_ticks(9), at(0));
    let inner: FuturePoll<Result<u8, &str>> = FuturePoll::Ready(Err("inner failure"));
    assert_eq!(t.poll(at(2), inner), FuturePoll::Ready(Ok(Err("inner failure"))));
}

#[test]
fn the_machine_carries_its_producer_and_deadline() {
    let mut t = String::from("inner").timeout(Duration::from_ticks(8), at(2));
    assert_eq!(t.deadline(), at(10));
    assert_eq!(t.future_mut().as_str(), "inner");
    t.future_mut().push('!');
    assert_eq!(t.future_mut().as_str(), "inner!");
}

#[test]
fn deadline_well_past_still_gives_the_timeout_error() {
    let mut t = "inner".timeout(Duration::from_ticks(2), at(10));
    assert_eq!(
        t.poll(at(100), FuturePoll::<i32>::Pending),
        FuturePoll::Ready(Err(TimeoutError))
    );
}
