use futures_time::future::FuturePoll;
use futures_time::task::{sleep, sleep_until};
use futures_time::time::{Duration, Instant};

fn at(t: u64) -> Instant {
    Instant::from_ticks(t)
}

#[test]
fn sleep_pends_before_deadline_and_fires_at_it() {
    let mut s = sleep(Duration::from_ticks(5), at(10));
    assert_eq!(s.poll(at(10)), FuturePoll::Pending);
    assert_eq!(s.poll(at(14)), FuturePoll::Pending);
    assert!(!s.is_completed());
    assert_eq!(s.poll(at(15)), FuturePoll::Ready(at(15)));
    assert!(s.is_completed());
}

#[test]
fn sleep_fires_late_with_the_observed_instant() {
    let mut s = sleep(Duration::from_ticks(3), at(0));
    assert_eq!(s.poll(at(40)), FuturePoll::Ready(at(40)));
}

#[test]
fn zero_duration_sleep_fires_on_the_first_poll() {
    let mut s = sleep(Duration::from_ticks(0), at(7));
    assert_eq!(s.poll(at(7)), FuturePoll::Ready(at(7)));
}

#[test]
fn shorter_sleep_resolves_strictly_first() {
    let mut short = sleep(Duration::from_ticks(3), at(100));
    let mut long = sleep(Duration::from_ticks(5), at(100));
    assert_eq!(short.poll(at(102)), FuturePoll::Pending);
    assert_eq!(long.poll(at(102)), FuturePoll::Pending);
    // at the shorter deadline only the shorter sleep fires
    assert_eq!(short.poll(at(103)), FuturePoll::Ready(at(103)));
    assert_eq!(long.poll(at(103)), FuturePoll::Pending);
    assert_eq!(long.poll(at(104)), FuturePoll::Pending);
    assert_eq!(long.poll(at(105)), FuturePoll::Ready(at(105)));
}

#[test]
fn reset_after_completion_behaves_like_a_fresh_sleep() {
    let mut done = sleep(Duration::from_ticks(4), at(0));
    assert_eq!(done.poll(at(4)), FuturePoll::Ready(at(4)));
    assert!(done.is_completed());

    done.reset_deadline(at(50));
    let mut fresh = sleep(Duration::from_ticks(4), at(50));
    assert!(!done.is_completed());
    // both pend strictly before their common deadline and fire at it
    assert_eq!(done.poll(at(53)), fresh.poll(at(53)));
    assert_eq!(done.poll(at(53)), FuturePoll::Pending);
    assert_eq!(done.poll(at(54)), fresh.poll(at(54)));
    assert!(done.is_completed() && fresh.is_completed());
}

#[test]
fn reset_before_completion_rearms_from_now() {
    let mut s = sleep(Duration::from_ticks(10), at(0));
    assert_eq!(s.poll(at(5)), FuturePoll::Pending);
    s.reset_deadline(at(5));
    assert_eq!(s.poll(at(14)), FuturePoll::Pending);
    assert_eq!(s.poll(at(15)), FuturePoll::Ready(at(15)));
}

#[test]
fn sleep_until_fires_at_the_fixed_instant() {
    let mut s = sleep_until(at(20));
    assert_eq!(s.poll(at(19)), FuturePoll::Pending);
    assert!(!s.is_completed());
    assert_eq!(s.poll(at(20)), FuturePoll::Ready(at(20)));
    assert!(s.is_completed());
}

#[test]
fn sleep_reports_its_span_and_deadline() {
    let s = sleep(Duration::from_ticks(5), at(10));
    assert_eq!(s.duration(), Duration::from_ticks(5));
    assert_eq!(s.deadline(), at(15));
    let u = sleep_until(at(42));
    assert_eq!(u.deadline(), at(42));
}

#[test]
fn instants_and_durations_count_ticks() {
    assert_eq!(Instant::from_ticks(9).as_ticks(), 9);
    assert_eq!(Duration::from_ticks(3).as_ticks(), 3);
    let sum = Instant::from_ticks(9).checked_add(Duration::from_ticks(3));
    assert_eq!(sum, Some(Instant::from_ticks(12)));
    let over = Instant::from_ticks(u64::MAX).checked_add(Duration::from_ticks(1));
    assert_eq!(over, None);
}
