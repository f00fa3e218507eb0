use futures_time::future::{DelayStep, FuturePoll, FutureExt};
use futures_time::stream::{StreamExt, StreamPoll};
use futures_time::time::{Duration, Instant};

fn at(t: u64) -> Instant {
    Instant::from_ticks(t)
}

#[test]
fn future_delay_never_opens_before_the_deadline() {
    let mut d = FutureExt::delay("inner", at(10));
    // however often it is polled early, the inner producer is not reached
    for t in 0..10 {
        assert_eq!(d.poll_window(at(t)), DelayStep::Wait);
        assert!(!d.fired());
    }
    assert_eq!(d.poll_window(at(10)), DelayStep::PollInner);
    assert!(d.fired());
}

#[test]
fn future_delay_polls_inner_on_every_poll_once_open() {
    let mut d = FutureExt::delay("inner", at(3));
    assert_eq!(d.poll_window(at(5)), DelayStep::PollInner);
    // the deadline is never consulted again, even for an earlier instant
    assert_eq!(d.poll_window(at(0)), DelayStep::PollInner);
    assert_eq!(d.poll_inner(FuturePoll::<u8>::Pending), FuturePoll::Pending);
    assert_eq!(d.poll_inner(FuturePoll::Ready(9u8)), FuturePoll::Ready(9u8));
}

#[test]
fn stream_delay_yields_nothing_before_the_window_elapses() {
    let mut d = StreamExt::delay("abc", Duration::from_ticks(4), at(2));
    for t in 2..6 {
        assert_eq!(d.poll_window(at(t)), DelayStep::Wait);
        assert!(!d.is_streaming());
    }
    assert_eq!(d.poll_window(at(6)), DelayStep::PollInner);
    assert!(d.is_streaming());
}

#[test]
fn stream_delay_reproduces_the_inner_items_in_order() {
    // inner stream would yield [a, b, c] with no inherent delay
    let mut d = StreamExt::delay("abc", Duration::from_ticks(5), at(0));
    let mut observed = Vec::new();

    // polls before the window: zero items observed
    for t in 0..5 {
        if d.poll_window(at(t)) == DelayStep::PollInner {
            panic!("window opened before the deadline");
        }
        observed.push(StreamPoll::Pending);
    }
    assert!(observed.iter().all(|o| *o == StreamPoll::<char>::Pending));

    // from the deadline on, the items flow through unchanged and in order
    let mut inner = vec![
        StreamPoll::Ready('a'),
        StreamPoll::Ready('b'),
        StreamPoll::Ready('c'),
        StreamPoll::Done,
    ];
    let mut out = Vec::new();
    let mut t = 5;
    while !inner.is_empty() {
        assert_eq!(d.poll_window(at(t)), DelayStep::PollInner);
        out.push(d.poll_stream(inner.remove(0)));
        t += 1;
    }
    assert_eq!(
        out,
        vec![
            StreamPoll::Ready('a'),
            StreamPoll::Ready('b'),
            StreamPoll::Ready('c'),
            StreamPoll::Done,
        ]
    );
}

#[test]
fn delays_report_their_deadline_and_carry_their_producer() {
    let mut f = FutureExt::delay(String::from("work"), at(9));
    assert_eq!(f.deadline(), at(9));
    f.future_mut().push_str("load");
    assert_eq!(f.future_mut().as_str(), "workload");

    let mut s = StreamExt::delay(String::from("items"), Duration::from_ticks(4), at(3));
    assert_eq!(s.deadline(), at(7));
    assert_eq!(s.stream_mut().as_str(), "items");
}

#[test]
fn stream_delay_first_poll_after_firing_forwards_in_the_same_call() {
    let mut d = StreamExt::delay((), Duration::from_ticks(1), at(0));
    // the poll that observes the firing already reaches the inner stream
    assert_eq!(d.poll_window(at(1)), DelayStep::PollInner);
    assert_eq!(d.poll_stream(StreamPoll::Ready(1u8)), StreamPoll::Ready(1u8));
}
