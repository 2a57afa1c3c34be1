use tokio_icmp_echo::time::{Clock, Duration, Instant};

#[test]
fn seconds_and_nanoseconds() {
    let span = Duration::new(3, 999_999_999);
    assert_eq!(span.as_secs(), 3);
    assert_eq!(span.subsec_nanos(), 999_999_999);
    assert_eq!(Duration::from_secs(2), Duration::new(2, 0));
}

#[test]
fn the_longest_span() {
    let span = Duration::new(u64::MAX, 999_999_999);
    assert_eq!(span.as_secs(), u64::MAX);
    assert_eq!(span.subsec_nanos(), 999_999_999);
}

#[test]
fn later_points() {
    let point = Instant::at(Duration::new(1, 600_000_000));
    let later = point.checked_add(Duration::new(1, 500_000_000));
    assert_eq!(later, Some(Instant::at(Duration::new(3, 100_000_000))));
    assert_eq!(point.since_origin(), Duration::new(1, 600_000_000));
}

#[test]
fn points_that_no_clock_can_tell() {
    let point = Instant::at(Duration::new(0, 1));
    assert_eq!(point.checked_add(Duration::new(u64::MAX, 999_999_999)), None);
    assert!(point.checked_add(Duration::new(u64::MAX, 999_999_998)).is_some());
}

#[test]
fn what_has_passed() {
    let early = Instant::at(Duration::new(1, 0));
    let late = Instant::at(Duration::new(2, 5));
    assert_eq!(late.saturating_duration_since(early), Duration::new(1, 5));
    assert_eq!(early.saturating_duration_since(late), Duration::new(0, 0));
}

#[test]
fn the_clock_runs() {
    let mut clock = Clock::new(std::time::Instant::now());
    let first = clock.now();
    let mut next = clock.now();
    while next == first {
        next = clock.now();
    }
    assert_eq!(first.saturating_duration_since(next), Duration::from_secs(0));
    assert_ne!(next.saturating_duration_since(first), Duration::from_secs(0));
}

#[test]
fn points_that_the_clock_reaches() {
    let mut clock = Clock::new(std::time::Instant::now());
    let now = clock.now();
    let span = Duration::from_secs(2);
    assert_eq!(clock.after(now, span), Some(now.plus(span)));
    assert_eq!(clock.after(now, Duration::from_secs(0)), Some(now));
}

#[test]
fn points_that_the_clock_does_not_reach() {
    let mut clock = Clock::new(std::time::Instant::now());
    let now = clock.now();
    // The clock of the standard library ends long before the longest span does.
    assert_eq!(clock.after(now, Duration::from_secs(u64::MAX - 1)), None);
    let last = Instant::at(Duration::new(u64::MAX, 999_999_999));
    assert_eq!(clock.after(last, Duration::new(0, 1)), None);
}
