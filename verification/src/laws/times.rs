//! How spans and points of time relate.

use vstd::prelude::*;

use crate::time::{Clock, Duration, Instant};

verus! {

use crate::time::{out_of_reach, read_from, within_reach};

/// A span is as long as the seconds and nanoseconds that it was made of, and tells them
/// again.
pub proof fn law_span(secs: u64, nanos: u32, span: Duration, as_secs: u64, subsec_nanos: u32)
    requires
        nanos < 1_000_000_000,
        call_ensures(Duration::new, (secs, nanos), span),
        call_ensures(Duration::as_secs, (&span,), as_secs),
        call_ensures(Duration::subsec_nanos, (&span,), subsec_nanos),
    ensures
        span@ == secs * 1_000_000_000 + nanos,
        as_secs == secs,
        subsec_nanos == nanos,
{
}

/// Every span is the seconds and the nanoseconds that it tells.
pub proof fn law_span_in_parts(span: Duration, as_secs: u64, subsec_nanos: u32)
    requires
        call_ensures(Duration::as_secs, (&span,), as_secs),
        call_ensures(Duration::subsec_nanos, (&span,), subsec_nanos),
    ensures
        span@ == as_secs * 1_000_000_000 + subsec_nanos,
        subsec_nanos < 1_000_000_000,
{
}

/// A span of whole seconds is the span of so many seconds and no nanoseconds.
pub proof fn law_whole_seconds(secs: u64, span: Duration, with_nanos: Duration)
    requires
        call_ensures(Duration::from_secs, (secs,), span),
        call_ensures(Duration::new, (secs, 0), with_nanos),
    ensures
        span@ == secs * 1_000_000_000,
        span == with_nanos,
{
}

/// A point in time lies where it was put.
pub proof fn law_point(offset: Duration, point: Instant, since_origin: Duration)
    requires
        call_ensures(Instant::at, (offset,), point),
        call_ensures(Instant::since_origin, (&point,), since_origin),
    ensures
        point@ == offset@,
        since_origin@ == offset@,
{
}

/// To go on by a span and then to look back is to see that span. There is no way to go on
/// only beyond the last point in time.
pub proof fn law_there_and_back(
    point: Instant,
    span: Duration,
    later: Option<Instant>,
    passed: Duration,
)
    requires
        call_ensures(Instant::checked_add, (point, span), later),
        later matches Some(later) ==> call_ensures(
            Instant::saturating_duration_since,
            (later, point),
            passed,
        ),
    ensures
        later is Some <==> point@ + span@ < 18_446_744_073_709_551_616_000_000_000,
        later matches Some(later) ==> later@ == point@ + span@ && passed@ == span@,
{
}

/// Where there is a point to go on to, going on by a span leads there.
pub proof fn law_plus(point: Instant, span: Duration, later: Instant)
    requires
        call_ensures(Instant::plus, (point, span), later),
    ensures
        later@ == point@ + span@,
{
}

/// What has passed since an earlier point is the difference, and since a later one nothing.
pub proof fn law_passed(point: Instant, earlier: Instant, passed: Duration)
    requires
        call_ensures(Instant::saturating_duration_since, (point, earlier), passed),
    ensures
        earlier@ <= point@ ==> passed@ == point@ - earlier@,
        earlier@ >= point@ ==> passed@ == 0,
{
}

/// A clock that was made has not been read. Reading a clock adds the reading to those before
/// it and leaves the clock as it is otherwise.
pub proof fn law_reading(
    origin: std::time::Instant,
    fresh: Clock,
    clock: &mut Clock,
    point: Instant,
)
    requires
        call_ensures(Clock::new, (origin,), fresh),
        call_ensures(Clock::now, (clock,), point),
    ensures
        fresh.origin() == origin,
        fresh.readings().len() == 0,
        final(clock).origin() == old(clock).origin(),
        final(clock).readings() == old(clock).readings().push(point),
        read_from(old(clock).origin(), point),
{
}

/// A clock that can tell the point a span later tells it. One that cannot was asked for just
/// that point, unless the point lies beyond every other.
pub proof fn law_clock_after(clock: Clock, point: Instant, span: Duration, later: Option<Instant>)
    requires
        call_ensures(Clock::after, (&clock, point, span), later),
    ensures
        later matches Some(later) ==> {
            &&& later@ == point@ + span@
            &&& within_reach(clock.origin(), later)
        },
        later is None ==> {
            ||| point@ + span@ >= 18_446_744_073_709_551_616_000_000_000
            ||| out_of_reach(clock.origin(), Instant::of_nanos(point@ + span@))
        },
{
    if point.later(span) is Some {
        Instant::lemma_of_nanos(point@ + span@);
    }
}

} // verus!
