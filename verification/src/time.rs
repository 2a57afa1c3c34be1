//! Points in time and spans of time, counted in whole nanoseconds.

use vstd::prelude::*;

verus! {

/// How many nanoseconds there are in a second.
pub const NANOS_PER_SEC: u128 = 1_000_000_000;

/// The longest span, in nanoseconds: `u64::MAX` seconds and 999 999 999 nanoseconds.
pub const MAX_NANOS: u128 = 18_446_744_073_709_551_615_999_999_999;

/// A span of time.
#[derive(Clone, Copy, Debug, PartialEq, Eq, Structural)]
pub struct Duration {
    nanos: u128,
}

impl View for Duration {
    type V = nat;

    /// The span in nanoseconds.
    closed spec fn view(&self) -> nat {
        self.nanos as nat
    }
}

impl Duration {
    #[verifier::type_invariant]
    spec fn type_inv(self) -> bool {
        self.nanos <= MAX_NANOS
    }

    /// The span of `nanos` nanoseconds.
    pub closed spec fn of_nanos(nanos: nat) -> Duration {
        Duration { nanos: nanos as u128 }
    }

    /// The span of so many nanoseconds is that long.
    pub proof fn lemma_of_nanos(nanos: nat)
        requires
            nanos <= MAX_NANOS,
        ensures
            Self::of_nanos(nanos)@ == nanos,
    {
    }

    /// A span of `secs` seconds and `subsec_nanos` nanoseconds.
    pub fn new(secs: u64, subsec_nanos: u32) -> (span: Duration)
        requires
            subsec_nanos < NANOS_PER_SEC,
        ensures
            span@ == secs * NANOS_PER_SEC + subsec_nanos,
            span@ <= MAX_NANOS,
            span == Self::of_nanos(span@),
    {
        Duration { nanos: secs as u128 * NANOS_PER_SEC + subsec_nanos as u128 }
    }

    /// A span of whole seconds.
    pub fn from_secs(secs: u64) -> (span: Duration)
        ensures
            span@ == secs * NANOS_PER_SEC,
            span@ <= MAX_NANOS,
            span == Self::of_nanos(span@),
    {
        Self::new(secs, 0)
    }

    /// The whole seconds of the span.
    pub fn as_secs(&self) -> (secs: u64)
        ensures
            secs == self@ / NANOS_PER_SEC as nat,
    {
        proof {
            use_type_invariant(self);
        }
        (self.nanos / NANOS_PER_SEC) as u64
    }

    /// What the span has beyond its whole seconds, in nanoseconds.
    pub fn subsec_nanos(&self) -> (nanos: u32)
        ensures
            nanos == self@ % NANOS_PER_SEC as nat,
    {
        (self.nanos % NANOS_PER_SEC) as u32
    }
}

/// A point in time, given by what has passed since the origin of the clock it
/// was read from.
#[derive(Clone, Copy, Debug, PartialEq, Eq, Structural)]
pub struct Instant {
    nanos: u128,
}

impl View for Instant {
    type V = nat;

    /// The nanoseconds since the clock's origin.
    closed spec fn view(&self) -> nat {
        self.nanos as nat
    }
}

impl Instant {
    #[verifier::type_invariant]
    spec fn type_inv(self) -> bool {
        self.nanos <= MAX_NANOS
    }

    /// The point `nanos` nanoseconds after the clock's origin.
    pub closed spec fn of_nanos(nanos: nat) -> Instant {
        Instant { nanos: nanos as u128 }
    }

    /// The point so many nanoseconds after the origin lies that far from it.
    pub proof fn lemma_of_nanos(nanos: nat)
        requires
            nanos <= MAX_NANOS,
        ensures
            Self::of_nanos(nanos)@ == nanos,
    {
    }

    /// The point in time `offset` after the clock's origin.
    pub fn at(offset: Duration) -> (point: Instant)
        ensures
            point@ == offset@,
            point == Self::of_nanos(offset@),
    {
        proof {
            use_type_invariant(&offset);
        }
        Instant { nanos: offset.nanos }
    }

    /// How far this point lies after the clock's origin.
    pub fn since_origin(&self) -> (offset: Duration)
        ensures
            offset@ == self@,
            offset == Duration::of_nanos(self@),
    {
        proof {
            use_type_invariant(self);
        }
        Duration { nanos: self.nanos }
    }

    /// The point `span` later, if a clock can tell it at all.
    pub open spec fn later(self, span: Duration) -> Option<Instant> {
        if self@ + span@ <= MAX_NANOS {
            Some(Instant::of_nanos(self@ + span@))
        } else {
            None
        }
    }

    /// What has passed at this point since `earlier`, and nothing if `earlier` is later.
    pub open spec fn since(self, earlier: Instant) -> Duration {
        Duration::of_nanos(
            if earlier@ <= self@ {
                (self@ - earlier@) as nat
            } else {
                0
            },
        )
    }

    /// The point `span` later.
    pub fn plus(self, span: Duration) -> (point: Instant)
        requires
            self@ + span@ <= MAX_NANOS,
        ensures
            self.later(span) == Some(point),
            point@ == self@ + span@,
    {
        Instant { nanos: self.nanos + span.nanos }
    }

    /// The point `span` later, or `None` beyond the last point that a clock can tell.
    pub fn checked_add(self, span: Duration) -> (point: Option<Instant>)
        ensures
            point == self.later(span),
            match point {
                Some(p) => p@ == self@ + span@,
                None => self@ + span@ > MAX_NANOS,
            },
    {
        proof {
            use_type_invariant(&self);
            use_type_invariant(&span);
        }
        let nanos: u128 = self.nanos + span.nanos;
        if nanos <= MAX_NANOS {
            Some(Instant { nanos })
        } else {
            None
        }
    }

    /// What has passed at this point since `earlier`, and nothing if `earlier` is later.
    pub fn saturating_duration_since(self, earlier: Instant) -> (span: Duration)
        ensures
            span == self.since(earlier),
            span@ == if earlier@ <= self@ {
                self@ - earlier@
            } else {
                0
            },
    {
        proof {
            use_type_invariant(&self);
        }
        if earlier.nanos <= self.nanos {
            Duration { nanos: self.nanos - earlier.nanos }
        } else {
            Duration { nanos: 0 }
        }
    }
}

/// The monotonic clock of the standard library.
#[verifier::external_type_specification]
#[verifier::external_body]
pub struct ExStdInstant(std::time::Instant);

/// `std::time::Instant::elapsed`, the span converted by `Duration::as_nanos`:
/// what has passed since `origin`. Claims only that the result is a span that
/// the standard library can hold; when the clock is read decides the rest.
#[verifier::external_body]
fn nanos_since(origin: &std::time::Instant) -> (nanos: u128)
    ensures
        nanos <= MAX_NANOS,
{
    origin.elapsed().as_nanos()
}

/// `std::time::Instant::checked_add`, on the span of `secs` seconds and
/// `subsec_nanos` nanoseconds: the point that lies this span after `origin`, or `None`
/// if the standard library cannot hold that point. Claims nothing: which points it
/// can hold depends on the machine.
#[verifier::external_body]
fn point_after(origin: &std::time::Instant, secs: u64, subsec_nanos: u32) -> (point: Option<
    std::time::Instant,
>)
    requires
        subsec_nanos < NANOS_PER_SEC,
{
    origin.checked_add(std::time::Duration::new(secs, subsec_nanos))
}

/// Whether `point` was read from a clock that counts from `origin`.
pub closed spec fn read_from(origin: std::time::Instant, point: Instant) -> bool {
    call_ensures(nanos_since, (&origin,), point.nanos)
}

/// Whether a clock that counts from `origin` was asked for `point` and can tell it.
pub closed spec fn within_reach(origin: std::time::Instant, point: Instant) -> bool {
    exists|found: std::time::Instant|
        call_ensures(
            point_after,
            (
                &origin,
                (point.nanos / NANOS_PER_SEC) as u64,
                (point.nanos % NANOS_PER_SEC) as u32,
            ),
            Some(found),
        )
}

/// Whether a clock that counts from `origin` was asked for `point` and cannot tell it.
pub closed spec fn out_of_reach(origin: std::time::Instant, point: Instant) -> bool {
    call_ensures(
        point_after,
        (&origin, (point.nanos / NANOS_PER_SEC) as u64, (point.nanos % NANOS_PER_SEC) as u32),
        None,
    )
}

/// A clock that counts from an origin of its own.
pub struct Clock {
    origin: std::time::Instant,
    readings: Ghost<Seq<Instant>>,
}

impl Clock {
    /// What the clock counts from.
    pub closed spec fn origin(self) -> std::time::Instant {
        self.origin
    }

    /// All that was read from the clock so far, in the order in which it was read.
    pub closed spec fn readings(self) -> Seq<Instant> {
        self.readings@
    }

    /// Whether `point` was read from this clock.
    pub open spec fn reads(self, point: Instant) -> bool {
        read_from(self.origin(), point)
    }

    /// Whether the clock told that there is a point `span` after `point`.
    pub open spec fn reaches(self, point: Instant, span: Duration) -> bool {
        &&& point.later(span) matches Some(later)
        &&& within_reach(self.origin(), later)
    }

    /// Whether the clock told that there is no point `span` after `point`.
    pub open spec fn falls_short(self, point: Instant, span: Duration) -> bool {
        point.later(span) matches Some(later) ==> out_of_reach(self.origin(), later)
    }

    /// Makes a clock that counts from `origin`.
    pub fn new(origin: std::time::Instant) -> (clock: Clock)
        ensures
            clock.origin() == origin,
            clock.readings() == Seq::<Instant>::empty(),
    {
        Clock { origin, readings: Ghost(Seq::empty()) }
    }

    /// Reads the clock.
    pub fn now(&mut self) -> (point: Instant)
        ensures
            old(self).reads(point),
            point@ <= MAX_NANOS,
            final(self).origin() == old(self).origin(),
            final(self).readings() == old(self).readings().push(point),
    {
        let point = Instant { nanos: nanos_since(&self.origin) };
        self.readings = Ghost(self.readings@.push(point));
        point
    }

    /// The point `span` after `point`, if the clock can tell it.
    pub fn after(&self, point: Instant, span: Duration) -> (later: Option<Instant>)
        ensures
            match later {
                Some(_) => self.reaches(point, span) && later == point.later(span),
                None => self.falls_short(point, span),
            },
    {
        match point.checked_add(span) {
            Some(later) => {
                let offset = later.since_origin();
                match point_after(&self.origin, offset.as_secs(), offset.subsec_nanos()) {
                    Some(_found) => Some(later),
                    None => None,
                }
            },
            None => None,
        }
    }
}

/// What counts as read from a clock is what had passed since its origin.
proof fn law_read_from(origin: std::time::Instant, point: Instant)
    requires
        read_from(origin, point),
    ensures
        exists|nanos: u128| nanos == point@ && call_ensures(nanos_since, (&origin,), nanos),
{
    assert(call_ensures(nanos_since, (&origin,), point.nanos));
}

/// A point that counts as within reach was asked for and told, and one that counts as out of
/// reach was asked for and not told.
proof fn law_reach(origin: std::time::Instant, point: Instant)
    requires
        point@ <= MAX_NANOS,
    ensures
        within_reach(origin, point) ==> exists|secs: u64, nanos: u32, found: std::time::Instant|
            {
                &&& secs * 1_000_000_000 + nanos == point@
                &&& nanos < 1_000_000_000
                &&& #[trigger] call_ensures(point_after, (&origin, secs, nanos), Some(found))
            },
        out_of_reach(origin, point) ==> exists|secs: u64, nanos: u32|
            {
                &&& secs * 1_000_000_000 + nanos == point@
                &&& nanos < 1_000_000_000
                &&& #[trigger] call_ensures(point_after, (&origin, secs, nanos), None)
            },
{
    let secs = (point.nanos / NANOS_PER_SEC) as u64;
    let nanos = (point.nanos % NANOS_PER_SEC) as u32;
    assert(secs * 1_000_000_000 + nanos == point@);
    if within_reach(origin, point) {
        let found = choose|found: std::time::Instant|
            call_ensures(point_after, (&origin, secs, nanos), Some(found));
        assert(call_ensures(point_after, (&origin, secs, nanos), Some(found)));
    }
}

} // verus!
