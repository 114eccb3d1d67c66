//! Spans of time and points in time, as whole numbers.

use vstd::prelude::*;

verus! {

/// A span of time: whole seconds and the nanoseconds of the last, incomplete one.
///
/// The view is the length of the span in nanoseconds.
#[derive(Debug, Clone, Copy, PartialEq, Eq, PartialOrd, Ord, Structural)]
pub struct Duration {
    secs: u64,
    nanos: u32,
}

/// The longest span, in nanoseconds.
pub open spec fn max_nanos() -> nat {
    (u64::MAX * 1_000_000_000 + 999_999_999) as nat
}

impl View for Duration {
    type V = nat;

    closed spec fn view(&self) -> nat {
        (self.secs * 1_000_000_000 + self.nanos) as nat
    }
}

impl Duration {
    #[verifier::type_invariant]
    spec fn well_formed(self) -> bool {
        self.nanos < 1_000_000_000
    }

    fn of_nanos(total: u128) -> (d: Duration)
        requires
            total <= max_nanos(),
        ensures
            d@ == total,
    {
        Duration { secs: (total / 1_000_000_000) as u64, nanos: (total % 1_000_000_000) as u32 }
    }

    /// The span of no length.
    pub fn zero() -> (d: Duration)
        ensures
            d@ == 0,
    {
        Duration { secs: 0, nanos: 0 }
    }

    /// A span of whole seconds.
    pub fn from_secs(secs: u64) -> (d: Duration)
        ensures
            d@ == secs * 1_000_000_000,
    {
        Duration { secs, nanos: 0 }
    }

    /// A span of whole milliseconds.
    pub fn from_millis(millis: u64) -> (d: Duration)
        ensures
            d@ == millis * 1_000_000,
    {
        Self::of_nanos(millis as u128 * 1_000_000)
    }

    /// The whole seconds of the span.
    pub fn as_secs(&self) -> (r: u64)
        ensures
            r == self@ / 1_000_000_000,
    {
        proof {
            use_type_invariant(self);
        }
        self.secs
    }

    /// The nanoseconds beyond the whole seconds.
    pub fn subsec_nanos(&self) -> (r: u32)
        ensures
            r == self@ % 1_000_000_000,
    {
        proof {
            use_type_invariant(self);
        }
        self.nanos
    }

    /// The length in nanoseconds.
    pub fn as_nanos(&self) -> (r: u128)
        ensures
            r == self@,
            r <= max_nanos(),
    {
        proof {
            use_type_invariant(self);
        }
        self.secs as u128 * 1_000_000_000 + self.nanos as u128
    }

    /// The whole milliseconds of the span.
    pub fn as_millis(&self) -> (r: u128)
        ensures
            r == self@ / 1_000_000,
    {
        self.as_nanos() / 1_000_000
    }

    pub fn is_zero(&self) -> (r: bool)
        ensures
            r == (self@ == 0),
    {
        self.as_nanos() == 0
    }

    /// Whether this span is longer than `other`.
    pub fn longer_than(&self, other: &Duration) -> (r: bool)
        ensures
            r == (self@ > other@),
    {
        self.as_nanos() > other.as_nanos()
    }

    /// The shorter of two spans.
    pub fn min(self, other: Duration) -> (r: Duration)
        ensures
            r@ == if self@ <= other@ { self@ } else { other@ },
            r == self || r == other,
    {
        if self.longer_than(&other) {
            other
        } else {
            self
        }
    }

    /// `factor` times this span, or the longest span where that is shorter.
    pub fn saturating_mul(self, factor: u32) -> (r: Duration)
        ensures
            r@ == if self@ * factor <= max_nanos() { self@ * factor } else { max_nanos() as int },
    {
        let nanos: u128 = self.as_nanos();
        assert(nanos * factor <= max_nanos() * u32::MAX) by (nonlinear_arith)
            requires
                nanos <= max_nanos(),
                factor <= u32::MAX,
        ;
        let total: u128 = nanos * factor as u128;
        let longest: u128 = u64::MAX as u128 * 1_000_000_000 + 999_999_999;
        if total <= longest {
            Self::of_nanos(total)
        } else {
            Self::of_nanos(longest)
        }
    }

    /// The length in microseconds, to the nearest one; halfway between two, to the even one.
    pub fn nearest_micros(&self) -> (r: u128)
        ensures
            r == nearest_micros(self@),
            r <= max_nanos() / 1000 + 1,
    {
        let nanos: u128 = self.as_nanos();
        let whole: u128 = nanos / 1000;
        let rest: u128 = nanos % 1000;
        if rest > 500 || (rest == 500 && whole % 2 == 1) {
            whole + 1
        } else {
            whole
        }
    }

    /// The length in milliseconds, to the nearest one; halfway between two, to the longer one.
    pub fn nearest_millis(&self) -> (r: u128)
        ensures
            r == (self@ + 500_000) / 1_000_000,
            r <= max_nanos() / 1_000_000 + 1,
    {
        (self.as_nanos() + 500_000) / 1_000_000
    }
}

/// A length in nanoseconds, rounded to microseconds; halfway between two, to the even one.
pub open spec fn nearest_micros(nanos: nat) -> nat {
    let whole = nanos / 1000;
    let rest = nanos % 1000;
    if rest > 500 || (rest == 500 && whole % 2 == 1) {
        whole + 1
    } else {
        whole
    }
}

/// A point in time: seconds since 1970-01-01T00:00:00Z and the nanoseconds within the second.
/// During a leap second the nanoseconds pass beyond one second.
#[derive(Debug, Clone, Copy, PartialEq, Eq, PartialOrd, Ord, Structural)]
pub struct Timestamp {
    pub secs: i64,
    pub nanos: u32,
}

impl Timestamp {
    /// Nanoseconds since the epoch.
    pub open spec fn instant(self) -> int {
        self.secs * 1_000_000_000 + self.nanos
    }

    /// Whether this point comes before `other`.
    pub open spec fn before(self, other: Timestamp) -> bool {
        self.secs < other.secs || (self.secs == other.secs && self.nanos < other.nanos)
    }

    /// The point in time that lies `nanos` later, the span rounded to microseconds; `None` where
    /// its seconds leave the range of `secs`.
    pub open spec fn later(self, nanos: nat) -> Option<Timestamp> {
        let instant = self.instant() + nearest_micros(nanos) * 1000;
        let secs = instant / 1_000_000_000;
        if secs <= i64::MAX {
            Some(
                Timestamp { secs: secs as i64, nanos: (instant % 1_000_000_000) as u32 },
            )
        } else {
            None
        }
    }

    pub fn is_before(&self, other: &Timestamp) -> (r: bool)
        ensures
            r == self.before(*other),
    {
        self.secs < other.secs || (self.secs == other.secs && self.nanos < other.nanos)
    }

    /// The point in time that comes `span` after this one.
    pub fn checked_add(&self, span: &Duration) -> (r: Option<Timestamp>)
        ensures
            r == self.later(span@),
    {
        let micros: u128 = span.nearest_micros();
        // Counted from the earliest point in time, so that nothing is negative.
        let from_start: u128 = (self.secs as i128 + 0x8000_0000_0000_0000i128) as u128;
        let total: u128 = from_start * 1_000_000_000 + self.nanos as u128 + micros * 1000;
        let secs: u128 = total / 1_000_000_000;
        if secs > 0xffff_ffff_ffff_ffff {
            None
        } else {
            Some(
                Timestamp {
                    secs: (secs as i128 - 0x8000_0000_0000_0000i128) as i64,
                    nanos: (total % 1_000_000_000) as u32,
                },
            )
        }
    }
}

/// Points in time come one before the other: of two different ones exactly one is the earlier, and
/// outside of leap seconds it is the one with fewer nanoseconds since the epoch.
pub proof fn law_earlier_points_come_before(a: Timestamp, b: Timestamp, c: Timestamp)
    ensures
        !a.before(a),
        a.before(b) ==> !b.before(a),
        a == b || a.before(b) || b.before(a),
        a.before(b) && b.before(c) ==> a.before(c),
        a.secs < b.secs ==> a.before(b),
        a.secs == b.secs && a.nanos < b.nanos ==> a.before(b),
        a.nanos < 1_000_000_000 && b.nanos < 1_000_000_000 ==> (a.before(b) <==> a.secs
            * 1_000_000_000 + a.nanos < b.secs * 1_000_000_000 + b.nanos),
{
}

/// A later point in time lies as far away as asked for, to the nearest microsecond; halfway between
/// two, by an even number of microseconds. There is none only where it lies beyond all seconds.
pub proof fn law_later_points_lie_a_span_away(at: Timestamp, nanos: nat)
    ensures
        match at.later(nanos) {
            Some(then) => {
                let passed = (then.secs * 1_000_000_000 + then.nanos) - (at.secs * 1_000_000_000
                    + at.nanos);
                &&& then.nanos < 1_000_000_000
                &&& passed % 1000 == 0
                &&& -500 <= passed - nanos <= 500
                &&& passed - nanos == 500 || passed - nanos == -500 ==> (passed / 1000) % 2 == 0
            },
            None => at.secs * 1_000_000_000 + at.nanos + nanos + 500 >= (i64::MAX + 1)
                * 1_000_000_000,
        },
{
    let whole = nanos / 1000;
    assert(nanos == whole * 1000 + nanos % 1000);
    let instant = at.instant() + nearest_micros(nanos) * 1000;
    assert(instant == (instant / 1_000_000_000) * 1_000_000_000 + instant % 1_000_000_000);
    assert((nearest_micros(nanos) * 1000) % 1000 == 0);
    assert((nearest_micros(nanos) * 1000) / 1000 == nearest_micros(nanos));
    assert(instant >= i64::MIN * 1_000_000_000);
}

} // verus!
