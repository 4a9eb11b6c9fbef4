//! Spans of time and points in time, to the nanosecond.
//!
//! A [`Duration`] reaches as far as 64 bits of seconds do. An [`Instant`] is
//! counted from an origin that the caller fixes once, such as the moment at
//! which it started, and reaches as far as 63 bits of seconds do.

use vstd::prelude::*;

verus! {

const NANOS_PER_SEC: u128 = 1_000_000_000;

/// The longest [`Duration`], in nanoseconds.
pub const MAX_DURATION_NANOS: u128 = 18_446_744_073_709_551_615_999_999_999;

/// The latest [`Instant`], in nanoseconds after the origin.
pub const MAX_INSTANT_NANOS: u128 = 9_223_372_036_854_775_807_999_999_999;

/// A span of time. Its view is its length in nanoseconds.
#[derive(Clone, Copy, Debug, PartialEq, Eq, PartialOrd, Ord)]
pub struct Duration {
    nanos: u128,
}

/// A point in time. Its view is its distance from the origin in nanoseconds.
#[derive(Clone, Copy, Debug, PartialEq, Eq, PartialOrd, Ord)]
pub struct Instant {
    nanos: u128,
}

impl View for Duration {
    type V = nat;

    closed spec fn view(&self) -> nat {
        self.nanos as nat
    }
}

impl View for Instant {
    type V = nat;

    closed spec fn view(&self) -> nat {
        self.nanos as nat
    }
}

impl Duration {
    #[verifier::type_invariant]
    spec fn in_range(self) -> bool {
        self.nanos <= MAX_DURATION_NANOS
    }

    /// A span of whole seconds.
    pub fn from_secs(secs: u64) -> (r: Duration)
        ensures
            r@ == secs * 1_000_000_000,
    {
        Duration { nanos: secs as u128 * NANOS_PER_SEC }
    }

    /// A span of seconds and nanoseconds. Nanoseconds that make up whole seconds
    /// count as such.
    pub fn new(secs: u64, nanos: u32) -> (r: Duration)
        requires
            secs * 1_000_000_000 + nanos <= MAX_DURATION_NANOS,
        ensures
            r@ == secs * 1_000_000_000 + nanos,
    {
        Duration { nanos: secs as u128 * NANOS_PER_SEC + nanos as u128 }
    }

    /// The whole seconds of the span.
    pub fn as_secs(self) -> (r: u64)
        ensures
            r == self@ / 1_000_000_000,
    {
        proof {
            use_type_invariant(self);
        }
        (self.nanos / NANOS_PER_SEC) as u64
    }

    /// What the span holds beyond its whole seconds, in nanoseconds.
    pub fn subsec_nanos(self) -> (r: u32)
        ensures
            r == self@ % 1_000_000_000,
    {
        (self.nanos % NANOS_PER_SEC) as u32
    }

    /// This span less `other`, or nothing when `other` is the longer one.
    pub fn saturating_sub(self, other: Duration) -> (r: Duration)
        ensures
            r@ == if self@ >= other@ {
                (self@ - other@) as nat
            } else {
                0
            },
    {
        proof {
            use_type_invariant(self);
        }
        if self.nanos >= other.nanos {
            Duration { nanos: self.nanos - other.nanos }
        } else {
            Duration { nanos: 0 }
        }
    }

    /// This span taken `factor` times, or `None` when no `Duration` is that long.
    pub fn checked_mul(self, factor: u32) -> (r: Option<Duration>)
        ensures
            match r {
                Some(product) => product@ == self@ * factor <= MAX_DURATION_NANOS,
                None => self@ * factor > MAX_DURATION_NANOS,
            },
    {
        proof {
            use_type_invariant(self);
        }
        match self.nanos.checked_mul(factor as u128) {
            Some(nanos) => {
                if nanos <= MAX_DURATION_NANOS {
                    Some(Duration { nanos })
                } else {
                    None
                }
            },
            None => None,
        }
    }

    /// Whether this span is shorter than `other`, which like every span is no
    /// longer than the longest one.
    pub fn is_shorter_than(self, other: Duration) -> (r: bool)
        ensures
            r == (self@ < other@),
            other@ <= MAX_DURATION_NANOS,
    {
        proof {
            use_type_invariant(other);
        }
        self.nanos < other.nanos
    }

    /// Whether this span is empty.
    pub fn is_zero(self) -> (r: bool)
        ensures
            r == (self@ == 0),
    {
        self.nanos == 0
    }

    /// The shorter of two spans.
    pub fn min(self, other: Duration) -> (r: Duration)
        ensures
            r@ == if self@ <= other@ {
                self@
            } else {
                other@
            },
    {
        if self.nanos <= other.nanos {
            self
        } else {
            other
        }
    }
}

impl Instant {
    #[verifier::type_invariant]
    spec fn in_range(self) -> bool {
        self.nanos <= MAX_INSTANT_NANOS
    }

    /// The point that lies `elapsed` after the origin, or `None` when no
    /// `Instant` is that late.
    pub fn after_origin(elapsed: Duration) -> (r: Option<Instant>)
        ensures
            match r {
                Some(instant) => instant@ == elapsed@ <= MAX_INSTANT_NANOS,
                None => elapsed@ > MAX_INSTANT_NANOS,
            },
    {
        if elapsed.nanos <= MAX_INSTANT_NANOS {
            Some(Instant { nanos: elapsed.nanos })
        } else {
            None
        }
    }

    /// The point that lies `span` later, or `None` when no `Instant` is that late.
    pub fn checked_add(self, span: Duration) -> (r: Option<Instant>)
        ensures
            match r {
                Some(instant) => instant@ == self@ + span@ <= MAX_INSTANT_NANOS,
                None => self@ + span@ > MAX_INSTANT_NANOS,
            },
    {
        proof {
            use_type_invariant(self);
            use_type_invariant(span);
        }
        let nanos: u128 = self.nanos + span.nanos;
        if nanos <= MAX_INSTANT_NANOS {
            Some(Instant { nanos })
        } else {
            None
        }
    }

    /// Whether this point lies before `other`.
    pub fn is_before(self, other: Instant) -> (r: bool)
        ensures
            r == (self@ < other@),
    {
        self.nanos < other.nanos
    }

    /// The span from `earlier` to this point.
    pub fn duration_since(self, earlier: Instant) -> (r: Duration)
        requires
            earlier@ <= self@,
        ensures
            r@ == self@ - earlier@,
    {
        proof {
            use_type_invariant(self);
        }
        Duration { nanos: self.nanos - earlier.nanos }
    }
}

impl core::ops::Add<Duration> for Instant {
    type Output = Instant;

    fn add(self, span: Duration) -> (r: Instant)
        ensures
            r@ == self@ + span@,
    {
        Instant { nanos: self.nanos + span.nanos }
    }
}

impl vstd::std_specs::ops::AddSpecImpl<Duration> for Instant {
    open spec fn obeys_add_spec() -> bool {
        true
    }

    open spec fn add_req(self, span: Duration) -> bool {
        self@ + span@ <= MAX_INSTANT_NANOS
    }

    closed spec fn add_spec(self, span: Duration) -> Instant {
        Instant { nanos: (self.nanos + span.nanos) as u128 }
    }
}

} // verus!
