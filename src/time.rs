//! Spans of time at millisecond resolution.
use vstd::prelude::*;

use crate::text::{decimal, push_decimal};

verus! {

/// A non-negative span of time, counted in whole milliseconds.
///
/// Positions, track lengths, deadlines and clock readings are all held in this type.
#[derive(Clone, Copy, Debug, PartialEq, Eq, Structural, PartialOrd, Ord, Hash)]
pub struct Duration {
    /// Number of milliseconds in the span.
    pub millis: u64,
}

/// What `Duration::to_string` renders: `250ms` below one second, `5s` for whole
/// seconds, and `1.5s` (fraction without trailing zeros) otherwise.
pub open spec fn duration_text(millis: nat) -> Seq<char> {
    if millis < 1000 {
        decimal(millis) + seq!['m', 's']
    } else if millis % 1000 == 0 {
        decimal(millis / 1000) + seq!['s']
    } else {
        decimal(millis / 1000) + seq!['.'] + fraction_digits(millis % 1000) + seq!['s']
    }
}

/// The digits of a thousandth count `f` (`0 < f < 1000`) after a decimal point,
/// without trailing zeros: 500 gives `5`, 50 gives `05`, 5 gives `005`.
pub open spec fn fraction_digits(f: nat) -> Seq<char> {
    if f % 100 == 0 {
        decimal(f / 100)
    } else if f % 10 == 0 {
        decimal(f / 100) + decimal((f / 10) % 10)
    } else {
        decimal(f / 100) + decimal((f / 10) % 10) + decimal(f % 10)
    }
}

impl Duration {
    /// The empty span.
    pub fn zero() -> (r: Duration)
        ensures
            r.millis == 0,
    {
        Duration { millis: 0 }
    }

    /// A span of `millis` milliseconds.
    pub fn from_millis(millis: u64) -> (r: Duration)
        ensures
            r.millis == millis,
    {
        Duration { millis }
    }

    /// A span of `secs` seconds, saturating at the largest representable span.
    pub fn from_secs(secs: u64) -> (r: Duration)
        ensures
            r.millis == if secs * 1000 <= u64::MAX { secs * 1000 } else { u64::MAX as int },
    {
        if secs <= u64::MAX / 1000 {
            Duration { millis: secs * 1000 }
        } else {
            Duration { millis: u64::MAX }
        }
    }

    /// A span of `micros` microseconds, truncated to whole milliseconds.
    pub fn from_micros(micros: u64) -> (r: Duration)
        ensures
            r.millis == micros / 1000,
    {
        Duration { millis: micros / 1000 }
    }

    /// Number of whole seconds in the span.
    pub fn as_secs(self) -> (r: u64)
        ensures
            r == self.millis / 1000,
    {
        self.millis / 1000
    }

    /// Number of milliseconds in the span.
    pub fn as_millis(self) -> (r: u64)
        ensures
            r == self.millis,
    {
        self.millis
    }

    /// Number of microseconds in the span.
    pub fn as_micros(self) -> (r: u128)
        ensures
            r == self.millis * 1000,
    {
        self.millis as u128 * 1000
    }

    /// The span from `earlier` to `self`, or zero where `earlier` is later.
    pub fn saturating_sub(self, earlier: Duration) -> (r: Duration)
        ensures
            r.millis == if self.millis >= earlier.millis { self.millis - earlier.millis } else { 0 },
    {
        if self.millis >= earlier.millis {
            Duration { millis: self.millis - earlier.millis }
        } else {
            Duration { millis: 0 }
        }
    }

    /// Renders the span as `250ms`, `5s` or `1.5s`.
    pub fn to_string(self) -> (r: String)
        ensures
            r@ == duration_text(self.millis as nat),
    {
        let mut out = String::new();
        if self.millis < 1000 {
            push_decimal(&mut out, self.millis);
            out.append("ms");
            proof {
                reveal_strlit("ms");
                assert(out@ =~= duration_text(self.millis as nat));
            }
        } else if self.millis % 1000 == 0 {
            push_decimal(&mut out, self.millis / 1000);
            out.append("s");
            proof {
                reveal_strlit("s");
                assert(out@ =~= duration_text(self.millis as nat));
            }
        } else {
            let f = self.millis % 1000;
            push_decimal(&mut out, self.millis / 1000);
            out.append(".");
            push_decimal(&mut out, f / 100);
            if f % 100 != 0 {
                push_decimal(&mut out, (f / 10) % 10);
                if f % 10 != 0 {
                    push_decimal(&mut out, f % 10);
                }
            }
            out.append("s");
            proof {
                reveal_strlit(".");
                reveal_strlit("s");
                assert(out@ =~= duration_text(self.millis as nat));
            }
        }
        out
    }
}

} // verus!
