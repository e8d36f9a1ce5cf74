//! Spans of time with the resolution of a nanosecond.
use vstd::prelude::*;

verus! {

/// The number of nanoseconds in a second.
pub const NANOS_PER_SEC: u32 = 1_000_000_000;

/// A span of time: whole seconds and the nanoseconds beyond them.
///
/// Its view is the span in nanoseconds.
#[derive(Clone, Copy, Debug, PartialEq, Eq, Structural)]
pub struct Duration {
    secs: u64,
    nanos: u32,
}

impl View for Duration {
    type V = nat;

    closed spec fn view(&self) -> nat {
        (self.secs * NANOS_PER_SEC + self.nanos) as nat
    }
}

/// The longest span, in nanoseconds.
pub open spec fn longest_span() -> nat {
    (u64::MAX * NANOS_PER_SEC + (NANOS_PER_SEC - 1)) as nat
}

/// The text that debug-formatting a span of whole seconds and nanoseconds
/// gives.
pub uninterp spec fn span_debug_text(secs: nat, nanos: nat) -> Seq<char>;

/// `std::time::Duration`'s `Debug`.
///
/// The text is a function of the span.
#[verifier::external_body]
fn format_span(secs: u64, nanos: u32) -> (text: String)
    requires
        nanos < NANOS_PER_SEC,
    ensures
        text@ == span_debug_text(secs as nat, nanos as nat),
{
    format!("{:?}", std::time::Duration::new(secs, nanos))
}

impl Duration {
    /// The nanoseconds beyond the whole seconds are less than a second.
    #[verifier::type_invariant]
    spec fn inv(self) -> bool {
        self.nanos < NANOS_PER_SEC
    }

    /// The empty span.
    pub fn zero() -> (span: Duration)
        ensures
            span@ == 0,
    {
        Duration { secs: 0, nanos: 0 }
    }

    /// A span of `secs` seconds and `nanos` nanoseconds.
    pub fn new(secs: u64, nanos: u32) -> (span: Duration)
        requires
            nanos < NANOS_PER_SEC,
        ensures
            span@ == secs * NANOS_PER_SEC + nanos,
            span@ == secs * 1_000_000_000 + nanos,
    {
        Duration { secs, nanos }
    }

    /// A span of `secs` seconds.
    pub fn from_secs(secs: u64) -> (span: Duration)
        ensures
            span@ == secs * NANOS_PER_SEC,
            span@ == secs * 1_000_000_000,
    {
        Duration { secs, nanos: 0 }
    }

    /// A span of `millis` milliseconds.
    pub fn from_millis(millis: u64) -> (span: Duration)
        ensures
            span@ == millis * 1_000_000,
    {
        Duration { secs: millis / 1000, nanos: (millis % 1000) as u32 * 1_000_000 }
    }

    /// Whether the span is empty.
    pub fn is_zero(&self) -> (zero: bool)
        ensures
            zero == (self@ == 0),
    {
        self.secs == 0 && self.nanos == 0
    }

    /// The whole seconds of the span.
    pub fn as_secs(&self) -> (secs: u64)
        ensures
            secs == self@ / (NANOS_PER_SEC as nat),
            secs * 1_000_000_000 <= self@ < (secs + 1) * 1_000_000_000,
    {
        proof {
            use_type_invariant(self);
        }
        self.secs
    }

    /// The nanoseconds of the span beyond its whole seconds.
    pub fn subsec_nanos(&self) -> (nanos: u32)
        ensures
            nanos == self@ % (NANOS_PER_SEC as nat),
            nanos == self@ % 1_000_000_000,
    {
        proof {
            use_type_invariant(self);
        }
        self.nanos
    }

    /// Whether the span is longer than `other`.
    pub fn exceeds(&self, other: &Duration) -> (longer: bool)
        ensures
            longer == (self@ > other@),
    {
        proof {
            use_type_invariant(self);
            use_type_invariant(other);
        }
        self.secs > other.secs || self.secs == other.secs && self.nanos > other.nanos
    }

    /// `factor` times the span, or the longest span where that is longer.
    pub fn saturating_mul(&self, factor: u32) -> (product: Duration)
        ensures
            product@ == if self@ * factor <= longest_span() {
                self@ * factor
            } else {
                longest_span() as int
            },
            self@ * factor <= 18_446_744_073_709_551_615_999_999_999 ==> product@ == self@ * factor,
            self@ * factor > 18_446_744_073_709_551_615_999_999_999 ==> product@
                == 18_446_744_073_709_551_615_999_999_999,
    {
        proof {
            use_type_invariant(self);
        }
        proof {
            let (n, s, f) = (self.nanos as int, self.secs as int, factor as int);
            assert(0 <= n * f <= 999_999_999 * 0xffff_ffff) by (nonlinear_arith)
                requires
                    0 <= n <= 999_999_999,
                    0 <= f <= 0xffff_ffff,
            ;
            assert(0 <= s * f <= 0xffff_ffff_ffff_ffff * 0xffff_ffff) by (nonlinear_arith)
                requires
                    0 <= s <= 0xffff_ffff_ffff_ffff,
                    0 <= f <= 0xffff_ffff,
            ;
            assert((s * 1_000_000_000 + n) * f == (s * f) * 1_000_000_000 + n * f)
                by (nonlinear_arith);
        }
        let total_nanos: u64 = self.nanos as u64 * factor as u64;
        let carried: u64 = total_nanos / 1_000_000_000;
        let nanos: u32 = (total_nanos % 1_000_000_000) as u32;
        let secs: u128 = self.secs as u128 * factor as u128 + carried as u128;
        assert(self@ * factor == secs * NANOS_PER_SEC + nanos) by {
            let (n, s, f) = (self.nanos as int, self.secs as int, factor as int);
            assert(total_nanos == n * f);
            assert(secs == s * f + carried);
            assert(total_nanos == carried * 1_000_000_000 + nanos);
            assert(self@ * factor == (s * 1_000_000_000 + n) * f);
        }
        if secs <= u64::MAX as u128 {
            Duration { secs: secs as u64, nanos }
        } else {
            Duration { secs: u64::MAX, nanos: NANOS_PER_SEC - 1 }
        }
    }

    /// A `parts`-th of the span, in whole nanoseconds.
    pub fn divided_by(&self, parts: u32) -> (part: Duration)
        requires
            parts > 0,
        ensures
            part@ == self@ / (parts as nat),
    {
        proof {
            use_type_invariant(self);
        }
        let secs: u64 = self.secs / parts as u64;
        let left: u64 = self.secs % parts as u64;
        proof {
            let (s, n, p) = (self.secs as int, self.nanos as int, parts as int);
            let (q, r) = (s / p, s % p);
            vstd::arithmetic::div_mod::lemma_fundamental_div_mod(s, p);
            vstd::arithmetic::div_mod::lemma_mod_bound(s, p);
            let rest = r * 1_000_000_000 + n;
            let extra = rest / p;
            vstd::arithmetic::div_mod::lemma_fundamental_div_mod(rest, p);
            vstd::arithmetic::div_mod::lemma_mod_bound(rest, p);
            assert(extra < 1_000_000_000) by (nonlinear_arith)
                requires
                    rest == p * extra + rest % p,
                    rest < p * 1_000_000_000,
                    0 <= rest % p < p,
                    p > 0,
            ;
            assert(s * 1_000_000_000 + n == (q * 1_000_000_000 + extra) * p + rest % p)
                by (nonlinear_arith)
                requires
                    s == p * q + r,
                    rest == r * 1_000_000_000 + n,
                    rest == p * extra + rest % p,
            ;
            vstd::arithmetic::div_mod::lemma_fundamental_div_mod_converse(
                s * 1_000_000_000 + n,
                p,
                q * 1_000_000_000 + extra,
                rest % p,
            );
        }
        let nanos: u64 = (left * NANOS_PER_SEC as u64 + self.nanos as u64) / parts as u64;
        Duration { secs, nanos: nanos as u32 }
    }

    /// The text that debug-formatting the span gives.
    pub open spec fn debug_text(&self) -> Seq<char> {
        span_debug_text(self@ / (NANOS_PER_SEC as nat), self@ % (NANOS_PER_SEC as nat))
    }

    /// The text that debug-formatting the span gives, e.g. `1.5s`.
    pub fn to_debug_string(&self) -> (text: String)
        ensures
            text@ == self.debug_text(),
            text@ == span_debug_text(self@ / 1_000_000_000, self@ % 1_000_000_000),
    {
        format_span(self.as_secs(), self.subsec_nanos())
    }
}

}
