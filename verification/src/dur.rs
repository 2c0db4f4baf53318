//! Spans of time as plain values.
//!
//! [`Dur`] stores a span of time as whole seconds plus a sub-second remainder
//! in nanoseconds. Its mathematical view is the total length in nanoseconds,
//! so every contract in this crate can speak of a single integer.

use vstd::prelude::*;

verus! {

/// The largest total-nanosecond value a [`Dur`] can hold.
pub open spec fn dur_max() -> int {
    (0xffff_ffff_ffff_ffff as int) * 1_000_000_000 + 999_999_999
}

/// `n` rounded to the nearest multiple of one millisecond, ties rounding up.
pub open spec fn round_to_ms(n: int) -> int {
    ((n + 500_000) / 1_000_000) * 1_000_000
}

/// A span of time: whole seconds plus a sub-second remainder in nanoseconds.
///
/// The view of a `Dur` is its total length in nanoseconds.
#[derive(Clone, Copy, Debug, PartialEq, Eq, Structural)]
pub struct Dur {
    secs: u64,
    nanos: u32,
}

impl View for Dur {
    type V = int;

    closed spec fn view(&self) -> int {
        self.secs * 1_000_000_000 + self.nanos
    }
}

impl Dur {
    #[verifier::type_invariant]
    spec fn inv(self) -> bool {
        self.nanos < 1_000_000_000
    }

    /// The zero-length span.
    pub fn zero() -> (r: Dur)
        ensures
            r@ == 0,
    {
        Dur { secs: 0, nanos: 0 }
    }

    /// A span of `secs` whole seconds.
    pub fn from_secs(secs: u64) -> (r: Dur)
        ensures
            r@ == secs * 1_000_000_000,
    {
        Dur { secs, nanos: 0 }
    }

    /// A span of `millis` milliseconds.
    pub fn from_millis(millis: u64) -> (r: Dur)
        ensures
            r@ == millis * 1_000_000,
    {
        let secs: u64 = millis / 1000;
        let rem: u64 = millis % 1000;
        let r = Dur { secs, nanos: (rem as u32) * 1_000_000 };
        proof {
            vstd::arithmetic::div_mod::lemma_fundamental_div_mod(millis as int, 1000);
            assert(r@ == millis * 1_000_000) by (nonlinear_arith)
                requires
                    r@ == (millis / 1000) * 1_000_000_000 + (millis % 1000) * 1_000_000,
                    millis == 1000 * (millis as int / 1000) + millis as int % 1000,
            ;
        }
        r
    }

    /// A span of `micros` microseconds.
    pub fn from_micros(micros: u64) -> (r: Dur)
        ensures
            r@ == micros * 1000,
    {
        let secs: u64 = micros / 1_000_000;
        let rem: u64 = micros % 1_000_000;
        let r = Dur { secs, nanos: (rem as u32) * 1000 };
        proof {
            vstd::arithmetic::div_mod::lemma_fundamental_div_mod(micros as int, 1_000_000);
            assert(r@ == micros * 1000) by (nonlinear_arith)
                requires
                    r@ == (micros / 1_000_000) * 1_000_000_000 + (micros % 1_000_000) * 1000,
                    micros == 1_000_000 * (micros as int / 1_000_000) + micros as int % 1_000_000,
            ;
        }
        r
    }

    /// A span of `nanos` nanoseconds.
    pub fn from_nanos(nanos: u64) -> (r: Dur)
        ensures
            r@ == nanos,
    {
        let secs: u64 = nanos / 1_000_000_000;
        let rem: u64 = nanos % 1_000_000_000;
        let r = Dur { secs, nanos: rem as u32 };
        proof {
            vstd::arithmetic::div_mod::lemma_fundamental_div_mod(nanos as int, 1_000_000_000);
            assert(r@ == nanos) by (nonlinear_arith)
                requires
                    r@ == (nanos / 1_000_000_000) * 1_000_000_000 + nanos % 1_000_000_000,
                    nanos == 1_000_000_000 * (nanos as int / 1_000_000_000) + nanos as int
                        % 1_000_000_000,
            ;
        }
        r
    }

    /// A span of `secs` seconds plus `nanos` nanoseconds, normalized so that
    /// the stored remainder is below one second.
    pub fn new(secs: u64, nanos: u32) -> (r: Dur)
        requires
            secs + nanos / 1_000_000_000 <= u64::MAX,
        ensures
            r@ == secs * 1_000_000_000 + nanos,
    {
        let carry: u32 = nanos / 1_000_000_000;
        let rem: u32 = nanos % 1_000_000_000;
        let r = Dur { secs: secs + carry as u64, nanos: rem };
        proof {
            vstd::arithmetic::div_mod::lemma_fundamental_div_mod(nanos as int, 1_000_000_000);
            assert(r@ == secs * 1_000_000_000 + nanos) by (nonlinear_arith)
                requires
                    r@ == (secs + nanos / 1_000_000_000) * 1_000_000_000 + nanos % 1_000_000_000,
                    nanos == 1_000_000_000 * (nanos as int / 1_000_000_000) + nanos as int
                        % 1_000_000_000,
            ;
        }
        r
    }

    /// The whole-second part of the span.
    pub fn as_secs(&self) -> (r: u64)
        ensures
            r == self@ / 1_000_000_000,
    {
        proof {
            use_type_invariant(self);
            assert(self@ / 1_000_000_000 == self.secs) by (nonlinear_arith)
                requires
                    self@ == self.secs * 1_000_000_000 + self.nanos,
                    self.nanos < 1_000_000_000,
            ;
        }
        self.secs
    }

    /// The sub-second part of the span, in nanoseconds.
    pub fn subsec_nanos(&self) -> (r: u32)
        ensures
            r == self@ % 1_000_000_000,
    {
        proof {
            use_type_invariant(self);
            assert(self@ % 1_000_000_000 == self.nanos) by (nonlinear_arith)
                requires
                    self@ == self.secs * 1_000_000_000 + self.nanos,
                    self.nanos < 1_000_000_000,
            ;
        }
        self.nanos
    }

    /// The whole span in nanoseconds.
    pub fn as_nanos(&self) -> (r: u128)
        ensures
            r == self@,
    {
        proof {
            use_type_invariant(self);
        }
        self.secs as u128 * 1_000_000_000 + self.nanos as u128
    }

    /// The whole span in microseconds, fractions truncated.
    pub fn as_micros(&self) -> (r: u128)
        ensures
            r == self@ / 1000,
    {
        let n = self.as_nanos();
        n / 1000
    }

    /// The whole span in milliseconds, fractions truncated.
    pub fn as_millis(&self) -> (r: u128)
        ensures
            r == self@ / 1_000_000,
    {
        let n = self.as_nanos();
        n / 1_000_000
    }

    /// True when the span is zero.
    pub fn is_zero(&self) -> (r: bool)
        ensures
            r == (self@ == 0),
    {
        proof {
            use_type_invariant(self);
        }
        self.secs == 0 && self.nanos == 0
    }

    /// True when `self` is strictly shorter than `other`.
    pub fn lt(&self, other: &Dur) -> (r: bool)
        ensures
            r == (self@ < other@),
    {
        proof {
            use_type_invariant(self);
            use_type_invariant(other);
            lemma_view_order(*self, *other);
        }
        self.secs < other.secs || (self.secs == other.secs && self.nanos < other.nanos)
    }

    /// True when `self` is no longer than `other`.
    pub fn le(&self, other: &Dur) -> (r: bool)
        ensures
            r == (self@ <= other@),
    {
        !other.lt(self)
    }

    /// The difference `self - other`, or zero when `other` is the longer span.
    pub fn saturating_sub(&self, other: &Dur) -> (r: Dur)
        ensures
            r@ == if self@ >= other@ {
                self@ - other@
            } else {
                0
            },
            0 <= r@ <= self@,
    {
        proof {
            use_type_invariant(self);
            use_type_invariant(other);
            lemma_view_order(*self, *other);
        }
        if !self.lt(other) {
            if self.nanos >= other.nanos {
                Dur { secs: self.secs - other.secs, nanos: self.nanos - other.nanos }
            } else {
                Dur {
                    secs: self.secs - other.secs - 1,
                    nanos: (1_000_000_000 - other.nanos) + self.nanos,
                }
            }
        } else {
            Dur { secs: 0, nanos: 0 }
        }
    }

    /// The sum `self + other`, or `None` when it does not fit.
    pub fn checked_add(&self, other: &Dur) -> (r: Option<Dur>)
        ensures
            self@ + other@ <= dur_max() ==> (r matches Some(s) && s@ == self@ + other@),
            self@ + other@ > dur_max() ==> r is None,
    {
        proof {
            use_type_invariant(self);
            use_type_invariant(other);
        }
        let nanos_sum: u32 = self.nanos + other.nanos;
        let carry: u64 = if nanos_sum >= 1_000_000_000 {
            1
        } else {
            0
        };
        let nanos: u32 = if nanos_sum >= 1_000_000_000 {
            nanos_sum - 1_000_000_000
        } else {
            nanos_sum
        };
        if self.secs <= u64::MAX - carry && other.secs <= u64::MAX - carry - self.secs {
            Some(Dur { secs: self.secs + other.secs + carry, nanos })
        } else {
            proof {
                assert(self@ + other@ > dur_max()) by (nonlinear_arith)
                    requires
                        self@ == self.secs * 1_000_000_000 + self.nanos,
                        other@ == other.secs * 1_000_000_000 + other.nanos,
                        self.nanos < 1_000_000_000,
                        other.nanos < 1_000_000_000,
                        carry == if self.nanos + other.nanos >= 1_000_000_000 {
                            1int
                        } else {
                            0int
                        },
                        self.secs + other.secs + carry > u64::MAX,
                ;
            }
            None
        }
    }

    /// The span rounded to the nearest whole millisecond, ties rounding up.
    pub fn round_to_nearest_ms(&self) -> (r: Dur)
        requires
            round_to_ms(self@) <= dur_max(),
        ensures
            r@ == round_to_ms(self@),
    {
        proof {
            use_type_invariant(self);
            lemma_round_split(self.secs as int, self.nanos as int);
        }
        let sub_ms: u32 = self.nanos % 1_000_000;
        let rounded: u32 = if sub_ms < 500_000 {
            self.nanos - sub_ms
        } else {
            self.nanos + 1_000_000 - sub_ms
        };
        if rounded == 1_000_000_000 {
            Dur { secs: self.secs + 1, nanos: 0 }
        } else {
            Dur { secs: self.secs, nanos: rounded }
        }
    }
}

/// Lexicographic order on (secs, nanos) agrees with the order of total
/// nanoseconds, given that both remainders are below one second.
proof fn lemma_view_order(a: Dur, b: Dur)
    requires
        a.nanos < 1_000_000_000,
        b.nanos < 1_000_000_000,
    ensures
        (a@ < b@) == (a.secs < b.secs || (a.secs == b.secs && a.nanos < b.nanos)),
{
    assert((a.secs * 1_000_000_000 + a.nanos < b.secs * 1_000_000_000 + b.nanos) == (a.secs
        < b.secs || (a.secs == b.secs && a.nanos < b.nanos))) by (nonlinear_arith)
        requires
            a.nanos < 1_000_000_000,
            b.nanos < 1_000_000_000,
    ;
}

/// Rounding the total nanosecond count to a millisecond only touches the
/// sub-second part.
proof fn lemma_round_split(secs: int, nanos: int)
    requires
        0 <= secs,
        0 <= nanos < 1_000_000_000,
    ensures
        round_to_ms(secs * 1_000_000_000 + nanos) == secs * 1_000_000_000 + round_to_ms(nanos),
        round_to_ms(nanos) == if nanos % 1_000_000 < 500_000 {
            nanos - nanos % 1_000_000
        } else {
            nanos + 1_000_000 - nanos % 1_000_000
        },
        0 <= round_to_ms(nanos) <= 1_000_000_000,
{
    let m = nanos % 1_000_000;
    vstd::arithmetic::div_mod::lemma_fundamental_div_mod(nanos, 1_000_000);
    vstd::arithmetic::div_mod::lemma_fundamental_div_mod(nanos + 500_000, 1_000_000);
    assert(round_to_ms(nanos) == if m < 500_000 {
        nanos - m
    } else {
        nanos + 1_000_000 - m
    }) by (nonlinear_arith)
        requires
            0 <= nanos,
            m == nanos % 1_000_000,
            round_to_ms(nanos) == ((nanos + 500_000) / 1_000_000) * 1_000_000,
            nanos == 1_000_000 * (nanos / 1_000_000) + nanos % 1_000_000,
            0 <= nanos % 1_000_000 < 1_000_000,
            nanos + 500_000 == 1_000_000 * ((nanos + 500_000) / 1_000_000) + (nanos + 500_000)
                % 1_000_000,
            0 <= (nanos + 500_000) % 1_000_000 < 1_000_000,
    ;
    assert(round_to_ms(secs * 1_000_000_000 + nanos) == secs * 1_000_000_000 + round_to_ms(nanos))
        by (nonlinear_arith)
        requires
            0 <= secs,
            0 <= nanos < 1_000_000_000,
            round_to_ms(nanos) == ((nanos + 500_000) / 1_000_000) * 1_000_000,
            round_to_ms(secs * 1_000_000_000 + nanos) == ((secs * 1_000_000_000 + nanos + 500_000)
                / 1_000_000) * 1_000_000,
    ;
}

} // verus!
