//! Parsing a duration given on the command line.
//!
//! The accepted forms mirror what the configuration surface offers: a bare
//! decimal number is a count of seconds, anything else is handed to the
//! `duration-str` grammar (`"2s 1ms"`, `"1h"`, ...), whose result is rejected
//! when it is finer than a millisecond. Surrounding ASCII whitespace is
//! ignored; a leading minus sign is rejected outright.

use vstd::prelude::*;
use vstd::string::StringSliceAdditionalSpecFns;

use crate::dur::{dur_max, Dur};

verus! {

/// True for the ASCII whitespace bytes stripped from either end of the input.
pub open spec fn is_ascii_ws(b: u8) -> bool {
    b == 32 || b == 9 || b == 10 || b == 11 || b == 12 || b == 13
}

/// True for the ASCII digit bytes `'0'` through `'9'`.
pub open spec fn is_ascii_digit_byte(b: u8) -> bool {
    48 <= b <= 57
}

/// `s` with leading ASCII whitespace removed.
pub open spec fn trim_front(s: Seq<u8>) -> Seq<u8>
    decreases s.len(),
{
    if s.len() > 0 && is_ascii_ws(s[0]) {
        trim_front(s.drop_first())
    } else {
        s
    }
}

/// `s` with trailing ASCII whitespace removed.
pub open spec fn trim_back(s: Seq<u8>) -> Seq<u8>
    decreases s.len(),
{
    if s.len() > 0 && is_ascii_ws(s.last()) {
        trim_back(s.drop_last())
    } else {
        s
    }
}

/// `s` with ASCII whitespace removed from both ends.
pub open spec fn spec_trim(s: Seq<u8>) -> Seq<u8> {
    trim_back(trim_front(s))
}

/// True when every byte of `s` is an ASCII digit; vacuously true of the empty
/// sequence.
pub open spec fn all_digits(s: Seq<u8>) -> bool {
    forall|i: int| 0 <= i < s.len() ==> is_ascii_digit_byte(s[i])
}

/// The value of `s` read as a decimal numeral.
pub open spec fn dec_value(s: Seq<u8>) -> int
    decreases s.len(),
{
    if s.len() == 0 {
        0
    } else {
        dec_value(s.drop_last()) * 10 + (s.last() - 48)
    }
}

/// The duration, in nanoseconds, that the `duration-str` grammar assigns to a
/// piece of text, or `None` when the text is not a duration.
pub uninterp spec fn duration_str_nanos(s: Seq<u8>) -> Option<int>;

/// Why an input was rejected as a duration.
#[derive(Debug, PartialEq, Eq)]
pub enum DurationError {
    /// The input began with a minus sign: a duration cannot be negative.
    Negative,
    /// The input was bare digits but not a count of seconds that fits.
    NotANumber,
    /// The duration grammar did not recognize the input; holds its message.
    Unrecognized(String),
    /// The duration was finer than a millisecond.
    TooPrecise,
}

/// Relies on duration_str::parse: the result is a function of the input text
/// alone, here named `duration_str_nanos`; an accepted duration always fits
/// the representable range.
#[verifier::external_body]
fn parse_with_duration_str(s: &str) -> (r: Result<Dur, String>)
    ensures
        r matches Ok(d) ==> duration_str_nanos(s.spec_bytes()) == Some(d@) && 0 <= d@ <= dur_max(),
        r is Err ==> duration_str_nanos(s.spec_bytes()) is None,
{
    match duration_str::parse(s) {
        Ok(d) => Ok(Dur::new(d.as_secs(), d.subsec_nanos())),
        Err(message) => Err(message),
    }
}

/// Parse a duration parameter.
///
/// After trimming ASCII whitespace: a leading `'-'` is rejected; an input of
/// bare digits is a count of seconds, rejected when it does not fit `u64`;
/// anything else goes to the duration grammar, and its result is rejected
/// when it is not a whole number of milliseconds.
pub fn parse_duration(s: &str) -> (r: Result<Dur, DurationError>)
    ensures
        ({
            let t = spec_trim(s.spec_bytes());
            &&& (t.len() > 0 && t[0] == 45 ==> (r matches Err(e) && e is Negative))
            &&& (!(t.len() > 0 && t[0] == 45) && all_digits(t) ==> (if t.len() > 0 && dec_value(t)
                <= u64::MAX {
                r matches Ok(d) && d@ == dec_value(t) * 1_000_000_000
            } else {
                r matches Err(e) && e is NotANumber
            }))
            &&& (!all_digits(t) && !(t.len() > 0 && t[0] == 45) ==> (match duration_str_nanos(t) {
                Some(n) => if n % 1_000_000 == 0 {
                    r matches Ok(d) && d@ == n
                } else {
                    r matches Err(e) && e is TooPrecise
                },
                None => r matches Err(e) && e is Unrecognized,
            }))
        }),
{
    let bytes = s.as_bytes();
    let n = bytes.len();
    let ghost whole = s.spec_bytes();

    let mut lo: usize = 0;
    while lo < n && is_ws(bytes[lo])
        invariant
            0 <= lo <= n,
            n == whole.len(),
            bytes@ == whole,
            forall|j: int| 0 <= j < lo ==> is_ascii_ws(whole[j]),
        decreases n - lo,
    {
        lo = lo + 1;
    }

    let mut hi: usize = n;
    while hi > lo && is_ws(bytes[hi - 1])
        invariant
            lo <= hi <= n,
            n == whole.len(),
            bytes@ == whole,
            forall|j: int| 0 <= j < lo ==> is_ascii_ws(whole[j]),
            lo < n ==> !is_ascii_ws(whole[lo as int]),
            forall|j: int| hi <= j < n ==> is_ascii_ws(whole[j]),
        decreases hi,
    {
        hi = hi - 1;
    }

    proof {
        lemma_trim_front(whole, lo as int);
        lemma_trim_back(whole.subrange(lo as int, n as int), hi - lo);
        assert(whole.subrange(lo as int, n as int).subrange(0, hi - lo) =~= whole.subrange(
            lo as int,
            hi as int,
        ));
    }
    let ghost t = spec_trim(whole);
    proof {
        assert(t =~= whole.subrange(lo as int, hi as int));
    }

    if hi > lo && bytes[lo] == 45 {
        return Err(DurationError::Negative);
    }

    let mut all_dig = true;
    let mut overflow = false;
    let mut val: u64 = 0;
    let mut i: usize = lo;
    while i < hi
        invariant
            lo <= i <= hi <= n,
            n == whole.len(),
            bytes@ == whole,
            all_dig == all_digits(whole.subrange(lo as int, i as int)),
            all_dig ==> (overflow == (dec_value(whole.subrange(lo as int, i as int)) > u64::MAX)),
            all_dig && !overflow ==> val == dec_value(whole.subrange(lo as int, i as int)),
        decreases hi - i,
    {
        let b = bytes[i];
        proof {
            assert(whole.subrange(lo as int, i + 1).drop_last() =~= whole.subrange(
                lo as int,
                i as int,
            ));
            assert(whole.subrange(lo as int, i + 1).last() == whole[i as int]);
        }
        if b < 48 || b > 57 {
            all_dig = false;
        } else if all_dig {
            proof {
                lemma_dec_value_nonneg(whole.subrange(lo as int, i as int));
            }
            if overflow {
                // an oversized prefix stays oversized as digits are appended
            } else {
                let d: u64 = (b - 48) as u64;
                if val > (u64::MAX - d) / 10 {
                    overflow = true;
                    proof {
                        vstd::arithmetic::div_mod::lemma_fundamental_div_mod(
                            (u64::MAX - d) as int,
                            10,
                        );
                        assert(val * 10 + d > u64::MAX) by (nonlinear_arith)
                            requires
                                val > (u64::MAX - d) / 10,
                                0 <= d <= 9,
                                u64::MAX - d == 10 * ((u64::MAX - d) as int / 10) + (u64::MAX
                                    - d) as int % 10,
                                0 <= (u64::MAX - d) as int % 10 < 10,
                        ;
                    }
                } else {
                    proof {
                        vstd::arithmetic::div_mod::lemma_fundamental_div_mod(
                            (u64::MAX - d) as int,
                            10,
                        );
                        assert(val * 10 + d <= u64::MAX) by (nonlinear_arith)
                            requires
                                val <= (u64::MAX - d) / 10,
                                0 <= d <= 9,
                                u64::MAX - d == 10 * ((u64::MAX - d) as int / 10) + (u64::MAX
                                    - d) as int % 10,
                                0 <= (u64::MAX - d) as int % 10 < 10,
                        ;
                    }
                    val = val * 10 + d;
                }
            }
        }
        i = i + 1;
    }

    if all_dig {
        if hi > lo && !overflow {
            Ok(Dur::from_secs(val))
        } else {
            Err(DurationError::NotANumber)
        }
    } else {
        proof {
            vstd::utf8::encode_utf8_valid_utf8(s@);
            lemma_non_continuation_boundary(whole, hi as int);
            vstd::utf8::valid_utf8_split(whole, hi as int);
        }
        let (head, _) = s.split_at(hi);
        proof {
            assert(head.spec_bytes() =~= whole.subrange(0, hi as int));
            lemma_ascii_prefix_boundary(head.spec_bytes(), lo as int);
        }
        let (_, trimmed) = head.split_at(lo);
        proof {
            assert(trimmed.spec_bytes() =~= t);
        }
        match parse_with_duration_str(trimmed) {
            Ok(d) => {
                let sub = d.subsec_nanos();
                proof {
                    lemma_mod_million(d@);
                }
                if sub % 1_000_000 == 0 {
                    Ok(d)
                } else {
                    Err(DurationError::TooPrecise)
                }
            },
            Err(message) => Err(DurationError::Unrecognized(message)),
        }
    }
}

/// Exec mirror of [`is_ascii_ws`].
fn is_ws(b: u8) -> (r: bool)
    ensures
        r == is_ascii_ws(b),
{
    b == 32 || b == 9 || b == 10 || b == 11 || b == 12 || b == 13
}

/// A decimal numeral's value is never negative.
proof fn lemma_dec_value_nonneg(s: Seq<u8>)
    requires
        all_digits(s),
    ensures
        dec_value(s) >= 0,
    decreases s.len(),
{
    if s.len() > 0 {
        assert(all_digits(s.drop_last()));
        lemma_dec_value_nonneg(s.drop_last());
    }
}

/// Scanning past a whitespace prefix computes `trim_front`.
proof fn lemma_trim_front(s: Seq<u8>, k: int)
    requires
        0 <= k <= s.len(),
        forall|j: int| 0 <= j < k ==> is_ascii_ws(s[j]),
        k < s.len() ==> !is_ascii_ws(s[k]),
    ensures
        trim_front(s) == s.subrange(k, s.len() as int),
    decreases k,
{
    if k == 0 {
        assert(s =~= s.subrange(0, s.len() as int));
    } else {
        lemma_trim_front(s.drop_first(), k - 1);
        assert(s.drop_first().subrange(k - 1, s.drop_first().len() as int) =~= s.subrange(
            k,
            s.len() as int,
        ));
    }
}

/// Scanning back over a whitespace suffix computes `trim_back`.
proof fn lemma_trim_back(s: Seq<u8>, k: int)
    requires
        0 <= k <= s.len(),
        forall|j: int| k <= j < s.len() ==> is_ascii_ws(s[j]),
        k > 0 ==> !is_ascii_ws(s[k - 1]),
    ensures
        trim_back(s) == s.subrange(0, k),
    decreases s.len() - k,
{
    if k == s.len() {
        assert(s =~= s.subrange(0, s.len() as int));
    } else {
        lemma_trim_back(s.drop_last(), k);
        assert(s.drop_last().subrange(0, k) =~= s.subrange(0, k));
    }
}

/// In valid UTF-8, any position whose byte does not continue an earlier
/// character's encoding starts a character (or ends the text): it is a safe
/// place to split.
proof fn lemma_non_continuation_boundary(bytes: Seq<u8>, idx: int)
    requires
        vstd::utf8::valid_utf8(bytes),
        0 <= idx <= bytes.len(),
        idx < bytes.len() ==> !vstd::utf8::is_continuation_byte(bytes[idx]),
    ensures
        vstd::utf8::is_char_boundary(bytes, idx),
    decreases bytes.len(),
{
    if idx > 0 {
        let len = vstd::utf8::length_of_first_scalar(bytes);
        assert(1 <= len <= 4);
        assert(forall|j: int| 1 <= j < len ==> vstd::utf8::is_continuation_byte(bytes[j]));
        assert(idx >= len);
        let rest = vstd::utf8::pop_first_scalar(bytes);
        lemma_non_continuation_boundary(rest, idx - len);
    }
}

/// In valid UTF-8, a position preceded only by ASCII bytes starts a character
/// (or ends the text): it is a safe place to split.
proof fn lemma_ascii_prefix_boundary(bytes: Seq<u8>, idx: int)
    requires
        vstd::utf8::valid_utf8(bytes),
        0 <= idx <= bytes.len(),
        forall|j: int| 0 <= j < idx ==> bytes[j] < 0x80,
    ensures
        vstd::utf8::is_char_boundary(bytes, idx),
    decreases idx,
{
    if idx > 0 {
        assert(vstd::utf8::is_leading_byte_width_1(bytes[0]));
        assert(vstd::utf8::length_of_first_scalar(bytes) == 1);
        let rest = vstd::utf8::pop_first_scalar(bytes);
        lemma_ascii_prefix_boundary(rest, idx - 1);
    }
}

/// A total nanosecond count is a whole number of milliseconds exactly when
/// its sub-second part is.
proof fn lemma_mod_million(n: int)
    requires
        0 <= n,
    ensures
        (n % 1_000_000_000) % 1_000_000 == n % 1_000_000,
        (n % 1_000_000 == 0) == ((n % 1_000_000_000) % 1_000_000 == 0),
{
    vstd::arithmetic::div_mod::lemma_fundamental_div_mod(n, 1_000_000_000);
    vstd::arithmetic::div_mod::lemma_fundamental_div_mod(n % 1_000_000_000, 1_000_000);
    assert((n % 1_000_000_000) % 1_000_000 == n % 1_000_000) by (nonlinear_arith)
        requires
            0 <= n,
            n == 1_000_000_000 * (n / 1_000_000_000) + n % 1_000_000_000,
            0 <= n % 1_000_000_000 < 1_000_000_000,
            n % 1_000_000_000 == 1_000_000 * ((n % 1_000_000_000) / 1_000_000) + (n
                % 1_000_000_000) % 1_000_000,
            0 <= (n % 1_000_000_000) % 1_000_000 < 1_000_000,
    ;
}

} // verus!
