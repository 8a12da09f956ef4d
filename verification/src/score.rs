//! Scores as their single-precision bit patterns, ordered without
//! floating-point arithmetic.

use crate::text::{decimal, digit, push_char, to_decimal};
use vstd::arithmetic::div_mod::{
    lemma_div_multiples_vanish_quotient, lemma_fundamental_div_mod_converse, lemma_truncate_middle,
};
use vstd::arithmetic::power2::{
    lemma2_to64, lemma2_to64_rest, lemma_pow2_adds, lemma_pow2_pos, lemma_pow2_strictly_increases,
    lemma_pow2_unfold, pow2,
};
use vstd::prelude::*;
use vstd::string::StringExecFns;

verus! {

/// The bit that holds the sign.
pub const SIGN_BIT: u32 = 0x8000_0000;

/// The magnitude of the infinities: every larger magnitude is not a number.
pub const INFINITY_MAGNITUDE: u32 = 0x7f80_0000;

/// The bit pattern without its sign.
pub open spec fn magnitude(bits: u32) -> int {
    if bits >= SIGN_BIT {
        bits - SIGN_BIT
    } else {
        bits as int
    }
}

/// Whether the bit pattern encodes no number.
pub open spec fn is_nan(bits: u32) -> bool {
    magnitude(bits) > INFINITY_MAGNITUDE
}

/// An integer that orders the bit patterns of numbers as the numbers
/// themselves are ordered: the magnitude for a pattern without the sign bit,
/// its negation for one with it. Both zeros get 0.
pub open spec fn order_key(bits: u32) -> int {
    if bits >= SIGN_BIT {
        -magnitude(bits)
    } else {
        magnitude(bits)
    }
}

/// Two to the number of bits that hold the fraction.
pub const FRACTION_RANGE: u32 = 0x80_0000;

/// The digits that the pattern holds: the fraction, and before it the
/// leading one that every pattern but the smallest ones stands for.
pub open spec fn significand(bits: u32) -> int {
    let fraction = magnitude(bits) % (FRACTION_RANGE as int);
    if magnitude(bits) / (FRACTION_RANGE as int) == 0 {
        fraction
    } else {
        fraction + FRACTION_RANGE
    }
}

/// The power of two by which the significand is scaled: the magnitude of the
/// number is `significand(bits)` times two to the power `scale(bits)`.
pub open spec fn scale(bits: u32) -> int {
    let exponent = magnitude(bits) / (FRACTION_RANGE as int);
    if exponent == 0 {
        -149
    } else {
        exponent - 150
    }
}

/// The magnitude of the number in units of the smallest positive number
/// that a pattern encodes. An infinity counts as the power of two after the
/// greatest number.
pub open spec fn scaled_magnitude(bits: u32) -> int {
    significand(bits) * pow2((scale(bits) + 149) as nat)
}

/// The number in units of the smallest positive number that a pattern
/// encodes: negative where the sign bit is set.
pub open spec fn scaled_number(bits: u32) -> int {
    if bits >= SIGN_BIT {
        -scaled_magnitude(bits)
    } else {
        scaled_magnitude(bits)
    }
}

/// Of two patterns, the one with the smaller magnitude encodes the number
/// with the smaller magnitude.
pub proof fn magnitudes_order_as_numbers(a: u32, b: u32)
    requires
        !is_nan(a),
        !is_nan(b),
        magnitude(a) < magnitude(b),
    ensures
        0 <= scaled_magnitude(a) < scaled_magnitude(b),
{
    let range = FRACTION_RANGE as int;
    let (ea, eb) = (magnitude(a) / range, magnitude(b) / range);
    let (sa, sb) = (significand(a), significand(b));
    let (ka, kb) = ((scale(a) + 149) as nat, (scale(b) + 149) as nat);
    let (pa, pb) = (pow2(ka) as int, pow2(kb) as int);
    lemma_pow2_pos(ka);
    lemma_pow2_pos(kb);
    lemma2_to64();
    if ea == eb {
        assert(sa * pa < sb * pb) by (nonlinear_arith)
            requires
                0 <= sa < sb,
                0 < pa == pb,
        ;
    } else if ea == 0 {
        assert(sa * pa < sb * pb) by (nonlinear_arith)
            requires
                0 <= sa < 0x80_0000 <= sb,
                pa == 1,
                1 <= pb,
        ;
    } else {
        lemma_pow2_unfold(ka + 1);
        if ka + 1 < kb {
            lemma_pow2_strictly_increases(ka + 1, kb);
        }
        assert(sa * pa < sb * pb) by (nonlinear_arith)
            requires
                0 <= sa < 0x100_0000,
                0x80_0000 <= sb,
                0 < pa,
                2 * pa <= pb,
        ;
    }
}

/// The keys order the patterns as the numbers that they encode are ordered,
/// and two patterns have the same key where they encode the same number.
pub proof fn keys_order_as_numbers(a: u32, b: u32)
    requires
        !is_nan(a),
        !is_nan(b),
    ensures
        order_key(a) < order_key(b) <==> scaled_number(a) < scaled_number(b),
        order_key(a) == order_key(b) <==> scaled_number(a) == scaled_number(b),
{
    // The pattern of zero is below every other magnitude.
    assert(scaled_magnitude(0) == 0) by (nonlinear_arith)
        requires
            scaled_magnitude(0) == 0 * pow2(0),
    ;
    if magnitude(a) > 0 {
        magnitudes_order_as_numbers(0, a);
    }
    if magnitude(b) > 0 {
        magnitudes_order_as_numbers(0, b);
    }
    if magnitude(a) < magnitude(b) {
        magnitudes_order_as_numbers(a, b);
    } else if magnitude(b) < magnitude(a) {
        magnitudes_order_as_numbers(b, a);
    }
}

/// The bit pattern of the number one.
pub const ONE: u32 = 0x3f80_0000;

/// Whether the number lies between zero and one, both included.
pub open spec fn in_unit_range(bits: u32) -> bool {
    0 <= order_key(bits) <= order_key(ONE)
}

/// The pattern of one encodes one: two to the power 149 of the units that
/// numbers are counted in. A pattern is in the unit range exactly when its
/// number lies between zero and that.
pub proof fn unit_range_is_of_numbers(bits: u32)
    requires
        !is_nan(bits),
    ensures
        scaled_number(ONE) == pow2(149),
        in_unit_range(bits) <==> 0 <= scaled_number(bits) <= pow2(149),
{
    lemma2_to64();
    lemma_pow2_adds(23, 126);
    assert(scaled_magnitude(0) == 0) by (nonlinear_arith)
        requires
            scaled_magnitude(0) == 0 * pow2(0),
    ;
    keys_order_as_numbers(0, bits);
    keys_order_as_numbers(bits, ONE);
}

/// `n / d` rounded to the nearest integer, and to the even one of the two
/// where `n / d` lies half-way between them.
pub open spec fn round_half_even(n: int, d: int) -> int {
    let quotient = n / d;
    let rest = n % d;
    if 2 * rest > d || (2 * rest == d && quotient % 2 == 1) {
        quotient + 1
    } else {
        quotient
    }
}

/// The magnitude of the number in thousandths, rounded to the nearest and
/// at a tie to the even one.
pub open spec fn thousandths(bits: u32) -> int {
    round_half_even(scaled_magnitude(bits) * 1000, pow2(149) as int)
}

/// A fraction is rounded as it was when both of its parts are multiplied by
/// the same positive number.
proof fn rounding_ignores_common_factors(n: int, d: int, c: int)
    requires
        0 <= n,
        0 < d,
        0 < c,
    ensures
        round_half_even(n * c, d * c) == round_half_even(n, d),
{
    lemma_div_multiples_vanish_quotient(c, n, d);
    lemma_truncate_middle(n, c, d);
    let rest = n % d;
    assert(n * c == c * n && d * c == c * d) by (nonlinear_arith);
    assert((2 * (c * rest) > c * d <==> 2 * rest > d) && (2 * (c * rest) == c * d <==> 2 * rest
        == d)) by (nonlinear_arith)
        requires
            0 < c,
    ;
}

/// The thousandths by the sign of the scale: a number that is whole has a
/// whole number of thousandths, and else the significand's thousandths are
/// divided by a power of two and rounded.
proof fn thousandths_by_scale(bits: u32)
    requires
        !is_nan(bits),
    ensures
        scale(bits) >= 0 ==> thousandths(bits) == significand(bits) * pow2(scale(bits) as nat)
            * 1000,
        scale(bits) < 0 ==> thousandths(bits) == round_half_even(
            significand(bits) * 1000,
            pow2((-scale(bits)) as nat) as int,
        ),
{
    let s = significand(bits);
    let unit = pow2(149) as int;
    lemma_pow2_pos(149);
    if scale(bits) >= 0 {
        let whole = pow2(scale(bits) as nat) as int;
        lemma_pow2_adds(scale(bits) as nat, 149);
        let count = s * whole * 1000;
        assert(scaled_magnitude(bits) * 1000 == count * unit) by (nonlinear_arith)
            requires
                scaled_magnitude(bits) == s * (whole * unit),
                count == s * whole * 1000,
        ;
        lemma_fundamental_div_mod_converse(count * unit, unit, count, 0);
    } else {
        let places = (-scale(bits)) as nat;
        let rest = (scale(bits) + 149) as nat;
        lemma_pow2_adds(places, rest);
        lemma_pow2_pos(places);
        let factor = pow2(rest) as int;
        let divisor = pow2(places) as int;
        assert(scaled_magnitude(bits) * 1000 == (s * 1000) * factor && unit == divisor * factor
            && 0 <= s * 1000) by (nonlinear_arith)
            requires
                scaled_magnitude(bits) == s * factor,
                unit == divisor * factor,
                0 <= s,
        ;
        rounding_ignores_common_factors(s * 1000, divisor, factor);
    }
}

/// The three digits of a number below a thousand.
pub open spec fn three_digits(n: int) -> Seq<char> {
    seq![digit((n / 100) as nat), digit((n / 10 % 10) as nat), digit((n % 10) as nat)]
}

/// The number with three digits after the decimal point: a minus sign where
/// the sign bit is set, then `inf` for an infinity, and else the whole part,
/// a point, and the thousandths that are left.
pub open spec fn three_decimals(bits: u32) -> Seq<char> {
    let sign = if bits >= SIGN_BIT {
        seq!['-']
    } else {
        Seq::<char>::empty()
    };
    if magnitude(bits) == INFINITY_MAGNITUDE {
        sign + seq!['i', 'n', 'f']
    } else {
        sign + decimal((thousandths(bits) / 1000) as nat) + seq!['.'] + three_digits(
            thousandths(bits) % 1000,
        )
    }
}

/// `value` doubled `times` times.
fn double_times(value: u128, times: u32) -> (product: u128)
    requires
        value * pow2(times as nat) <= u128::MAX,
    ensures
        product == value * pow2(times as nat),
{
    let mut product = value;
    let mut done: u32 = 0;
    proof {
        lemma2_to64();
    }
    while done < times
        invariant
            done <= times,
            product == value * pow2(done as nat),
            value * pow2(times as nat) <= u128::MAX,
        decreases times - done,
    {
        proof {
            lemma_pow2_unfold((done + 1) as nat);
            if done + 1 < times {
                lemma_pow2_strictly_increases((done + 1) as nat, times as nat);
            }
            let now = pow2(done as nat) as int;
            let then = pow2((done + 1) as nat) as int;
            let last = pow2(times as nat) as int;
            assert(value * then == 2 * (value * now) && value * then <= value * last)
                by (nonlinear_arith)
                requires
                    then == 2 * now,
                    then <= last,
                    value >= 0,
            ;
        }
        product = product * 2;
        done = done + 1;
    }
    product
}

/// `n / d`, rounded to the nearest and at a tie to the even one.
fn rounded_quotient(n: u64, d: u64) -> (rounded: u64)
    requires
        d > 0,
        n < u64::MAX,
    ensures
        rounded == round_half_even(n as int, d as int),
{
    let quotient = n / d;
    let rest = n % d;
    if rest > d - rest || (rest == d - rest && quotient % 2 == 1) {
        quotient + 1
    } else {
        quotient
    }
}

/// The characters of the three digits of `n`.
fn push_three_digits(text: &mut String, n: u64)
    requires
        n < 1000,
    ensures
        final(text)@ == old(text)@ + three_digits(n as int),
{
    let hundreds = to_decimal((n / 100) as u128);
    let tens = to_decimal((n / 10 % 10) as u128);
    let ones = to_decimal((n % 10) as u128);
    text.append(hundreds.as_str());
    text.append(tens.as_str());
    text.append(ones.as_str());
}

/// A score: the bit pattern of a single-precision number, which is never
/// that of a value that is not a number.
#[derive(Clone, Copy, Debug)]
pub struct Score {
    bits: u32,
}

impl Score {
    #[verifier::type_invariant]
    spec fn is_number(self) -> bool {
        !is_nan(self.bits)
    }

    /// The bit pattern.
    pub closed spec fn spec_bits(&self) -> u32 {
        self.bits
    }

    /// The integer by which scores are ordered.
    pub open spec fn spec_key(&self) -> int {
        order_key(self.spec_bits())
    }

    /// The score with the given bit pattern, unless the pattern encodes no
    /// number.
    pub fn from_bits(bits: u32) -> (score: Option<Score>)
        ensures
            score is None <==> is_nan(bits),
            score matches Some(s) ==> s.spec_bits() == bits,
    {
        let magnitude = if bits >= SIGN_BIT {
            bits - SIGN_BIT
        } else {
            bits
        };
        if magnitude > INFINITY_MAGNITUDE {
            None
        } else {
            Some(Score { bits })
        }
    }

    /// The bit pattern.
    #[verifier::when_used_as_spec(spec_bits)]
    pub fn bits(&self) -> (bits: u32)
        ensures
            bits == self.spec_bits(),
            !is_nan(bits),
    {
        proof {
            use_type_invariant(self);
        }
        self.bits
    }

    /// The score as it is shown, with three digits after the decimal point.
    pub fn three_decimals(&self) -> (text: String)
        ensures
            text@ == three_decimals(self.spec_bits()),
    {
        proof {
            use_type_invariant(self);
            thousandths_by_scale(self.bits);
            lemma2_to64();
            lemma2_to64_rest();
        }
        let mut text = String::new();
        let magnitude = if self.bits >= SIGN_BIT {
            proof {
                reveal_strlit("-");
            }
            text.append("-");
            self.bits - SIGN_BIT
        } else {
            self.bits
        };
        if magnitude == INFINITY_MAGNITUDE {
            proof {
                reveal_strlit("inf");
            }
            text.append("inf");
            return text;
        }
        let exponent = magnitude / FRACTION_RANGE;
        let fraction = magnitude % FRACTION_RANGE;
        let significand: u64 = if exponent == 0 {
            fraction as u64
        } else {
            (fraction + FRACTION_RANGE) as u64
        };
        let whole: u128;
        let rest: u64;
        if exponent >= 150 {
            let shift = exponent - 150;
            proof {
                let s = significand as int;
                let p = pow2(shift as nat) as int;
                let top = pow2(104) as int;
                assert(exponent <= 254 && shift <= 104);
                lemma_pow2_adds(64, 40);
                lemma_pow2_pos(shift as nat);
                if shift < 104 {
                    lemma_pow2_strictly_increases(shift as nat, 104);
                }
                assert(0 < p <= top);
                assert(s * p <= u128::MAX && (s * p * 1000) / 1000 == s * p && (s * p * 1000) % 1000
                    == 0) by (nonlinear_arith)
                    requires
                        0 <= s < 0x100_0000,
                        0 <= p <= top,
                        top == 0x10000000000000000 * 0x10000000000,
                        u128::MAX == 0xffff_ffff_ffff_ffff_ffff_ffff_ffff_ffff,
                ;
            }
            whole = double_times(significand as u128, shift);
            rest = 0;
        } else {
            let places: u32 = if exponent == 0 {
                149
            } else {
                150 - exponent
            };
            let scaled: u64 = significand * 1000;
            let rounded: u64 = if places > 40 {
                proof {
                    let n = scaled as int;
                    let d = pow2(places as nat) as int;
                    lemma_pow2_strictly_increases(40, places as nat);
                    assert(n / d == 0 && n % d == n) by (nonlinear_arith)
                        requires
                            0 <= n < d,
                    ;
                }
                0
            } else {
                let divisor = double_times(1, places);
                proof {
                    lemma_pow2_pos(places as nat);
                    if places < 40 {
                        lemma_pow2_strictly_increases(places as nat, 40);
                    }
                    assert(0 < divisor <= 0x100_0000_0000);
                }
                rounded_quotient(scaled, divisor as u64)
            };
            assert(rounded == thousandths(self.bits));
            whole = (rounded / 1000) as u128;
            rest = rounded % 1000;
        }
        assert(whole == thousandths(self.bits) / 1000 && rest == thousandths(self.bits) % 1000);
        text.append(to_decimal(whole).as_str());
        push_char(&mut text, '.');
        push_three_digits(&mut text, rest);
        text
    }

    /// Whether the score lies between zero and one, both included.
    pub fn is_in_unit_range(&self) -> (inside: bool)
        ensures
            inside == in_unit_range(self.spec_bits()),
    {
        self.bits <= ONE || self.bits == SIGN_BIT
    }

    /// The integer by which scores are ordered.
    pub fn key(&self) -> (key: i64)
        ensures
            key == self.spec_key(),
    {
        if self.bits >= SIGN_BIT {
            let magnitude: u32 = self.bits - SIGN_BIT;
            let key: i64 = 0 - (magnitude as i64);
            key
        } else {
            self.bits as i64
        }
    }
}

} // verus!
