//! Exact fixed-point decimal amounts.
use rust_decimal::Decimal;
use vstd::arithmetic::div_mod::{lemma_fundamental_div_mod, lemma_fundamental_div_mod_converse};
use vstd::prelude::*;

verus! {

/// Number of fractional decimal digits an [`Amount`] carries.
pub const SCALE: u32 = 18;

/// `10^SCALE`: the number of units in one whole.
pub const UNIT: i128 = 1_000_000_000_000_000_000;

/// Largest magnitude of an amount, in units.
pub const MAX_UNITS: i128 = 170_141_183_460_469_231_731_687_303_715_884_105_727;

/// Fractional digits of an amount's printed form.
pub const PRINTED_SCALE: u32 = 4;

/// `10^(SCALE - PRINTED_SCALE)`: units per last printed digit.
pub const PRINTED_STEP: i128 = 100_000_000_000_000;

/// Largest mantissa magnitude of a `rust_decimal::Decimal` (96 bits).
pub const MAX_DECIMAL_MANTISSA: i128 = 79_228_162_514_264_337_593_543_950_335;

/// Largest scale of a `rust_decimal::Decimal`.
pub const MAX_DECIMAL_SCALE: u32 = 28;

/// `10^e` over the integers.
pub open spec fn pow10(e: nat) -> int
    decreases e,
{
    if e == 0 {
        1
    } else {
        10 * pow10((e - 1) as nat)
    }
}

/// `10^e` is positive and, up to `SCALE`, at most `UNIT`.
pub proof fn lemma_pow10_upto_scale(e: nat)
    ensures
        pow10(e) > 0,
        e <= SCALE ==> pow10(e) <= UNIT,
    decreases e,
{
    if e > 0 {
        lemma_pow10_upto_scale((e - 1) as nat);
    }
    if e <= SCALE {
        lemma_pow10_monotonic(e, SCALE as nat);
        reveal_with_fuel(pow10, 19);
    }
}

/// `10^e` grows with `e`.
pub proof fn lemma_pow10_monotonic(a: nat, b: nat)
    requires
        a <= b,
    ensures
        0 < pow10(a) <= pow10(b),
    decreases b,
{
    if b > a {
        lemma_pow10_monotonic(a, (b - 1) as nat);
    } else if a > 0 {
        lemma_pow10_monotonic((a - 1) as nat, (a - 1) as nat);
    }
}

/// Whether `v` units can be held by an [`Amount`].
pub open spec fn in_range(v: int) -> bool {
    -MAX_UNITS <= v <= MAX_UNITS
}

/// `v / d` rounded to the nearest integer, halves away from zero (`d` positive and even).
pub open spec fn round_half_away(v: int, d: int) -> int {
    if v >= 0 {
        (v + d / 2) / d
    } else {
        -((-v + d / 2) / d)
    }
}

/// The character of the decimal digit `d`.
pub open spec fn digit_char(d: int) -> char {
    if d == 0 {
        '0'
    } else if d == 1 {
        '1'
    } else if d == 2 {
        '2'
    } else if d == 3 {
        '3'
    } else if d == 4 {
        '4'
    } else if d == 5 {
        '5'
    } else if d == 6 {
        '6'
    } else if d == 7 {
        '7'
    } else if d == 8 {
        '8'
    } else {
        '9'
    }
}

/// Whether `c` is a decimal digit.
pub open spec fn is_digit(c: char) -> bool {
    exists|d: int| 0 <= d < 10 && digit_char(d) == c
}

/// The decimal digits of `n`, most significant first, without leading zeros (none for 0).
pub open spec fn digits(n: nat) -> Seq<char>
    decreases n,
{
    if n == 0 {
        Seq::empty()
    } else {
        digits(n / 10).push(digit_char((n % 10) as int))
    }
}

/// The digits of `n`, with zeros in front up to at least `width` characters.
pub open spec fn padded_digits(n: nat, width: nat) -> Seq<char> {
    let d = digits(n);
    if d.len() >= width {
        d
    } else {
        Seq::new((width - d.len()) as nat, |i: int| '0') + d
    }
}

/// The text that `rust_decimal` prints for the decimal `mantissa * 10^-scale`: a `-` for a
/// negative mantissa, then the digits of its magnitude, padded with zeros to at least
/// `scale` digits, with a `.` before the last `scale` of them and a `0` in front of the
/// point when no digit is left there; `0` alone for zero at scale 0.
pub open spec fn decimal_text(mantissa: int, scale: nat) -> Seq<char> {
    let sign = if mantissa < 0 {
        seq!['-']
    } else {
        Seq::<char>::empty()
    };
    let p = padded_digits((if mantissa < 0 { -mantissa } else { mantissa }) as nat, scale);
    let whole = p.subrange(0, p.len() - scale);
    let body = if scale == 0 {
        if p.len() == 0 {
            seq!['0']
        } else {
            p
        }
    } else {
        (if whole.len() == 0 {
            seq!['0']
        } else {
            whole
        }) + seq!['.'] + p.subrange(p.len() - scale, p.len() as int)
    };
    sign + body
}

/// The digits of a number are all decimal digits.
pub proof fn lemma_digits_are_digits(n: nat)
    ensures
        forall|i: int| 0 <= i < digits(n).len() ==> is_digit(#[trigger] digits(n)[i]),
    decreases n,
{
    if n > 0 {
        lemma_digits_are_digits(n / 10);
        let d = (n % 10) as int;
        let prefix = digits(n / 10);
        assert forall|i: int| 0 <= i < digits(n).len() implies is_digit(#[trigger] digits(n)[i]) by {
            if i < prefix.len() {
                assert(digits(n)[i] == prefix[i]);
            } else {
                assert(digits(n)[i] == digit_char(d));
                assert(0 <= d < 10);
            }
        }
    }
}

/// Padded digits are decimal digits, at least as many as the width.
pub proof fn lemma_padded_digits(n: nat, width: nat)
    ensures
        padded_digits(n, width).len() >= width,
        forall|i: int|
            0 <= i < padded_digits(n, width).len() ==> is_digit(#[trigger] padded_digits(n, width)[i]),
{
    lemma_digits_are_digits(n);
    let d = digits(n);
    if d.len() < width {
        let z = Seq::new((width - d.len()) as nat, |i: int| '0');
        assert forall|i: int| 0 <= i < padded_digits(n, width).len() implies is_digit(
            #[trigger] padded_digits(n, width)[i],
        ) by {
            if i < z.len() {
                assert(digit_char(0) == padded_digits(n, width)[i]);
            } else {
                assert(padded_digits(n, width)[i] == d[i - z.len()]);
            }
        }
    }
}

/// Relies on `rust_decimal::Decimal::from_i128_with_scale` and on `Decimal`'s `Display`
/// (`to_str_internal` with no precision): the text stated by [`decimal_text`].
/// `from_i128_with_scale` panics past a 96-bit mantissa or a scale above 28.
#[verifier::external_body]
fn decimal_to_string(mantissa: i128, scale: u32) -> (r: String)
    requires
        -MAX_DECIMAL_MANTISSA <= mantissa <= MAX_DECIMAL_MANTISSA,
        scale <= MAX_DECIMAL_SCALE,
    ensures
        r@ == decimal_text(mantissa as int, scale as nat),
{
    Decimal::from_i128_with_scale(mantissa, scale).to_string()
}

/// An amount printed with exactly four fractional digits, rounded half away from zero.
pub fn fixed_width_amount(amount: &Amount) -> (r: String)
    ensures
        r@ == decimal_text(round_half_away(amount@, PRINTED_STEP as int), PRINTED_SCALE as nat),
        r@.len() >= 6,
        r@[r@.len() - 5] == '.',
        forall|i: int| r@.len() - 4 <= i < r@.len() ==> is_digit(#[trigger] r@[i]),
{
    let rounded = amount.round_to_printed_scale();
    let r = decimal_to_string(rounded, PRINTED_SCALE);
    proof {
        let m = rounded as int;
        let n = (if m < 0 { -m } else { m }) as nat;
        lemma_padded_digits(n, 4);
        let p = padded_digits(n, 4);
        let whole = p.subrange(0, p.len() - 4);
        let front = if whole.len() == 0 {
            seq!['0']
        } else {
            whole
        };
        let sign = if m < 0 {
            seq!['-']
        } else {
            Seq::<char>::empty()
        };
        let frac = p.subrange(p.len() - 4, p.len() as int);
        assert(r@ =~= sign + front + seq!['.'] + frac);
        assert forall|i: int| r@.len() - 4 <= i < r@.len() implies is_digit(#[trigger] r@[i]) by {
            assert(r@[i] == p[i - r@.len() + p.len()]);
        }
    }
    r
}

/// The units of the decimal `mantissa * 10^-scale`, when it is a whole number of units.
pub open spec fn decimal_units(mantissa: int, scale: nat) -> Option<int> {
    if scale <= SCALE {
        Some(mantissa * pow10((SCALE - scale) as nat))
    } else if mantissa % pow10((scale - SCALE) as nat) == 0 {
        Some(mantissa / pow10((scale - SCALE) as nat))
    } else {
        None
    }
}

/// A decimal amount held exactly, as a count of `10^-SCALE` units.
///
/// Its view is that count. It holds less than a `rust_decimal::Decimal`: at most
/// `SCALE` (18) fractional digits, and magnitudes up to `MAX_UNITS` units (about
/// 1.7e20). The range is symmetric, so negation never fails.
#[derive(Clone, Copy, Debug, PartialEq, Eq, Structural)]
pub struct Amount {
    units: i128,
}

impl View for Amount {
    type V = int;

    closed spec fn view(&self) -> int {
        self.units as int
    }
}

impl Default for Amount {
    fn default() -> (r: Amount)
        ensures
            r@ == 0,
    {
        Amount::zero()
    }
}

impl Amount {
    #[verifier::type_invariant]
    spec fn symmetric(self) -> bool {
        self.units >= -MAX_UNITS
    }

    /// The amount zero.
    pub fn zero() -> (r: Amount)
        ensures
            r@ == 0,
    {
        Amount { units: 0 }
    }

    /// The amount `num * 10^-scale`, as `Decimal::new` builds it.
    pub fn new(num: i64, scale: u32) -> (r: Amount)
        requires
            scale <= SCALE,
        ensures
            r@ == num * pow10((SCALE - scale) as nat),
    {
        let mut units: i128 = num as i128;
        let mut s: u32 = scale;
        proof {
            assert(pow10(0) == 1);
        }
        while s < SCALE
            invariant
                scale <= s <= SCALE,
                units == num * pow10((s - scale) as nat),
                -9_223_372_036_854_775_808 * UNIT <= units <= 9_223_372_036_854_775_807 * UNIT,
            decreases SCALE - s,
        {
            proof {
                let k = (s - scale) as nat;
                lemma_pow10_upto_scale(k + 1);
                assert(pow10(k + 1) == 10 * pow10(k));
                let p = pow10(k + 1);
                assert(-9_223_372_036_854_775_808 * UNIT <= num * p <= 9_223_372_036_854_775_807
                    * UNIT) by (nonlinear_arith)
                    requires
                        -9_223_372_036_854_775_808 <= num <= 9_223_372_036_854_775_807,
                        0 < p <= UNIT,
                ;
                assert(units * 10 == num * p) by (nonlinear_arith)
                    requires
                        units == num * pow10(k),
                        p == 10 * pow10(k),
                ;
            }
            units = units * 10;
            s = s + 1;
        }
        Amount { units }
    }

    /// The decimal `mantissa * 10^-scale` (the parts of a `rust_decimal::Decimal`) as an
    /// amount; `None` when it has more than `SCALE` (18) significant fractional digits or
    /// its magnitude exceeds `MAX_UNITS` units (about 1.7e20), both of which a `Decimal`
    /// can hold.
    pub fn from_decimal_parts(mantissa: i128, scale: u32) -> (r: Option<Amount>)
        requires
            -MAX_DECIMAL_MANTISSA <= mantissa <= MAX_DECIMAL_MANTISSA,
            scale <= MAX_DECIMAL_SCALE,
        ensures
            r.is_some() <==> (decimal_units(mantissa as int, scale as nat) is Some && in_range(
                decimal_units(mantissa as int, scale as nat)->0,
            )),
            r.is_some() ==> r.unwrap()@ == decimal_units(mantissa as int, scale as nat)->0,
    {
        if scale <= SCALE {
            let mut units: i128 = mantissa;
            let mut s: u32 = scale;
            proof {
                assert(pow10(0) == 1);
            }
            while s < SCALE
                invariant
                    scale <= s <= SCALE,
                    units == mantissa * pow10((s - scale) as nat),
                decreases SCALE - s,
            {
                proof {
                    let k = (s - scale) as nat;
                    assert(pow10(k + 1) == 10 * pow10(k));
                    assert(units * 10 == mantissa * pow10(k + 1)) by (nonlinear_arith)
                        requires
                            units == mantissa * pow10(k),
                            pow10(k + 1) == 10 * pow10(k),
                    ;
                }
                match units.checked_mul(10) {
                    Some(u) => {
                        units = u;
                    },
                    None => {
                        proof {
                            let k = (s - scale) as nat;
                            let e = (SCALE - scale) as nat;
                            lemma_pow10_monotonic(k + 1, e);
                            let a = pow10(k + 1);
                            let b = pow10(e);
                            let m = mantissa as int;
                            assert(!in_range(m * b)) by (nonlinear_arith)
                                requires
                                    0 < a <= b,
                                    !(i128::MIN <= m * a <= i128::MAX),
                            ;
                        }
                        return None;
                    },
                }
                s = s + 1;
            }
            if units < -MAX_UNITS {
                None
            } else {
                Some(Amount { units })
            }
        } else {
            let mut p: i128 = 1;
            let mut s: u32 = SCALE;
            proof {
                assert(pow10(0) == 1);
            }
            while s < scale
                invariant
                    SCALE <= s <= scale <= MAX_DECIMAL_SCALE,
                    p == pow10((s - SCALE) as nat),
                decreases scale - s,
            {
                proof {
                    let k = (s - SCALE) as nat;
                    lemma_pow10_upto_scale(k + 1);
                    assert(pow10(k + 1) == 10 * pow10(k));
                }
                p = p * 10;
                s = s + 1;
            }
            proof {
                lemma_pow10_upto_scale((scale - SCALE) as nat);
            }
            let negative = mantissa < 0;
            let magnitude: i128 = if negative {
                -mantissa
            } else {
                mantissa
            };
            let q = magnitude / p;
            if magnitude % p == 0 {
                let units: i128 = if negative {
                    -q
                } else {
                    q
                };
                proof {
                    let m = mantissa as int;
                    let d = p as int;
                    lemma_fundamental_div_mod(magnitude as int, d);
                    assert(magnitude == q * d);
                    if negative {
                        assert(m == (-q) * d) by (nonlinear_arith)
                            requires
                                magnitude == q * d,
                                magnitude == -m,
                        ;
                    }
                    lemma_fundamental_div_mod_converse(m, d, units as int, 0);
                    assert(0 <= q <= magnitude) by (nonlinear_arith)
                        requires
                            magnitude == q * d,
                            d >= 1,
                            magnitude >= 0,
                    ;
                }
                Some(Amount { units })
            } else {
                proof {
                    let m = mantissa as int;
                    let d = p as int;
                    if m % d == 0 {
                        let k = m / d;
                        lemma_fundamental_div_mod(m, d);
                        assert(m == d * k + m % d);
                        assert(m == k * d) by (nonlinear_arith)
                            requires
                                m == d * k + m % d,
                                m % d == 0,
                        ;
                        if negative {
                            assert(magnitude == (-k) * d) by (nonlinear_arith)
                                requires
                                    m == k * d,
                                    magnitude == -m,
                            ;
                            lemma_fundamental_div_mod_converse(magnitude as int, d, -k, 0);
                        } else {
                            lemma_fundamental_div_mod_converse(magnitude as int, d, k, 0);
                        }
                    }
                }
                None
            }
        }
    }

    /// Sum of two amounts; `None` when it leaves the range.
    pub fn checked_add(self, other: Amount) -> (r: Option<Amount>)
        ensures
            r.is_some() <==> in_range(self@ + other@),
            r.is_some() ==> r.unwrap()@ == self@ + other@,
    {
        proof {
            use_type_invariant(&self);
            use_type_invariant(&other);
        }
        match self.units.checked_add(other.units) {
            Some(units) => {
                if units < -MAX_UNITS {
                    None
                } else {
                    Some(Amount { units })
                }
            },
            None => None,
        }
    }

    /// The amount with the opposite sign.
    pub fn neg(self) -> (r: Amount)
        ensures
            r@ == -self@,
    {
        proof {
            use_type_invariant(&self);
        }
        Amount { units: -self.units }
    }

    /// Whether the amount is below zero.
    pub fn is_negative(&self) -> (r: bool)
        ensures
            r == (self@ < 0),
    {
        self.units < 0
    }

    /// The amount in units of `10^-PRINTED_SCALE`, rounded half away from zero.
    pub fn round_to_printed_scale(&self) -> (r: i128)
        ensures
            r == round_half_away(self@, PRINTED_STEP as int),
            -MAX_DECIMAL_MANTISSA <= r <= MAX_DECIMAL_MANTISSA,
    {
        proof {
            use_type_invariant(self);
        }
        let negative = self.units < 0;
        let magnitude: i128 = if negative {
            -self.units
        } else {
            self.units
        };
        let q = magnitude / PRINTED_STEP;
        let rem = magnitude % PRINTED_STEP;
        let up = rem >= PRINTED_STEP / 2;
        proof {
            let v = magnitude as int;
            let d = PRINTED_STEP as int;
            let h = d / 2;
            assert(v == q * d + rem);
            if up {
                lemma_fundamental_div_mod_converse(v + h, d, q + 1, rem + h - d);
            } else {
                lemma_fundamental_div_mod_converse(v + h, d, q as int, rem + h);
            }
        }
        let r = if up {
            q + 1
        } else {
            q
        };
        if negative {
            -r
        } else {
            r
        }
    }

    /// Every amount lies in the range.
    pub fn bounded(&self)
        ensures
            in_range(self@),
    {
        proof {
            use_type_invariant(self);
        }
    }
}

} // verus!
