//! Numbers for prices, sizes and money.
//!
//! A `Decimal` counts hundred-millionths (eight decimal places) and is used
//! for the prices of the book, for sizes and for the prices of fills. A
//! `Notional` counts units of 10^-16 and holds the exact product of two
//! `Decimal`s, so that money computed as price times size is never
//! rounded. Both are range-limited, which keeps every intermediate
//! computation inside `i128`. Their sums, differences and products are
//! exact. Where a number has to be held in eight places that has more (a
//! text of the feed, the point halfway between two prices, an average
//! entry price), the places beyond the eighth are cut off, toward nothing.
//!
//! A `Digits` is a number as `rust_decimal` holds it: a mantissa and a
//! count of up to 28 decimal places. The prices of orders are `Digits`,
//! so that a quote is the formula to its last place. Quotients, and the
//! products and sums of numbers of unlike places, are computed by
//! `rust_decimal`; texts are read and printed by it too.

use vstd::prelude::*;

verus! {

/// Raw units in one whole `Decimal`.
pub const DECIMAL_SCALE: i64 = 100_000_000;

/// Largest magnitude, in raw units, of a `Decimal` (ten thousand million wholes).
pub const DECIMAL_MAX_RAW: i64 = 1_000_000_000_000_000_000;

/// Raw units in one whole `Notional`.
pub const NOTIONAL_SCALE: i128 = 10_000_000_000_000_000;

/// Largest magnitude, in raw units, of a `Notional` (a million million wholes).
pub const NOTIONAL_MAX_RAW: i128 = 10_000_000_000_000_000_000_000_000_000;

/// Largest decimal-places count of a textual decimal.
pub const MAX_TEXT_SCALE: u32 = 28;

/// Bound (exclusive) on the magnitude of the digits of a textual decimal: 2^96.
pub const MANTISSA_LIMIT: i128 = 79_228_162_514_264_337_593_543_950_336;

pub open spec fn decimal_in_range(units: int) -> bool {
    -DECIMAL_MAX_RAW <= units <= DECIMAL_MAX_RAW
}

pub open spec fn notional_in_range(units: int) -> bool {
    -NOTIONAL_MAX_RAW <= units <= NOTIONAL_MAX_RAW
}

pub open spec fn abs_int(a: int) -> int {
    if a >= 0 {
        a
    } else {
        -a
    }
}

/// Quotient of `a` by `b` rounded toward zero (meaningful for `b != 0`).
pub open spec fn trunc_div(a: int, b: int) -> int {
    if (a >= 0) == (b > 0) {
        abs_int(a) / abs_int(b)
    } else {
        -(abs_int(a) / abs_int(b))
    }
}

/// `r` is the `Decimal` of `units` raw units, or `None` when that is out of range.
pub open spec fn decimal_is(r: Option<Decimal>, units: int) -> bool {
    if decimal_in_range(units) {
        r is Some && r->0@ == units
    } else {
        r is None
    }
}

/// `r` is the `Notional` of `units` raw units, or `None` when that is out of range.
pub open spec fn notional_is(r: Option<Notional>, units: int) -> bool {
    if notional_in_range(units) {
        r is Some && r->0@ == units
    } else {
        r is None
    }
}

/// The units of a `Decimal` that may be absent.
pub open spec fn decimal_units(r: Option<Decimal>) -> Option<int> {
    match r {
        Some(d) => Some(d@),
        None => None,
    }
}

/// The units of a `Notional` that may be absent.
pub open spec fn notional_units(r: Option<Notional>) -> Option<int> {
    match r {
        Some(n) => Some(n@),
        None => None,
    }
}

/// `units` where a `Decimal` can hold them.
pub open spec fn as_decimal(units: int) -> Option<int> {
    if decimal_in_range(units) {
        Some(units)
    } else {
        None
    }
}

/// `units` where a `Notional` can hold them.
pub open spec fn as_notional(units: int) -> Option<int> {
    if notional_in_range(units) {
        Some(units)
    } else {
        None
    }
}

/// `m` times ten to the `k`.
pub open spec fn scale_up(m: int, k: nat) -> int
    decreases k,
{
    if k == 0 {
        m
    } else {
        scale_up(m * 10, (k - 1) as nat)
    }
}

/// `m` divided by ten to the `k`, what is left over cut off, toward
/// nothing.
pub open spec fn cut_down(m: int, k: nat) -> int
    decreases k,
{
    if k == 0 {
        m
    } else {
        cut_down(trunc_div(m, 10), (k - 1) as nat)
    }
}

/// Raw `Decimal` units of the number `mantissa / 10^scale`: defined when the
/// pair is a textual decimal (at most 28 places, digits below 2^96) and
/// the number is in range. Places beyond the eighth are cut off, toward
/// nothing.
pub open spec fn units_from_parts(mantissa: int, scale: nat) -> Option<int> {
    if scale > MAX_TEXT_SCALE || abs_int(mantissa) >= MANTISSA_LIMIT {
        None
    } else if scale <= 8 {
        let u = scale_up(mantissa, (8 - scale) as nat);
        if decimal_in_range(u) {
            Some(u)
        } else {
            None
        }
    } else {
        let u = cut_down(mantissa, (scale - 8) as nat);
        if decimal_in_range(u) {
            Some(u)
        } else {
            None
        }
    }
}

/// Digits and decimal-places count that `rust_decimal` reads from a text,
/// or `None` where it rejects the text.
pub uninterp spec fn parsed_decimal(text: Seq<char>) -> Option<(int, nat)>;

/// Raw `Decimal` units that a text stands for, places beyond the eighth
/// cut off.
pub open spec fn decimal_of_text(text: Seq<char>) -> Option<int> {
    match parsed_decimal(text) {
        Some(p) => units_from_parts(p.0, p.1),
        None => None,
    }
}

/// Text that `rust_decimal` prints for `mantissa / 10^scale`.
pub uninterp spec fn decimal_text(mantissa: int, scale: nat) -> Seq<char>;

/// Calls `rust_decimal::Decimal::from_str` and hands back the digits and the
/// decimal-places count of what it read. Nothing is claimed of which texts
/// are accepted or of the value read, only that both are a function of the
/// text.
#[verifier::external_body]
fn parse_digits(text: &str) -> (r: Option<(i128, u32)>)
    ensures
        r is None <==> parsed_decimal(text@) is None,
        r matches Some(p) ==> parsed_decimal(text@) == Some((p.0 as int, p.1 as nat)),
{
    match text.parse::<rust_decimal::Decimal>() {
        Ok(d) => Some((d.mantissa(), d.scale())),
        Err(_) => None,
    }
}

/// Calls `to_string` on the `rust_decimal::Decimal` built from the digits and
/// the decimal-places count. The constructor panics on more than 28 places
/// or on digits of 2^96 and more, which `requires` leaves out.
#[verifier::external_body]
pub(crate) fn print_digits(mantissa: i128, scale: u32) -> (r: String)
    requires
        scale <= MAX_TEXT_SCALE,
        -MANTISSA_LIMIT < mantissa < MANTISSA_LIMIT,
    ensures
        r@ == decimal_text(mantissa as int, scale as nat),
{
    rust_decimal::Decimal::from_i128_with_scale(mantissa, scale).to_string()
}

fn magnitude(a: i128) -> (m: i128)
    requires
        a > i128::MIN,
    ensures
        m == abs_int(a as int),
{
    if a < 0 {
        -a
    } else {
        a
    }
}

/// A number without the zeros at the end of its decimal places: its
/// magnitude and the places that are left.
pub open spec fn stripped(magnitude: int, scale: nat) -> (int, nat)
    decreases scale,
{
    if scale > 0 && magnitude % 10 == 0 {
        stripped(magnitude / 10, (scale - 1) as nat)
    } else {
        (magnitude, scale)
    }
}

/// The text of `units` at `scale` decimal places, written without zeros
/// at the end of the places: `rust_decimal`'s text of the number with
/// those zeros taken off.
pub open spec fn shown(units: int, scale: nat) -> Seq<char> {
    let short = stripped(abs_int(units), scale);
    decimal_text(
        if units < 0 {
            -short.0
        } else {
            short.0
        },
        short.1,
    )
}

/// Prints a number without zeros at the end of its decimal places.
pub(crate) fn print_short(units: i128, scale: u32) -> (r: String)
    requires
        scale <= MAX_TEXT_SCALE,
        -MANTISSA_LIMIT < units < MANTISSA_LIMIT,
    ensures
        r@ == shown(units as int, scale as nat),
{
    let mut left = magnitude(units);
    let mut places = scale;
    while places > 0 && left % 10 == 0
        invariant
            0 <= left <= abs_int(units as int),
            places <= scale,
            stripped(left as int, places as nat) == stripped(abs_int(units as int), scale as nat),
        decreases places,
    {
        left = left / 10;
        places = places - 1;
    }
    let signed = if units < 0 {
        -left
    } else {
        left
    };
    print_digits(signed, places)
}

/// An amount of `units` at `scale` decimal places in text; the words
/// "out of range" for digits of 2^96 and more, which no text stands for.
pub open spec fn amount_text(units: int, scale: nat) -> Seq<char> {
    if -MANTISSA_LIMIT < units < MANTISSA_LIMIT {
        shown(units, scale)
    } else {
        "out of range"@
    }
}

pub(crate) fn format_amount(units: i128, scale: u32) -> (r: String)
    requires
        scale <= MAX_TEXT_SCALE,
    ensures
        r@ == amount_text(units as int, scale as nat),
{
    if -MANTISSA_LIMIT < units && units < MANTISSA_LIMIT {
        print_short(units, scale)
    } else {
        "out of range".to_string()
    }
}

/// The product of two numbers of at most 4 * 10^18 in magnitude.
pub(crate) fn mul_wide(a: i128, b: i128) -> (r: i128)
    requires
        -4_000_000_000_000_000_000 <= a <= 4_000_000_000_000_000_000,
        -4_000_000_000_000_000_000 <= b <= 4_000_000_000_000_000_000,
    ensures
        r == a * b,
        -16_000_000_000_000_000_000_000_000_000_000_000_000 <= r
            <= 16_000_000_000_000_000_000_000_000_000_000_000_000,
{
    assert(-4_000_000_000_000_000_000 * 4_000_000_000_000_000_000 <= a * b
        <= 4_000_000_000_000_000_000 * 4_000_000_000_000_000_000) by (nonlinear_arith)
        requires
            -4_000_000_000_000_000_000 <= a <= 4_000_000_000_000_000_000,
            -4_000_000_000_000_000_000 <= b <= 4_000_000_000_000_000_000,
    ;
    a * b
}

pub(crate) fn div_toward_zero(a: i128, b: i128) -> (q: i128)
    requires
        b != 0,
        a > i128::MIN,
        b > i128::MIN,
    ensures
        q == trunc_div(a as int, b as int),
        abs_int(q as int) <= abs_int(a as int),
{
    let an = magnitude(a);
    let bn = magnitude(b);
    let q = an / bn;
    assert(0 <= an / bn <= an) by (nonlinear_arith)
        requires
            an >= 0,
            bn >= 1,
    ;
    if (a >= 0) == (b > 0) {
        q
    } else {
        -q
    }
}

proof fn lemma_scale_up_grows(m: int, k: nat)
    ensures
        abs_int(scale_up(m, k)) >= abs_int(m),
    decreases k,
{
    if k > 0 {
        lemma_scale_up_grows(m * 10, (k - 1) as nat);
    }
}

/// A signed fixed-point number with eight decimal places. Its view is the
/// number of raw units (hundred-millionths) it holds.
#[derive(Clone, Copy, Debug, PartialEq, Eq, Structural, Hash)]
pub struct Decimal {
    raw: i64,
}

impl View for Decimal {
    type V = int;

    closed spec fn view(&self) -> int {
        self.raw as int
    }
}

impl Decimal {
    #[verifier::type_invariant]
    spec fn bounded(self) -> bool {
        decimal_in_range(self.raw as int)
    }

    /// Two decimals are the same value exactly when they hold the same units.
    pub proof fn lemma_view_injective(a: Decimal, b: Decimal)
        ensures
            (a@ == b@) <==> (a == b),
    {
    }

    /// The decimal of `units` raw units (meaningful for units in range).
    pub closed spec fn from_units(units: int) -> Decimal {
        Decimal { raw: units as i64 }
    }

    pub broadcast proof fn lemma_from_units(units: int)
        requires
            decimal_in_range(units),
        ensures
            (#[trigger] Decimal::from_units(units))@ == units,
    {
    }

    pub broadcast proof fn lemma_units_round_trip(d: Decimal)
        ensures
            Decimal::from_units(#[trigger] d@) == d,
    {
    }

    /// Zero.
    pub fn zero() -> (r: Decimal)
        ensures
            r@ == 0,
            r == Decimal::from_units(0),
    {
        Decimal { raw: 0 }
    }

    /// The raw units held. Every `Decimal` that exists at run time is in range.
    pub fn raw(&self) -> (r: i64)
        ensures
            r == self@,
            decimal_in_range(self@),
    {
        proof {
            use_type_invariant(self);
        }
        self.raw
    }

    /// The number of `raw` units, where they are in range.
    pub fn from_raw(raw: i64) -> (r: Option<Decimal>)
        ensures
            decimal_is(r, raw as int),
    {
        if -DECIMAL_MAX_RAW <= raw && raw <= DECIMAL_MAX_RAW {
            Some(Decimal { raw })
        } else {
            None
        }
    }

    /// The decimal of `units` raw units, where they are in range.
    pub fn from_i128(units: i128) -> (r: Option<Decimal>)
        ensures
            decimal_is(r, units as int),
    {
        if -(DECIMAL_MAX_RAW as i128) <= units && units <= DECIMAL_MAX_RAW as i128 {
            Some(Decimal { raw: units as i64 })
        } else {
            None
        }
    }

    /// The whole number `value`.
    pub fn from_int(value: u32) -> (r: Decimal)
        ensures
            r@ == value * DECIMAL_SCALE,
    {
        let scale: i64 = 100_000_000;
        Decimal { raw: (value as i64) * scale }
    }

    /// Whether the number is zero.
    pub fn is_zero(&self) -> (r: bool)
        ensures
            r == (self@ == 0),
    {
        self.raw == 0
    }

    /// Whether the number is above zero.
    pub fn is_positive(&self) -> (r: bool)
        ensures
            r == (self@ > 0),
    {
        self.raw > 0
    }

    /// Whether the number is below zero.
    pub fn is_negative(&self) -> (r: bool)
        ensures
            r == (self@ < 0),
    {
        self.raw < 0
    }

    /// Whether the two are the same number.
    pub fn equals(&self, other: &Decimal) -> (r: bool)
        ensures
            r == (self@ == other@),
    {
        self.raw == other.raw
    }

    /// Whether this number is less than the other.
    pub fn lt(&self, other: &Decimal) -> (r: bool)
        ensures
            r == (self@ < other@),
    {
        self.raw < other.raw
    }

    /// Whether this number is at most the other.
    pub fn le(&self, other: &Decimal) -> (r: bool)
        ensures
            r == (self@ <= other@),
    {
        self.raw <= other.raw
    }

    /// Whether this number is more than the other.
    pub fn gt(&self, other: &Decimal) -> (r: bool)
        ensures
            r == (self@ > other@),
    {
        self.raw > other.raw
    }

    /// Whether this number is at least the other.
    pub fn ge(&self, other: &Decimal) -> (r: bool)
        ensures
            r == (self@ >= other@),
    {
        self.raw >= other.raw
    }

    /// The opposite number.
    pub fn neg(&self) -> (r: Decimal)
        ensures
            r@ == -self@,
    {
        proof {
            use_type_invariant(self);
        }
        Decimal { raw: -self.raw }
    }

    /// The number in magnitude.
    pub fn abs(&self) -> (r: Decimal)
        ensures
            r@ == abs_int(self@),
    {
        proof {
            use_type_invariant(self);
        }
        if self.raw < 0 {
            Decimal { raw: -self.raw }
        } else {
            *self
        }
    }

    /// The lesser of the two.
    pub fn min(&self, other: &Decimal) -> (r: Decimal)
        ensures
            r@ == if self@ <= other@ { self@ } else { other@ },
    {
        if self.raw <= other.raw {
            *self
        } else {
            *other
        }
    }

    /// The greater of the two.
    pub fn max(&self, other: &Decimal) -> (r: Decimal)
        ensures
            r@ == if self@ >= other@ { self@ } else { other@ },
    {
        if self.raw >= other.raw {
            *self
        } else {
            *other
        }
    }

    /// The point halfway between two decimals; where it has a ninth place,
    /// that place is cut off, toward nothing.
    pub fn midpoint(&self, other: &Decimal) -> (r: Decimal)
        ensures
            r@ == trunc_div(self@ + other@, 2),
    {
        proof {
            use_type_invariant(self);
            use_type_invariant(other);
        }
        let sum = (self.raw as i128) + (other.raw as i128);
        let half = div_toward_zero(sum, 2);
        assert(abs_int(sum as int) / 2 <= DECIMAL_MAX_RAW);
        assert(abs_int(2) == 2);
        Decimal { raw: half as i64 }
    }

    /// The sum, where it is in range.
    pub fn checked_add(&self, other: &Decimal) -> (r: Option<Decimal>)
        ensures
            decimal_is(r, self@ + other@),
    {
        proof {
            use_type_invariant(self);
            use_type_invariant(other);
        }
        Decimal::from_raw(self.raw + other.raw)
    }

    /// The difference, where it is in range.
    pub fn checked_sub(&self, other: &Decimal) -> (r: Option<Decimal>)
        ensures
            decimal_is(r, self@ - other@),
    {
        proof {
            use_type_invariant(self);
            use_type_invariant(other);
        }
        Decimal::from_raw(self.raw - other.raw)
    }

    /// The product with a whole number.
    pub fn checked_mul_int(&self, factor: i64) -> (r: Option<Decimal>)
        ensures
            decimal_is(r, self@ * factor),
    {
        proof {
            use_type_invariant(self);
        }
        let a = self.raw as i128;
        let b = factor as i128;
        assert(-0x8000_0000_0000_0000 * 0x8000_0000_0000_0000 <= a * b
            <= 0x8000_0000_0000_0000 * 0x8000_0000_0000_0000) by (nonlinear_arith)
            requires
                -0x8000_0000_0000_0000 <= a <= 0x8000_0000_0000_0000,
                -0x8000_0000_0000_0000 <= b <= 0x8000_0000_0000_0000,
        ;
        Decimal::from_i128(a * b)
    }

    /// The exact product, as money.
    pub fn checked_mul(&self, other: &Decimal) -> (r: Option<Notional>)
        ensures
            notional_is(r, self@ * other@),
    {
        proof {
            use_type_invariant(self);
            use_type_invariant(other);
        }
        let a = self.raw as i128;
        let b = other.raw as i128;
        assert(-1_000_000_000_000_000_000 * 1_000_000_000_000_000_000 <= a * b
            <= 1_000_000_000_000_000_000 * 1_000_000_000_000_000_000) by (nonlinear_arith)
            requires
                -1_000_000_000_000_000_000 <= a <= 1_000_000_000_000_000_000,
                -1_000_000_000_000_000_000 <= b <= 1_000_000_000_000_000_000,
        ;
        Notional::from_raw(a * b)
    }

    /// The decimal `mantissa / 10^scale`, places beyond the eighth cut off.
    pub fn from_parts(mantissa: i128, scale: u32) -> (r: Option<Decimal>)
        ensures
            r is Some <==> units_from_parts(mantissa as int, scale as nat) is Some,
            r matches Some(d) ==> units_from_parts(mantissa as int, scale as nat) == Some(d@),
    {
        if scale > MAX_TEXT_SCALE || mantissa <= -MANTISSA_LIMIT || mantissa >= MANTISSA_LIMIT {
            return None;
        }
        let mut v: i128 = mantissa;
        if scale <= 8 {
            let mut k: u32 = 8 - scale;
            while k > 0
                invariant
                    k <= 8,
                    scale <= 8,
                    -MANTISSA_LIMIT < mantissa < MANTISSA_LIMIT,
                    -MANTISSA_LIMIT < v < MANTISSA_LIMIT,
                    scale_up(v as int, k as nat) == scale_up(mantissa as int, (8 - scale) as nat),
                decreases k,
            {
                if v > DECIMAL_MAX_RAW as i128 || v < -(DECIMAL_MAX_RAW as i128) {
                    proof {
                        lemma_scale_up_grows(v as int, k as nat);
                    }
                    return None;
                }
                v = v * 10;
                k = k - 1;
            }
            Decimal::from_i128(v)
        } else {
            let mut k: u32 = scale - 8;
            while k > 0
                invariant
                    k <= 20,
                    8 < scale <= MAX_TEXT_SCALE,
                    -MANTISSA_LIMIT < mantissa < MANTISSA_LIMIT,
                    -MANTISSA_LIMIT < v < MANTISSA_LIMIT,
                    cut_down(v as int, k as nat) == cut_down(mantissa as int, (scale - 8) as nat),
                decreases k,
            {
                v = div_toward_zero(v, 10);
                k = k - 1;
            }
            Decimal::from_i128(v)
        }
    }

    /// Reads a decimal from text: whatever `rust_decimal` accepts and is in
    /// range. Places beyond the eighth are cut off, toward nothing.
    pub fn from_str(text: &str) -> (r: Option<Decimal>)
        ensures
            match decimal_of_text(text@) {
                Some(units) => r is Some && r->0@ == units,
                None => r is None,
            },
    {
        match parse_digits(text) {
            Some((mantissa, scale)) => Decimal::from_parts(mantissa, scale),
            None => None,
        }
    }

    /// The decimal in text, without zeros at the end of its places.
    pub fn to_string(&self) -> (r: String)
        ensures
            r@ == shown(self@, 8),
    {
        proof {
            use_type_invariant(self);
        }
        print_short(self.raw as i128, 8)
    }
}

/// An amount of money with sixteen decimal places: the exact product of two
/// `Decimal`s. Its view is the number of raw units (10^-16) it holds.
#[derive(Clone, Copy, Debug, PartialEq, Eq, Structural, Hash)]
pub struct Notional {
    raw: i128,
}

impl View for Notional {
    type V = int;

    closed spec fn view(&self) -> int {
        self.raw as int
    }
}

impl Notional {
    #[verifier::type_invariant]
    spec fn bounded(self) -> bool {
        notional_in_range(self.raw as int)
    }

    /// Two amounts are the same value exactly when they hold the same units.
    pub proof fn lemma_view_injective(a: Notional, b: Notional)
        ensures
            (a@ == b@) <==> (a == b),
    {
    }

    /// The amount of `units` raw units (meaningful for units in range).
    pub closed spec fn from_units(units: int) -> Notional {
        Notional { raw: units as i128 }
    }

    pub broadcast proof fn lemma_from_units(units: int)
        requires
            notional_in_range(units),
        ensures
            (#[trigger] Notional::from_units(units))@ == units,
    {
    }

    pub broadcast proof fn lemma_units_round_trip(n: Notional)
        ensures
            Notional::from_units(#[trigger] n@) == n,
    {
    }

    /// Zero.
    pub fn zero() -> (r: Notional)
        ensures
            r@ == 0,
            r == Notional::from_units(0),
    {
        Notional { raw: 0 }
    }

    /// The raw units held. Every `Notional` that exists at run time is in range.
    pub fn raw(&self) -> (r: i128)
        ensures
            r == self@,
            notional_in_range(self@),
    {
        proof {
            use_type_invariant(self);
        }
        self.raw
    }

    /// The number of `raw` units, where they are in range.
    pub fn from_raw(raw: i128) -> (r: Option<Notional>)
        ensures
            notional_is(r, raw as int),
    {
        if -NOTIONAL_MAX_RAW <= raw && raw <= NOTIONAL_MAX_RAW {
            Some(Notional { raw })
        } else {
            None
        }
    }

    /// The same number as money.
    pub fn from_decimal(value: &Decimal) -> (r: Notional)
        ensures
            r@ == value@ * DECIMAL_SCALE,
    {
        let units = value.raw() as i128;
        let scale: i128 = 100_000_000;
        Notional { raw: units * scale }
    }

    /// Whether the number is zero.
    pub fn is_zero(&self) -> (r: bool)
        ensures
            r == (self@ == 0),
    {
        self.raw == 0
    }

    /// Whether the number is above zero.
    pub fn is_positive(&self) -> (r: bool)
        ensures
            r == (self@ > 0),
    {
        self.raw > 0
    }

    /// Whether the number is below zero.
    pub fn is_negative(&self) -> (r: bool)
        ensures
            r == (self@ < 0),
    {
        self.raw < 0
    }

    /// Whether the two are the same number.
    pub fn equals(&self, other: &Notional) -> (r: bool)
        ensures
            r == (self@ == other@),
    {
        self.raw == other.raw
    }

    /// Whether this number is less than the other.
    pub fn lt(&self, other: &Notional) -> (r: bool)
        ensures
            r == (self@ < other@),
    {
        self.raw < other.raw
    }

    /// Whether this number is at most the other.
    pub fn le(&self, other: &Notional) -> (r: bool)
        ensures
            r == (self@ <= other@),
    {
        self.raw <= other.raw
    }

    /// Whether this number is more than the other.
    pub fn gt(&self, other: &Notional) -> (r: bool)
        ensures
            r == (self@ > other@),
    {
        self.raw > other.raw
    }

    /// Whether this number is at least the other.
    pub fn ge(&self, other: &Notional) -> (r: bool)
        ensures
            r == (self@ >= other@),
    {
        self.raw >= other.raw
    }

    /// The opposite number.
    pub fn neg(&self) -> (r: Notional)
        ensures
            r@ == -self@,
    {
        proof {
            use_type_invariant(self);
        }
        Notional { raw: -self.raw }
    }

    /// The number in magnitude.
    pub fn abs(&self) -> (r: Notional)
        ensures
            r@ == abs_int(self@),
    {
        proof {
            use_type_invariant(self);
        }
        if self.raw < 0 {
            Notional { raw: -self.raw }
        } else {
            *self
        }
    }

    /// The sum, where it is in range.
    pub fn checked_add(&self, other: &Notional) -> (r: Option<Notional>)
        ensures
            notional_is(r, self@ + other@),
    {
        proof {
            use_type_invariant(self);
            use_type_invariant(other);
        }
        Notional::from_raw(self.raw + other.raw)
    }

    /// The difference, where it is in range.
    pub fn checked_sub(&self, other: &Notional) -> (r: Option<Notional>)
        ensures
            notional_is(r, self@ - other@),
    {
        proof {
            use_type_invariant(self);
            use_type_invariant(other);
        }
        Notional::from_raw(self.raw - other.raw)
    }

    /// The amount in text, without zeros at the end of its places.
    pub fn to_string(&self) -> (r: String)
        ensures
            r@ == shown(self@, 16),
    {
        proof {
            use_type_invariant(self);
        }
        print_short(self.raw, 16)
    }
}

/// Whether a mantissa and a count of decimal places are ones that
/// `rust_decimal` holds: at most 28 places, and a mantissa of 96 bits.
pub open spec fn digits_ok(mantissa: int, scale: nat) -> bool {
    scale <= MAX_TEXT_SCALE && -MANTISSA_LIMIT < mantissa < MANTISSA_LIMIT
}

/// The quotient that `rust_decimal` computes of two numbers, each given by
/// mantissa and decimal places; `None` where it computes none (a zero
/// divisor, or a quotient too large).
pub uninterp spec fn decimal_quotient(a: int, a_scale: nat, b: int, b_scale: nat) -> Option<
    (int, nat),
>;

/// The product that `rust_decimal` computes of two numbers; `None` where
/// it is too large.
pub uninterp spec fn decimal_product(a: int, a_scale: nat, b: int, b_scale: nat) -> Option<
    (int, nat),
>;

/// The sum that `rust_decimal` computes of two numbers; `None` where it is
/// too large.
pub uninterp spec fn decimal_sum(a: int, a_scale: nat, b: int, b_scale: nat) -> Option<(int, nat)>;

/// Mantissa and places of a result that may be absent.
pub open spec fn digits_of_result(r: Option<(i128, u32)>) -> Option<(int, nat)> {
    match r {
        Some(p) => Some((p.0 as int, p.1 as nat)),
        None => None,
    }
}

/// Calls `rust_decimal::Decimal::checked_div` on the numbers built by
/// `from_i128_with_scale`, and hands back mantissa and scale of the
/// quotient. The quotient is a function of the two numbers; like every
/// `rust_decimal::Decimal` it has at most 28 places and a mantissa of 96
/// bits. `requires` leaves out what the constructor panics on.
#[verifier::external_body]
fn quotient_digits(a: i128, a_scale: u32, b: i128, b_scale: u32) -> (r: Option<(i128, u32)>)
    requires
        digits_ok(a as int, a_scale as nat),
        digits_ok(b as int, b_scale as nat),
    ensures
        digits_of_result(r) == decimal_quotient(a as int, a_scale as nat, b as int, b_scale as nat),
        r matches Some(p) ==> digits_ok(p.0 as int, p.1 as nat),
{
    let x = rust_decimal::Decimal::from_i128_with_scale(a, a_scale);
    let y = rust_decimal::Decimal::from_i128_with_scale(b, b_scale);
    match x.checked_div(y) {
        Some(d) => Some((d.mantissa(), d.scale())),
        None => None,
    }
}

/// Calls `rust_decimal::Decimal::checked_mul` on the numbers built by
/// `from_i128_with_scale`, and hands back mantissa and scale of the
/// product, which is a function of the two numbers and, like every
/// `rust_decimal::Decimal`, has at most 28 places and a mantissa of 96
/// bits. `requires` leaves out what the constructor panics on.
#[verifier::external_body]
fn product_digits(a: i128, a_scale: u32, b: i128, b_scale: u32) -> (r: Option<(i128, u32)>)
    requires
        digits_ok(a as int, a_scale as nat),
        digits_ok(b as int, b_scale as nat),
    ensures
        digits_of_result(r) == decimal_product(a as int, a_scale as nat, b as int, b_scale as nat),
        r matches Some(p) ==> digits_ok(p.0 as int, p.1 as nat),
{
    let x = rust_decimal::Decimal::from_i128_with_scale(a, a_scale);
    let y = rust_decimal::Decimal::from_i128_with_scale(b, b_scale);
    match x.checked_mul(y) {
        Some(d) => Some((d.mantissa(), d.scale())),
        None => None,
    }
}

/// Calls `rust_decimal::Decimal::checked_add` on the numbers built by
/// `from_i128_with_scale`, and hands back mantissa and scale of the sum,
/// which is a function of the two numbers and, like every
/// `rust_decimal::Decimal`, has at most 28 places and a mantissa of 96
/// bits. `requires` leaves out what the constructor panics on.
#[verifier::external_body]
fn sum_digits(a: i128, a_scale: u32, b: i128, b_scale: u32) -> (r: Option<(i128, u32)>)
    requires
        digits_ok(a as int, a_scale as nat),
        digits_ok(b as int, b_scale as nat),
    ensures
        digits_of_result(r) == decimal_sum(a as int, a_scale as nat, b as int, b_scale as nat),
        r matches Some(p) ==> digits_ok(p.0 as int, p.1 as nat),
{
    let x = rust_decimal::Decimal::from_i128_with_scale(a, a_scale);
    let y = rust_decimal::Decimal::from_i128_with_scale(b, b_scale);
    match x.checked_add(y) {
        Some(d) => Some((d.mantissa(), d.scale())),
        None => None,
    }
}

/// Calls `rust_decimal`'s `>` on the numbers built by
/// `from_i128_with_scale`. The crate orders its numbers by their value,
/// whatever their count of places. `requires` leaves out what the
/// constructor panics on.
#[verifier::external_body]
fn exceeds_digits(a: i128, a_scale: u32, b: i128, b_scale: u32) -> (r: bool)
    requires
        digits_ok(a as int, a_scale as nat),
        digits_ok(b as int, b_scale as nat),
    ensures
        r == (fine_units(a as int, a_scale as nat) > fine_units(b as int, b_scale as nat)),
{
    let x = rust_decimal::Decimal::from_i128_with_scale(a, a_scale);
    let y = rust_decimal::Decimal::from_i128_with_scale(b, b_scale);
    x > y
}

/// Ten to the `k`.
pub open spec fn pow10(k: nat) -> int
    decreases k,
{
    if k == 0 {
        1
    } else {
        10 * pow10((k - 1) as nat)
    }
}

proof fn lemma_pow10_table()
    ensures
        pow10(0) == 1,
        pow10(1) == 10,
        pow10(2) == 100,
        pow10(3) == 1_000,
        pow10(4) == 10_000,
        pow10(5) == 100_000,
        pow10(6) == 1_000_000,
        pow10(7) == 10_000_000,
        pow10(8) == 100_000_000,
        pow10(9) == 1_000_000_000,
        pow10(10) == 10_000_000_000,
        pow10(11) == 100_000_000_000,
        pow10(12) == 1_000_000_000_000,
        pow10(13) == 10_000_000_000_000,
        pow10(14) == 100_000_000_000_000,
        pow10(15) == 1_000_000_000_000_000,
        pow10(16) == 10_000_000_000_000_000,
        pow10(17) == 100_000_000_000_000_000,
        pow10(18) == 1_000_000_000_000_000_000,
        pow10(19) == 10_000_000_000_000_000_000,
        pow10(20) == 100_000_000_000_000_000_000,
        pow10(21) == 1_000_000_000_000_000_000_000,
        pow10(22) == 10_000_000_000_000_000_000_000,
        pow10(23) == 100_000_000_000_000_000_000_000,
        pow10(24) == 1_000_000_000_000_000_000_000_000,
        pow10(25) == 10_000_000_000_000_000_000_000_000,
        pow10(26) == 100_000_000_000_000_000_000_000_000,
        pow10(27) == 1_000_000_000_000_000_000_000_000_000,
        pow10(28) == 10_000_000_000_000_000_000_000_000_000,
{
    assert(pow10(1) == 10 * pow10(0));
    assert(pow10(2) == 10 * pow10(1));
    assert(pow10(3) == 10 * pow10(2));
    assert(pow10(4) == 10 * pow10(3));
    assert(pow10(5) == 10 * pow10(4));
    assert(pow10(6) == 10 * pow10(5));
    assert(pow10(7) == 10 * pow10(6));
    assert(pow10(8) == 10 * pow10(7));
    assert(pow10(9) == 10 * pow10(8));
    assert(pow10(10) == 10 * pow10(9));
    assert(pow10(11) == 10 * pow10(10));
    assert(pow10(12) == 10 * pow10(11));
    assert(pow10(13) == 10 * pow10(12));
    assert(pow10(14) == 10 * pow10(13));
    assert(pow10(15) == 10 * pow10(14));
    assert(pow10(16) == 10 * pow10(15));
    assert(pow10(17) == 10 * pow10(16));
    assert(pow10(18) == 10 * pow10(17));
    assert(pow10(19) == 10 * pow10(18));
    assert(pow10(20) == 10 * pow10(19));
    assert(pow10(21) == 10 * pow10(20));
    assert(pow10(22) == 10 * pow10(21));
    assert(pow10(23) == 10 * pow10(22));
    assert(pow10(24) == 10 * pow10(23));
    assert(pow10(25) == 10 * pow10(24));
    assert(pow10(26) == 10 * pow10(25));
    assert(pow10(27) == 10 * pow10(26));
    assert(pow10(28) == 10 * pow10(27));
}

proof fn lemma_pow10_grows(k: nat)
    requires
        k <= 28,
    ensures
        1 <= pow10(k) <= 10_000_000_000_000_000_000_000_000_000,
{
    lemma_pow10_table();
    if k == 0 {
        assert(pow10(k) == pow10(0));
    }
    if k == 1 {
        assert(pow10(k) == pow10(1));
    }
    if k == 2 {
        assert(pow10(k) == pow10(2));
    }
    if k == 3 {
        assert(pow10(k) == pow10(3));
    }
    if k == 4 {
        assert(pow10(k) == pow10(4));
    }
    if k == 5 {
        assert(pow10(k) == pow10(5));
    }
    if k == 6 {
        assert(pow10(k) == pow10(6));
    }
    if k == 7 {
        assert(pow10(k) == pow10(7));
    }
    if k == 8 {
        assert(pow10(k) == pow10(8));
    }
    if k == 9 {
        assert(pow10(k) == pow10(9));
    }
    if k == 10 {
        assert(pow10(k) == pow10(10));
    }
    if k == 11 {
        assert(pow10(k) == pow10(11));
    }
    if k == 12 {
        assert(pow10(k) == pow10(12));
    }
    if k == 13 {
        assert(pow10(k) == pow10(13));
    }
    if k == 14 {
        assert(pow10(k) == pow10(14));
    }
    if k == 15 {
        assert(pow10(k) == pow10(15));
    }
    if k == 16 {
        assert(pow10(k) == pow10(16));
    }
    if k == 17 {
        assert(pow10(k) == pow10(17));
    }
    if k == 18 {
        assert(pow10(k) == pow10(18));
    }
    if k == 19 {
        assert(pow10(k) == pow10(19));
    }
    if k == 20 {
        assert(pow10(k) == pow10(20));
    }
    if k == 21 {
        assert(pow10(k) == pow10(21));
    }
    if k == 22 {
        assert(pow10(k) == pow10(22));
    }
    if k == 23 {
        assert(pow10(k) == pow10(23));
    }
    if k == 24 {
        assert(pow10(k) == pow10(24));
    }
    if k == 25 {
        assert(pow10(k) == pow10(25));
    }
    if k == 26 {
        assert(pow10(k) == pow10(26));
    }
    if k == 27 {
        assert(pow10(k) == pow10(27));
    }
    if k == 28 {
        assert(pow10(k) == pow10(28));
    }
}

fn ten_to(k: u32) -> (r: i128)
    requires
        k <= 28,
    ensures
        r == pow10(k as nat),
        1 <= r <= 10_000_000_000_000_000_000_000_000_000,
{
    let mut v: i128 = 1;
    let mut i: u32 = 0;
    proof {
        lemma_pow10_grows(0);
    }
    while i < k
        invariant
            i <= k <= 28,
            v == pow10(i as nat),
            1 <= v <= 10_000_000_000_000_000_000_000_000_000,
        decreases k - i,
    {
        proof {
            lemma_pow10_grows((i + 1) as nat);
        }
        v = v * 10;
        i = i + 1;
    }
    v
}

/// A decimal number as `rust_decimal` holds it: a mantissa and a count of
/// decimal places. It stands for the mantissa divided by ten to the
/// places. Quotients, products and sums of such numbers are
/// `rust_decimal`'s own.
#[derive(Clone, Copy, Debug, PartialEq, Eq, Structural)]
pub struct Digits {
    mantissa: i128,
    scale: u32,
}

impl View for Digits {
    type V = (int, nat);

    closed spec fn view(&self) -> (int, nat) {
        (self.mantissa as int, self.scale as nat)
    }
}

/// The quotient of two numbers, as `rust_decimal` computes it.
pub open spec fn quotient_of(a: (int, nat), b: (int, nat)) -> Option<(int, nat)> {
    decimal_quotient(a.0, a.1, b.0, b.1)
}

/// The product of two numbers, as `rust_decimal` computes it.
pub open spec fn product_of(a: (int, nat), b: (int, nat)) -> Option<(int, nat)> {
    decimal_product(a.0, a.1, b.0, b.1)
}

/// The sum of two numbers, as `rust_decimal` computes it.
pub open spec fn sum_of(a: (int, nat), b: (int, nat)) -> Option<(int, nat)> {
    decimal_sum(a.0, a.1, b.0, b.1)
}

/// The digits of a result that may be absent.
pub open spec fn digits_view(r: Option<Digits>) -> Option<(int, nat)> {
    match r {
        Some(d) => Some(d@),
        None => None,
    }
}

/// The value of a number of at most 28 places, in units of the 28th
/// place.
pub open spec fn fine_units(mantissa: int, scale: nat) -> int {
    mantissa * pow10((MAX_TEXT_SCALE - scale) as nat)
}

/// Whether the first number is more than the second, by value.
pub open spec fn exceeds(a: (int, nat), b: (int, nat)) -> bool {
    fine_units(a.0, a.1) > fine_units(b.0, b.1)
}

/// Whether a number is more than the whole number `n`.
pub open spec fn more_than(d: (int, nat), n: int) -> bool {
    d.0 > n * pow10(d.1)
}

impl Digits {
    #[verifier::type_invariant]
    spec fn held(self) -> bool {
        digits_ok(self.mantissa as int, self.scale as nat)
    }

    /// The number of this mantissa and these places, where `rust_decimal`
    /// holds such a number.
    pub fn new(mantissa: i128, scale: u32) -> (r: Option<Digits>)
        ensures
            match r {
                Some(d) => digits_ok(mantissa as int, scale as nat) && d@ == (
                    mantissa as int,
                    scale as nat,
                ),
                None => !digits_ok(mantissa as int, scale as nat),
            },
    {
        if scale <= MAX_TEXT_SCALE && -MANTISSA_LIMIT < mantissa && mantissa < MANTISSA_LIMIT {
            Some(Digits { mantissa, scale })
        } else {
            None
        }
    }

    /// The whole number `n`.
    pub fn from_int(n: u32) -> (r: Digits)
        ensures
            r@ == (n as int, 0nat),
    {
        Digits { mantissa: n as i128, scale: 0 }
    }

    /// A `Decimal` as digits: its raw units, with eight places.
    pub fn from_decimal(value: &Decimal) -> (r: Digits)
        ensures
            r@ == (value@, 8nat),
    {
        Digits { mantissa: value.raw() as i128, scale: 8 }
    }

    /// A `Notional` as digits: its raw units, with sixteen places.
    pub fn from_notional(value: &Notional) -> (r: Digits)
        ensures
            r@ == (value@, 16nat),
    {
        Digits { mantissa: value.raw(), scale: 16 }
    }

    /// The mantissa. Every number that exists at run time is one that
    /// `rust_decimal` holds.
    pub fn mantissa(&self) -> (r: i128)
        ensures
            r == self@.0,
            digits_ok(self@.0, self@.1),
    {
        proof {
            use_type_invariant(self);
        }
        self.mantissa
    }

    /// The count of decimal places.
    pub fn scale(&self) -> (r: u32)
        ensures
            r == self@.1,
            digits_ok(self@.0, self@.1),
    {
        proof {
            use_type_invariant(self);
        }
        self.scale
    }

    /// The quotient by another number, as `rust_decimal` computes it.
    pub fn checked_div(&self, other: &Digits) -> (r: Option<Digits>)
        ensures
            digits_view(r) == quotient_of(self@, other@),
    {
        proof {
            use_type_invariant(self);
            use_type_invariant(other);
        }
        match quotient_digits(self.mantissa, self.scale, other.mantissa, other.scale) {
            Some((mantissa, scale)) => Some(Digits { mantissa, scale }),
            None => None,
        }
    }

    /// The product with another number, as `rust_decimal` computes it.
    pub fn checked_mul(&self, other: &Digits) -> (r: Option<Digits>)
        ensures
            digits_view(r) == product_of(self@, other@),
    {
        proof {
            use_type_invariant(self);
            use_type_invariant(other);
        }
        match product_digits(self.mantissa, self.scale, other.mantissa, other.scale) {
            Some((mantissa, scale)) => Some(Digits { mantissa, scale }),
            None => None,
        }
    }

    /// The sum with another number, as `rust_decimal` computes it.
    pub fn checked_add(&self, other: &Digits) -> (r: Option<Digits>)
        ensures
            digits_view(r) == sum_of(self@, other@),
    {
        proof {
            use_type_invariant(self);
            use_type_invariant(other);
        }
        match sum_digits(self.mantissa, self.scale, other.mantissa, other.scale) {
            Some((mantissa, scale)) => Some(Digits { mantissa, scale }),
            None => None,
        }
    }

    /// Whether the number is more than the whole number `n`.
    pub fn is_more_than(&self, n: u32) -> (r: bool)
        ensures
            r == more_than(self@, n as int),
    {
        proof {
            use_type_invariant(self);
        }
        let power = ten_to(self.scale);
        let whole = n as i128;
        assert(0 <= whole * power <= 4_294_967_295 * 10_000_000_000_000_000_000_000_000_000)
            by (nonlinear_arith)
            requires
                0 <= whole <= 4_294_967_295,
                1 <= power <= 10_000_000_000_000_000_000_000_000_000,
        ;
        self.mantissa > whole * power
    }

    /// Whether this number is more than the other, by value.
    pub fn gt(&self, other: &Digits) -> (r: bool)
        ensures
            r == exceeds(self@, other@),
    {
        proof {
            use_type_invariant(self);
            use_type_invariant(other);
        }
        exceeds_digits(self.mantissa, self.scale, other.mantissa, other.scale)
    }

    /// The number in text, without zeros at the end of its places.
    pub fn to_short_string(&self) -> (r: String)
        ensures
            r@ == shown(self@.0, self@.1),
    {
        proof {
            use_type_invariant(self);
        }
        print_short(self.mantissa, self.scale)
    }

    /// The number in text, as `rust_decimal` prints it.
    pub fn to_string(&self) -> (r: String)
        ensures
            r@ == decimal_text(self@.0, self@.1),
    {
        proof {
            use_type_invariant(self);
        }
        print_digits(self.mantissa, self.scale)
    }
}

} // verus!
