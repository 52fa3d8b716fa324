//! Decimal amounts.
//!
//! Money, quantities and prices are `rust_decimal` numbers. The library holds
//! them as [`Dec`], the plain parts of such a number (a 96-bit signed mantissa
//! and a scale of at most 28 decimal places); every arithmetic step is done by
//! `rust_decimal` itself, through the trusted wrappers at the end of this file.
use vstd::prelude::*;

verus! {

/// 10 to the power `n`.
pub open spec fn pow10(n: nat) -> int
    decreases n,
{
    if n == 0 {
        1
    } else {
        10 * pow10((n - 1) as nat)
    }
}

/// The largest mantissa magnitude a decimal can hold: 2^96 - 1.
pub open spec fn max_mantissa() -> int {
    79228162514264337593543950335
}

/// Whether an integer fits in the 96-bit mantissa of a decimal.
pub open spec fn fits_mantissa(x: int) -> bool {
    -max_mantissa() <= x <= max_mantissa()
}

/// A decimal number `mantissa * 10^(-scale)`.
#[derive(Clone, Copy, Debug, PartialEq, Eq)]
pub struct Dec {
    pub mantissa: i128,
    pub scale: u32,
}

impl Dec {
    /// The parts describe a number `rust_decimal` can represent.
    pub open spec fn wf(self) -> bool {
        self.scale <= 28 && fits_mantissa(self.mantissa as int)
    }

    /// The exact value, counted in units of 10^-28.
    pub open spec fn value(self) -> int {
        self.mantissa * pow10((28 - self.scale) as nat)
    }

    /// The mantissa this number has once rescaled to `scale` (at least its own).
    pub open spec fn aligned(self, scale: u32) -> int {
        self.mantissa * pow10((scale - self.scale) as nat)
    }

    pub open spec fn spec_zero() -> Dec {
        Dec { mantissa: 0, scale: 0 }
    }

    /// Zero, with scale 0 (as `Decimal::ZERO`).
    pub fn zero() -> (r: Dec)
        ensures
            r == Dec::spec_zero(),
            r.wf(),
            r.value() == 0,
    {
        Dec { mantissa: 0, scale: 0 }
    }

    /// The integer one hundred, with scale 0 (as `Decimal::from(100)`).
    pub fn hundred() -> (r: Dec)
        ensures
            r == (Dec { mantissa: 100, scale: 0 }),
            r.wf(),
    {
        Dec { mantissa: 100, scale: 0 }
    }
}

/// The larger of the two scales.
pub open spec fn max_scale(a: Dec, b: Dec) -> u32 {
    if a.scale >= b.scale {
        a.scale
    } else {
        b.scale
    }
}

/// `a + b` is computed without rounding: both operands, and their sum, fit in
/// 96 bits at the larger of the two scales.
pub open spec fn add_is_exact(a: Dec, b: Dec) -> bool {
    let s = max_scale(a, b);
    &&& fits_mantissa(a.aligned(s))
    &&& fits_mantissa(b.aligned(s))
    &&& fits_mantissa(a.aligned(s) + b.aligned(s))
}

/// `a - b` is computed without rounding.
pub open spec fn sub_is_exact(a: Dec, b: Dec) -> bool {
    let s = max_scale(a, b);
    &&& fits_mantissa(a.aligned(s))
    &&& fits_mantissa(b.aligned(s))
    &&& fits_mantissa(a.aligned(s) - b.aligned(s))
}

/// `a * b` is computed without rounding: the product of the mantissas fits in
/// 96 bits and the sum of the scales is at most 28.
pub open spec fn mul_is_exact(a: Dec, b: Dec) -> bool {
    a.scale + b.scale <= 28 && fits_mantissa(a.mantissa * b.mantissa)
}

/// What `rust_decimal::Decimal::checked_add` returns, as mantissa and scale.
pub uninterp spec fn decimal_checked_add(
    a_mantissa: i128,
    a_scale: u32,
    b_mantissa: i128,
    b_scale: u32,
) -> Option<(i128, u32)>;

/// What `rust_decimal::Decimal::checked_sub` returns, as mantissa and scale.
pub uninterp spec fn decimal_checked_sub(
    a_mantissa: i128,
    a_scale: u32,
    b_mantissa: i128,
    b_scale: u32,
) -> Option<(i128, u32)>;

/// What `rust_decimal::Decimal::checked_mul` returns, as mantissa and scale.
pub uninterp spec fn decimal_checked_mul(
    a_mantissa: i128,
    a_scale: u32,
    b_mantissa: i128,
    b_scale: u32,
) -> Option<(i128, u32)>;

/// What `rust_decimal::Decimal::checked_div` returns, as mantissa and scale.
pub uninterp spec fn decimal_checked_div(
    a_mantissa: i128,
    a_scale: u32,
    b_mantissa: i128,
    b_scale: u32,
) -> Option<(i128, u32)>;

/// What `rust_decimal::Decimal::from_str` gives for a text, as mantissa and
/// scale; `None` where the text is refused.
pub uninterp spec fn decimal_from_str(s: Seq<char>) -> Option<(i128, u32)>;

/// The decimal a text denotes, `None` where it is not a number.
pub open spec fn parse_spec(s: Seq<char>) -> Option<Dec> {
    dec_of(decimal_from_str(s))
}

/// The decimal with the given parts; `rust_decimal` only ever produces parts
/// that satisfy `Dec::wf`.
pub open spec fn dec_of(parts: Option<(i128, u32)>) -> Option<Dec> {
    match parts {
        Some((m, s)) => if s <= 28 && fits_mantissa(m as int) {
            Some(Dec { mantissa: m, scale: s })
        } else {
            None
        },
        None => None,
    }
}

/// `a + b`, or `None` where `rust_decimal` reports an overflow.
pub open spec fn add_spec(a: Dec, b: Dec) -> Option<Dec> {
    dec_of(decimal_checked_add(a.mantissa, a.scale, b.mantissa, b.scale))
}

/// `a - b`, or `None` where `rust_decimal` reports an overflow.
pub open spec fn sub_spec(a: Dec, b: Dec) -> Option<Dec> {
    dec_of(decimal_checked_sub(a.mantissa, a.scale, b.mantissa, b.scale))
}

/// `a * b`, or `None` where `rust_decimal` reports an overflow.
pub open spec fn mul_spec(a: Dec, b: Dec) -> Option<Dec> {
    dec_of(decimal_checked_mul(a.mantissa, a.scale, b.mantissa, b.scale))
}

/// `a / b`, or `None` on a zero divisor or an overflow.
pub open spec fn div_spec(a: Dec, b: Dec) -> Option<Dec> {
    dec_of(decimal_checked_div(a.mantissa, a.scale, b.mantissa, b.scale))
}

/// `-a`: the same digits with the opposite sign.
pub open spec fn neg_spec(a: Dec) -> Dec {
    Dec { mantissa: (-a.mantissa) as i128, scale: a.scale }
}

/// Negating a decimal negates its value.
pub proof fn lemma_neg_value(a: Dec)
    requires
        a.wf(),
    ensures
        neg_spec(a).wf(),
        neg_spec(a).value() == -a.value(),
{
    let p = pow10((28 - a.scale) as nat);
    assert((-a.mantissa) * p == -(a.mantissa * p)) by (nonlinear_arith);
}

/// `r` is `Some` decimal whose value is `v`.
pub open spec fn exactly(r: Option<Dec>, v: int) -> bool {
    r matches Some(x) && x.wf() && x.value() == v
}

/// `r` is `Some` decimal whose value is exactly `a × b`.
pub open spec fn exact_product(r: Option<Dec>, a: Dec, b: Dec) -> bool {
    r matches Some(x) && x.wf() && x.value() * pow10(28) == a.value() * b.value()
}

/// `r` is `Some` decimal whose value is exactly `a / b`.
pub open spec fn exact_quotient(r: Option<Dec>, a: Dec, b: Dec) -> bool {
    r matches Some(x) && x.wf() && x.value() * b.value() == a.value() * pow10(28)
}

/// `10^n` is positive.
pub proof fn lemma_pow10_positive(n: nat)
    ensures
        pow10(n) > 0,
    decreases n,
{
    if n > 0 {
        lemma_pow10_positive((n - 1) as nat);
    }
}

/// `a.max(b)` (`Decimal::max`): `b` if `a` is strictly smaller, else `a`.
pub open spec fn max_spec(a: Dec, b: Dec) -> Dec {
    if a.value() < b.value() {
        b
    } else {
        a
    }
}

/// `(a - b) * c`, chaining the overflow of each step.
pub open spec fn sub_mul_spec(a: Dec, b: Dec, c: Dec) -> Option<Dec> {
    match sub_spec(a, b) {
        Some(d) => mul_spec(d, c),
        None => None,
    }
}

/// `(a / b) * 100`, chaining the overflow of each step.
pub open spec fn percent_spec(a: Dec, b: Dec) -> Option<Dec> {
    match div_spec(a, b) {
        Some(q) => mul_spec(q, Dec { mantissa: 100, scale: 0 }),
        None => None,
    }
}

/// The sum of a sequence, added from the left starting at zero (as
/// `Iterator::sum` does for `Decimal`); `None` if any step overflows.
pub open spec fn sum_spec(s: Seq<Dec>) -> Option<Dec>
    decreases s.len(),
{
    if s.len() == 0 {
        Some(Dec::spec_zero())
    } else {
        match sum_spec(s.drop_last()) {
            Some(acc) => add_spec(acc, s.last()),
            None => None,
        }
    }
}

impl Dec {
    /// The decimal `s` denotes (`Decimal::from_str`), `None` where `s` is not
    /// a number.
    pub fn parse(s: &str) -> (r: Option<Dec>)
        ensures
            r == parse_spec(s@),
            r matches Some(d) ==> d.wf(),
    {
        rd_from_str(s)
    }

    /// `self + other`, `None` on overflow.
    pub fn checked_add(self, other: Dec) -> (r: Option<Dec>)
        requires
            self.wf(),
            other.wf(),
        ensures
            r == add_spec(self, other),
            r is Some ==> r->0.wf(),
            add_is_exact(self, other) ==> r is Some && r->0.value() == self.value()
                + other.value(),
    {
        rd_checked_add(self, other)
    }

    /// `self - other`, `None` on overflow.
    pub fn checked_sub(self, other: Dec) -> (r: Option<Dec>)
        requires
            self.wf(),
            other.wf(),
        ensures
            r == sub_spec(self, other),
            r is Some ==> r->0.wf(),
            sub_is_exact(self, other) ==> r is Some && r->0.value() == self.value()
                - other.value(),
    {
        rd_checked_sub(self, other)
    }

    /// `self * other`, `None` on overflow.
    pub fn checked_mul(self, other: Dec) -> (r: Option<Dec>)
        requires
            self.wf(),
            other.wf(),
        ensures
            r == mul_spec(self, other),
            r is Some ==> r->0.wf(),
            mul_is_exact(self, other) ==> r is Some && r->0.value() == self.mantissa
                * other.mantissa * pow10((28 - self.scale - other.scale) as nat),
    {
        rd_checked_mul(self, other)
    }

    /// `self / other`, `None` on a zero divisor or an overflow.
    pub fn checked_div(self, other: Dec) -> (r: Option<Dec>)
        requires
            self.wf(),
            other.wf(),
        ensures
            r == div_spec(self, other),
            r is Some ==> r->0.wf(),
            other.mantissa == 0 ==> r is None,
    {
        rd_checked_div(self, other)
    }

    /// `self + other`; the caller rules out an overflow.
    pub(crate) fn add(self, other: Dec) -> (r: Dec)
        requires
            self.wf(),
            other.wf(),
            add_spec(self, other) is Some,
        ensures
            r == add_spec(self, other)->0,
            r.wf(),
    {
        rd_checked_add(self, other).unwrap()
    }

    /// `self - other`; the caller rules out an overflow.
    pub(crate) fn sub(self, other: Dec) -> (r: Dec)
        requires
            self.wf(),
            other.wf(),
            sub_spec(self, other) is Some,
        ensures
            r == sub_spec(self, other)->0,
            r.wf(),
    {
        rd_checked_sub(self, other).unwrap()
    }

    /// `self * other`; the caller rules out an overflow.
    pub(crate) fn mul(self, other: Dec) -> (r: Dec)
        requires
            self.wf(),
            other.wf(),
            mul_spec(self, other) is Some,
        ensures
            r == mul_spec(self, other)->0,
            r.wf(),
    {
        rd_checked_mul(self, other).unwrap()
    }

    /// `self / other`; the caller rules out a zero divisor and an overflow.
    pub(crate) fn div(self, other: Dec) -> (r: Dec)
        requires
            self.wf(),
            other.wf(),
            div_spec(self, other) is Some,
        ensures
            r == div_spec(self, other)->0,
            r.wf(),
    {
        rd_checked_div(self, other).unwrap()
    }

    /// `-self`.
    pub fn neg(self) -> (r: Dec)
        requires
            self.wf(),
        ensures
            r == neg_spec(self),
            r.wf(),
            r.value() == -self.value(),
    {
        proof {
            lemma_neg_value(self);
        }
        Dec { mantissa: -self.mantissa, scale: self.scale }
    }

    /// The larger of the two; `self` when they are equal.
    pub fn max(self, other: Dec) -> (r: Dec)
        requires
            self.wf(),
            other.wf(),
        ensures
            r == max_spec(self, other),
    {
        rd_max(self, other)
    }

    /// `self < other`, by value.
    pub fn lt(self, other: Dec) -> (r: bool)
        requires
            self.wf(),
            other.wf(),
        ensures
            r == (self.value() < other.value()),
    {
        rd_lt(self, other)
    }

    /// `self <= other`, by value.
    pub fn le(self, other: Dec) -> (r: bool)
        requires
            self.wf(),
            other.wf(),
        ensures
            r == (self.value() <= other.value()),
    {
        rd_le(self, other)
    }

    /// `self == other`, by value (`1.0` equals `1.00`).
    pub fn same_value(self, other: Dec) -> (r: bool)
        requires
            self.wf(),
            other.wf(),
        ensures
            r == (self.value() == other.value()),
    {
        rd_eq(self, other)
    }
}

/// `(a - b) * c`; the caller rules out an overflow.
pub(crate) fn sub_mul(a: Dec, b: Dec, c: Dec) -> (r: Dec)
    requires
        a.wf(),
        b.wf(),
        c.wf(),
        sub_mul_spec(a, b, c) is Some,
    ensures
        r == sub_mul_spec(a, b, c)->0,
        r.wf(),
{
    let d = a.sub(b);
    d.mul(c)
}

/// `(a / b) * 100`, `None` on a zero divisor or an overflow.
pub(crate) fn checked_percent(a: Dec, b: Dec) -> (r: Option<Dec>)
    requires
        a.wf(),
        b.wf(),
    ensures
        r == percent_spec(a, b),
        r is Some ==> r->0.wf(),
{
    match a.checked_div(b) {
        Some(q) => q.checked_mul(Dec::hundred()),
        None => None,
    }
}

/// The sum of `items`, added from the left (as `Iterator::sum`), `None` on overflow.
pub fn checked_sum(items: &Vec<Dec>) -> (r: Option<Dec>)
    requires
        forall|i: int| 0 <= i < items.len() ==> (#[trigger] items[i]).wf(),
    ensures
        r == sum_spec(items@),
        r is Some ==> r->0.wf(),
{
    let mut acc = Dec::zero();
    let mut i: usize = 0;
    while i < items.len()
        invariant
            i <= items.len(),
            forall|k: int| 0 <= k < items.len() ==> (#[trigger] items[k]).wf(),
            sum_spec(items@.subrange(0, i as int)) == Some(acc),
            acc.wf(),
        decreases items.len() - i,
    {
        assert(items@.subrange(0, i + 1).drop_last() =~= items@.subrange(0, i as int));
        match acc.checked_add(items[i]) {
            Some(next) => {
                acc = next;
            },
            None => {
                proof {
                    lemma_sum_none_extends(items@, (i + 1) as int);
                }
                return None;
            },
        }
        i = i + 1;
    }
    assert(items@.subrange(0, items.len() as int) =~= items@);
    Some(acc)
}

/// Once a prefix sum overflows, the whole sum does.
pub proof fn lemma_sum_none_extends(s: Seq<Dec>, k: int)
    requires
        0 <= k <= s.len(),
        sum_spec(s.subrange(0, k)) is None,
    ensures
        sum_spec(s) is None,
    decreases s.len() - k,
{
    if k < s.len() {
        assert(s.subrange(0, k + 1).drop_last() =~= s.subrange(0, k));
        lemma_sum_none_extends(s, k + 1);
    } else {
        assert(s.subrange(0, k) =~= s);
    }
}

// ─── Trusted calls into rust_decimal ─────────────────────────────────────────
/// `Decimal::from_str`. Trusted: the result is the named `decimal_from_str`
/// of the characters, a function of the text alone.
#[verifier::external_body]
fn rd_from_str(s: &str) -> (r: Option<Dec>)
    ensures
        r == dec_of(decimal_from_str(s@)),
{
    match <rust_decimal::Decimal as core::str::FromStr>::from_str(s) {
        Ok(d) => Some(Dec { mantissa: d.mantissa(), scale: d.scale() }),
        Err(_) => None,
    }
}


/// `Decimal::checked_add`. Trusted: the result is the named
/// `decimal_checked_add`; and, as the source of `add_sub_internal` shows, when
/// both operands and their sum fit in 96 bits at the larger scale the sum is
/// returned exactly (rounding and overflow happen only beyond that).
#[verifier::external_body]
fn rd_checked_add(a: Dec, b: Dec) -> (r: Option<Dec>)
    requires
        a.wf(),
        b.wf(),
    ensures
        r == dec_of(decimal_checked_add(a.mantissa, a.scale, b.mantissa, b.scale)),
        r is Some ==> r->0.wf(),
        add_is_exact(a, b) ==> r is Some && r->0.value() == a.value() + b.value(),
{
    let x = rust_decimal::Decimal::from_i128_with_scale(a.mantissa, a.scale);
    let y = rust_decimal::Decimal::from_i128_with_scale(b.mantissa, b.scale);
    match x.checked_add(y) {
        Some(d) => Some(Dec { mantissa: d.mantissa(), scale: d.scale() }),
        None => None,
    }
}

/// `Decimal::checked_sub`. Trusted as for `rd_checked_add`: the named result,
/// exact when both operands and the difference fit in 96 bits at the larger scale.
#[verifier::external_body]
fn rd_checked_sub(a: Dec, b: Dec) -> (r: Option<Dec>)
    requires
        a.wf(),
        b.wf(),
    ensures
        r == dec_of(decimal_checked_sub(a.mantissa, a.scale, b.mantissa, b.scale)),
        r is Some ==> r->0.wf(),
        sub_is_exact(a, b) ==> r is Some && r->0.value() == a.value() - b.value(),
{
    let x = rust_decimal::Decimal::from_i128_with_scale(a.mantissa, a.scale);
    let y = rust_decimal::Decimal::from_i128_with_scale(b.mantissa, b.scale);
    match x.checked_sub(y) {
        Some(d) => Some(Dec { mantissa: d.mantissa(), scale: d.scale() }),
        None => None,
    }
}

/// `Decimal::checked_mul`. Trusted: the named result; and, as `mul_impl` and
/// `finish_mul` show, when the scales add up to at most 28 and the product of
/// the mantissas fits in 96 bits, that product is returned unrounded.
#[verifier::external_body]
fn rd_checked_mul(a: Dec, b: Dec) -> (r: Option<Dec>)
    requires
        a.wf(),
        b.wf(),
    ensures
        r == dec_of(decimal_checked_mul(a.mantissa, a.scale, b.mantissa, b.scale)),
        r is Some ==> r->0.wf(),
        mul_is_exact(a, b) ==> r is Some && r->0.value() == a.mantissa * b.mantissa
            * pow10((28 - a.scale - b.scale) as nat),
{
    let x = rust_decimal::Decimal::from_i128_with_scale(a.mantissa, a.scale);
    let y = rust_decimal::Decimal::from_i128_with_scale(b.mantissa, b.scale);
    match x.checked_mul(y) {
        Some(d) => Some(Dec { mantissa: d.mantissa(), scale: d.scale() }),
        None => None,
    }
}

/// `Decimal::checked_div`. Trusted: the named result, and `None` for a zero
/// divisor (`div_impl` answers `DivByZero`). How the quotient is rounded, and
/// when it overflows, is left unsaid.
#[verifier::external_body]
fn rd_checked_div(a: Dec, b: Dec) -> (r: Option<Dec>)
    requires
        a.wf(),
        b.wf(),
    ensures
        r == dec_of(decimal_checked_div(a.mantissa, a.scale, b.mantissa, b.scale)),
        r is Some ==> r->0.wf(),
        b.mantissa == 0 ==> r is None,
{
    let x = rust_decimal::Decimal::from_i128_with_scale(a.mantissa, a.scale);
    let y = rust_decimal::Decimal::from_i128_with_scale(b.mantissa, b.scale);
    match x.checked_div(y) {
        Some(d) => Some(Dec { mantissa: d.mantissa(), scale: d.scale() }),
        None => None,
    }
}

/// `Decimal::max`. Trusted: as its source shows, the second number when the
/// first is smaller (numeric comparison, `cmp_impl`), else the first.
#[verifier::external_body]
fn rd_max(a: Dec, b: Dec) -> (r: Dec)
    requires
        a.wf(),
        b.wf(),
    ensures
        r == max_spec(a, b),
{
    let x = rust_decimal::Decimal::from_i128_with_scale(a.mantissa, a.scale);
    let y = rust_decimal::Decimal::from_i128_with_scale(b.mantissa, b.scale);
    let d = x.max(y);
    Dec { mantissa: d.mantissa(), scale: d.scale() }
}

/// `<Decimal as PartialOrd>::lt`. Trusted: compares the numeric values.
#[verifier::external_body]
fn rd_lt(a: Dec, b: Dec) -> (r: bool)
    requires
        a.wf(),
        b.wf(),
    ensures
        r == (a.value() < b.value()),
{
    rust_decimal::Decimal::from_i128_with_scale(a.mantissa, a.scale)
        < rust_decimal::Decimal::from_i128_with_scale(b.mantissa, b.scale)
}

/// `<Decimal as PartialOrd>::le`. Trusted: compares the numeric values.
#[verifier::external_body]
fn rd_le(a: Dec, b: Dec) -> (r: bool)
    requires
        a.wf(),
        b.wf(),
    ensures
        r == (a.value() <= b.value()),
{
    rust_decimal::Decimal::from_i128_with_scale(a.mantissa, a.scale)
        <= rust_decimal::Decimal::from_i128_with_scale(b.mantissa, b.scale)
}

/// `<Decimal as PartialEq>::eq`. Trusted: equality of numeric values.
#[verifier::external_body]
fn rd_eq(a: Dec, b: Dec) -> (r: bool)
    requires
        a.wf(),
        b.wf(),
    ensures
        r == (a.value() == b.value()),
{
    rust_decimal::Decimal::from_i128_with_scale(a.mantissa, a.scale)
        == rust_decimal::Decimal::from_i128_with_scale(b.mantissa, b.scale)
}

} // verus!
