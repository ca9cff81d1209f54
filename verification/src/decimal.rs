//! Fixed-point decimal numbers.
//!
//! A `Dec` holds what a `rust_decimal::Decimal` is made of: a signed mantissa of at
//! most 96 bits and a scale between 0 and 28.  Its value is `mantissa / 10^scale`;
//! in specifications that value is written `val()`, counted in units of `10^-28`,
//! so every decimal value is an integer there.
//!
//! Arithmetic is carried out by `rust_decimal`: each operation converts the operands,
//! calls the crate and reads the result back.  Where the crate's result is exact the
//! contract says so; where it may round, the result is named after the operation.
use vstd::prelude::*;
use crate::text::zero_padded_digits;

verus! {

/// Largest magnitude of a mantissa (2^96 - 1).
pub const MAX_MANTISSA: i128 = 79228162514264337593543950335i128;

/// Largest scale.
pub const MAX_SCALE: u32 = 28u32;

/// 10^n (1 for n <= 0).
pub open spec fn pow10(n: int) -> int
    decreases n,
{
    if n <= 0 { 1 } else { 10 * pow10(n - 1) }
}

/// Powers of ten are positive.
pub proof fn lemma_pow10_pos(n: int)
    ensures
        pow10(n) > 0,
    decreases n,
{
    if n > 0 {
        lemma_pow10_pos(n - 1);
    }
}

/// 10^i * 10^j == 10^(i+j).
pub proof fn lemma_pow10_mul(i: int, j: int)
    requires
        i >= 0,
        j >= 0,
    ensures
        pow10(i) * pow10(j) == pow10(i + j),
    decreases j,
{
    if j > 0 {
        lemma_pow10_mul(i, j - 1);
        assert(pow10(j) == 10 * pow10(j - 1));
        assert(pow10(i + j) == 10 * pow10(i + j - 1));
        assert(pow10(i) * pow10(j) == 10 * (pow10(i) * pow10(j - 1))) by (nonlinear_arith)
            requires
                pow10(j) == 10 * pow10(j - 1),
        ;
    }
}

/// 10^28, the unit of `val`.
pub proof fn lemma_pow10_28()
    ensures
        pow10(28) == 10000000000000000000000000000,
{
    reveal_with_fuel(pow10, 30);
}

/// Values (in units of 10^-28) whose magnitude stays below this bound, that is real
/// values below 10^28, can always be represented, also after rounding.
pub open spec fn value_limit() -> int {
    100000000000000000000000000000000000000000000000000000000int
}

/// What the crate returns for `a + b` on the decimals (am, asc) and (bm, bsc),
/// as (mantissa, scale).
pub uninterp spec fn rd_add(am: int, asc: int, bm: int, bsc: int) -> (int, int);

/// What the crate returns for `a - b`, as (mantissa, scale).
pub uninterp spec fn rd_sub(am: int, asc: int, bm: int, bsc: int) -> (int, int);

/// What the crate returns for `a * b`, as (mantissa, scale).
pub uninterp spec fn rd_mul(am: int, asc: int, bm: int, bsc: int) -> (int, int);

/// What the crate returns for `a / b`, as (mantissa, scale).
pub uninterp spec fn rd_div(am: int, asc: int, bm: int, bsc: int) -> (int, int);

/// What the crate returns for `a.round_dp(dp)` when the scale `asc` exceeds `dp`, as
/// (mantissa, scale): the magnitude divided by 10^(asc - dp), plus one when the
/// remainder is above half, or exactly half with an odd quotient (midpoint to even);
/// the sign kept, at scale `dp`.
pub open spec fn rd_round_dp(am: int, asc: int, dp: int) -> (int, int) {
    let k = asc - dp;
    let n = abs_int(am);
    let q = n / pow10(k);
    let rem = n % pow10(k);
    let half = 5 * pow10(k - 1);
    let q2 = if rem > half || (rem == half && q % 2 == 1) { q + 1 } else { q };
    (if am < 0 { -q2 } else { q2 }, dp)
}

/// The digits of |m|, most significant first, with zeros in front up to `s` digits
/// (none for a zero mantissa): the digits the crate's text is cut from.
pub open spec fn scaled_digits(m: int, s: int) -> Seq<char> {
    if m == 0 {
        Seq::new(s as nat, |i: int| '0')
    } else {
        zero_padded_digits(abs_int(m) as nat, s as nat)
    }
}

/// How many digits of `scaled_digits` come before the point.
pub open spec fn whole_len(m: int, s: int) -> int {
    scaled_digits(m, s).len() - s
}

/// The crate's text of (m, s) without its sign, with `p` digits after the point:
/// the whole digits ("0" when there are none and a point follows), then a point and
/// the first `p` digits after it, zeros past the last; "0" when that is empty.
pub open spec fn text_body(m: int, s: int, p: int) -> Seq<char> {
    let d = scaled_digits(m, s);
    let w = whole_len(m, s);
    let frac = Seq::new(p as nat, |i: int| if w + i < d.len() { d[w + i] } else { '0' });
    let body = if p > 0 {
        if w == 0 {
            seq!['0', '.'] + frac
        } else {
            d.subrange(0, w) + seq!['.'] + frac
        }
    } else {
        d.subrange(0, w)
    };
    if body.len() == 0 {
        seq!['0']
    } else {
        body
    }
}

/// The length of `text_body`.
pub open spec fn text_body_len(m: int, s: int, p: int) -> int {
    let w = whole_len(m, s);
    if p > 0 {
        if w == 0 { p + 2 } else { w + 1 + p }
    } else if w == 0 {
        1
    } else {
        w
    }
}

/// A decimal has at most 29 digits before the point, so its text with up to two
/// digits after the point always fits the crate's buffer.
pub proof fn lemma_text_fits(d: Dec)
    requires
        d.wf(),
    ensures
        0 <= whole_len(d.mant(), d.scl()) <= 29,
        text_prec_fits(d.mant(), d.scl(), 0),
        text_prec_fits(d.mant(), d.scl(), 1),
        text_prec_fits(d.mant(), d.scl(), 2),
{
    if d.mant() != 0 {
        let n = abs_int(d.mant()) as nat;
        reveal_with_fuel(pow10, 30);
        assert(pow10(29) == 100000000000000000000000000000int);
        crate::text::lemma_digit_count_bound(n, 29);
    }
}

/// A minus sign for a negative mantissa.
pub open spec fn sign_text(m: int) -> Seq<char> {
    if m < 0 { seq!['-'] } else { Seq::empty() }
}

/// The text that the crate's `Display` gives for the decimal (m, s): every digit,
/// with the point before the last `s`.
pub open spec fn rd_text(m: int, s: int) -> Seq<char> {
    sign_text(m) + text_body(m, s, s)
}

/// The text that the crate's `Display` gives for the decimal (m, s) with `prec`
/// digits after the point: cut (not rounded) after at most 28 digits, and zeros
/// appended beyond 28.
pub open spec fn rd_text_prec(m: int, s: int, prec: int) -> Seq<char> {
    let p = if prec > 28 { 28 } else { prec };
    sign_text(m) + text_body(m, s, p) + Seq::new((prec - p) as nat, |i: int| '0')
}

/// The crate builds the text without its sign in a buffer of 32 characters and
/// panics when it does not fit.
pub open spec fn text_prec_fits(m: int, s: int, prec: int) -> bool {
    text_body_len(m, s, if prec > 28 { 28 } else { prec }) <= 32
}

/// A decimal number: `mantissa / 10^scale`.
#[derive(Debug)]
pub struct Dec {
    mantissa: i128,
    scale: u32,
}

impl Dec {
    /// The scale is at most 28 and the mantissa fits in 96 bits.
    #[verifier::type_invariant]
    pub open spec fn wf(self) -> bool {
        &&& 0 <= self.scl() <= MAX_SCALE
        &&& -MAX_MANTISSA <= self.mant() <= MAX_MANTISSA
    }

    /// The mantissa.
    pub closed spec fn mant(self) -> int {
        self.mantissa as int
    }

    /// The scale (number of digits after the point).
    pub closed spec fn scl(self) -> int {
        self.scale as int
    }

    /// The value in units of 10^-28.
    pub open spec fn val(self) -> int {
        self.mant() * pow10(28 - self.scl())
    }

    /// A decimal built from its parts.
    pub closed spec fn of_parts(m: int, s: int) -> Dec {
        Dec { mantissa: m as i128, scale: s as u32 }
    }

    /// The sign of the value is the sign of the mantissa; negating the mantissa
    /// negates the value.
    pub proof fn lemma_val_sign(self)
        ensures
            (self.val() == 0) == (self.mant() == 0),
            (self.val() < 0) == (self.mant() < 0),
            (self.val() > 0) == (self.mant() > 0),
            -self.mant() * pow10(28 - self.scl()) == -self.val(),
    {
        let p = pow10(28 - self.scl());
        lemma_pow10_pos(28 - self.scl());
        assert((self.mant() * p == 0) == (self.mant() == 0)) by (nonlinear_arith)
            requires
                p > 0,
        ;
        assert((self.mant() * p < 0) == (self.mant() < 0)) by (nonlinear_arith)
            requires
                p > 0,
        ;
        assert((self.mant() * p > 0) == (self.mant() > 0)) by (nonlinear_arith)
            requires
                p > 0,
        ;
        assert(-self.mant() * p == -(self.mant() * p)) by (nonlinear_arith);
    }

    /// Two decimals with the same parts are the same decimal.
    pub proof fn lemma_parts_eq(a: Dec, b: Dec)
        requires
            a.mant() == b.mant(),
            a.scl() == b.scl(),
        ensures
            a == b,
    {
    }

    /// Parts that are in range come back unchanged.
    pub proof fn lemma_of_parts(m: int, s: int)
        requires
            -MAX_MANTISSA <= m <= MAX_MANTISSA,
            0 <= s <= MAX_SCALE,
        ensures
            Dec::of_parts(m, s).mant() == m,
            Dec::of_parts(m, s).scl() == s,
    {
    }

    /// `mantissa / 10^scale`.  Panics in the crate when the scale exceeds 28; here
    /// that input is left out.
    pub fn new(num: i64, scale: u32) -> (r: Dec)
        requires
            scale <= MAX_SCALE,
        ensures
            r.mant() == num,
            r.scl() == scale,
    {
        Dec { mantissa: num as i128, scale }
    }

    /// A decimal from a 96-bit mantissa and a scale.
    pub fn from_i128_with_scale(num: i128, scale: u32) -> (r: Dec)
        requires
            scale <= MAX_SCALE,
            -MAX_MANTISSA <= num <= MAX_MANTISSA,
        ensures
            r.mant() == num,
            r.scl() == scale,
    {
        Dec { mantissa: num, scale }
    }

    /// The integer `n`.
    pub fn from_int(n: i64) -> (r: Dec)
        ensures
            r == Dec::int_dec(n as int),
            r.mant() == n,
            r.scl() == 0,
            r.val() == n * pow10(28),
    {
        proof {
            Dec::lemma_of_parts(n as int, 0);
        }
        Dec { mantissa: n as i128, scale: 0 }
    }

    /// The integer `n` as a decimal of scale 0.
    pub open spec fn int_dec(n: int) -> Dec {
        Dec::of_parts(n, 0)
    }

    /// The integer `n`.
    pub fn from_u64(n: u64) -> (r: Dec)
        ensures
            r == Dec::int_dec(n as int),
            r.mant() == n,
            r.scl() == 0,
            r.val() == n * pow10(28),
    {
        proof {
            Dec::lemma_of_parts(n as int, 0);
        }
        Dec { mantissa: n as i128, scale: 0 }
    }

    /// Zero.
    pub fn zero() -> (r: Dec)
        ensures
            r == Dec::of_parts(0, 0),
            r.mant() == 0,
            r.scl() == 0,
            r == Dec::of_parts(0, 0),
    {
        Dec { mantissa: 0, scale: 0 }
    }

    /// The mantissa.
    pub fn mantissa(&self) -> (r: i128)
        ensures
            r == self.mant(),
            -MAX_MANTISSA <= r <= MAX_MANTISSA,
    {
        proof { use_type_invariant(self); }
        self.mantissa
    }

    /// The scale.
    pub fn scale(&self) -> (r: u32)
        ensures
            r == self.scl(),
            r <= MAX_SCALE,
    {
        proof { use_type_invariant(self); }
        self.scale
    }

    /// Whether the value is zero.
    pub fn is_zero(&self) -> (r: bool)
        ensures
            r == (self.val() == 0),
    {
        proof {
            use_type_invariant(self);
            self.lemma_val_sign();
        }
        self.mantissa == 0
    }

    /// `-self`: the sign flips, the scale stays.
    pub fn neg(&self) -> (r: Dec)
        ensures
            r == neg_spec(*self),
            r.mant() == -self.mant(),
            r.scl() == self.scl(),
            r.val() == -self.val(),
    {
        proof {
            use_type_invariant(self);
            self.lemma_val_sign();
            Dec::lemma_of_parts(-self.mant(), self.scl());
        }
        Dec { mantissa: -self.mantissa, scale: self.scale }
    }

    /// `|self|`: the sign is dropped, the scale stays.
    pub fn abs(&self) -> (r: Dec)
        ensures
            r == abs_spec(*self),
            r.mant() == (if self.mant() < 0 { -self.mant() } else { self.mant() }),
            r.scl() == self.scl(),
            r.val() == (if self.val() < 0 { -self.val() } else { self.val() }),
    {
        proof {
            use_type_invariant(self);
            self.lemma_val_sign();
            Dec::lemma_of_parts(abs_int(self.mant()), self.scl());
        }
        if self.mantissa < 0 {
            Dec { mantissa: -self.mantissa, scale: self.scale }
        } else {
            Dec { mantissa: self.mantissa, scale: self.scale }
        }
    }

    /// A copy.
    pub fn copy(&self) -> (r: Dec)
        ensures
            r == *self,
    {
        proof { use_type_invariant(self); }
        Dec { mantissa: self.mantissa, scale: self.scale }
    }
}

/// The larger of the two scales.
pub open spec fn max_scale(a: Dec, b: Dec) -> int {
    if a.scl() >= b.scl() { a.scl() } else { b.scl() }
}

/// The mantissa of `d` brought to scale `s` (not below its own).
pub open spec fn aligned(d: Dec, s: int) -> int {
    d.mant() * pow10(s - d.scl())
}

/// Whether `a + b` (or `a - b` with `sign` = -1) is computed without rounding: both
/// operands, brought to the larger of the two scales, and their sum fit in 96 bits.
pub open spec fn exact_sum(a: Dec, b: Dec, sign: int) -> bool {
    let s = max_scale(a, b);
    let x = aligned(a, s);
    let y = sign * aligned(b, s);
    &&& -MAX_MANTISSA <= x <= MAX_MANTISSA
    &&& -MAX_MANTISSA <= y <= MAX_MANTISSA
    &&& -MAX_MANTISSA <= x + y <= MAX_MANTISSA
}

/// Whether `a * b` is computed without rounding: the scales add up to at most 28
/// and the product of the mantissas fits in 96 bits.
pub open spec fn exact_product(a: Dec, b: Dec) -> bool {
    &&& a.scl() + b.scl() <= MAX_SCALE
    &&& -MAX_MANTISSA <= a.mant() * b.mant() <= MAX_MANTISSA
}

/// The crate's `a + b` when no rounding is needed: a zero operand gives the other
/// operand unchanged; otherwise the aligned mantissas are added at the larger scale.
pub open spec fn exact_add_result(a: Dec, b: Dec) -> Dec {
    if a.mant() == 0 {
        b
    } else if b.mant() == 0 {
        a
    } else {
        Dec::of_parts(aligned(a, max_scale(a, b)) + aligned(b, max_scale(a, b)), max_scale(a, b))
    }
}

/// The crate's `a - b` when no rounding is needed: from zero, `b` negated (a zero `b`
/// as it is); minus zero, `a`; otherwise the aligned difference at the larger scale.
pub open spec fn exact_sub_result(a: Dec, b: Dec) -> Dec {
    if a.mant() == 0 {
        if b.mant() == 0 { b } else { Dec::of_parts(-b.mant(), b.scl()) }
    } else if b.mant() == 0 {
        a
    } else {
        Dec::of_parts(aligned(a, max_scale(a, b)) - aligned(b, max_scale(a, b)), max_scale(a, b))
    }
}

/// The crate's `a * b` when no rounding is needed: zero (at scale 0) when a factor is
/// zero, else the product of the mantissas at the sum of the scales.
pub open spec fn exact_mul_result(a: Dec, b: Dec) -> Dec {
    if a.mant() == 0 || b.mant() == 0 {
        Dec::of_parts(0, 0)
    } else {
        Dec::of_parts(a.mant() * b.mant(), a.scl() + b.scl())
    }
}

/// The decimal that the crate returns for `a + b`.
pub open spec fn add_spec(a: Dec, b: Dec) -> Dec {
    if exact_sum(a, b, 1) {
        exact_add_result(a, b)
    } else {
        let p = rd_add(a.mant(), a.scl(), b.mant(), b.scl());
        Dec::of_parts(p.0, p.1)
    }
}

/// The decimal that the crate returns for `a - b`.
pub open spec fn sub_spec(a: Dec, b: Dec) -> Dec {
    if exact_sum(a, b, -1) {
        exact_sub_result(a, b)
    } else {
        let p = rd_sub(a.mant(), a.scl(), b.mant(), b.scl());
        Dec::of_parts(p.0, p.1)
    }
}

/// The decimal that the crate returns for `a * b`.
pub open spec fn mul_spec(a: Dec, b: Dec) -> Dec {
    if a.mant() == 0 || b.mant() == 0 || exact_product(a, b) {
        exact_mul_result(a, b)
    } else {
        let p = rd_mul(a.mant(), a.scl(), b.mant(), b.scl());
        Dec::of_parts(p.0, p.1)
    }
}

/// Whether the crate divides `a` by `b` without a remainder: both non-zero, the
/// dividend's scale at least the divisor's, and its mantissa a multiple of the
/// divisor's.  The quotient is then the quotient of the mantissas at the difference
/// of the scales.
pub open spec fn exact_quotient(a: Dec, b: Dec) -> bool {
    &&& a.mant() != 0
    &&& b.mant() != 0
    &&& a.scl() >= b.scl()
    &&& a.mant() % b.mant() == 0
}

/// The decimal that the crate returns for `a / b`: zero for a zero dividend, the
/// quotient of the mantissas when the division is exact, else named.
pub open spec fn div_spec(a: Dec, b: Dec) -> Dec {
    if a.mant() == 0 {
        Dec::of_parts(0, 0)
    } else if exact_quotient(a, b) {
        Dec::of_parts(a.mant() / b.mant(), a.scl() - b.scl())
    } else {
        let p = rd_div(a.mant(), a.scl(), b.mant(), b.scl());
        Dec::of_parts(p.0, p.1)
    }
}

/// The decimal that the crate returns for `a.round_dp(dp)`: unchanged when it has no
/// more than `dp` digits after the point.
pub open spec fn round_dp_spec(a: Dec, dp: int) -> Dec {
    if a.scl() <= dp {
        a
    } else {
        let p = rd_round_dp(a.mant(), a.scl(), dp);
        Dec::of_parts(p.0, p.1)
    }
}

/// `-a`: the mantissa negated, the scale kept.
pub open spec fn neg_spec(a: Dec) -> Dec {
    Dec::of_parts(-a.mant(), a.scl())
}

/// `|a|`: the mantissa's sign dropped, the scale kept.
pub open spec fn abs_spec(a: Dec) -> Dec {
    Dec::of_parts(abs_int(a.mant()), a.scl())
}

/// Exact sums have the exact value.
pub proof fn lemma_add_exact(a: Dec, b: Dec)
    requires
        a.wf(),
        b.wf(),
        exact_sum(a, b, 1),
    ensures
        add_spec(a, b).val() == a.val() + b.val(),
        add_spec(a, b).wf(),
{
    a.lemma_val_sign();
    b.lemma_val_sign();
    lemma_sum_value(a, b, 1);
}

/// Exact differences have the exact value.
pub proof fn lemma_sub_exact(a: Dec, b: Dec)
    requires
        a.wf(),
        b.wf(),
        exact_sum(a, b, -1),
    ensures
        sub_spec(a, b).val() == a.val() - b.val(),
        sub_spec(a, b).wf(),
{
    a.lemma_val_sign();
    b.lemma_val_sign();
    lemma_sum_value(a, b, -1);
    if a.mant() == 0 && b.mant() != 0 {
        Dec::lemma_of_parts(-b.mant(), b.scl());
    }
}

proof fn lemma_sum_value(a: Dec, b: Dec, sign: int)
    requires
        a.wf(),
        b.wf(),
        sign == 1 || sign == -1,
        exact_sum(a, b, sign),
    ensures
        ({
            let s = max_scale(a, b);
            let r = Dec::of_parts(aligned(a, s) + sign * aligned(b, s), s);
            r.val() == a.val() + sign * b.val() && r.wf()
        }),
{
    let s = max_scale(a, b);
    let x = aligned(a, s);
    let y = aligned(b, s);
    lemma_pow10_mul(s - a.scl(), 28 - s);
    lemma_pow10_mul(s - b.scl(), 28 - s);
    Dec::lemma_of_parts(x + sign * y, s);
    let p = pow10(28 - s);
    assert(x * p == a.mant() * pow10(28 - a.scl())) by (nonlinear_arith)
        requires
            x == a.mant() * pow10(s - a.scl()),
            pow10(s - a.scl()) * p == pow10(28 - a.scl()),
    ;
    assert(y * p == b.mant() * pow10(28 - b.scl())) by (nonlinear_arith)
        requires
            y == b.mant() * pow10(s - b.scl()),
            pow10(s - b.scl()) * p == pow10(28 - b.scl()),
    ;
    assert((x + sign * y) * p == x * p + sign * (y * p)) by (nonlinear_arith);
}

/// Exact products have the exact value.
pub proof fn lemma_mul_exact(a: Dec, b: Dec)
    requires
        a.wf(),
        b.wf(),
        exact_product(a, b),
    ensures
        mul_spec(a, b).val() == a.mant() * b.mant() * pow10(28 - a.scl() - b.scl()),
        mul_spec(a, b).wf(),
{
    if a.mant() == 0 || b.mant() == 0 {
        Dec::lemma_of_parts(0, 0);
        assert(a.mant() * b.mant() == 0) by (nonlinear_arith)
            requires
                a.mant() == 0 || b.mant() == 0,
        ;
    } else {
        Dec::lemma_of_parts(a.mant() * b.mant(), a.scl() + b.scl());
    }
}

/// A product that the crate computes without rounding carries the product of the
/// values (in units of 10^-28, so scaled by 10^28).
pub proof fn lemma_mul_value(a: Dec, b: Dec)
    requires
        a.wf(),
        b.wf(),
        a.mant() == 0 || b.mant() == 0 || exact_product(a, b),
    ensures
        mul_spec(a, b).val() * pow10(28) == a.val() * b.val(),
        mul_spec(a, b).wf(),
{
    if a.mant() == 0 || b.mant() == 0 {
        Dec::lemma_of_parts(0, 0);
        a.lemma_val_sign();
        b.lemma_val_sign();
        assert(a.val() * b.val() == 0) by (nonlinear_arith)
            requires
                a.val() == 0 || b.val() == 0,
        ;
    } else {
        lemma_mul_exact(a, b);
        let k = 28 - a.scl() - b.scl();
        lemma_pow10_mul(k, 28);
        lemma_pow10_mul(28 - a.scl(), 28 - b.scl());
        assert(a.mant() * b.mant() * pow10(k) * pow10(28) == a.mant() * pow10(28 - a.scl()) * (b.mant() * pow10(
            28 - b.scl(),
        ))) by (nonlinear_arith)
            requires
                pow10(k) * pow10(28) == pow10(k + 28),
                pow10(28 - a.scl()) * pow10(28 - b.scl()) == pow10(k + 28),
        ;
    }
}

/// A quotient that the crate computes exactly times the divisor is the dividend
/// (in units of 10^-28, so scaled by 10^28).
pub proof fn lemma_div_value(a: Dec, b: Dec)
    requires
        a.wf(),
        b.wf(),
        exact_quotient(a, b),
    ensures
        div_spec(a, b).val() * b.val() == a.val() * pow10(28),
        div_spec(a, b).wf(),
{
    let q = a.mant() / b.mant();
    assert(a.mant() == b.mant() * q) by (nonlinear_arith)
        requires
            b.mant() != 0,
            a.mant() % b.mant() == 0,
            q == a.mant() / b.mant(),
    ;
    assert(abs_int(q) <= abs_int(a.mant())) by (nonlinear_arith)
        requires
            a.mant() == b.mant() * q,
            b.mant() != 0,
    ;
    Dec::lemma_of_parts(q, a.scl() - b.scl());
    let k = 28 - (a.scl() - b.scl());
    lemma_pow10_mul(k, 28 - b.scl());
    lemma_pow10_mul(28 - a.scl(), 28);
    assert(q * pow10(k) * (b.mant() * pow10(28 - b.scl())) == a.mant() * pow10(28 - a.scl()) * pow10(28))
        by (nonlinear_arith)
        requires
            a.mant() == b.mant() * q,
            pow10(k) * pow10(28 - b.scl()) == pow10(k + 28 - b.scl()),
            pow10(28 - a.scl()) * pow10(28) == pow10(28 - a.scl() + 28),
            k + 28 - b.scl() == 28 - a.scl() + 28,
    ;
}

/// A product with a zero factor is zero.
pub proof fn lemma_mul_zero(a: Dec, b: Dec)
    requires
        a.val() == 0 || b.val() == 0,
    ensures
        mul_spec(a, b).val() == 0,
        mul_spec(a, b).wf(),
{
    Dec::lemma_of_parts(0, 0);
    lemma_pow10_pos(28 - a.scl());
    lemma_pow10_pos(28 - b.scl());
    assert(a.mant() == 0 || b.mant() == 0) by (nonlinear_arith)
        requires
            a.val() == 0 || b.val() == 0,
            a.val() == a.mant() * pow10(28 - a.scl()),
            b.val() == b.mant() * pow10(28 - b.scl()),
            pow10(28 - a.scl()) > 0,
            pow10(28 - b.scl()) > 0,
    ;
}

/// `min` as the crate defines it: `b` when `a > b`, else `a`.
pub open spec fn min_spec(a: Dec, b: Dec) -> Dec {
    if a.val() > b.val() { b } else { a }
}

/// `max` as the crate defines it: `b` when `a < b`, else `a`.
pub open spec fn max_spec(a: Dec, b: Dec) -> Dec {
    if a.val() < b.val() { b } else { a }
}

/// The sum no longer overflows: its value stays below the limit.
pub open spec fn sum_in_range(a: Dec, b: Dec, sign: int) -> bool {
    -value_limit() < a.val() + sign * b.val() < value_limit()
}

/// The product stays below the limit.
pub open spec fn product_in_range(a: Dec, b: Dec) -> bool {
    -value_limit() * pow10(28) < a.val() * b.val() < value_limit() * pow10(28)
}

/// The quotient is defined and stays below the limit.
pub open spec fn quotient_in_range(a: Dec, b: Dec) -> bool {
    &&& b.val() != 0
    &&& -value_limit() * abs_int(b.val()) < a.val() * pow10(28) < value_limit() * abs_int(b.val())
}

/// Dividing one `u64` integer by another, non-zero one stays below the limit.
pub proof fn lemma_int_quotient_in_range(a: int, b: int)
    requires
        0 <= a < 18446744073709551616int,
        1 <= b < 18446744073709551616int,
    ensures
        Dec::int_dec(a).val() == a * pow10(28),
        Dec::int_dec(b).val() == b * pow10(28),
        quotient_in_range(Dec::int_dec(a), Dec::int_dec(b)),
{
    lemma_pow10_28();
    Dec::lemma_of_parts(a, 0);
    Dec::lemma_of_parts(b, 0);
    let p = pow10(28);
    assert(b * p != 0) by (nonlinear_arith)
        requires
            b >= 1,
            p == 10000000000000000000000000000int,
    ;
    assert(a * p * p < value_limit() * (b * p)) by (nonlinear_arith)
        requires
            0 <= a < 18446744073709551616int,
            b >= 1,
            p == 10000000000000000000000000000int,
            value_limit() == 100000000000000000000000000000000000000000000000000000000int,
    ;
    assert(abs_int(b * p) == b * p) by (nonlinear_arith)
        requires
            b >= 1,
            p > 0,
    ;
    assert(0 <= a * p) by (nonlinear_arith)
        requires
            a >= 0,
            p > 0,
    ;
}

/// |x|.
pub open spec fn abs_int(x: int) -> int {
    if x < 0 { -x } else { x }
}

/// `Decimal + Decimal` in the crate.  It panics on overflow, which values below the
/// limit never reach.  Without rounding the result is exactly `exact_add_result`;
/// with rounding it is named.
#[verifier::external_body]
fn rd_add_exec(a: &Dec, b: &Dec) -> (r: Dec)
    requires
        sum_in_range(*a, *b, 1),
    ensures
        exact_sum(*a, *b, 1) ==> r == exact_add_result(*a, *b),
        !exact_sum(*a, *b, 1) ==> (r.mant(), r.scl()) == rd_add(a.mant(), a.scl(), b.mant(), b.scl()),
{
    let x = rust_decimal::Decimal::from_i128_with_scale(a.mantissa, a.scale);
    let y = rust_decimal::Decimal::from_i128_with_scale(b.mantissa, b.scale);
    let z = x + y;
    Dec { mantissa: z.mantissa(), scale: z.scale() }
}

/// `Decimal - Decimal` in the crate; exactly `exact_sub_result` without rounding.
#[verifier::external_body]
fn rd_sub_exec(a: &Dec, b: &Dec) -> (r: Dec)
    requires
        sum_in_range(*a, *b, -1),
    ensures
        exact_sum(*a, *b, -1) ==> r == exact_sub_result(*a, *b),
        !exact_sum(*a, *b, -1) ==> (r.mant(), r.scl()) == rd_sub(a.mant(), a.scl(), b.mant(), b.scl()),
{
    let x = rust_decimal::Decimal::from_i128_with_scale(a.mantissa, a.scale);
    let y = rust_decimal::Decimal::from_i128_with_scale(b.mantissa, b.scale);
    let z = x - y;
    Dec { mantissa: z.mantissa(), scale: z.scale() }
}

/// `Decimal * Decimal` in the crate: zero (scale 0) for a zero factor, the product of
/// the mantissas at the summed scale when that fits, else named.
#[verifier::external_body]
fn rd_mul_exec(a: &Dec, b: &Dec) -> (r: Dec)
    requires
        product_in_range(*a, *b),
    ensures
        (a.mant() == 0 || b.mant() == 0 || exact_product(*a, *b)) ==> r == exact_mul_result(*a, *b),
        !(a.mant() == 0 || b.mant() == 0 || exact_product(*a, *b)) ==> (r.mant(), r.scl()) == rd_mul(
            a.mant(),
            a.scl(),
            b.mant(),
            b.scl(),
        ),
{
    let x = rust_decimal::Decimal::from_i128_with_scale(a.mantissa, a.scale);
    let y = rust_decimal::Decimal::from_i128_with_scale(b.mantissa, b.scale);
    let z = x * y;
    Dec { mantissa: z.mantissa(), scale: z.scale() }
}

/// `Decimal / Decimal` in the crate.  It panics on a zero divisor and on overflow;
/// both are left out.  A zero dividend gives zero (scale 0); a division without
/// remainder at a scale no smaller than the divisor's gives the quotient of the
/// mantissas at the difference of the scales (the crate's fast path); otherwise named.
#[verifier::external_body]
fn rd_div_exec(a: &Dec, b: &Dec) -> (r: Dec)
    requires
        quotient_in_range(*a, *b),
    ensures
        a.mant() == 0 ==> r == Dec::of_parts(0, 0),
        exact_quotient(*a, *b) ==> r == Dec::of_parts(a.mant() / b.mant(), a.scl() - b.scl()),
        a.mant() != 0 && !exact_quotient(*a, *b) ==> (r.mant(), r.scl()) == rd_div(
            a.mant(),
            a.scl(),
            b.mant(),
            b.scl(),
        ),
{
    let x = rust_decimal::Decimal::from_i128_with_scale(a.mantissa, a.scale);
    let y = rust_decimal::Decimal::from_i128_with_scale(b.mantissa, b.scale);
    let z = x / y;
    Dec { mantissa: z.mantissa(), scale: z.scale() }
}

/// `Decimal::checked_add` in the crate: the same computation as `+`, `None` where `+`
/// would overflow; values below the limit never do.
#[verifier::external_body]
fn rd_checked_add_exec(a: &Dec, b: &Dec) -> (r: Option<Dec>)
    ensures
        sum_in_range(*a, *b, 1) ==> r is Some,
        r matches Some(z) ==> (exact_sum(*a, *b, 1) ==> z == exact_add_result(*a, *b)),
        r matches Some(z) ==> (!exact_sum(*a, *b, 1) ==> (z.mant(), z.scl()) == rd_add(a.mant(), a.scl(), b.mant(), b.scl())),
{
    let x = rust_decimal::Decimal::from_i128_with_scale(a.mantissa, a.scale);
    let y = rust_decimal::Decimal::from_i128_with_scale(b.mantissa, b.scale);
    match x.checked_add(y) {
        Some(z) => Some(Dec { mantissa: z.mantissa(), scale: z.scale() }),
        None => None,
    }
}

/// `Decimal::checked_sub` in the crate: the same computation as `-`, `None` on
/// overflow.
#[verifier::external_body]
fn rd_checked_sub_exec(a: &Dec, b: &Dec) -> (r: Option<Dec>)
    ensures
        sum_in_range(*a, *b, -1) ==> r is Some,
        r matches Some(z) ==> (exact_sum(*a, *b, -1) ==> z == exact_sub_result(*a, *b)),
        r matches Some(z) ==> (!exact_sum(*a, *b, -1) ==> (z.mant(), z.scl()) == rd_sub(a.mant(), a.scl(), b.mant(), b.scl())),
{
    let x = rust_decimal::Decimal::from_i128_with_scale(a.mantissa, a.scale);
    let y = rust_decimal::Decimal::from_i128_with_scale(b.mantissa, b.scale);
    match x.checked_sub(y) {
        Some(z) => Some(Dec { mantissa: z.mantissa(), scale: z.scale() }),
        None => None,
    }
}

/// `Decimal::checked_mul` in the crate: the same computation as `*`, `None` on
/// overflow.
#[verifier::external_body]
fn rd_checked_mul_exec(a: &Dec, b: &Dec) -> (r: Option<Dec>)
    ensures
        product_in_range(*a, *b) ==> r is Some,
        r matches Some(z) ==> ((a.mant() == 0 || b.mant() == 0 || exact_product(*a, *b)) ==> z == exact_mul_result(*a, *b)),
        r matches Some(z) ==> (!(a.mant() == 0 || b.mant() == 0 || exact_product(*a, *b)) ==> (z.mant(), z.scl()) == rd_mul(a.mant(), a.scl(), b.mant(), b.scl())),
{
    let x = rust_decimal::Decimal::from_i128_with_scale(a.mantissa, a.scale);
    let y = rust_decimal::Decimal::from_i128_with_scale(b.mantissa, b.scale);
    match x.checked_mul(y) {
        Some(z) => Some(Dec { mantissa: z.mantissa(), scale: z.scale() }),
        None => None,
    }
}

/// `Decimal::checked_div` in the crate: the same computation as `/`, `None` for a
/// zero divisor or on overflow.
#[verifier::external_body]
fn rd_checked_div_exec(a: &Dec, b: &Dec) -> (r: Option<Dec>)
    ensures
        quotient_in_range(*a, *b) ==> r is Some,
        b.mant() == 0 ==> r is None,
        r matches Some(z) ==> (a.mant() == 0 ==> z == Dec::of_parts(0, 0)),
        r matches Some(z) ==> (exact_quotient(*a, *b) ==> z == Dec::of_parts(a.mant() / b.mant(), a.scl() - b.scl())),
        r matches Some(z) ==> (a.mant() != 0 && !exact_quotient(*a, *b) ==> (z.mant(), z.scl()) == rd_div(
            a.mant(),
            a.scl(),
            b.mant(),
            b.scl(),
        )),
{
    let x = rust_decimal::Decimal::from_i128_with_scale(a.mantissa, a.scale);
    let y = rust_decimal::Decimal::from_i128_with_scale(b.mantissa, b.scale);
    match x.checked_div(y) {
        Some(z) => Some(Dec { mantissa: z.mantissa(), scale: z.scale() }),
        None => None,
    }
}

/// `Decimal::round_dp` in the crate (midpoint to even).  A decimal with at most `dp`
/// digits after the point comes back unchanged; otherwise `rd_round_dp`.
#[verifier::external_body]
fn rd_round_dp_exec(a: &Dec, dp: u32) -> (r: Dec)
    ensures
        a.scl() <= dp ==> r == *a,
        a.scl() > dp ==> (r.mant(), r.scl()) == rd_round_dp(a.mant(), a.scl(), dp as int),
{
    let x = rust_decimal::Decimal::from_i128_with_scale(a.mantissa, a.scale);
    let z = x.round_dp(dp);
    Dec { mantissa: z.mantissa(), scale: z.scale() }
}

/// `Decimal < Decimal` in the crate: compares the values.
#[verifier::external_body]
fn rd_lt_exec(a: &Dec, b: &Dec) -> (r: bool)
    ensures
        r == (a.val() < b.val()),
{
    let x = rust_decimal::Decimal::from_i128_with_scale(a.mantissa, a.scale);
    let y = rust_decimal::Decimal::from_i128_with_scale(b.mantissa, b.scale);
    x < y
}

/// `Decimal <= Decimal` in the crate: compares the values.
#[verifier::external_body]
fn rd_le_exec(a: &Dec, b: &Dec) -> (r: bool)
    ensures
        r == (a.val() <= b.val()),
{
    let x = rust_decimal::Decimal::from_i128_with_scale(a.mantissa, a.scale);
    let y = rust_decimal::Decimal::from_i128_with_scale(b.mantissa, b.scale);
    x <= y
}

/// `Decimal == Decimal` in the crate: equal values (1.0 equals 1.00).
#[verifier::external_body]
fn rd_eq_exec(a: &Dec, b: &Dec) -> (r: bool)
    ensures
        r == (a.val() == b.val()),
{
    let x = rust_decimal::Decimal::from_i128_with_scale(a.mantissa, a.scale);
    let y = rust_decimal::Decimal::from_i128_with_scale(b.mantissa, b.scale);
    x == y
}

/// The crate's `Display` text of the decimal.
#[verifier::external_body]
fn rd_to_string_exec(a: &Dec) -> (r: String)
    ensures
        r@ == rd_text(a.mant(), a.scl()),
{
    rust_decimal::Decimal::from_i128_with_scale(a.mantissa, a.scale).to_string()
}

/// The crate's `Display` text of the decimal with `prec` digits after the point
/// (`{:.prec$}`).  The crate panics when the text without its sign outgrows its
/// 32-character buffer; that is left out.
#[verifier::external_body]
fn rd_to_string_prec_exec(a: &Dec, prec: usize) -> (r: String)
    requires
        text_prec_fits(a.mant(), a.scl(), prec as int),
    ensures
        r@ == rd_text_prec(a.mant(), a.scl(), prec as int),
{
    format!("{:.*}", prec, rust_decimal::Decimal::from_i128_with_scale(a.mantissa, a.scale))
}

impl Dec {
    /// The decimal as text with `prec` digits after the point.
    pub fn to_text_prec(&self, prec: usize) -> (r: String)
        requires
            text_prec_fits(self.mant(), self.scl(), prec as int),
        ensures
            r@ == rd_text_prec(self.mant(), self.scl(), prec as int),
    {
        rd_to_string_prec_exec(self, prec)
    }

    /// `self + other`.
    pub fn add(&self, other: &Dec) -> (r: Dec)
        requires
            sum_in_range(*self, *other, 1),
        ensures
            r == add_spec(*self, *other),
            exact_sum(*self, *other, 1) ==> r.val() == self.val() + other.val(),
    {
        proof {
            use_type_invariant(self);
            use_type_invariant(other);
        }
        let r = rd_add_exec(self, other);
        proof {
            use_type_invariant(&r);
            if exact_sum(*self, *other, 1) {
                lemma_add_exact(*self, *other);
            } else {
                Dec::lemma_of_parts(r.mant(), r.scl());
                Dec::lemma_parts_eq(r, add_spec(*self, *other));
            }
        }
        r
    }

    /// `self - other`.
    pub fn sub(&self, other: &Dec) -> (r: Dec)
        requires
            sum_in_range(*self, *other, -1),
        ensures
            r == sub_spec(*self, *other),
            exact_sum(*self, *other, -1) ==> r.val() == self.val() - other.val(),
    {
        proof {
            use_type_invariant(self);
            use_type_invariant(other);
        }
        let r = rd_sub_exec(self, other);
        proof {
            use_type_invariant(&r);
            if exact_sum(*self, *other, -1) {
                lemma_sub_exact(*self, *other);
            } else {
                Dec::lemma_of_parts(r.mant(), r.scl());
                Dec::lemma_parts_eq(r, sub_spec(*self, *other));
            }
        }
        r
    }

    /// `self * other`.
    pub fn mul(&self, other: &Dec) -> (r: Dec)
        requires
            product_in_range(*self, *other),
        ensures
            r == mul_spec(*self, *other),
            (self.val() == 0 || other.val() == 0) ==> r.val() == 0,
            exact_product(*self, *other) ==> r.val() == self.mant() * other.mant() * pow10(
                28 - self.scl() - other.scl(),
            ),
    {
        proof {
            use_type_invariant(self);
            use_type_invariant(other);
        }
        let r = rd_mul_exec(self, other);
        proof {
            use_type_invariant(&r);
            if self.val() == 0 || other.val() == 0 {
                lemma_mul_zero(*self, *other);
            }
            if exact_product(*self, *other) {
                lemma_mul_exact(*self, *other);
            }
            if !(self.mant() == 0 || other.mant() == 0 || exact_product(*self, *other)) {
                Dec::lemma_of_parts(r.mant(), r.scl());
                Dec::lemma_parts_eq(r, mul_spec(*self, *other));
            }
        }
        r
    }

    /// `self / other`.
    pub fn div(&self, other: &Dec) -> (r: Dec)
        requires
            quotient_in_range(*self, *other),
        ensures
            r == div_spec(*self, *other),
            self.mant() == 0 ==> r.val() == 0,
    {
        let r = rd_div_exec(self, other);
        proof {
            use_type_invariant(&r);
            Dec::lemma_of_parts(0, 0);
            if self.mant() != 0 {
                if !exact_quotient(*self, *other) {
                    Dec::lemma_of_parts(r.mant(), r.scl());
                    Dec::lemma_parts_eq(r, div_spec(*self, *other));
                }
            }
        }
        r
    }

    /// `self + other`, or `None` where the crate's addition overflows.
    pub fn checked_add(&self, other: &Dec) -> (r: Option<Dec>)
        ensures
            sum_in_range(*self, *other, 1) ==> r is Some,
            r matches Some(z) ==> z == add_spec(*self, *other),
    {
        proof {
            use_type_invariant(self);
            use_type_invariant(other);
        }
        let r = rd_checked_add_exec(self, other);
        match r {
            Some(z) => {
                proof {
                    use_type_invariant(&z);
                    if !exact_sum(*self, *other, 1) {
                        Dec::lemma_of_parts(z.mant(), z.scl());
                        Dec::lemma_parts_eq(z, add_spec(*self, *other));
                    }
                }
                Some(z)
            },
            None => None,
        }
    }

    /// `self - other`, or `None` where the crate's subtraction overflows.
    pub fn checked_sub(&self, other: &Dec) -> (r: Option<Dec>)
        ensures
            sum_in_range(*self, *other, -1) ==> r is Some,
            r matches Some(z) ==> z == sub_spec(*self, *other),
    {
        proof {
            use_type_invariant(self);
            use_type_invariant(other);
        }
        let r = rd_checked_sub_exec(self, other);
        match r {
            Some(z) => {
                proof {
                    use_type_invariant(&z);
                    if !exact_sum(*self, *other, -1) {
                        Dec::lemma_of_parts(z.mant(), z.scl());
                        Dec::lemma_parts_eq(z, sub_spec(*self, *other));
                    }
                }
                Some(z)
            },
            None => None,
        }
    }

    /// `self * other`, or `None` where the crate's multiplication overflows.
    pub fn checked_mul(&self, other: &Dec) -> (r: Option<Dec>)
        ensures
            product_in_range(*self, *other) ==> r is Some,
            r matches Some(z) ==> z == mul_spec(*self, *other),
    {
        proof {
            use_type_invariant(self);
            use_type_invariant(other);
        }
        let r = rd_checked_mul_exec(self, other);
        match r {
            Some(z) => {
                proof {
                    use_type_invariant(&z);
                    if !(self.mant() == 0 || other.mant() == 0 || exact_product(*self, *other)) {
                        Dec::lemma_of_parts(z.mant(), z.scl());
                        Dec::lemma_parts_eq(z, mul_spec(*self, *other));
                    }
                }
                Some(z)
            },
            None => None,
        }
    }

    /// `self / other`, or `None` for a zero divisor or where the crate's division
    /// overflows.
    pub fn checked_div(&self, other: &Dec) -> (r: Option<Dec>)
        ensures
            quotient_in_range(*self, *other) ==> r is Some,
            other.val() == 0 ==> r is None,
            r matches Some(z) ==> z == div_spec(*self, *other),
    {
        proof {
            use_type_invariant(other);
            other.lemma_val_sign();
        }
        let r = rd_checked_div_exec(self, other);
        match r {
            Some(z) => {
                proof {
                    use_type_invariant(&z);
                    Dec::lemma_of_parts(0, 0);
                    if self.mant() != 0 {
                        if !exact_quotient(*self, *other) {
                            Dec::lemma_of_parts(z.mant(), z.scl());
                            Dec::lemma_parts_eq(z, div_spec(*self, *other));
                        }
                    }
                }
                Some(z)
            },
            None => None,
        }
    }

    /// Rounds to `dp` digits after the point, midpoint to even.
    pub fn round_dp(&self, dp: u32) -> (r: Dec)
        ensures
            r == round_dp_spec(*self, dp as int),
    {
        let r = rd_round_dp_exec(self, dp);
        proof {
            use_type_invariant(&r);
            if self.scl() > dp {
                Dec::lemma_of_parts(r.mant(), r.scl());
                Dec::lemma_parts_eq(r, round_dp_spec(*self, dp as int));
            }
        }
        r
    }

    /// Rounds to an integer, midpoint to even.
    pub fn round(&self) -> (r: Dec)
        ensures
            r == round_dp_spec(*self, 0),
    {
        self.round_dp(0)
    }

    /// `self < other`, by value.
    pub fn lt(&self, other: &Dec) -> (r: bool)
        ensures
            r == (self.val() < other.val()),
    {
        rd_lt_exec(self, other)
    }

    /// `self <= other`, by value.
    pub fn le(&self, other: &Dec) -> (r: bool)
        ensures
            r == (self.val() <= other.val()),
    {
        rd_le_exec(self, other)
    }

    /// `self > other`, by value.
    pub fn gt(&self, other: &Dec) -> (r: bool)
        ensures
            r == (self.val() > other.val()),
    {
        rd_lt_exec(other, self)
    }

    /// `self >= other`, by value.
    pub fn ge(&self, other: &Dec) -> (r: bool)
        ensures
            r == (self.val() >= other.val()),
    {
        rd_le_exec(other, self)
    }

    /// `self == other`, by value.
    pub fn eq_val(&self, other: &Dec) -> (r: bool)
        ensures
            r == (self.val() == other.val()),
    {
        rd_eq_exec(self, other)
    }

    /// The smaller of the two (`self` on a tie).
    pub fn min(&self, other: &Dec) -> (r: Dec)
        ensures
            r == min_spec(*self, *other),
    {
        if rd_lt_exec(other, self) {
            other.copy()
        } else {
            self.copy()
        }
    }

    /// The larger of the two (`self` on a tie).
    pub fn max(&self, other: &Dec) -> (r: Dec)
        ensures
            r == max_spec(*self, *other),
    {
        if rd_lt_exec(self, other) {
            other.copy()
        } else {
            self.copy()
        }
    }

    /// The decimal as text.
    pub fn to_text(&self) -> (r: String)
        ensures
            r@ == rd_text(self.mant(), self.scl()),
    {
        rd_to_string_exec(self)
    }
}

impl PartialEq for Dec {
    fn eq(&self, other: &Dec) -> (r: bool) {
        rd_eq_exec(self, other)
    }
}

impl vstd::std_specs::cmp::PartialEqSpecImpl for Dec {
    open spec fn obeys_eq_spec() -> bool {
        true
    }

    open spec fn eq_spec(&self, other: &Dec) -> bool {
        self.val() == other.val()
    }
}

impl Eq for Dec {
}

impl Clone for Dec {
    fn clone(&self) -> (r: Self)
        ensures
            r == *self,
    {
        proof { use_type_invariant(self); }
        Dec { mantissa: self.mantissa, scale: self.scale }
    }
}

} // verus!
