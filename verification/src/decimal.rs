//! Fixed-point decimal numbers for prices, quantities and money.
//!
//! A `Dec` holds exactly what a `rust_decimal::Decimal` holds: a mantissa
//! below 2^96 in magnitude and a scale between 0 and 28.  Its value is
//! `mantissa / 10^scale`; specifications count it in units of 10^-28, so
//! that `v()` is always an integer.  Arithmetic is delegated to
//! `rust_decimal`; where the exact result is representable that crate
//! returns it exactly, which is what the contracts below rely on.
use vstd::prelude::*;
use vstd::std_specs::cmp::PartialEqSpecImpl;

verus! {

/// 10 raised to `n`.
pub open spec fn pow10(n: nat) -> int
    decreases n,
{
    if n == 0 {
        1
    } else {
        10 * pow10((n - 1) as nat)
    }
}

/// Powers of ten are positive.
pub proof fn lemma_pow10_pos(n: nat)
    ensures
        pow10(n) > 0,
    decreases n,
{
    if n > 0 {
        lemma_pow10_pos((n - 1) as nat);
    }
}

/// 2^96: every mantissa lies strictly between its negation and itself.
pub open spec fn mantissa_bound() -> int {
    79228162514264337593543950336
}

/// The larger of two scales.
pub open spec fn max_scale(a: nat, b: nat) -> nat {
    if a >= b {
        a
    } else {
        b
    }
}

/// `x`, counted in units of 10^-28, has a magnitude that a decimal of
/// scale `s` can hold.
pub open spec fn in_range(x: int, s: nat) -> bool {
    &&& s <= 28
    &&& -(mantissa_bound() * pow10((28 - s) as nat)) < x
    &&& x < mantissa_bound() * pow10((28 - s) as nat)
}

/// Exact product of two values counted in units of 10^-28.
pub open spec fn mul_val(x: int, y: int) -> int {
    x * y / pow10(28)
}

/// Absolute value.
pub open spec fn abs_val(x: int) -> int {
    if x < 0 {
        -x
    } else {
        x
    }
}

/// What `rust_decimal` computes for the quotient of two decimals, each given
/// by its value (units of 10^-28) and scale.
pub uninterp spec fn decimal_quotient(dividend: (int, nat), divisor: (int, nat)) -> (int, nat);

/// The decimal, as value and scale, that `rust_decimal` reads from a text.
pub uninterp spec fn decimal_from_text(text: Seq<char>) -> Option<(int, nat)>;

/// What `rust_decimal`'s `checked_sub` gives for two decimals, each given by
/// its value and scale: nothing when the difference overflows.
pub uninterp spec fn decimal_checked_difference(a: (int, nat), b: (int, nat)) -> Option<(int, nat)>;

/// The message of the error (its `Display`) that `rust_decimal` gives for a
/// text it cannot read.
pub uninterp spec fn decimal_error_text(text: Seq<char>) -> Seq<char>;

/// The text that `rust_decimal` writes for a decimal given by value and scale.
pub uninterp spec fn decimal_text(d: (int, nat)) -> Seq<char>;

/// Representation arithmetic.  A decimal is represented by its value (units
/// of 10^-28) and its scale; these say what `rust_decimal` returns, value and
/// scale, when no rounding is needed.
/// Sum: a zero operand gives back the other one; otherwise the scale is the
/// larger of the two.
pub open spec fn radd(a: (int, nat), b: (int, nat)) -> (int, nat) {
    if a.0 == 0 {
        b
    } else if b.0 == 0 {
        a
    } else {
        (a.0 + b.0, max_scale(a.1, b.1))
    }
}

/// Difference: `0 - b` is `b` negated; `a - 0` is `a`.
pub open spec fn rsub(a: (int, nat), b: (int, nat)) -> (int, nat) {
    if a.0 == 0 {
        (-b.0, b.1)
    } else if b.0 == 0 {
        a
    } else {
        (a.0 - b.0, max_scale(a.1, b.1))
    }
}

/// Product: zero has scale 0; otherwise the scales add up.
pub open spec fn rmul(a: (int, nat), b: (int, nat)) -> (int, nat) {
    if a.0 == 0 || b.0 == 0 {
        (0, 0)
    } else {
        (mul_val(a.0, b.0), a.1 + b.1)
    }
}

/// Negation.
pub open spec fn rneg(a: (int, nat)) -> (int, nat) {
    (-a.0, a.1)
}

/// Absolute value.
pub open spec fn rabs(a: (int, nat)) -> (int, nat) {
    (abs_val(a.0), a.1)
}

/// The smaller of two (the first on a tie).
pub open spec fn rmin(a: (int, nat), b: (int, nat)) -> (int, nat) {
    if b.0 < a.0 {
        b
    } else {
        a
    }
}

/// The larger of two (the second on a tie).
pub open spec fn rmax(a: (int, nat), b: (int, nat)) -> (int, nat) {
    if b.0 < a.0 {
        a
    } else {
        b
    }
}

/// An integer as a decimal of scale 0.
pub open spec fn rint(n: int) -> (int, nat) {
    (n * pow10(28), 0)
}

/// `a + b` needs no rounding.
pub open spec fn add_ok(a: (int, nat), b: (int, nat)) -> bool {
    let s = max_scale(a.1, b.1);
    &&& in_range(a.0, s)
    &&& in_range(b.0, s)
    &&& in_range(a.0 + b.0, s)
}

/// `a - b` needs no rounding.
pub open spec fn sub_ok(a: (int, nat), b: (int, nat)) -> bool {
    let s = max_scale(a.1, b.1);
    &&& in_range(a.0, s)
    &&& in_range(b.0, s)
    &&& in_range(a.0 - b.0, s)
}

/// `a * b` needs no rounding.
pub open spec fn mul_ok(a: (int, nat), b: (int, nat)) -> bool {
    &&& a.1 + b.1 <= 28
    &&& in_range(mul_val(a.0, b.0), a.1 + b.1)
}

/// `a / b` neither divides by zero nor overflows.
pub open spec fn div_ok(a: (int, nat), b: (int, nat)) -> bool {
    &&& b.0 != 0
    &&& abs_val(a.0) < 39614081257132168796771975168 * abs_val(b.0)
}

/// The representation of `s`, element by element.
pub open spec fn reprs(s: Seq<Dec>) -> Seq<(int, nat)> {
    s.map_values(|d: Dec| d.repr())
}

/// Left-to-right sum, starting from zero (what iterating with `+` gives).
pub open spec fn rsum(s: Seq<(int, nat)>) -> (int, nat)
    decreases s.len(),
{
    if s.len() == 0 {
        (0, 0)
    } else {
        radd(rsum(s.drop_last()), s.last())
    }
}

/// Every step of the left-to-right sum of `s` needs no rounding.
pub open spec fn sum_fits(s: Seq<(int, nat)>) -> bool {
    forall|i: int| 0 <= i < s.len() ==> #[trigger] add_ok(rsum(s.take(i)), s[i])
}

/// The value of a left-to-right sum that needs no rounding is the plain sum.
pub open spec fn sum_values(s: Seq<(int, nat)>) -> int
    decreases s.len(),
{
    if s.len() == 0 {
        0
    } else {
        sum_values(s.drop_last()) + s.last().0
    }
}

pub proof fn lemma_rsum_value(s: Seq<(int, nat)>)
    ensures
        rsum(s).0 == sum_values(s),
    decreases s.len(),
{
    if s.len() > 0 {
        lemma_rsum_value(s.drop_last());
    }
}

/// The sum of a list of decimals, computed by `rust_decimal` term by term.
pub fn sum_all(items: &Vec<Dec>) -> (r: Dec)
    requires
        sum_fits(reprs(items@)),
    ensures
        r.repr() == rsum(reprs(items@)),
{
    let mut total = Dec::zero();
    let mut i: usize = 0;
    assert(reprs(items@).take(0) =~= Seq::<(int, nat)>::empty());
    while i < items.len()
        invariant
            i <= items.len(),
            sum_fits(reprs(items@)),
            total.repr() == rsum(reprs(items@).take(i as int)),
        decreases items.len() - i,
    {
        let x = items[i];
        proof {
            let s = reprs(items@);
            assert(add_ok(rsum(s.take(i as int)), s[i as int]));
            assert(s.take(i as int + 1).drop_last() =~= s.take(i as int));
        }
        total = total.add(x);
        i += 1;
    }
    assert(reprs(items@).take(items.len() as int) =~= reprs(items@));
    total
}

/// A decimal number: `mantissa / 10^scale`.
#[derive(Clone, Copy, Debug)]
pub struct Dec {
    mantissa: i128,
    scale: u32,
}

impl Dec {
    #[verifier::type_invariant]
    spec fn well_formed(self) -> bool {
        &&& self.scale <= 28
        &&& -79228162514264337593543950336 < self.mantissa
        &&& self.mantissa < 79228162514264337593543950336
    }

    /// The value in units of 10^-28.
    pub closed spec fn v(self) -> int {
        self.mantissa * pow10((28 - self.scale) as nat)
    }

    /// The number of decimal places.
    pub closed spec fn sc(self) -> nat {
        self.scale as nat
    }

    /// The value and scale together: what the outside arithmetic sees.
    pub open spec fn repr(self) -> (int, nat) {
        (self.v(), self.sc())
    }

    /// Every decimal's value fits its own scale.
    proof fn lemma_bounds(self)
        requires
            self.well_formed(),
        ensures
            self.sc() <= 28,
            in_range(self.v(), self.sc()),
    {
        let p = pow10((28 - self.scale) as nat);
        lemma_pow10_pos((28 - self.scale) as nat);
        let m = self.mantissa as int;
        assert(-(mantissa_bound() * p) < m * p && m * p < mantissa_bound() * p) by (nonlinear_arith)
            requires
                p > 0,
                -mantissa_bound() < m < mantissa_bound(),
        ;
    }

    /// Facts every decimal satisfies, for use by callers.
    pub fn check_bounds(&self)
        ensures
            self.sc() <= 28,
            in_range(self.v(), self.sc()),
    {
        proof {
            use_type_invariant(self);
            self.lemma_bounds();
        }
    }

    /// `mantissa / 10^scale`.
    pub fn new(mantissa: i64, scale: u32) -> (r: Dec)
        requires
            scale <= 28,
        ensures
            r.repr() == (mantissa * pow10((28 - scale) as nat), scale as nat),
    {
        Dec { mantissa: mantissa as i128, scale }
    }

    /// Zero.
    pub fn zero() -> (r: Dec)
        ensures
            r.repr() == (0int, 0nat),
    {
        Dec { mantissa: 0, scale: 0 }
    }

    /// One.
    pub fn one() -> (r: Dec)
        ensures
            r.repr() == rint(1),
    {
        Dec { mantissa: 1, scale: 0 }
    }

    /// The integer `n`.
    pub fn from_u32(n: u32) -> (r: Dec)
        ensures
            r.repr() == rint(n as int),
    {
        Dec { mantissa: n as i128, scale: 0 }
    }

    /// The integer `n`.
    pub fn from_i64(n: i64) -> (r: Dec)
        ensures
            r.repr() == rint(n as int),
    {
        Dec { mantissa: n as i128, scale: 0 }
    }

    /// The mantissa.
    pub fn mantissa(&self) -> (r: i128)
        ensures
            self.v() == r * pow10((28 - self.sc()) as nat),
    {
        self.mantissa
    }

    /// The scale.
    pub fn scale(&self) -> (r: u32)
        ensures
            r == self.sc(),
    {
        self.scale
    }

    /// The negation.
    pub fn neg(&self) -> (r: Dec)
        ensures
            r.repr() == rneg(self.repr()),
    {
        proof {
            use_type_invariant(self);
        }
        let p = Ghost(pow10((28 - self.scale) as nat));
        let m = self.mantissa;
        assert((-m) * p@ == -(m * p@)) by (nonlinear_arith);
        Dec { mantissa: -m, scale: self.scale }
    }

    /// Whether the value is zero.
    pub fn is_zero(&self) -> (r: bool)
        ensures
            r == (self.v() == 0),
    {
        proof {
            lemma_pow10_pos((28 - self.scale) as nat);
        }
        let p = Ghost(pow10((28 - self.scale) as nat));
        let m = self.mantissa;
        assert(m * p@ == 0 <==> m == 0) by (nonlinear_arith)
            requires
                p@ > 0,
        ;
        m == 0
    }

    /// Whether the value is below zero.
    pub fn is_negative(&self) -> (r: bool)
        ensures
            r == (self.v() < 0),
    {
        proof {
            lemma_pow10_pos((28 - self.scale) as nat);
        }
        let p = Ghost(pow10((28 - self.scale) as nat));
        let m = self.mantissa;
        assert(m * p@ < 0 <==> m < 0) by (nonlinear_arith)
            requires
                p@ > 0,
        ;
        m < 0
    }

    /// Whether the value is above zero.
    pub fn is_positive(&self) -> (r: bool)
        ensures
            r == (self.v() > 0),
    {
        proof {
            lemma_pow10_pos((28 - self.scale) as nat);
        }
        let p = Ghost(pow10((28 - self.scale) as nat));
        let m = self.mantissa;
        assert(m * p@ > 0 <==> m > 0) by (nonlinear_arith)
            requires
                p@ > 0,
        ;
        m > 0
    }

    /// The absolute value.
    pub fn abs(&self) -> (r: Dec)
        ensures
            r.repr() == rabs(self.repr()),
    {
        if self.is_negative() {
            self.neg()
        } else {
            *self
        }
    }

    /// Sum, computed by `rust_decimal`.
    /// Its addition returns the other operand when one is zero; otherwise it
    /// aligns both to the larger scale and adds the mantissas, and when the
    /// aligned operands and the sum all fit in 96 bits no rounding happens:
    /// the result is the exact sum at the larger scale.
    #[verifier::external_body]
    pub(crate) fn add(self, o: Dec) -> (r: Dec)
        requires
            add_ok(self.repr(), o.repr()),
        ensures
            r.repr() == radd(self.repr(), o.repr()),
    {
        let r = rust_decimal::Decimal::from_i128_with_scale(self.mantissa, self.scale)
            + rust_decimal::Decimal::from_i128_with_scale(o.mantissa, o.scale);
        Dec { mantissa: r.mantissa(), scale: r.scale() }
    }

    /// Difference, computed by `rust_decimal`; `0 - o` is `o` negated,
    /// `self - 0` is `self`, and otherwise it is exact under the same
    /// conditions as the sum.
    #[verifier::external_body]
    pub(crate) fn sub(self, o: Dec) -> (r: Dec)
        requires
            sub_ok(self.repr(), o.repr()),
        ensures
            r.repr() == rsub(self.repr(), o.repr()),
    {
        let r = rust_decimal::Decimal::from_i128_with_scale(self.mantissa, self.scale)
            - rust_decimal::Decimal::from_i128_with_scale(o.mantissa, o.scale);
        Dec { mantissa: r.mantissa(), scale: r.scale() }
    }

    /// Difference, computed by `rust_decimal`'s `checked_sub`: nothing when
    /// the result overflows; when the exact difference is representable it
    /// is returned exactly.  What it returns is named.
    #[verifier::external_body]
    pub(crate) fn checked_sub(self, o: Dec) -> (r: Option<Dec>)
        ensures
            r is Some ==> decimal_checked_difference(self.repr(), o.repr()) == Some(
                r.unwrap().repr(),
            ),
            r is None <==> decimal_checked_difference(self.repr(), o.repr()) is None,
            sub_ok(self.repr(), o.repr()) ==> (r is Some && r.unwrap().repr() == rsub(
                self.repr(),
                o.repr(),
            )),
    {
        match rust_decimal::Decimal::from_i128_with_scale(self.mantissa, self.scale).checked_sub(
            rust_decimal::Decimal::from_i128_with_scale(o.mantissa, o.scale),
        ) {
            Some(d) => Some(Dec { mantissa: d.mantissa(), scale: d.scale() }),
            None => None,
        }
    }

    /// Product, computed by `rust_decimal`.
    /// A zero operand gives zero (scale 0); otherwise it multiplies the
    /// mantissas and adds the scales, and rescales only when the product
    /// exceeds 96 bits or the scale exceeds 28, so when neither happens the
    /// result is exact.
    #[verifier::external_body]
    pub(crate) fn mul(self, o: Dec) -> (r: Dec)
        requires
            mul_ok(self.repr(), o.repr()),
        ensures
            r.repr() == rmul(self.repr(), o.repr()),
    {
        let r = rust_decimal::Decimal::from_i128_with_scale(self.mantissa, self.scale)
            * rust_decimal::Decimal::from_i128_with_scale(o.mantissa, o.scale);
        Dec { mantissa: r.mantissa(), scale: r.scale() }
    }

    /// Quotient, computed by `rust_decimal` (rounded to its precision); its
    /// result is named, not stated.  Division panics on a zero divisor and on
    /// a quotient beyond 96 bits, which `div_ok` rules out.
    #[verifier::external_body]
    pub(crate) fn div(self, o: Dec) -> (r: Dec)
        requires
            div_ok(self.repr(), o.repr()),
        ensures
            r.repr() == decimal_quotient(self.repr(), o.repr()),
    {
        let r = rust_decimal::Decimal::from_i128_with_scale(self.mantissa, self.scale)
            / rust_decimal::Decimal::from_i128_with_scale(o.mantissa, o.scale);
        Dec { mantissa: r.mantissa(), scale: r.scale() }
    }

    /// `self < o`, compared by `rust_decimal`, which orders by value.
    #[verifier::external_body]
    pub(crate) fn lt(&self, o: &Dec) -> (r: bool)
        ensures
            r == (self.v() < o.v()),
    {
        rust_decimal::Decimal::from_i128_with_scale(self.mantissa, self.scale)
            < rust_decimal::Decimal::from_i128_with_scale(o.mantissa, o.scale)
    }

    /// `self == o`, compared by `rust_decimal`, which compares values
    /// (so 1.0 equals 1).
    #[verifier::external_body]
    pub(crate) fn same_value(&self, o: &Dec) -> (r: bool)
        ensures
            r == (self.v() == o.v()),
    {
        rust_decimal::Decimal::from_i128_with_scale(self.mantissa, self.scale)
            == rust_decimal::Decimal::from_i128_with_scale(o.mantissa, o.scale)
    }

    /// `self <= o`.
    pub fn le(&self, o: &Dec) -> (r: bool)
        ensures
            r == (self.v() <= o.v()),
    {
        !o.lt(self)
    }

    /// `self > o`.
    pub fn gt(&self, o: &Dec) -> (r: bool)
        ensures
            r == (self.v() > o.v()),
    {
        o.lt(self)
    }

    /// `self >= o`.
    pub fn ge(&self, o: &Dec) -> (r: bool)
        ensures
            r == (self.v() >= o.v()),
    {
        !self.lt(o)
    }

    /// The smaller of two values (the first on a tie).
    pub fn min(&self, o: &Dec) -> (r: Dec)
        ensures
            r.repr() == rmin(self.repr(), o.repr()),
    {
        if o.lt(self) {
            *o
        } else {
            *self
        }
    }

    /// The larger of two values (the second on a tie).
    pub fn max(&self, o: &Dec) -> (r: Dec)
        ensures
            r.repr() == rmax(self.repr(), o.repr()),
    {
        if o.lt(self) {
            *self
        } else {
            *o
        }
    }

    /// Reads a decimal from text, as `rust_decimal` parses it.
    #[verifier::external_body]
    pub fn parse(text: &str) -> (r: Option<Dec>)
        ensures
            match r {
                Some(d) => decimal_from_text(text@) == Some(d.repr()),
                None => decimal_from_text(text@).is_none(),
            },
    {
        match text.parse::<rust_decimal::Decimal>() {
            Ok(d) => Some(Dec { mantissa: d.mantissa(), scale: d.scale() }),
            Err(_) => None,
        }
    }

    /// Reads a decimal from text, as `rust_decimal` parses it, or the
    /// message of its error when it cannot.
    #[verifier::external_body]
    pub(crate) fn parse_or_error(text: &str) -> (r: Result<Dec, String>)
        ensures
            match r {
                Ok(d) => decimal_from_text(text@) == Some(d.repr()),
                Err(e) => decimal_from_text(text@) is None && e@ == decimal_error_text(text@),
            },
    {
        match text.parse::<rust_decimal::Decimal>() {
            Ok(d) => Ok(Dec { mantissa: d.mantissa(), scale: d.scale() }),
            Err(e) => Err(e.to_string()),
        }
    }

    /// The text `rust_decimal` writes for this decimal.
    #[verifier::external_body]
    pub fn to_text(&self) -> (r: String)
        ensures
            r@ == decimal_text(self.repr()),
    {
        rust_decimal::Decimal::from_i128_with_scale(self.mantissa, self.scale).to_string()
    }
}

impl PartialEq for Dec {
    fn eq(&self, other: &Dec) -> (r: bool) {
        self.same_value(other)
    }
}

impl PartialEqSpecImpl for Dec {
    open spec fn obeys_eq_spec() -> bool {
        true
    }

    open spec fn eq_spec(&self, other: &Dec) -> bool {
        self.v() == other.v()
    }
}

} // verus!
