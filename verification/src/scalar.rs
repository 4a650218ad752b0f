use vstd::prelude::*;

verus! {

/// An exact rational scalar: the value `num / den`, well formed when
/// `den > 0`. Logical coordinates, sizes, line widths and scale factors are
/// carried as `Frac` values, so the viewport arithmetic in this crate is
/// exact; the backend converts to its own floating-point type only at the
/// draw boundary.
///
/// Equality (`==`) is structural, on the representation: it is what the
/// scene deduplication check uses. Value comparisons (`ratio_eq`,
/// `ratio_le`) compare the represented rationals by cross-multiplication.
#[derive(Clone, Copy, Debug, PartialEq, Eq, Structural)]
pub struct Frac {
    pub num: i64,
    pub den: i64,
}

impl Frac {
    /// Well-formed representation: a positive denominator.
    pub open spec fn wf(self) -> bool {
        self.den > 0
    }

    /// The represented rationals are equal (valid for well-formed values).
    pub open spec fn ratio_eq(self, other: Frac) -> bool {
        self.num * other.den == other.num * self.den
    }

    /// The represented rational is at most `other`'s (valid for well-formed
    /// values, where both denominators are positive).
    pub open spec fn ratio_le(self, other: Frac) -> bool {
        self.num * other.den <= other.num * self.den
    }

    /// The represented rational is strictly below `other`'s.
    pub open spec fn ratio_lt(self, other: Frac) -> bool {
        self.num * other.den < other.num * self.den
    }

    /// The scalar with integer value `n`.
    pub fn from_int(n: i64) -> (r: Frac)
        ensures
            r.num == n,
            r.den == 1,
            r.wf(),
    {
        Frac { num: n, den: 1 }
    }

    /// The scalar `num / den`; the denominator must be positive.
    pub fn new(num: i64, den: i64) -> (r: Frac)
        requires
            den > 0,
        ensures
            r.num == num,
            r.den == den,
            r.wf(),
    {
        Frac { num, den }
    }

    /// Value comparison by cross-multiplication.
    pub fn le(&self, other: &Frac) -> (r: bool)
        requires
            self.wf(),
            other.wf(),
        ensures
            r == self.ratio_le(*other),
    {
        proof {
            lemma_i64_product_fits_i128(self.num, other.den);
            lemma_i64_product_fits_i128(other.num, self.den);
        }
        (self.num as i128) * (other.den as i128) <= (other.num as i128) * (self.den as i128)
    }

    /// Strict value comparison by cross-multiplication.
    pub fn lt(&self, other: &Frac) -> (r: bool)
        requires
            self.wf(),
            other.wf(),
        ensures
            r == self.ratio_lt(*other),
    {
        proof {
            lemma_i64_product_fits_i128(self.num, other.den);
            lemma_i64_product_fits_i128(other.num, self.den);
        }
        (self.num as i128) * (other.den as i128) < (other.num as i128) * (self.den as i128)
    }

    /// The represented value is strictly positive.
    pub fn is_positive(&self) -> (r: bool)
        requires
            self.wf(),
        ensures
            r == (self.num > 0),
    {
        self.num > 0
    }
}

/// A product of two `i64` values always fits in an `i128`.
proof fn lemma_i64_product_fits_i128(x: i64, y: i64)
    ensures
        i128::MIN <= x * y <= i128::MAX,
{
    assert(i128::MIN <= x * y <= i128::MAX) by (nonlinear_arith)
        requires
            i64::MIN <= x <= i64::MAX,
            i64::MIN <= y <= i64::MAX,
    ;
}

} // verus!
