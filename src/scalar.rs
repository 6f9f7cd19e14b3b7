//! The plane's scalar type, left to the user, and complex numbers over it.
use vstd::prelude::*;

verus! {

/// A real-number type for plane coordinates and iterated states: `f64` in the
/// viewer, or an arbitrary-precision float. Each operation is the type's own,
/// rounding included; the spec functions name its results.
pub trait FloatLike: Sized + Copy {
    spec fn spec_from_usize(n: usize) -> Self;

    spec fn spec_add(self, o: Self) -> Self;

    spec fn spec_sub(self, o: Self) -> Self;

    spec fn spec_mul(self, o: Self) -> Self;

    spec fn spec_div(self, o: Self) -> Self;

    spec fn spec_abs(self) -> Self;

    spec fn spec_lt(self, o: Self) -> bool;

    spec fn spec_is_finite(self) -> bool;

    fn from_usize(n: usize) -> (r: Self)
        ensures
            r == Self::spec_from_usize(n),
    ;

    fn plus(&self, o: &Self) -> (r: Self)
        ensures
            r == self.spec_add(*o),
    ;

    fn minus(&self, o: &Self) -> (r: Self)
        ensures
            r == self.spec_sub(*o),
    ;

    fn times(&self, o: &Self) -> (r: Self)
        ensures
            r == self.spec_mul(*o),
    ;

    fn divided_by(&self, o: &Self) -> (r: Self)
        ensures
            r == self.spec_div(*o),
    ;

    fn abs(&self) -> (r: Self)
        ensures
            r == self.spec_abs(),
    ;

    fn less_than(&self, o: &Self) -> (r: bool)
        ensures
            r == self.spec_lt(*o),
    ;

    fn is_finite(&self) -> (r: bool)
        ensures
            r == self.spec_is_finite(),
    ;
}

/// A complex number `re + im·i`.
#[derive(Clone, Copy, Debug, PartialEq)]
pub struct Complex<F> {
    pub re: F,
    pub im: F,
}

impl<F: FloatLike> Complex<F> {
    /// The product, computed as `(a·c − b·d) + (a·d + b·c)i`.
    pub open spec fn spec_mul(self, o: Self) -> Self {
        Complex {
            re: self.re.spec_mul(o.re).spec_sub(self.im.spec_mul(o.im)),
            im: self.re.spec_mul(o.im).spec_add(self.im.spec_mul(o.re)),
        }
    }

    pub open spec fn spec_add(self, o: Self) -> Self {
        Complex { re: self.re.spec_add(o.re), im: self.im.spec_add(o.im) }
    }

    /// `z² + c`.
    pub open spec fn spec_square_plus(self, c: Self) -> Self {
        self.spec_mul(self).spec_add(c)
    }

    /// `re² + im²`.
    pub open spec fn spec_norm_sqr(self) -> F {
        self.re.spec_mul(self.re).spec_add(self.im.spec_mul(self.im))
    }

    pub open spec fn spec_is_finite(self) -> bool {
        self.re.spec_is_finite() && self.im.spec_is_finite()
    }

    pub fn new(re: F, im: F) -> (z: Self)
        ensures
            z == (Complex { re, im }),
    {
        Complex { re, im }
    }

    /// Zero, as the scalar type writes it.
    pub fn zero() -> (z: Self)
        ensures
            z == (Complex { re: F::spec_from_usize(0), im: F::spec_from_usize(0) }),
    {
        Complex { re: F::from_usize(0), im: F::from_usize(0) }
    }

    pub fn square_plus(&self, c: &Self) -> (r: Self)
        ensures
            r == self.spec_square_plus(*c),
    {
        let re = self.re.times(&self.re).minus(&self.im.times(&self.im));
        let im = self.re.times(&self.im).plus(&self.im.times(&self.re));
        Complex { re: re.plus(&c.re), im: im.plus(&c.im) }
    }

    pub fn norm_sqr(&self) -> (r: F)
        ensures
            r == self.spec_norm_sqr(),
    {
        self.re.times(&self.re).plus(&self.im.times(&self.im))
    }

    pub fn is_finite(&self) -> (r: bool)
        ensures
            r == self.spec_is_finite(),
    {
        self.re.is_finite() && self.im.is_finite()
    }
}

} // verus!
