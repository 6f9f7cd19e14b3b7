//! Iterated update rules: a state evolves under a per-pixel parameter.
use vstd::prelude::*;
use crate::scalar::{Complex, FloatLike};

verus! {

/// A discrete dynamical rule: an initial state and a step, both determined by a
/// per-pixel parameter that is built from a point of the plane.
pub trait Dynamics {
    type Scalar: FloatLike;

    type State;

    type Param;

    spec fn spec_param_from_xy(&self, point: (Self::Scalar, Self::Scalar)) -> Self::Param;

    spec fn spec_initial_state(&self, p: Self::Param) -> Self::State;

    spec fn spec_step(&self, x: Self::State, p: Self::Param) -> Self::State;

    fn param_from_xy(&self, point: (Self::Scalar, Self::Scalar)) -> (p: Self::Param)
        ensures
            p == self.spec_param_from_xy(point),
    ;

    fn initial_state(&self, p: &Self::Param) -> (s: Self::State)
        ensures
            s == self.spec_initial_state(*p),
    ;

    fn step(&self, x: &Self::State, p: &Self::Param) -> (s: Self::State)
        ensures
            s == self.spec_step(*x, *p),
    ;
}

/// The complex parameter at plane point `(x, y)` is `x + y·i`.
pub open spec fn complex_at<F>(point: (F, F)) -> Complex<F> {
    Complex { re: point.0, im: point.1 }
}

pub open spec fn complex_zero<F: FloatLike>() -> Complex<F> {
    Complex { re: F::spec_from_usize(0), im: F::spec_from_usize(0) }
}

/// `z ↦ z² + c`, starting from zero.
pub struct Mandelbrot<F> {
    marker: std::marker::PhantomData<F>,
}

impl<F: FloatLike> Mandelbrot<F> {
    pub closed spec fn spec_new() -> Self {
        Mandelbrot { marker: std::marker::PhantomData }
    }

    pub fn new() -> (m: Self)
        ensures
            m == Self::spec_new(),
    {
        Mandelbrot { marker: std::marker::PhantomData }
    }
}

impl<F: FloatLike> Dynamics for Mandelbrot<F> {
    type Scalar = F;

    type State = Complex<F>;

    type Param = Complex<F>;

    open spec fn spec_param_from_xy(&self, point: (F, F)) -> Complex<F> {
        complex_at(point)
    }

    open spec fn spec_initial_state(&self, p: Complex<F>) -> Complex<F> {
        complex_zero()
    }

    open spec fn spec_step(&self, z: Complex<F>, c: Complex<F>) -> Complex<F> {
        z.spec_square_plus(c)
    }

    fn param_from_xy(&self, point: (F, F)) -> (p: Complex<F>) {
        Complex { re: point.0, im: point.1 }
    }

    fn initial_state(&self, p: &Complex<F>) -> (s: Complex<F>) {
        Complex::zero()
    }

    fn step(&self, z: &Complex<F>, c: &Complex<F>) -> (s: Complex<F>) {
        z.square_plus(c)
    }
}

/// `z ↦ z² + c` for a constant `c`, starting from the pixel's own point.
pub struct Julia<F> {
    pub c: Complex<F>,
}

impl<F: FloatLike> Julia<F> {
    pub fn new(c: Complex<F>) -> (j: Self)
        ensures
            j.c == c,
    {
        Julia { c }
    }
}

impl<F: FloatLike> Dynamics for Julia<F> {
    type Scalar = F;

    type State = Complex<F>;

    type Param = Complex<F>;

    open spec fn spec_param_from_xy(&self, point: (F, F)) -> Complex<F> {
        complex_at(point)
    }

    open spec fn spec_initial_state(&self, p: Complex<F>) -> Complex<F> {
        p
    }

    open spec fn spec_step(&self, z: Complex<F>, p: Complex<F>) -> Complex<F> {
        z.spec_square_plus(self.c)
    }

    fn param_from_xy(&self, point: (F, F)) -> (p: Complex<F>) {
        Complex { re: point.0, im: point.1 }
    }

    fn initial_state(&self, p: &Complex<F>) -> (s: Complex<F>) {
        *p
    }

    fn step(&self, z: &Complex<F>, p: &Complex<F>) -> (s: Complex<F>) {
        z.square_plus(&self.c)
    }
}

/// `z ↦ (|Re z| + |Im z|·i)² + c`, starting from zero.
pub struct BurningShip<F> {
    marker: std::marker::PhantomData<F>,
}

impl<F: FloatLike> BurningShip<F> {
    pub fn new() -> (b: Self) {
        BurningShip { marker: std::marker::PhantomData }
    }
}

impl<F: FloatLike> Dynamics for BurningShip<F> {
    type Scalar = F;

    type State = Complex<F>;

    type Param = Complex<F>;

    open spec fn spec_param_from_xy(&self, point: (F, F)) -> Complex<F> {
        complex_at(point)
    }

    open spec fn spec_initial_state(&self, p: Complex<F>) -> Complex<F> {
        complex_zero()
    }

    open spec fn spec_step(&self, z: Complex<F>, c: Complex<F>) -> Complex<F> {
        Complex { re: z.re.spec_abs(), im: z.im.spec_abs() }.spec_square_plus(c)
    }

    fn param_from_xy(&self, point: (F, F)) -> (p: Complex<F>) {
        Complex { re: point.0, im: point.1 }
    }

    fn initial_state(&self, p: &Complex<F>) -> (s: Complex<F>) {
        Complex::zero()
    }

    fn step(&self, z: &Complex<F>, c: &Complex<F>) -> (s: Complex<F>) {
        let folded = Complex { re: z.re.abs(), im: z.im.abs() };
        folded.square_plus(c)
    }
}

/// A Julia rule with constant zero steps exactly as the Mandelbrot rule does
/// with parameter zero.
pub proof fn lemma_julia_zero_is_mandelbrot_at_zero<F: FloatLike>(
    j: Julia<F>,
    m: Mandelbrot<F>,
    z: Complex<F>,
    p: Complex<F>,
)
    requires
        j.c == complex_zero::<F>(),
    ensures
        j.spec_step(z, p) == m.spec_step(z, complex_zero::<F>()),
{
}

} // verus!
