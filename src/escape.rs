//! Escape conditions and the count-bounded evaluator.
use vstd::prelude::*;
use crate::dynamics::Dynamics;
use crate::scalar::{Complex, FloatLike};

verus! {

/// How one point fared: whether its orbit escaped, and at which iteration
/// (the budget itself where it did not).
#[derive(Clone, Copy, Debug, PartialEq, Eq, Structural)]
pub struct EscapeResult {
    pub escaped: bool,
    pub iter: usize,
}

/// A predicate on states: has this state left the bounded region?
pub trait EscapeCondition<S> {
    spec fn spec_escaped(&self, s: S) -> bool;

    fn escaped(&self, s: &S) -> (r: bool)
        ensures
            r == self.spec_escaped(*s),
    ;
}

/// Escapes once `|z|² > r²`, or once the state is no longer finite.
pub struct EscapeByNorm<F> {
    pub escape_radius: F,
}

impl<F: FloatLike> EscapeCondition<Complex<F>> for EscapeByNorm<F> {
    open spec fn spec_escaped(&self, z: Complex<F>) -> bool {
        !z.spec_is_finite() || self.escape_radius.spec_mul(self.escape_radius).spec_lt(
            z.spec_norm_sqr(),
        )
    }

    fn escaped(&self, z: &Complex<F>) -> (r: bool) {
        !z.is_finite() || self.escape_radius.times(&self.escape_radius).less_than(&z.norm_sqr())
    }
}

/// Escapes once the state leaves the rectangle `x_range × y_range`, or is no
/// longer finite.
pub struct EscapeByBox<F> {
    pub x_range: (F, F),
    pub y_range: (F, F),
}

impl<F: FloatLike> EscapeCondition<Complex<F>> for EscapeByBox<F> {
    open spec fn spec_escaped(&self, z: Complex<F>) -> bool {
        !z.spec_is_finite() || z.re.spec_lt(self.x_range.0) || self.x_range.1.spec_lt(z.re)
            || z.im.spec_lt(self.y_range.0) || self.y_range.1.spec_lt(z.im)
    }

    fn escaped(&self, z: &Complex<F>) -> (r: bool) {
        !z.is_finite() || z.re.less_than(&self.x_range.0) || self.x_range.1.less_than(&z.re)
            || z.im.less_than(&self.y_range.0) || self.y_range.1.less_than(&z.im)
    }
}

/// Stops once `|z|² < ε²` (the orbit has converged), or once the state is no
/// longer finite.
pub struct Converged<F> {
    pub eps: F,
}

impl<F: FloatLike> EscapeCondition<Complex<F>> for Converged<F> {
    open spec fn spec_escaped(&self, z: Complex<F>) -> bool {
        !z.spec_is_finite() || z.spec_norm_sqr().spec_lt(self.eps.spec_mul(self.eps))
    }

    fn escaped(&self, z: &Complex<F>) -> (r: bool) {
        !z.is_finite() || z.norm_sqr().less_than(&self.eps.times(&self.eps))
    }
}

/// Turns the dynamics at one parameter into an escape result.
pub trait EscapeEvaluator<D: Dynamics> {
    spec fn spec_evaluate(&self, d: D, p: D::Param) -> EscapeResult;

    fn evaluate(&self, d: &D, p: &D::Param) -> (r: EscapeResult)
        ensures
            r == self.spec_evaluate(*d, *p),
    ;
}

/// The state after `k` steps from the initial state.
pub open spec fn orbit<D: Dynamics>(d: D, p: D::Param, k: nat) -> D::State
    decreases k,
{
    if k == 0 {
        d.spec_initial_state(p)
    } else {
        d.spec_step(orbit(d, p, (k - 1) as nat), p)
    }
}

/// The first iteration in `i..=max_iter` whose state meets the condition, or the
/// budget without escape.
pub open spec fn first_escape_from<D: Dynamics, C: EscapeCondition<D::State>>(
    d: D,
    cond: C,
    p: D::Param,
    i: nat,
    max_iter: usize,
) -> EscapeResult
    decreases max_iter + 1 - i,
{
    if i > max_iter {
        EscapeResult { escaped: false, iter: max_iter }
    } else if cond.spec_escaped(orbit(d, p, i)) {
        EscapeResult { escaped: true, iter: i as usize }
    } else {
        first_escape_from(d, cond, p, i + 1, max_iter)
    }
}

/// The count-bounded escape time: the first of iterations `1..=max_iter` at
/// which the condition holds, or `max_iter` without escape.
pub open spec fn escape_time<D: Dynamics, C: EscapeCondition<D::State>>(
    d: D,
    cond: C,
    p: D::Param,
    max_iter: usize,
) -> EscapeResult {
    first_escape_from(d, cond, p, 1, max_iter)
}

/// Iterates the dynamics at most `max_iter` times, stopping at the first state
/// that meets `condition`.
pub struct EscapeByCount<C> {
    pub max_iter: usize,
    pub condition: C,
}

impl<D: Dynamics, C: EscapeCondition<D::State>> EscapeEvaluator<D> for EscapeByCount<C> {
    open spec fn spec_evaluate(&self, d: D, p: D::Param) -> EscapeResult {
        escape_time(d, self.condition, p, self.max_iter)
    }

    fn evaluate(&self, d: &D, p: &D::Param) -> (r: EscapeResult) {
        let mut state = d.initial_state(p);
        let mut k: usize = 0;
        while k < self.max_iter
            invariant
                k <= self.max_iter,
                state == orbit(*d, *p, k as nat),
                escape_time(*d, self.condition, *p, self.max_iter) == first_escape_from(
                    *d,
                    self.condition,
                    *p,
                    (k + 1) as nat,
                    self.max_iter,
                ),
            decreases self.max_iter - k,
        {
            state = d.step(&state, p);
            k = k + 1;
            if self.condition.escaped(&state) {
                return EscapeResult { escaped: true, iter: k };
            }
        }
        EscapeResult { escaped: false, iter: self.max_iter }
    }
}

proof fn lemma_first_escape_budget<D: Dynamics, C: EscapeCondition<D::State>>(
    d: D,
    cond: C,
    p: D::Param,
    i: nat,
    m1: usize,
    m2: usize,
)
    requires
        m1 <= m2,
        first_escape_from(d, cond, p, i, m1).escaped,
    ensures
        first_escape_from(d, cond, p, i, m2) == first_escape_from(d, cond, p, i, m1),
    decreases m1 + 1 - i,
{
    if i <= m1 && !cond.spec_escaped(orbit(d, p, i)) {
        lemma_first_escape_budget(d, cond, p, i + 1, m1, m2);
    }
}

/// Raising the iteration budget keeps an escaped point escaped, at the same
/// iteration.
pub proof fn lemma_escape_monotone<D: Dynamics, C: EscapeCondition<D::State>>(
    d: D,
    cond: C,
    p: D::Param,
    m1: usize,
    m2: usize,
)
    requires
        m1 <= m2,
        escape_time(d, cond, p, m1).escaped,
    ensures
        escape_time(d, cond, p, m2) == escape_time(d, cond, p, m1),
{
    lemma_first_escape_budget(d, cond, p, 1, m1, m2);
}

} // verus!
