//! Normalizers: from escape results to a value of the unit interval.
use vstd::prelude::*;
use crate::escape::EscapeResult;

verus! {

/// A non-negative fraction `num / den`; normalizers produce one in `[0, 1]`.
#[derive(Clone, Copy, Debug, PartialEq, Eq, Structural)]
pub struct Ratio {
    pub num: usize,
    pub den: usize,
}

impl Ratio {
    /// The fraction lies in `[0, 1]`.
    pub open spec fn in_unit(self) -> bool {
        self.den > 0 && self.num <= self.den
    }

    /// `self ≤ o` as fractions.
    pub open spec fn spec_le(self, o: Ratio) -> bool {
        self.num * o.den <= o.num * self.den
    }

    pub open spec fn one() -> Ratio {
        Ratio { num: 1, den: 1 }
    }

    pub open spec fn zero() -> Ratio {
        Ratio { num: 0, den: 1 }
    }
}

/// Maps an escape result to `[0, 1]`, possibly after a frame-wide `prepare`
/// over every result of the frame.
pub trait NormalizeEscInfo<T>: Sized {
    spec fn spec_max_iter(&self) -> usize;

    spec fn spec_normalize(&self, value: T) -> Ratio;

    /// What `normalize` gives for `value` once `prepare` has seen `batch`.
    spec fn spec_prepared_normalize(&self, batch: Seq<T>, value: T) -> Ratio;

    fn max_iter(&self) -> (r: usize)
        ensures
            r == self.spec_max_iter(),
    ;

    fn prepare(&mut self, values: &[T])
        ensures
            final(self).spec_max_iter() == old(self).spec_max_iter(),
            forall|v: T| #[trigger]
                final(self).spec_normalize(v) == old(self).spec_prepared_normalize(values@, v),
    ;

    fn normalize(&self, value: &T) -> (r: Ratio)
        ensures
            r == self.spec_normalize(*value),
            r.in_unit(),
    ;
}

/// `iter / max_iter`, the same for every frame.
pub struct NormalizeWithMaxIter {
    pub max_iter: usize,
}

/// `iter / max_iter`, saturating at one (and one where the budget is zero).
pub open spec fn linear_ratio(iter: usize, max_iter: usize) -> Ratio {
    if max_iter == 0 || iter >= max_iter {
        Ratio::one()
    } else {
        Ratio { num: iter, den: max_iter }
    }
}

impl NormalizeEscInfo<EscapeResult> for NormalizeWithMaxIter {
    open spec fn spec_max_iter(&self) -> usize {
        self.max_iter
    }

    open spec fn spec_normalize(&self, value: EscapeResult) -> Ratio {
        linear_ratio(value.iter, self.max_iter)
    }

    open spec fn spec_prepared_normalize(&self, batch: Seq<EscapeResult>, value: EscapeResult) -> Ratio {
        linear_ratio(value.iter, self.max_iter)
    }

    fn max_iter(&self) -> (r: usize) {
        self.max_iter
    }

    fn prepare(&mut self, values: &[EscapeResult]) {
    }

    fn normalize(&self, value: &EscapeResult) -> (r: Ratio) {
        if self.max_iter == 0 || value.iter >= self.max_iter {
            Ratio { num: 1, den: 1 }
        } else {
            Ratio { num: value.iter, den: self.max_iter }
        }
    }
}

/// The number of escaped results in `values` whose iteration is `j`.
pub open spec fn bin_count(values: Seq<EscapeResult>, j: nat) -> nat
    decreases values.len(),
{
    if values.len() == 0 {
        0
    } else {
        let last = values.last();
        bin_count(values.drop_last(), j) + if last.escaped && last.iter == j {
            1nat
        } else {
            0nat
        }
    }
}

/// The histogram of escaped results summed over bins `0..=i`.
pub open spec fn cumulative(values: Seq<EscapeResult>, i: nat) -> nat
    decreases i,
{
    if i == 0 {
        bin_count(values, 0)
    } else {
        cumulative(values, (i - 1) as nat) + bin_count(values, i)
    }
}

/// The cumulative distribution of a frame at iteration `i`: the share of its
/// escaped results (iterations `0..=max_iter`) that escaped at or before `i`;
/// zero where the frame has no such result.
pub open spec fn equalized_cdf(batch: Seq<EscapeResult>, max_iter: usize, i: nat) -> Ratio {
    let total = cumulative(batch, max_iter as nat);
    if total == 0 {
        Ratio::zero()
    } else {
        Ratio { num: cumulative(batch, i) as usize, den: total as usize }
    }
}

/// The histogram-equalized value of `value` for a frame `batch`: one at or past
/// the budget, else the frame's cumulative distribution at `value.iter`.
pub open spec fn equalized(batch: Seq<EscapeResult>, max_iter: usize, value: EscapeResult) -> Ratio {
    if value.iter >= max_iter {
        Ratio::one()
    } else {
        equalized_cdf(batch, max_iter, value.iter as nat)
    }
}

/// Histogram equalization: the cumulative distribution of the escape
/// iterations of the whole frame, rebuilt by each `prepare`.
pub struct NormalizeWithHistgram {
    max_iter: usize,
    cdf: Vec<usize>,
}

impl NormalizeWithHistgram {
    /// Bins `0..=max_iter`: the cumulative counts, and their total last.
    pub closed spec fn counts(&self) -> Seq<usize> {
        self.cdf@
    }

    pub closed spec fn budget(&self) -> usize {
        self.max_iter
    }

    #[verifier::type_invariant]
    spec fn inv(&self) -> bool {
        &&& self.cdf@.len() == self.max_iter + 1
        &&& forall|i: int, j: int|
            0 <= i <= j <= self.max_iter ==> #[trigger] self.cdf@[i] <= #[trigger] self.cdf@[j]
    }

    /// The share of the prepared frame's escaped results at iteration `i` or
    /// below; zero before any escaped result was seen.
    pub open spec fn spec_cdf(&self, i: int) -> Ratio {
        let total = self.counts()[self.budget() as int];
        if total == 0 {
            Ratio::zero()
        } else {
            Ratio { num: self.counts()[i], den: total }
        }
    }

    pub fn new(max_iter: usize) -> (h: Self)
        requires
            max_iter < usize::MAX,
        ensures
            h.budget() == max_iter,
            h.counts() == Seq::new((max_iter + 1) as nat, |i: int| 0usize),
    {
        let cdf = vec![0usize; max_iter + 1];
        assert(cdf@ =~= Seq::new((max_iter + 1) as nat, |i: int| 0usize));
        NormalizeWithHistgram { max_iter, cdf }
    }

    /// The cumulative distribution at iteration `i`, for `i` in `0..=max_iter`.
    pub fn cdf_at(&self, i: usize) -> (r: Option<Ratio>)
        ensures
            r == (if i <= self.budget() {
                Some(self.spec_cdf(i as int))
            } else {
                None
            }),
    {
        proof {
            use_type_invariant(self);
        }
        if i > self.max_iter {
            return None;
        }
        let total = self.cdf[self.max_iter];
        if total == 0 {
            Some(Ratio { num: 0, den: 1 })
        } else {
            Some(Ratio { num: self.cdf[i], den: total })
        }
    }
}

proof fn lemma_cumulative_monotone(values: Seq<EscapeResult>, i: nat, j: nat)
    requires
        i <= j,
    ensures
        cumulative(values, i) <= cumulative(values, j),
    decreases j,
{
    if i < j {
        lemma_cumulative_monotone(values, i, (j - 1) as nat);
    }
}

proof fn lemma_cumulative_drop_last(values: Seq<EscapeResult>, i: nat)
    requires
        values.len() > 0,
    ensures
        cumulative(values, i) == cumulative(values.drop_last(), i) + if values.last().escaped
            && values.last().iter <= i {
            1nat
        } else {
            0nat
        },
    decreases i,
{
    if i > 0 {
        lemma_cumulative_drop_last(values, (i - 1) as nat);
    }
}

proof fn lemma_cumulative_bounded(values: Seq<EscapeResult>, i: nat)
    ensures
        cumulative(values, i) <= values.len(),
    decreases values.len(),
{
    if values.len() == 0 {
        lemma_cumulative_empty(values, i);
    } else {
        lemma_cumulative_drop_last(values, i);
        lemma_cumulative_bounded(values.drop_last(), i);
    }
}

proof fn lemma_cumulative_empty(values: Seq<EscapeResult>, i: nat)
    requires
        values.len() == 0,
    ensures
        cumulative(values, i) == 0,
    decreases i,
{
    if i > 0 {
        lemma_cumulative_empty(values, (i - 1) as nat);
    }
}

proof fn lemma_bin_count_bounded(values: Seq<EscapeResult>, j: nat)
    ensures
        bin_count(values, j) <= values.len(),
    decreases values.len(),
{
    if values.len() > 0 {
        lemma_bin_count_bounded(values.drop_last(), j);
    }
}

impl NormalizeEscInfo<EscapeResult> for NormalizeWithHistgram {
    open spec fn spec_max_iter(&self) -> usize {
        self.budget()
    }

    open spec fn spec_normalize(&self, value: EscapeResult) -> Ratio {
        if value.iter >= self.budget() {
            Ratio::one()
        } else {
            self.spec_cdf(value.iter as int)
        }
    }

    open spec fn spec_prepared_normalize(&self, batch: Seq<EscapeResult>, value: EscapeResult) -> Ratio {
        equalized(batch, self.budget(), value)
    }

    fn max_iter(&self) -> (r: usize) {
        self.max_iter
    }

    fn prepare(&mut self, values: &[EscapeResult])
        ensures
            final(self).counts() == Seq::new(
                (old(self).budget() + 1) as nat,
                |i: int| cumulative(values@, i as nat) as usize,
            ),
    {
        proof {
            use_type_invariant(&*self);
        }
        let max_iter = self.max_iter;
        let bins = self.cdf.len();
        let mut hist = vec![0usize; bins];
        let mut k: usize = 0;
        while k < values.len()
            invariant
                k <= values@.len(),
                hist@.len() == max_iter + 1,
                forall|j: int|
                    0 <= j <= max_iter ==> #[trigger] hist@[j] == bin_count(
                        values@.take(k as int),
                        j as nat,
                    ),
            decreases values@.len() - k,
        {
            let r = values[k];
            proof {
                assert(values@.take(k + 1).drop_last() =~= values@.take(k as int));
                assert forall|j: int| 0 <= j <= max_iter implies #[trigger] bin_count(
                    values@.take(k as int),
                    j as nat,
                ) <= k by {
                    lemma_bin_count_bounded(values@.take(k as int), j as nat);
                }
            }
            if r.escaped && r.iter <= max_iter {
                hist.set(r.iter, hist[r.iter] + 1);
            }
            k = k + 1;
        }
        assert(values@.take(values@.len() as int) =~= values@);
        let nv = values.len();
        let mut cdf: Vec<usize> = Vec::with_capacity(bins);
        let mut acc: usize = 0;
        let mut i: usize = 0;
        while i <= max_iter
            invariant
                i <= max_iter + 1,
                max_iter < usize::MAX,
                values@.len() == nv,
                hist@.len() == max_iter + 1,
                forall|j: int|
                    0 <= j <= max_iter ==> #[trigger] hist@[j] == bin_count(values@, j as nat),
                cdf@.len() == i,
                forall|j: int| 0 <= j < i ==> #[trigger] cdf@[j] == cumulative(values@, j as nat),
                i > 0 ==> acc == cumulative(values@, (i - 1) as nat),
                i == 0 ==> acc == 0,
            decreases max_iter + 1 - i,
        {
            proof {
                lemma_cumulative_monotone(values@, i as nat, max_iter as nat);
                lemma_cumulative_bounded(values@, max_iter as nat);
                if i > 0 {
                    lemma_cumulative_monotone(values@, (i - 1) as nat, i as nat);
                }
                assert(acc + hist@[i as int] == cumulative(values@, i as nat));
            }
            acc = acc + hist[i];
            cdf.push(acc);
            i = i + 1;
        }
        proof {
            assert forall|a: int, b: int| 0 <= a <= b <= max_iter implies #[trigger] cdf@[a]
                <= #[trigger] cdf@[b] by {
                lemma_cumulative_monotone(values@, a as nat, b as nat);
            }
        }
        assert(cdf@ =~= Seq::new((max_iter + 1) as nat, |i: int| cumulative(values@, i as nat) as usize));
        self.cdf = cdf;
    }

    fn normalize(&self, value: &EscapeResult) -> (r: Ratio) {
        proof {
            use_type_invariant(self);
        }
        if value.iter >= self.max_iter {
            return Ratio { num: 1, den: 1 };
        }
        let total = self.cdf[self.max_iter];
        if total == 0 {
            Ratio { num: 0, den: 1 }
        } else {
            Ratio { num: self.cdf[value.iter], den: total }
        }
    }
}

/// The cumulative distribution never decreases as the iteration grows.
pub proof fn lemma_cdf_monotone(batch: Seq<EscapeResult>, max_iter: usize, i: nat, j: nat)
    requires
        i <= j <= max_iter,
        batch.len() <= usize::MAX,
    ensures
        equalized_cdf(batch, max_iter, i).spec_le(equalized_cdf(batch, max_iter, j)),
        equalized_cdf(batch, max_iter, j).in_unit(),
{
    let total = cumulative(batch, max_iter as nat);
    lemma_cumulative_bounded(batch, max_iter as nat);
    lemma_cumulative_monotone(batch, i, j);
    lemma_cumulative_monotone(batch, j, max_iter as nat);
    if total > 0 {
        let a = cumulative(batch, i);
        let b = cumulative(batch, j);
        assert(a * total <= b * total) by (nonlinear_arith)
            requires
                a <= b,
        ;
    }
}

/// The cumulative distribution reaches one at the budget, once the frame holds
/// an escaped result.
pub proof fn lemma_cdf_full_at_budget(batch: Seq<EscapeResult>, max_iter: usize)
    requires
        cumulative(batch, max_iter as nat) > 0,
    ensures
        equalized_cdf(batch, max_iter, max_iter as nat).num == equalized_cdf(
            batch,
            max_iter,
            max_iter as nat,
        ).den,
{
}

} // verus!
