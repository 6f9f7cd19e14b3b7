//! Colorings: from a per-pixel value to a color.
use vstd::prelude::*;
use crate::color::Color;
use crate::color_map::ColorMap;
use crate::escape::EscapeResult;
use crate::normalize::{NormalizeEscInfo, Ratio};
use crate::palette::Palette;

verus! {

/// Colors a per-pixel value.
pub trait Coloring<T> {
    spec fn spec_color(&self, value: T) -> Color;

    fn color(&self, value: T) -> (c: Color)
        ensures
            c == self.spec_color(value),
    ;
}

/// Colors an iteration count `n` with entry `⌊n·len/max_iter⌋` of a palette,
/// clamped to the last entry.
pub struct PaletteColoring {
    pub palette: Palette,
    pub max_iter: usize,
}

/// The entry that `PaletteColoring` picks for count `n`: `⌊n·len/max_iter⌋`,
/// clamped to `len − 1` (the last entry where the budget is zero).
pub open spec fn count_index(n: nat, len: nat, max_iter: nat) -> nat {
    if max_iter == 0 || n * len / max_iter >= len {
        (len - 1) as nat
    } else {
        n * len / max_iter
    }
}

impl PaletteColoring {
    pub fn new(palette: Palette, max_iter: usize) -> (p: Self)
        ensures
            p.palette@ == palette@,
            p.max_iter == max_iter,
    {
        PaletteColoring { palette, max_iter }
    }
}

impl Coloring<usize> for PaletteColoring {
    open spec fn spec_color(&self, n: usize) -> Color {
        let len = self.palette@.len();
        if len == 0 {
            Color::rgba(0, 0, 0, 255)
        } else {
            self.palette@[count_index(n as nat, len, self.max_iter as nat) as int]
        }
    }

    fn color(&self, n: usize) -> (c: Color) {
        let len = self.palette.len();
        if len == 0 {
            return Color::black();
        }
        let mut idx: usize = len - 1;
        if self.max_iter > 0 {
            assert((n as u128) * (len as u128) <= 0xffff_ffff_ffff_ffffu128
                * 0xffff_ffff_ffff_ffffu128) by (nonlinear_arith)
                requires
                    n <= 0xffff_ffff_ffff_ffffu128,
                    len <= 0xffff_ffff_ffff_ffffu128,
            ;
            let q: u128 = (n as u128) * (len as u128) / (self.max_iter as u128);
            if q < len as u128 {
                idx = q as usize;
            }
        }
        *self.palette.get(idx).unwrap()
    }
}

/// Colors an iteration count through the cumulative distribution of the counts
/// it was prepared from: entry `⌊cdf(n)·(len − 1)⌋` of a palette.
pub struct HistogramColoring {
    cdf: Vec<usize>,
    total: usize,
    palette: Palette,
}

/// How many of `values` are at most `i`.
pub open spec fn count_at_most(values: Seq<usize>, i: nat) -> nat
    decreases values.len(),
{
    if values.len() == 0 {
        0
    } else {
        count_at_most(values.drop_last(), i) + if values.last() <= i {
            1nat
        } else {
            0nat
        }
    }
}

proof fn lemma_count_at_most_bounded(values: Seq<usize>, i: nat)
    ensures
        count_at_most(values, i) <= values.len(),
    decreases values.len(),
{
    if values.len() > 0 {
        lemma_count_at_most_bounded(values.drop_last(), i);
    }
}

impl HistogramColoring {
    /// Bin `i` holds how many counts are at most `i`, for `i` in `0..=max_iter`.
    pub closed spec fn cumulative_counts(&self) -> Seq<usize> {
        self.cdf@
    }

    /// How many counts the coloring was prepared from.
    pub closed spec fn count_total(&self) -> usize {
        self.total
    }

    pub closed spec fn colors(&self) -> Seq<Color> {
        self.palette@
    }

    /// Builds the cumulative distribution of `values` over bins `0..=max_iter`.
    pub fn prepare(values: &[usize], max_iter: usize, palette: Palette) -> (h: Self)
        requires
            max_iter < usize::MAX,
        ensures
            h.count_total() == values@.len(),
            h.colors() == palette@,
            h.cumulative_counts() == Seq::new(
                (max_iter + 1) as nat,
                |i: int| count_at_most(values@, i as nat) as usize,
            ),
    {
        let nv = values.len();
        let mut cdf: Vec<usize> = Vec::with_capacity(max_iter + 1);
        let mut i: usize = 0;
        while i <= max_iter
            invariant
                i <= max_iter + 1,
                max_iter < usize::MAX,
                nv == values@.len(),
                cdf@.len() == i,
                forall|j: int|
                    0 <= j < i ==> #[trigger] cdf@[j] == count_at_most(values@, j as nat) as usize,
            decreases max_iter + 1 - i,
        {
            let mut c: usize = 0;
            let mut k: usize = 0;
            while k < nv
                invariant
                    k <= nv,
                    nv == values@.len(),
                    c == count_at_most(values@.take(k as int), i as nat),
                decreases nv - k,
            {
                proof {
                    assert(values@.take(k + 1).drop_last() =~= values@.take(k as int));
                    lemma_count_at_most_bounded(values@.take(k as int), i as nat);
                }
                if values[k] <= i {
                    c = c + 1;
                }
                k = k + 1;
            }
            assert(values@.take(nv as int) =~= values@);
            cdf.push(c);
            i = i + 1;
        }
        assert(cdf@ =~= Seq::new(
            (max_iter + 1) as nat,
            |i: int| count_at_most(values@, i as nat) as usize,
        ));
        HistogramColoring { cdf, total: nv, palette }
    }
}

/// The entry `⌊cdf·(len − 1)⌋` for a cumulative count `c` of `total`, clamped
/// to the last entry; the last entry where nothing was counted.
pub open spec fn cdf_index(c: nat, total: nat, len: nat) -> nat {
    if total == 0 || c * (len - 1) as nat / total >= len {
        (len - 1) as nat
    } else {
        c * (len - 1) as nat / total
    }
}

impl Coloring<usize> for HistogramColoring {
    /// Black where the palette is empty or `n` lies past the last bin.
    open spec fn spec_color(&self, n: usize) -> Color {
        let len = self.colors().len();
        if len == 0 || n >= self.cumulative_counts().len() {
            Color::rgba(0, 0, 0, 255)
        } else {
            self.colors()[cdf_index(
                self.cumulative_counts()[n as int] as nat,
                self.count_total() as nat,
                len,
            ) as int]
        }
    }

    fn color(&self, n: usize) -> (c: Color) {
        let len = self.palette.len();
        if len == 0 || n >= self.cdf.len() {
            return Color::black();
        }
        let mut idx: usize = len - 1;
        if self.total > 0 {
            let cn: u128 = self.cdf[n] as u128;
            let m: u128 = (len - 1) as u128;
            assert(cn * m <= 0xffff_ffff_ffff_ffffu128 * 0xffff_ffff_ffff_ffffu128)
                by (nonlinear_arith)
                requires
                    cn <= 0xffff_ffff_ffff_ffffu128,
                    m <= 0xffff_ffff_ffff_ffffu128,
            ;
            let q: u128 = cn * m / (self.total as u128);
            if q < len as u128 {
                idx = q as usize;
            }
        }
        *self.palette.get(idx).unwrap()
    }
}

/// A normalizer followed by a color map: `apply(r) = map(normalize(r))`.
pub struct NormalizedColoring<N, M> {
    pub normalizer: N,
    pub color_map: M,
}

impl<N: NormalizeEscInfo<EscapeResult>, M: ColorMap> NormalizedColoring<N, M> {
    pub open spec fn spec_apply(&self, r: EscapeResult) -> Color {
        self.color_map.spec_map(self.normalizer.spec_normalize(r))
    }

    pub fn new(normalizer: N, color_map: M) -> (c: Self)
        ensures
            c.normalizer == normalizer,
            c.color_map == color_map,
    {
        NormalizedColoring { normalizer, color_map }
    }

    pub fn apply(&self, r: &EscapeResult) -> (c: Color)
        ensures
            c == self.spec_apply(*r),
    {
        let t: Ratio = self.normalizer.normalize(r);
        self.color_map.map(t)
    }
}

} // verus!
