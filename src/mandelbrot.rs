//! A self-contained Mandelbrot renderer: a fixed view, escape radius two, and
//! a palette indexed by the escape count.
use vstd::prelude::*;
use crate::color::Color;
use crate::coloring::count_index;
use crate::dynamics;
use crate::escape::{escape_time, EscapeByCount, EscapeByNorm, EscapeEvaluator};
use crate::palette::Palette;
use crate::scalar::{Complex, FloatLike};

verus! {

/// A `w × h` view of the Mandelbrot set centred on `center`, `extent` plane
/// units wide and high.
pub struct Mandelbrot<F> {
    image_size: (usize, usize),
    center: Complex<F>,
    extent: (F, F),
    mandel_count_max: usize,
    palette: Palette,
}

impl<F: FloatLike> Mandelbrot<F> {
    pub closed spec fn size(&self) -> (usize, usize) {
        self.image_size
    }

    pub closed spec fn view_center(&self) -> Complex<F> {
        self.center
    }

    pub closed spec fn view_extent(&self) -> (F, F) {
        self.extent
    }

    pub closed spec fn count_max(&self) -> usize {
        self.mandel_count_max
    }

    pub closed spec fn colors(&self) -> Seq<Color> {
        self.palette@
    }

    /// `(center − extent/2, center + extent/2)` along one axis.
    pub open spec fn spec_span(c: F, e: F) -> (F, F) {
        let half = e.spec_div(F::spec_from_usize(2));
        (c.spec_sub(half), c.spec_add(half))
    }

    /// The point of pixel `(x, y)`; row 0 lies at the largest imaginary part.
    pub open spec fn spec_complex_at(&self, x: usize, y: usize) -> Complex<F> {
        let (re_min, re_max) = Self::spec_span(self.view_center().re, self.view_extent().0);
        let (im_min, im_max) = Self::spec_span(self.view_center().im, self.view_extent().1);
        let tx = F::spec_from_usize(x).spec_div(F::spec_from_usize(self.size().0));
        let ty = F::spec_from_usize(y).spec_div(F::spec_from_usize(self.size().1));
        Complex {
            re: re_min.spec_add(tx.spec_mul(re_max.spec_sub(re_min))),
            im: im_max.spec_add(ty.spec_mul(im_min.spec_sub(im_max))),
        }
    }

    /// The escape count of `c` under `z ↦ z² + c` with `|z|² > 4`, at most the budget.
    pub open spec fn spec_count(&self, c: Complex<F>) -> usize {
        escape_time(
            dynamics::Mandelbrot::<F>::spec_new(),
            EscapeByNorm { escape_radius: F::spec_from_usize(2) },
            c,
            self.count_max(),
        ).iter
    }

    /// The escape count of the pixel at raster index `i`.
    pub open spec fn spec_count_at(&self, i: int) -> usize {
        let w = self.size().0 as int;
        self.spec_count(self.spec_complex_at((i % w) as usize, (i / w) as usize))
    }

    /// The palette entry for count `n`, if the palette has any.
    pub open spec fn spec_color_of(&self, n: usize) -> Option<Color> {
        let len = self.colors().len();
        if len == 0 {
            None
        } else {
            Some(self.colors()[count_index(n as nat, len, self.count_max() as nat) as int])
        }
    }

    pub fn new(
        image_size: (usize, usize),
        center: Complex<F>,
        extent: (F, F),
        max_count: usize,
        palette: Palette,
    ) -> (m: Self)
        ensures
            m.size() == image_size,
            m.view_center() == center,
            m.view_extent() == extent,
            m.count_max() == max_count,
            m.colors() == palette@,
    {
        Mandelbrot { image_size, center, extent, mandel_count_max: max_count, palette }
    }

    /// `(width, height)` in pixels.
    pub fn image_size(&self) -> (s: (usize, usize))
        ensures
            s == self.size(),
    {
        self.image_size
    }

    fn span(c: F, e: F) -> (r: (F, F))
        ensures
            r == Self::spec_span(c, e),
    {
        let half = e.divided_by(&F::from_usize(2));
        (c.minus(&half), c.plus(&half))
    }

    fn re_extent(&self) -> (r: (F, F))
        ensures
            r == Self::spec_span(self.view_center().re, self.view_extent().0),
    {
        Self::span(self.center.re, self.extent.0)
    }

    fn im_extent(&self) -> (r: (F, F))
        ensures
            r == Self::spec_span(self.view_center().im, self.view_extent().1),
    {
        Self::span(self.center.im, self.extent.1)
    }

    fn get_complex_at(&self, point: (usize, usize), re_extent: (F, F), im_extent: (F, F)) -> (z:
        Complex<F>)
        requires
            re_extent == Self::spec_span(self.view_center().re, self.view_extent().0),
            im_extent == Self::spec_span(self.view_center().im, self.view_extent().1),
        ensures
            z == self.spec_complex_at(point.0, point.1),
    {
        let (x, y) = point;
        let (re_min, re_max) = re_extent;
        let (im_min, im_max) = im_extent;
        let (w_px, h_px) = self.image_size;
        let t = F::from_usize(x).divided_by(&F::from_usize(w_px));
        let re = re_min.plus(&t.times(&re_max.minus(&re_min)));
        let t = F::from_usize(y).divided_by(&F::from_usize(h_px));
        let im = im_max.plus(&t.times(&im_min.minus(&im_max)));
        Complex { re, im }
    }

    fn count_divergence(&self, c: Complex<F>) -> (n: usize)
        ensures
            n == self.spec_count(c),
    {
        let rule = dynamics::Mandelbrot::<F>::new();
        let evaluator = EscapeByCount {
            max_iter: self.mandel_count_max,
            condition: EscapeByNorm { escape_radius: F::from_usize(2) },
        };
        evaluator.evaluate(&rule, &c).iter
    }

    fn n_to_color(&self, n: usize) -> (c: Option<&Color>)
        ensures
            c.is_some() == self.spec_color_of(n).is_some(),
            c matches Some(x) ==> *x == self.spec_color_of(n).unwrap(),
    {
        let len = self.palette.len();
        if len == 0 {
            return None;
        }
        let mut idx: usize = len - 1;
        if self.mandel_count_max > 0 {
            assert((n as u128) * (len as u128) <= 0xffff_ffff_ffff_ffffu128
                * 0xffff_ffff_ffff_ffffu128) by (nonlinear_arith)
                requires
                    n <= 0xffff_ffff_ffff_ffffu128,
                    len <= 0xffff_ffff_ffff_ffffu128,
            ;
            let q: u128 = (n as u128) * (len as u128) / (self.mandel_count_max as u128);
            if q < len as u128 {
                idx = q as usize;
            }
        }
        self.palette.get(idx)
    }

    /// The escape count of every pixel, row by row from the top.
    pub fn make_count_vec(&self) -> (r: Vec<usize>)
        requires
            self.size().0 * self.size().1 <= usize::MAX,
        ensures
            r@.len() == self.size().0 * self.size().1,
            forall|i: int| 0 <= i < r@.len() ==> #[trigger] r@[i] == self.spec_count_at(i),
    {
        let (w, h) = self.image_size;
        let re_extent = self.re_extent();
        let im_extent = self.im_extent();
        let mut ret: Vec<usize> = Vec::with_capacity(w * h);
        let mut y: usize = 0;
        while y < h
            invariant
                y <= h,
                (w, h) == self.size(),
                w * h <= usize::MAX,
                re_extent == Self::spec_span(self.view_center().re, self.view_extent().0),
                im_extent == Self::spec_span(self.view_center().im, self.view_extent().1),
                ret@.len() == y * w,
                forall|i: int| 0 <= i < ret@.len() ==> #[trigger] ret@[i] == self.spec_count_at(i),
            decreases h - y,
        {
            let mut x: usize = 0;
            while x < w
                invariant
                    x <= w,
                    y < h,
                    (w, h) == self.size(),
                    w * h <= usize::MAX,
                    re_extent == Self::spec_span(self.view_center().re, self.view_extent().0),
                    im_extent == Self::spec_span(self.view_center().im, self.view_extent().1),
                    ret@.len() == y * w + x,
                    forall|i: int|
                        0 <= i < ret@.len() ==> #[trigger] ret@[i] == self.spec_count_at(i),
                decreases w - x,
            {
                proof {
                    let i = y * w + x;
                    assert(i < w * h) by (nonlinear_arith)
                        requires
                            i == y * w + x,
                            x < w,
                            y < h,
                    ;
                    vstd::arithmetic::div_mod::lemma_fundamental_div_mod_converse(
                        i as int,
                        w as int,
                        y as int,
                        x as int,
                    );
                }
                let z = self.get_complex_at((x, y), re_extent, im_extent);
                ret.push(self.count_divergence(z));
                x = x + 1;
            }
            assert((y + 1) * w == y * w + w) by (nonlinear_arith);
            y = y + 1;
        }
        assert(h * w == w * h) by (nonlinear_arith);
        ret
    }

    /// The palette color of every pixel, row by row from the top; black where
    /// the palette is empty.
    pub fn make_color_vec(&self) -> (r: Vec<Color>)
        requires
            self.size().0 * self.size().1 <= usize::MAX,
        ensures
            r@.len() == self.size().0 * self.size().1,
            forall|i: int|
                0 <= i < r@.len() ==> #[trigger] r@[i] == match self.spec_color_of(
                    self.spec_count_at(i),
                ) {
                    Some(c) => c,
                    None => Color::rgba(0, 0, 0, 255),
                },
    {
        let counts = self.make_count_vec();
        let n = counts.len();
        let mut ret: Vec<Color> = Vec::with_capacity(n);
        let mut i: usize = 0;
        while i < n
            invariant
                i <= n,
                n == counts@.len(),
                forall|k: int| 0 <= k < n ==> #[trigger] counts@[k] == self.spec_count_at(k),
                ret@.len() == i,
                forall|k: int|
                    0 <= k < i ==> #[trigger] ret@[k] == match self.spec_color_of(
                        self.spec_count_at(k),
                    ) {
                        Some(c) => c,
                        None => Color::rgba(0, 0, 0, 255),
                    },
            decreases n - i,
        {
            let c = match self.n_to_color(counts[i]) {
                Some(c) => *c,
                None => Color::black(),
            };
            ret.push(c);
            i = i + 1;
        }
        ret
    }
}

} // verus!
