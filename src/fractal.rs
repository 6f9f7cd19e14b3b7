//! The escape-time pipeline: evaluate every pixel, prepare the normalizer on
//! the whole frame, color every result, pack the colors in raster order.
use vstd::prelude::*;
use std::sync::atomic::{AtomicBool, Ordering};
use crate::color::Color;
use crate::color_map::ColorMap;
use crate::coloring::NormalizedColoring;
use crate::dynamics::Dynamics;
use crate::escape::{EscapeEvaluator, EscapeResult};
use crate::export::{frame_bytes, frame_dimensions, rgba_frame_from_raw, RgbaFrame};
use crate::image_config::ImageConfig;
use crate::normalize::NormalizeEscInfo;
use crate::parallel::{par_map_range, par_try_map_range};

verus! {

/// The bytes of `colors` one after another, red first.
pub open spec fn rgba_bytes(colors: Seq<Color>) -> Seq<u8> {
    Seq::new(4 * colors.len(), |k: int| colors[k / 4].channels()[k % 4])
}

/// `min(255·iter/max_iter, 255)`, rounded down; 255 where the budget is zero.
pub open spec fn iter_gray(iter: usize, max_iter: usize) -> u8 {
    let q: int = (255 * iter as int) / max_iter as int;
    if max_iter == 0 || q >= 255 {
        255
    } else {
        q as u8
    }
}

/// The frame fits in memory: `w·h` pixels of four bytes each.
pub open spec fn frame_fits<F>(cfg: ImageConfig<F>) -> bool {
    cfg.resolution.0 * cfg.resolution.1 * 4 <= usize::MAX
}

/// One rule, one evaluator and one coloring, applied to whole frames.
pub struct EscapeTimeFractal<D, E, N, M> {
    pub dynamics: D,
    pub escape_evaluator: E,
    pub coloring: NormalizedColoring<N, M>,
}

fn gray_of(iter: usize, max_iter: usize) -> (v: u8)
    ensures
        v == iter_gray(iter, max_iter),
{
    if max_iter == 0 {
        return 255;
    }
    assert((iter as u128) * 255 <= 0xffff_ffff_ffff_ffffu128 * 255) by (nonlinear_arith)
        requires
            iter <= 0xffff_ffff_ffff_ffffu128,
    ;
    let q: u128 = (iter as u128) * 255 / (max_iter as u128);
    if q >= 255 {
        255
    } else {
        q as u8
    }
}

fn pack_rgba(colors: &[Color]) -> (buf: Vec<u8>)
    requires
        4 * colors@.len() <= usize::MAX,
    ensures
        buf@ == rgba_bytes(colors@),
{
    let n = colors.len();
    let mut buf: Vec<u8> = Vec::with_capacity(4 * n);
    let mut i: usize = 0;
    while i < n
        invariant
            i <= n,
            n == colors@.len(),
            buf@.len() == 4 * i,
            forall|k: int| 0 <= k < 4 * i ==> #[trigger] buf@[k] == colors@[k / 4].channels()[k % 4],
        decreases n - i,
    {
        let c = colors[i];
        buf.push(c.r);
        buf.push(c.g);
        buf.push(c.b);
        buf.push(c.a);
        i = i + 1;
    }
    assert(buf@ =~= rgba_bytes(colors@));
    buf
}

fn flatten_rgba(chunks: Vec<[u8; 4]>, colors: Ghost<Seq<Color>>) -> (buf: Vec<u8>)
    requires
        chunks@.len() == colors@.len(),
        4 * colors@.len() <= usize::MAX,
        forall|i: int| 0 <= i < chunks@.len() ==> #[trigger] chunks@[i]@ == colors@[i].channels(),
    ensures
        buf@ == rgba_bytes(colors@),
{
    let n = chunks.len();
    let mut buf: Vec<u8> = Vec::with_capacity(4 * n);
    let mut i: usize = 0;
    while i < n
        invariant
            i <= n,
            n == chunks@.len(),
            n == colors@.len(),
            forall|i: int| 0 <= i < chunks@.len() ==> #[trigger] chunks@[i]@ == colors@[i].channels(),
            buf@.len() == 4 * i,
            forall|k: int| 0 <= k < 4 * i ==> #[trigger] buf@[k] == colors@[k / 4].channels()[k % 4],
        decreases n - i,
    {
        let c: [u8; 4] = chunks[i];
        assert(c@ == colors@[i as int].channels());
        buf.push(c[0]);
        buf.push(c[1]);
        buf.push(c[2]);
        buf.push(c[3]);
        i = i + 1;
    }
    assert(buf@ =~= rgba_bytes(colors@));
    buf
}

impl<D, E, N, M> EscapeTimeFractal<D, E, N, M> where
    D: Dynamics,
    E: EscapeEvaluator<D>,
    N: NormalizeEscInfo<EscapeResult>,
    M: ColorMap,
 {
    /// The escape result of pixel `(col, row)`.
    pub open spec fn spec_pixel_result(&self, cfg: ImageConfig<D::Scalar>, col: usize, row: usize) -> EscapeResult {
        self.escape_evaluator.spec_evaluate(
            self.dynamics,
            self.dynamics.spec_param_from_xy(cfg.spec_point_at(col, row)),
        )
    }

    /// The escape result of the pixel at raster index `i`: column `i mod w`, row `i div w`.
    pub open spec fn spec_result_at(&self, cfg: ImageConfig<D::Scalar>, i: int) -> EscapeResult {
        let w = cfg.resolution.0 as int;
        self.spec_pixel_result(cfg, (i % w) as usize, (i / w) as usize)
    }

    /// Every pixel's escape result, in raster order.
    pub open spec fn spec_escape_results(&self, cfg: ImageConfig<D::Scalar>) -> Seq<EscapeResult> {
        Seq::new(
            (cfg.resolution.0 * cfg.resolution.1) as nat,
            |i: int| self.spec_result_at(cfg, i),
        )
    }

    /// The color of each result once the normalizer has been prepared on all of them.
    pub open spec fn spec_colors(&self, results: Seq<EscapeResult>) -> Seq<Color> {
        Seq::new(
            results.len(),
            |i: int|
                self.coloring.color_map.spec_map(
                    self.coloring.normalizer.spec_prepared_normalize(results, results[i]),
                ),
        )
    }

    /// The packed frame.
    pub open spec fn spec_compute(&self, cfg: ImageConfig<D::Scalar>) -> Seq<u8> {
        rgba_bytes(self.spec_colors(self.spec_escape_results(cfg)))
    }

    /// What a frame computation leaves behind: the same parts, with the
    /// normalizer prepared on `results`.
    pub open spec fn prepared_on(&self, before: Self, results: Seq<EscapeResult>) -> bool {
        &&& self.dynamics == before.dynamics
        &&& self.escape_evaluator == before.escape_evaluator
        &&& self.coloring.color_map == before.coloring.color_map
        &&& self.coloring.normalizer.spec_max_iter() == before.coloring.normalizer.spec_max_iter()
        &&& forall|v: EscapeResult| #[trigger]
            self.coloring.normalizer.spec_normalize(v)
                == before.coloring.normalizer.spec_prepared_normalize(results, v)
    }

    pub fn new(dynamics: D, escape_evaluator: E, coloring: NormalizedColoring<N, M>) -> (f: Self)
        ensures
            f.dynamics == dynamics,
            f.escape_evaluator == escape_evaluator,
            f.coloring == coloring,
    {
        EscapeTimeFractal { dynamics, escape_evaluator, coloring }
    }

    fn result_at(
        &self,
        cfg: &ImageConfig<D::Scalar>,
        bounds: (D::Scalar, D::Scalar, D::Scalar, D::Scalar),
        i: usize,
    ) -> (r: EscapeResult)
        requires
            cfg.resolution.0 > 0,
            bounds == cfg.spec_view_bounds(cfg.spec_view_size()),
        ensures
            r == self.spec_result_at(*cfg, i as int),
    {
        let w = cfg.resolution.0;
        let xy = cfg.pixel_to_xyplane((i % w, i / w), bounds);
        let p = self.dynamics.param_from_xy(xy);
        self.escape_evaluator.evaluate(&self.dynamics, &p)
    }

    /// Evaluates every pixel, one after another.
    pub fn escape_results(&self, cfg: &ImageConfig<D::Scalar>) -> (r: Vec<EscapeResult>)
        requires
            frame_fits(*cfg),
        ensures
            r@ == self.spec_escape_results(*cfg),
    {
        let (w, h) = cfg.resolution;
        let n = w * h;
        let bounds = cfg.view_bounds(cfg.view_size());
        let mut out: Vec<EscapeResult> = Vec::with_capacity(n);
        let mut i: usize = 0;
        while i < n
            invariant
                i <= n,
                n == w * h,
                (w, h) == cfg.resolution,
                bounds == cfg.spec_view_bounds(cfg.spec_view_size()),
                out@.len() == i,
                forall|k: int| 0 <= k < i ==> #[trigger] out@[k] == self.spec_result_at(*cfg, k),
            decreases n - i,
        {
            assert(w > 0) by (nonlinear_arith)
                requires
                    i < n,
                    n == w * h,
            ;
            out.push(self.result_at(cfg, bounds, i));
            i = i + 1;
        }
        assert(out@ =~= self.spec_escape_results(*cfg));
        out
    }

    /// Prepares the normalizer on the whole frame, then colors each result.
    pub fn colors_from_escape_results(&mut self, results: &[EscapeResult]) -> (r: Vec<Color>)
        ensures
            r@ == old(self).spec_colors(results@),
            final(self).prepared_on(*old(self), results@),
    {
        self.coloring.normalizer.prepare(results);
        let n = results.len();
        let mut out: Vec<Color> = Vec::with_capacity(n);
        let mut i: usize = 0;
        while i < n
            invariant
                i <= n,
                n == results@.len(),
                self.prepared_on(*old(self), results@),
                out@.len() == i,
                forall|k: int|
                    0 <= k < i ==> #[trigger] out@[k] == old(self).spec_colors(results@)[k],
            decreases n - i,
        {
            out.push(self.coloring.apply(&results[i]));
            i = i + 1;
        }
        assert(out@ =~= old(self).spec_colors(results@));
        out
    }

    /// The colors' bytes in order, four per color.
    pub fn rgba_buf_from_colors(&self, colors: &[Color]) -> (buf: Vec<u8>)
        requires
            4 * colors@.len() <= usize::MAX,
        ensures
            buf@ == rgba_bytes(colors@),
    {
        pack_rgba(colors)
    }

    /// The colors as a `w × h` RGBA image, one color per pixel in raster order.
    pub fn rgba_image_from_colors(&self, colors: &[Color], image_config: &ImageConfig<D::Scalar>) -> (img:
        RgbaFrame)
        requires
            colors@.len() == image_config.resolution.0 * image_config.resolution.1,
            frame_fits(*image_config),
            image_config.resolution.0 <= u32::MAX,
            image_config.resolution.1 <= u32::MAX,
        ensures
            frame_bytes(img) == rgba_bytes(colors@),
            frame_dimensions(img) == (image_config.resolution.0 as u32, image_config.resolution.1 as u32),
    {
        let rgba = self.rgba_buf_from_colors(colors);
        let (w, h) = image_config.resolution;
        assert(4 * w * h == 4 * (w * h)) by (nonlinear_arith);
        rgba_frame_from_raw(w as u32, h as u32, rgba).unwrap()
    }

    /// One gray byte per result: `min(255·iter/max_iter, 255)`.
    pub fn u8buf(&self, escape_results: &[EscapeResult]) -> (buf: Vec<u8>)
        ensures
            buf@.len() == escape_results@.len(),
            forall|i: int|
                0 <= i < buf@.len() ==> #[trigger] buf@[i] == iter_gray(
                    escape_results@[i].iter,
                    self.coloring.normalizer.spec_max_iter(),
                ),
    {
        let max_iter = self.coloring.normalizer.max_iter();
        let n = escape_results.len();
        let mut out: Vec<u8> = Vec::with_capacity(n);
        let mut i: usize = 0;
        while i < n
            invariant
                i <= n,
                n == escape_results@.len(),
                max_iter == self.coloring.normalizer.spec_max_iter(),
                out@.len() == i,
                forall|k: int|
                    0 <= k < i ==> #[trigger] out@[k] == iter_gray(escape_results@[k].iter, max_iter),
            decreases n - i,
        {
            out.push(gray_of(escape_results[i].iter, max_iter));
            i = i + 1;
        }
        out
    }

    /// The whole pipeline, one phase after another, each phase in order.
    pub fn compute(&mut self, cfg: &ImageConfig<D::Scalar>) -> (buf: Vec<u8>)
        requires
            frame_fits(*cfg),
        ensures
            buf@ == old(self).spec_compute(*cfg),
            final(self).prepared_on(*old(self), old(self).spec_escape_results(*cfg)),
    {
        let results = self.escape_results(cfg);
        let colors = self.colors_from_escape_results(&results);
        self.rgba_buf_from_colors(&colors)
    }

    /// Evaluates every pixel in order, giving up with `None` as soon as `cancel`
    /// is seen set; it is read before each pixel.
    pub fn escape_results_interruptible(&self, cfg: &ImageConfig<D::Scalar>, cancel: &AtomicBool) -> (r:
        Option<Vec<EscapeResult>>)
        requires
            frame_fits(*cfg),
        ensures
            r matches Some(v) ==> v@ == self.spec_escape_results(*cfg),
    {
        let (w, h) = cfg.resolution;
        let n = w * h;
        let bounds = cfg.view_bounds(cfg.view_size());
        let mut out: Vec<EscapeResult> = Vec::with_capacity(n);
        let mut i: usize = 0;
        while i < n
            invariant
                i <= n,
                n == w * h,
                (w, h) == cfg.resolution,
                bounds == cfg.spec_view_bounds(cfg.spec_view_size()),
                out@.len() == i,
                forall|k: int| 0 <= k < i ==> #[trigger] out@[k] == self.spec_result_at(*cfg, k),
            decreases n - i,
        {
            if cancel.load(Ordering::Relaxed) {
                return None;
            }
            assert(w > 0) by (nonlinear_arith)
                requires
                    i < n,
                    n == w * h,
            ;
            out.push(self.result_at(cfg, bounds, i));
            i = i + 1;
        }
        assert(out@ =~= self.spec_escape_results(*cfg));
        Some(out)
    }
}

impl<D, E, N, M> EscapeTimeFractal<D, E, N, M> where
    D: Dynamics + Sync,
    E: EscapeEvaluator<D> + Sync,
    N: NormalizeEscInfo<EscapeResult> + Sync,
    M: ColorMap + Sync,
    D::Scalar: Sync,
 {
    /// Evaluates every pixel on the worker pool.
    pub fn escape_results_par(&self, cfg: &ImageConfig<D::Scalar>) -> (r: Vec<EscapeResult>)
        requires
            frame_fits(*cfg),
        ensures
            r@ == self.spec_escape_results(*cfg),
    {
        let (w, h) = cfg.resolution;
        let n = w * h;
        let bounds = cfg.view_bounds(cfg.view_size());
        let eval = |i: usize| -> (r: EscapeResult)
            requires
                i < n,
            ensures
                r == self.spec_result_at(*cfg, i as int),
            {
                assert(w > 0) by (nonlinear_arith)
                    requires
                        i < n,
                        n == w * h,
                ;
                self.result_at(cfg, bounds, i)
            };
        let out = par_map_range(n, eval);
        assert(out@ =~= self.spec_escape_results(*cfg));
        out
    }

    /// Prepares the normalizer on the whole frame, then colors the results on
    /// the worker pool.
    pub fn colors_from_escape_results_par(&mut self, escape_results: &[EscapeResult]) -> (r: Vec<Color>)
        ensures
            r@ == old(self).spec_colors(escape_results@),
            final(self).prepared_on(*old(self), escape_results@),
    {
        self.coloring.normalizer.prepare(escape_results);
        let n = escape_results.len();
        let coloring = &self.coloring;
        let paint = |i: usize| -> (c: Color)
            requires
                i < n,
                n == escape_results@.len(),
            ensures
                c == coloring.spec_apply(escape_results@[i as int]),
            { coloring.apply(&escape_results[i]) };
        let out = par_map_range(n, paint);
        assert(out@ =~= old(self).spec_colors(escape_results@));
        out
    }

    /// The colors' bytes in order, four per color, gathered on the worker pool.
    pub fn rgba_buf_from_colors_par(&self, colors: &[Color]) -> (buf: Vec<u8>)
        requires
            4 * colors@.len() <= usize::MAX,
        ensures
            buf@ == rgba_bytes(colors@),
    {
        let n = colors.len();
        let bytes_of = |i: usize| -> (b: [u8; 4])
            requires
                i < n,
                n == colors@.len(),
            ensures
                b@ == colors@[i as int].channels(),
            { colors[i].as_rgba() };
        let chunks = par_map_range(n, bytes_of);
        flatten_rgba(chunks, Ghost(colors@))
    }

    /// The colors as a `w × h` RGBA image, packed on the worker pool.
    pub fn rgba_image_from_colors_par(&self, colors: &[Color], image_config: &ImageConfig<D::Scalar>) -> (img:
        RgbaFrame)
        requires
            colors@.len() == image_config.resolution.0 * image_config.resolution.1,
            frame_fits(*image_config),
            image_config.resolution.0 <= u32::MAX,
            image_config.resolution.1 <= u32::MAX,
        ensures
            frame_bytes(img) == rgba_bytes(colors@),
            frame_dimensions(img) == (image_config.resolution.0 as u32, image_config.resolution.1 as u32),
    {
        let rgba = self.rgba_buf_from_colors_par(colors);
        let (w, h) = image_config.resolution;
        assert(4 * w * h == 4 * (w * h)) by (nonlinear_arith);
        rgba_frame_from_raw(w as u32, h as u32, rgba).unwrap()
    }

    /// One gray byte per result, `min(255·iter/max_iter, 255)`, on the worker pool.
    pub fn u8buf_par(&self, escape_results: &[EscapeResult]) -> (buf: Vec<u8>)
        ensures
            buf@.len() == escape_results@.len(),
            forall|i: int|
                0 <= i < buf@.len() ==> #[trigger] buf@[i] == iter_gray(
                    escape_results@[i].iter,
                    self.coloring.normalizer.spec_max_iter(),
                ),
    {
        let max_iter = self.coloring.normalizer.max_iter();
        let n = escape_results.len();
        let gray = |i: usize| -> (v: u8)
            requires
                i < n,
                n == escape_results@.len(),
            ensures
                v == iter_gray(escape_results@[i as int].iter, max_iter),
            { gray_of(escape_results[i].iter, max_iter) };
        par_map_range(n, gray)
    }

    /// The whole pipeline, each phase fanned out on the worker pool; the
    /// normalizer is prepared only once every pixel is evaluated. Gives the
    /// same bytes as `compute`.
    pub fn compute_parallel(&mut self, cfg: &ImageConfig<D::Scalar>) -> (buf: Vec<u8>)
        requires
            frame_fits(*cfg),
        ensures
            buf@ == old(self).spec_compute(*cfg),
            final(self).prepared_on(*old(self), old(self).spec_escape_results(*cfg)),
    {
        let results = self.escape_results_par(cfg);
        let colors = self.colors_from_escape_results_par(&results);
        self.rgba_buf_from_colors_par(&colors)
    }

    /// Evaluates every pixel on the worker pool, each worker reading `cancel`
    /// before each pixel; `None` once any of them has seen it set.
    pub fn escape_results_par_interruptible(
        &self,
        cfg: &ImageConfig<D::Scalar>,
        cancel: &AtomicBool,
    ) -> (r: Option<Vec<EscapeResult>>)
        requires
            frame_fits(*cfg),
        ensures
            r matches Some(v) ==> v@ == self.spec_escape_results(*cfg),
    {
        let (w, h) = cfg.resolution;
        let n = w * h;
        let bounds = cfg.view_bounds(cfg.view_size());
        let eval = |i: usize| -> (r: Option<EscapeResult>)
            requires
                i < n,
            ensures
                r matches Some(x) ==> x == self.spec_result_at(*cfg, i as int),
            {
                if cancel.load(Ordering::Relaxed) {
                    None
                } else {
                    assert(w > 0) by (nonlinear_arith)
                        requires
                            i < n,
                            n == w * h,
                    ;
                    Some(self.result_at(cfg, bounds, i))
                }
            };
        match par_try_map_range(n, eval) {
            Some(out) => {
                assert(out@ =~= self.spec_escape_results(*cfg));
                Some(out)
            },
            None => None,
        }
    }

    /// The whole pipeline on the worker pool, cancellable while pixels are
    /// evaluated: `None`, and nothing changed, where `cancel` was seen set;
    /// otherwise the bytes that `compute` gives.
    pub fn compute_interruptible(&mut self, cfg: &ImageConfig<D::Scalar>, cancel: &AtomicBool) -> (r:
        Option<Vec<u8>>)
        requires
            frame_fits(*cfg),
        ensures
            r matches Some(buf) ==> buf@ == old(self).spec_compute(*cfg) && final(self).prepared_on(
                *old(self),
                old(self).spec_escape_results(*cfg),
            ),
            r is None ==> *final(self) == *old(self),
    {
        match self.escape_results_par_interruptible(cfg, cancel) {
            Some(results) => {
                let colors = self.colors_from_escape_results_par(&results);
                Some(self.rgba_buf_from_colors_par(&colors))
            },
            None => None,
        }
    }
}

/// Packed byte `4·(row·w + col) + k` is channel `k` of the color of pixel
/// `(col, row)`.
pub proof fn lemma_raster_order<D, E, N, M>(
    f: EscapeTimeFractal<D, E, N, M>,
    cfg: ImageConfig<D::Scalar>,
    col: usize,
    row: usize,
    k: int,
) where
    D: Dynamics,
    E: EscapeEvaluator<D>,
    N: NormalizeEscInfo<EscapeResult>,
    M: ColorMap,

    requires
        col < cfg.resolution.0,
        row < cfg.resolution.1,
        0 <= k < 4,
    ensures
        f.spec_compute(cfg)[4 * (row * cfg.resolution.0 + col) + k] == f.coloring.color_map.spec_map(
            f.coloring.normalizer.spec_prepared_normalize(
                f.spec_escape_results(cfg),
                f.spec_pixel_result(cfg, col, row),
            ),
        ).channels()[k],
{
    let w = cfg.resolution.0 as int;
    let h = cfg.resolution.1 as int;
    let i = row * w + col;
    assert(0 <= i < w * h) by (nonlinear_arith)
        requires
            i == row * w + col,
            0 <= col < w,
            0 <= row < h,
    ;
    vstd::arithmetic::div_mod::lemma_fundamental_div_mod_converse(i, w, row as int, col as int);
    vstd::arithmetic::div_mod::lemma_fundamental_div_mod_converse(4 * i + k, 4, i, k);
    let results = f.spec_escape_results(cfg);
    assert(results[i] == f.spec_pixel_result(cfg, col, row));
}

} // verus!
