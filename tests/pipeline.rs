use etfra::color::Color;
use etfra::color_map::{ColorMap, ColorMapLinear};
use etfra::coloring::NormalizedColoring;
use etfra::dynamics::{BurningShip, Dynamics, Julia, Mandelbrot};
use etfra::escape::{Converged, EscapeByBox, EscapeByCount, EscapeByNorm, EscapeCondition, EscapeEvaluator, EscapeResult};
use etfra::fractal::EscapeTimeFractal;
use etfra::image_config::ImageConfig;
use etfra::normalize::{NormalizeEscInfo, NormalizeWithHistgram, NormalizeWithMaxIter, Ratio};
use etfra::palette::Palette;
use etfra::scalar::{Complex, FloatLike};
use std::sync::atomic::{AtomicBool, Ordering};

#[derive(Clone, Copy, Debug, PartialEq)]
struct F64(f64);

impl FloatLike for F64 {
    fn spec_from_usize(n: usize) -> Self {
        F64(n as f64)
    }
    fn spec_add(self, o: Self) -> Self {
        F64(self.0 + o.0)
    }
    fn spec_sub(self, o: Self) -> Self {
        F64(self.0 - o.0)
    }
    fn spec_mul(self, o: Self) -> Self {
        F64(self.0 * o.0)
    }
    fn spec_div(self, o: Self) -> Self {
        F64(self.0 / o.0)
    }
    fn spec_abs(self) -> Self {
        F64(self.0.abs())
    }
    fn spec_lt(self, o: Self) -> bool {
        self.0 < o.0
    }
    fn spec_is_finite(self) -> bool {
        self.0.is_finite()
    }
    fn from_usize(n: usize) -> Self {
        F64(n as f64)
    }
    fn plus(&self, o: &Self) -> Self {
        F64(self.0 + o.0)
    }
    fn minus(&self, o: &Self) -> Self {
        F64(self.0 - o.0)
    }
    fn times(&self, o: &Self) -> Self {
        F64(self.0 * o.0)
    }
    fn divided_by(&self, o: &Self) -> Self {
        F64(self.0 / o.0)
    }
    fn abs(&self) -> Self {
        F64(self.0.abs())
    }
    fn less_than(&self, o: &Self) -> bool {
        self.0 < o.0
    }
    fn is_finite(&self) -> bool {
        self.0.is_finite()
    }
}

fn c(re: f64, im: f64) -> Complex<F64> {
    Complex::new(F64(re), F64(im))
}

fn classic_view() -> ImageConfig<F64> {
    ImageConfig::new((64, 64), (F64(3.0 / 64.0), F64(3.0 / 64.0)), (F64(-0.5), F64(0.0)))
}

type LinearFractal = EscapeTimeFractal<Mandelbrot<F64>, EscapeByCount<EscapeByNorm<F64>>, NormalizeWithMaxIter, ColorMapLinear>;

fn linear_mandelbrot(max_iter: usize) -> LinearFractal {
    EscapeTimeFractal::new(
        Mandelbrot::new(),
        EscapeByCount { max_iter, condition: EscapeByNorm { escape_radius: F64(2.0) } },
        NormalizedColoring::new(NormalizeWithMaxIter { max_iter }, ColorMapLinear { palette: Palette::grayscale(256) }),
    )
}

fn histogram_mandelbrot(max_iter: usize) -> EscapeTimeFractal<Mandelbrot<F64>, EscapeByCount<EscapeByNorm<F64>>, NormalizeWithHistgram, ColorMapLinear> {
    EscapeTimeFractal::new(
        Mandelbrot::new(),
        EscapeByCount { max_iter, condition: EscapeByNorm { escape_radius: F64(2.0) } },
        NormalizedColoring::new(NormalizeWithHistgram::new(max_iter), ColorMapLinear { palette: Palette::grayscale(256) }),
    )
}

#[test]
fn center_pixel_is_interior_and_top_color() {
    let mut f = linear_mandelbrot(300);
    let cfg = classic_view();
    let results = f.escape_results(&cfg);
    assert_eq!(results.len(), 64 * 64);
    assert_eq!(results[32 * 64 + 32], EscapeResult { escaped: false, iter: 300 });
    let palette = Palette::grayscale(256);
    let top = *palette.get(255).unwrap();
    let buf = f.compute(&cfg);
    assert_eq!(buf.len(), 64 * 64 * 4);
    let k = 4 * (32 * 64 + 32);
    assert_eq!(&buf[k..k + 4], &top.as_rgba()[..]);
}

#[test]
fn parallel_matches_sequential_linear() {
    let cfg = ImageConfig::new((24, 16), (F64(0.15), F64(0.15)), (F64(-0.5), F64(0.1)));
    let seq = linear_mandelbrot(60).compute(&cfg);
    let par = linear_mandelbrot(60).compute_parallel(&cfg);
    assert_eq!(seq, par);
}

#[test]
fn parallel_matches_sequential_histogram() {
    let cfg = ImageConfig::new((20, 18), (F64(0.17), F64(0.17)), (F64(-0.6), F64(0.0)));
    let seq = histogram_mandelbrot(80).compute(&cfg);
    let par = histogram_mandelbrot(80).compute_parallel(&cfg);
    assert_eq!(seq, par);
    let f = histogram_mandelbrot(80);
    let r1 = f.escape_results(&cfg);
    let r2 = f.escape_results_par(&cfg);
    assert_eq!(r1, r2);
}

#[test]
fn raster_order_of_packed_bytes() {
    let cfg = ImageConfig::new((7, 5), (F64(0.5), F64(0.5)), (F64(-0.5), F64(0.0)));
    let mut f = linear_mandelbrot(40);
    let results = f.escape_results(&cfg);
    let colors = f.colors_from_escape_results(&results);
    let buf = f.rgba_buf_from_colors(&colors);
    let par = f.rgba_buf_from_colors_par(&colors);
    assert_eq!(buf, par);
    for row in 0..5 {
        for col in 0..7 {
            let i = row * 7 + col;
            let rgba = colors[i].as_rgba();
            for k in 0..4 {
                assert_eq!(buf[4 * i + k], rgba[k]);
            }
        }
    }
    // Row 0 is the top edge: its pixels have the largest imaginary part.
    let bounds = cfg.view_bounds(cfg.view_size());
    let top = cfg.pixel_to_xyplane((0, 0), bounds);
    let below = cfg.pixel_to_xyplane((0, 4), bounds);
    assert!(top.1 .0 > below.1 .0);
    assert_eq!(top.1 .0, 1.25);
    assert_eq!(top.0 .0, -2.25);
}

#[test]
fn pixel_to_plane_formula() {
    let cfg = ImageConfig::new((4, 2), (F64(0.5), F64(1.0)), (F64(1.0), F64(-1.0)));
    let size = cfg.view_size();
    assert_eq!((size.0 .0, size.1 .0), (2.0, 2.0));
    let b = cfg.view_bounds(size);
    assert_eq!((b.0 .0, b.1 .0, b.2 .0, b.3 .0), (0.0, 2.0, -2.0, 0.0));
    let p = cfg.pixel_to_xyplane((2, 1), b);
    assert_eq!((p.0 .0, p.1 .0), (1.0, -1.0));
}

#[test]
fn cancelled_before_start_gives_no_result() {
    let cfg = classic_view();
    let cancel = AtomicBool::new(false);
    cancel.store(true, Ordering::Relaxed);
    let mut f = linear_mandelbrot(300);
    assert!(f.compute_interruptible(&cfg, &cancel).is_none());
    assert!(f.escape_results_interruptible(&cfg, &cancel).is_none());
    assert!(f.escape_results_par_interruptible(&cfg, &cancel).is_none());
}

#[test]
fn uncancelled_interruptible_matches_compute() {
    let cfg = ImageConfig::new((16, 12), (F64(0.2), F64(0.2)), (F64(-0.5), F64(0.0)));
    let cancel = AtomicBool::new(false);
    let expected = histogram_mandelbrot(50).compute(&cfg);
    let got = histogram_mandelbrot(50).compute_interruptible(&cfg, &cancel);
    assert_eq!(got, Some(expected));
    let f = histogram_mandelbrot(50);
    assert_eq!(f.escape_results_interruptible(&cfg, &cancel), Some(f.escape_results(&cfg)));
}

#[test]
fn julia_with_zero_constant_steps_like_mandelbrot_at_zero() {
    let j = Julia::new(c(0.0, 0.0));
    let m: Mandelbrot<F64> = Mandelbrot::new();
    let z = c(0.3, -1.2);
    let z0 = c(0.7, 0.25);
    let zero = c(0.0, 0.0);
    assert_eq!(j.step(&z, &z0), m.step(&z, &zero));
    assert_eq!(j.initial_state(&z0), z0);
    assert_eq!(m.initial_state(&z0), zero);
}

#[test]
fn dynamics_steps() {
    let m: Mandelbrot<F64> = Mandelbrot::new();
    assert_eq!(m.step(&c(1.0, 2.0), &c(0.5, 0.5)), c(-2.5, 4.5));
    let b: BurningShip<F64> = BurningShip::new();
    assert_eq!(b.step(&c(-1.0, -2.0), &c(0.5, 0.5)), c(-2.5, 4.5));
    assert_eq!(b.initial_state(&c(3.0, 3.0)), c(0.0, 0.0));
    let j = Julia::new(c(0.25, -1.0));
    assert_eq!(j.step(&c(1.0, 1.0), &c(9.0, 9.0)), c(0.25, 1.0));
    assert_eq!(m.param_from_xy((F64(1.5), F64(-2.0))), c(1.5, -2.0));
}

#[test]
fn escape_count_records_first_iteration() {
    let m: Mandelbrot<F64> = Mandelbrot::new();
    let e = EscapeByCount { max_iter: 10, condition: EscapeByNorm { escape_radius: F64(2.0) } };
    // c = 1: 1, 2, 5 → escapes at the third step.
    assert_eq!(e.evaluate(&m, &c(1.0, 0.0)), EscapeResult { escaped: true, iter: 3 });
    // c = 3: escapes at once.
    assert_eq!(e.evaluate(&m, &c(3.0, 0.0)), EscapeResult { escaped: true, iter: 1 });
    assert_eq!(e.evaluate(&m, &c(0.0, 0.0)), EscapeResult { escaped: false, iter: 10 });
    let none = EscapeByCount { max_iter: 0, condition: EscapeByNorm { escape_radius: F64(2.0) } };
    assert_eq!(none.evaluate(&m, &c(3.0, 0.0)), EscapeResult { escaped: false, iter: 0 });
}

#[test]
fn raising_budget_keeps_escape_iteration() {
    let m: Mandelbrot<F64> = Mandelbrot::new();
    for &(re, im) in &[(0.3, 0.5), (-0.75, 0.1), (0.26, 0.0), (-2.1, 0.0)] {
        let low = EscapeByCount { max_iter: 50, condition: EscapeByNorm { escape_radius: F64(2.0) } };
        let high = EscapeByCount { max_iter: 500, condition: EscapeByNorm { escape_radius: F64(2.0) } };
        let a = low.evaluate(&m, &c(re, im));
        let b = high.evaluate(&m, &c(re, im));
        if a.escaped {
            assert_eq!(a, b);
        } else {
            assert!(!b.escaped || b.iter > 50);
        }
    }
}

#[test]
fn non_finite_state_escapes_immediately() {
    let m: Mandelbrot<F64> = Mandelbrot::new();
    let e = EscapeByCount { max_iter: 10, condition: EscapeByNorm { escape_radius: F64(f64::INFINITY) } };
    assert_eq!(e.evaluate(&m, &c(f64::NAN, 0.0)), EscapeResult { escaped: true, iter: 1 });
    let conv = Converged { eps: F64(0.1) };
    assert!(conv.escaped(&c(f64::INFINITY, 0.0)));
    assert!(conv.escaped(&c(0.01, 0.0)));
    assert!(!conv.escaped(&c(0.5, 0.0)));
}

#[test]
fn box_condition() {
    let b = EscapeByBox { x_range: (F64(-1.0), F64(1.0)), y_range: (F64(-2.0), F64(2.0)) };
    assert!(!b.escaped(&c(0.0, 0.0)));
    assert!(!b.escaped(&c(1.0, 2.0)));
    assert!(b.escaped(&c(1.5, 0.0)));
    assert!(b.escaped(&c(0.0, -2.5)));
    assert!(b.escaped(&c(f64::NAN, 0.0)));
}

#[test]
fn u8buf_scales_iterations() {
    let f = linear_mandelbrot(300);
    let results = vec![
        EscapeResult { escaped: true, iter: 0 },
        EscapeResult { escaped: true, iter: 100 },
        EscapeResult { escaped: false, iter: 300 },
        EscapeResult { escaped: true, iter: 150 },
    ];
    assert_eq!(f.u8buf(&results), vec![0, 85, 255, 127]);
    assert_eq!(f.u8buf_par(&results), vec![0, 85, 255, 127]);
}

#[test]
fn normalized_coloring_applies_map_after_normalize() {
    let col = NormalizedColoring::new(NormalizeWithMaxIter { max_iter: 4 }, ColorMapLinear { palette: Palette::grayscale(5) });
    let r = EscapeResult { escaped: true, iter: 2 };
    assert_eq!(col.normalizer.normalize(&r), Ratio { num: 2, den: 4 });
    assert_eq!(col.apply(&r), col.color_map.map(Ratio { num: 2, den: 4 }));
    assert_eq!(col.apply(&r), Color::from_rgb(128, 128, 128));
}

#[test]
fn standalone_renderer_matches_pipeline_counts() {
    let view: etfra::mandelbrot::Mandelbrot<F64> =
        etfra::mandelbrot::Mandelbrot::new((64, 64), c(-0.5, 0.0), (F64(3.0), F64(3.0)), 300, Palette::grayscale(256));
    let counts = view.make_count_vec();
    assert_eq!(counts.len(), 64 * 64);
    assert_eq!(counts[32 * 64 + 32], 300);
    let f = linear_mandelbrot(300);
    let results = f.escape_results(&classic_view());
    let iters: Vec<usize> = results.iter().map(|r| r.iter).collect();
    assert_eq!(counts, iters);
    let colors = view.make_color_vec();
    assert_eq!(colors[32 * 64 + 32], Color::from_rgb(255, 255, 255));
    // The corner (-2, 1.5) escapes at the first step: entry ⌊1·256/300⌋ = 0.
    assert_eq!(counts[0], 1);
    assert_eq!(colors[0], Color::from_rgb(0, 0, 0));
}

#[test]
fn standalone_renderer_without_palette_paints_black() {
    let view: etfra::mandelbrot::Mandelbrot<F64> =
        etfra::mandelbrot::Mandelbrot::new((3, 2), c(0.0, 0.0), (F64(4.0), F64(4.0)), 20, Palette::new());
    assert_eq!(view.make_color_vec(), vec![Color::black(); 6]);
}

#[test]
fn rgba_image_holds_packed_frame() {
    let cfg = ImageConfig::new((6, 4), (F64(0.5), F64(0.5)), (F64(-0.5), F64(0.0)));
    let mut f = linear_mandelbrot(30);
    let results = f.escape_results(&cfg);
    let colors = f.colors_from_escape_results(&results);
    let buf = f.rgba_buf_from_colors(&colors);
    let img = f.rgba_image_from_colors(&colors, &cfg).image;
    assert_eq!(img.dimensions(), (6, 4));
    assert_eq!(img.as_raw(), &buf);
    let par = f.rgba_image_from_colors_par(&colors, &cfg).image;
    assert_eq!(par.as_raw(), &buf);
    let p = img.get_pixel(5, 3).0;
    assert_eq!(p, colors[3 * 6 + 5].as_rgba());
}
