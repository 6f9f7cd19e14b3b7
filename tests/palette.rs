use etfra::color::Color;
use etfra::color_map::{ColorMap, ColorMapLinear};
use etfra::coloring::{Coloring, HistogramColoring, PaletteColoring};
use etfra::normalize::Ratio;
use etfra::palette::Palette;

fn rgb(v: u8) -> Color {
    Color::from_rgb(v, v, v)
}

#[test]
fn grayscale_of_two_is_black_then_white() {
    let p = Palette::grayscale(2);
    let all: Vec<Color> = p.iter().copied().collect();
    assert_eq!(all, vec![Color::new(0, 0, 0, 255), Color::new(255, 255, 255, 255)]);
}

#[test]
fn grayscale_levels() {
    let one = Palette::grayscale(1);
    assert_eq!(one.len(), 1);
    assert_eq!(one.get(0), Some(&rgb(0)));
    let three = Palette::grayscale(3);
    assert_eq!(three.iter().copied().collect::<Vec<_>>(), vec![rgb(0), rgb(128), rgb(255)]);
    let big = Palette::grayscale(256);
    for i in 0..256 {
        assert_eq!(big.get(i), Some(&rgb(i as u8)));
    }
}

#[test]
fn palette_editing() {
    let mut p = Palette::new();
    assert!(p.is_empty());
    assert_eq!(p.back(), None);
    assert_eq!(p.get(0), None);
    p.push(rgb(1));
    p.push(rgb(2));
    p.push(rgb(3));
    assert_eq!(p.len(), 3);
    assert_eq!(p.back(), Some(&rgb(3)));
    assert_eq!(p.remove(5), None);
    assert_eq!(p.remove(1), Some(rgb(2)));
    assert_eq!(p.iter().copied().collect::<Vec<_>>(), vec![rgb(1), rgb(3)]);
    p.reverse();
    assert_eq!(p.iter().copied().collect::<Vec<_>>(), vec![rgb(3), rgb(1)]);
    let q = Palette::from_vec(vec![rgb(7), rgb(8)]);
    assert_eq!(q.get(1), Some(&rgb(8)));
    assert_eq!(q.get(2), None);
}

#[test]
fn linear_map_rounds_to_nearest_entry() {
    let m = ColorMapLinear { palette: Palette::grayscale(256) };
    assert_eq!(m.map(Ratio { num: 0, den: 1 }), rgb(0));
    assert_eq!(m.map(Ratio { num: 1, den: 1 }), rgb(255));
    // 255 / 2 = 127.5 rounds up.
    assert_eq!(m.map(Ratio { num: 1, den: 2 }), rgb(128));
    // 255 / 3 = 85 exactly.
    assert_eq!(m.map(Ratio { num: 1, den: 3 }), rgb(85));
    let four = ColorMapLinear { palette: Palette::from_vec(vec![rgb(10), rgb(20), rgb(30), rgb(40)]) };
    // 3 · 0.4 = 1.2 → entry 1; 3 · 0.5 = 1.5 → entry 2.
    assert_eq!(four.map(Ratio { num: 2, den: 5 }), rgb(20));
    assert_eq!(four.map(Ratio { num: 1, den: 2 }), rgb(30));
}

#[test]
fn linear_map_stays_in_palette() {
    let entries = vec![rgb(10), rgb(20), rgb(30)];
    let m = ColorMapLinear { palette: Palette::from_vec(entries.clone()) };
    for den in 1..20usize {
        for num in 0..=den {
            assert!(entries.contains(&m.map(Ratio { num, den })));
        }
    }
    assert_eq!(m.map(Ratio { num: 7, den: 2 }), rgb(30));
    assert_eq!(m.map(Ratio { num: 1, den: 0 }), rgb(30));
    assert_eq!(m.map(Ratio { num: usize::MAX, den: usize::MAX }), rgb(30));
}

#[test]
fn linear_map_on_empty_palette_is_black() {
    let m = ColorMapLinear { palette: Palette::new() };
    assert_eq!(m.map(Ratio { num: 1, den: 2 }), Color::black());
}

#[test]
fn palette_coloring_scales_counts() {
    let p = Palette::from_vec(vec![rgb(0), rgb(1), rgb(2), rgb(3)]);
    let c = PaletteColoring::new(p, 100);
    assert_eq!(c.color(0), rgb(0));
    assert_eq!(c.color(24), rgb(0));
    assert_eq!(c.color(25), rgb(1));
    assert_eq!(c.color(99), rgb(3));
    assert_eq!(c.color(100), rgb(3));
    assert_eq!(c.color(1000), rgb(3));
    assert_eq!(PaletteColoring::new(Palette::new(), 10).color(3), Color::black());
    assert_eq!(PaletteColoring::new(Palette::grayscale(2), 0).color(0), rgb(255));
}

#[test]
fn histogram_coloring_equalizes_counts() {
    let p = Palette::from_vec(vec![rgb(0), rgb(1), rgb(2), rgb(3), rgb(4)]);
    // Counts 1, 1, 2, 4: distribution 2/4, 3/4, 3/4, 4/4 over bins 1..=4.
    let h = HistogramColoring::prepare(&[1, 2, 1, 4], 4, p);
    assert_eq!(h.color(0), rgb(0));
    assert_eq!(h.color(1), rgb(2));
    assert_eq!(h.color(2), rgb(3));
    assert_eq!(h.color(3), rgb(3));
    assert_eq!(h.color(4), rgb(4));
    assert_eq!(h.color(5), Color::black());
}

#[test]
fn palette_from_vec_conversion() {
    let p: Palette = Palette::from(vec![rgb(4), rgb(5)]);
    assert_eq!(p.len(), 2);
    assert_eq!(p.get(0), Some(&rgb(4)));
    let q: Palette = vec![rgb(6)].into();
    assert_eq!(q.back(), Some(&rgb(6)));
}
