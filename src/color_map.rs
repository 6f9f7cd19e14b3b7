//! Color maps: from a value of the unit interval to a color.
use vstd::prelude::*;
use vstd::arithmetic::div_mod::lemma_fundamental_div_mod_converse;
use crate::color::Color;
use crate::normalize::Ratio;
use crate::palette::Palette;

verus! {

/// Maps a normalized value to a color.
pub trait ColorMap {
    spec fn spec_map(&self, t: Ratio) -> Color;

    fn map(&self, t: Ratio) -> (c: Color)
        ensures
            c == self.spec_map(t),
    ;
}

/// `clamp(round(t·(n−1)), 0, n−1)` for a palette of `n ≥ 1` entries, halves
/// rounded up; a zero denominator counts as the top of the range.
pub open spec fn linear_index(t: Ratio, n: nat) -> nat {
    let raw: nat = if t.den == 0 {
        (n - 1) as nat
    } else {
        ((2 * t.num * (n - 1) + t.den) / (2 * t.den)) as nat
    };
    if raw > n - 1 {
        (n - 1) as nat
    } else {
        raw
    }
}

/// Looks the value up in a palette, linearly; black where the palette is empty.
pub struct ColorMapLinear {
    pub palette: Palette,
}

fn round_scaled(num: usize, den: usize, n: usize) -> (idx: usize)
    requires
        n >= 1,
    ensures
        idx as nat == linear_index(Ratio { num, den }, n as nat),
        idx < n,
{
    if den == 0 {
        return n - 1;
    }
    let m: u128 = (n - 1) as u128;
    let d: u128 = den as u128;
    assert((num as u128) * m <= 0xffff_ffff_ffff_ffffu128 * 0xffff_ffff_ffff_ffffu128)
        by (nonlinear_arith)
        requires
            num <= 0xffff_ffff_ffff_ffffu128,
            m <= 0xffff_ffff_ffff_ffffu128,
    ;
    let x: u128 = (num as u128) * m;
    let q: u128 = x / d;
    let r: u128 = x % d;
    let up: u128 = if 2 * r >= d { 1 } else { 0 };
    proof {
        let k = q + up;
        let rem = 2 * r + d - 2 * d * up;
        assert(x == q * d + r) by {
            vstd::arithmetic::div_mod::lemma_fundamental_div_mod(x as int, d as int);
        }
        assert(k * (2 * d) + rem == 2 * x + d) by (nonlinear_arith)
            requires
                k == q + up,
                rem == 2 * r + d - 2 * d * up,
                x == q * d + r,
        ;
        lemma_fundamental_div_mod_converse((2 * x + d) as int, (2 * d) as int, k as int, rem as int);
        assert(2 * num * (n - 1) == 2 * x) by (nonlinear_arith)
            requires
                x == num * m,
                m == n - 1,
        ;
        assert((2 * num * (n - 1) + den) / (2 * den) == k);
        assert(q <= x) by (nonlinear_arith)
            requires
                q == x / d,
                d >= 1,
                x >= 0,
        ;
    }
    let raw: u128 = q + up;
    if raw > m {
        n - 1
    } else {
        raw as usize
    }
}

impl ColorMap for ColorMapLinear {
    open spec fn spec_map(&self, t: Ratio) -> Color {
        let n = self.palette@.len();
        if n == 0 {
            Color::rgba(0, 0, 0, 255)
        } else {
            self.palette@[linear_index(t, n) as int]
        }
    }

    fn map(&self, t: Ratio) -> (c: Color) {
        let n = self.palette.len();
        if n == 0 {
            return Color::black();
        }
        let idx = round_scaled(t.num, t.den, n);
        *self.palette.get(idx).unwrap()
    }
}

/// A non-empty palette's linear map gives one of its entries, whatever the value.
pub proof fn lemma_linear_map_in_palette(m: ColorMapLinear, t: Ratio)
    requires
        m.palette@.len() > 0,
    ensures
        exists|i: int| 0 <= i < m.palette@.len() && m.spec_map(t) == m.palette@[i],
{
    let i = linear_index(t, m.palette@.len()) as int;
    assert(0 <= i < m.palette@.len());
    assert(m.spec_map(t) == m.palette@[i]);
}

} // verus!
