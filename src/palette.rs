//! An ordered sequence of colors.
use vstd::prelude::*;
use crate::color::Color;
use vstd::std_specs::iter::IteratorSpec;

verus! {

/// The gray level of entry `i` of an `n`-entry grayscale ramp: `round(255·i/(n−1))`,
/// and black for a ramp of one entry.
pub open spec fn gray_level(i: nat, n: nat) -> nat {
    if n <= 1 {
        0
    } else {
        (510 * i + (n - 1) as nat) / (2 * (n - 1) as nat)
    }
}

/// An ordered, indexable sequence of colors.
pub struct Palette {
    colors: Vec<Color>,
}

impl View for Palette {
    type V = Seq<Color>;

    closed spec fn view(&self) -> Seq<Color> {
        self.colors@
    }
}

fn gray_level_of(i: usize, n: usize) -> (v: u8)
    requires
        1 <= n,
        i < n,
    ensures
        v as nat == gray_level(i as nat, n as nat),
{
    if n == 1 {
        return 0;
    }
    let d: u128 = 2 * ((n - 1) as u128);
    let x: u128 = 510 * (i as u128) + ((n - 1) as u128);
    assert(x < 256 * d) by (nonlinear_arith)
        requires
            x == 510 * i + (n - 1),
            d == 2 * (n - 1),
            i <= n - 1,
            n >= 2,
    ;
    let q: u128 = x / d;
    assert(q < 256) by (nonlinear_arith)
        requires
            q == x / d,
            x < 256 * d,
            d > 0,
    ;
    q as u8
}

impl Palette {
    pub fn new() -> (p: Self)
        ensures
            p@ == Seq::<Color>::empty(),
    {
        Palette { colors: Vec::new() }
    }

    pub fn from_vec(v: Vec<Color>) -> (p: Self)
        ensures
            p@ == v@,
    {
        Palette { colors: v }
    }

    /// `n` opaque grays from black to white, entry `i` at level `round(255·i/(n−1))`.
    pub fn grayscale(n: usize) -> (p: Palette)
        requires
            n >= 1,
        ensures
            p@.len() == n,
            forall|i: int|
                0 <= i < n ==> {
                    let v = gray_level(i as nat, n as nat) as u8;
                    #[trigger] p@[i] == Color::rgba(v, v, v, 255)
                },
    {
        let mut colors: Vec<Color> = Vec::with_capacity(n);
        let mut i: usize = 0;
        while i < n
            invariant
                i <= n,
                n >= 1,
                colors@.len() == i,
                forall|k: int|
                    0 <= k < i ==> {
                        let v = gray_level(k as nat, n as nat) as u8;
                        #[trigger] colors@[k] == Color::rgba(v, v, v, 255)
                    },
            decreases n - i,
        {
            let v = gray_level_of(i, n);
            colors.push(Color::from_rgb(v, v, v));
            i = i + 1;
        }
        Palette { colors }
    }

    pub fn len(&self) -> (n: usize)
        ensures
            n == self@.len(),
    {
        self.colors.len()
    }

    pub fn is_empty(&self) -> (b: bool)
        ensures
            b == (self@.len() == 0),
    {
        self.colors.len() == 0
    }

    /// The entry at `index`, if there is one.
    pub fn get(&self, index: usize) -> (c: Option<&Color>)
        ensures
            c == (if index < self@.len() {
                Some(&self@[index as int])
            } else {
                None
            }),
    {
        if index < self.colors.len() {
            Some(&self.colors[index])
        } else {
            None
        }
    }

    /// The last entry, if there is one.
    pub fn back(&self) -> (c: Option<&Color>)
        ensures
            c == (if self@.len() > 0 {
                Some(&self@[self@.len() - 1])
            } else {
                None
            }),
    {
        let n = self.colors.len();
        if n > 0 {
            Some(&self.colors[n - 1])
        } else {
            None
        }
    }

    /// The entries, first to last.
    pub fn iter(&self) -> (it: std::slice::Iter<'_, Color>)
        ensures
            it.remaining().unref() == self@,
    {
        let it = self.colors.as_slice().iter();
        proof {
            broadcast use vstd::std_specs::slice::axiom_spec_slice_iter;

            assert(it.remaining().unref() =~= self@);
        }
        it
    }

    /// Appends `color` at the end.
    pub fn push(&mut self, color: Color)
        ensures
            final(self)@ == old(self)@.push(color),
    {
        self.colors.push(color);
    }

    /// Takes out the entry at `index`, if there is one, shifting the later ones down.
    pub fn remove(&mut self, index: usize) -> (c: Option<Color>)
        ensures
            index < old(self)@.len() ==> c == Some(old(self)@[index as int]) && final(self)@
                == old(self)@.remove(index as int),
            index >= old(self)@.len() ==> c.is_none() && final(self)@ == old(self)@,
    {
        if index < self.colors.len() {
            Some(self.colors.remove(index))
        } else {
            None
        }
    }

    /// Reverses the order of the entries.
    pub fn reverse(&mut self)
        ensures
            final(self)@ == old(self)@.reverse(),
    {
        let n = self.colors.len();
        let mut rev: Vec<Color> = Vec::with_capacity(n);
        let mut k: usize = 0;
        while k < n
            invariant
                k <= n,
                n == self.colors@.len(),
                rev@.len() == k,
                forall|j: int| 0 <= j < k ==> #[trigger] rev@[j] == self.colors@[n - 1 - j],
            decreases n - k,
        {
            rev.push(self.colors[n - 1 - k]);
            k = k + 1;
        }
        assert(rev@ =~= self.colors@.reverse());
        self.colors = rev;
    }
}

impl From<Vec<Color>> for Palette {
    fn from(v: Vec<Color>) -> (p: Self)
        ensures
            p@ == v@,
    {
        Palette { colors: v }
    }
}

impl vstd::std_specs::convert::FromSpecImpl<Vec<Color>> for Palette {
    open spec fn obeys_from_spec() -> bool {
        true
    }

    closed spec fn from_spec(v: Vec<Color>) -> Palette {
        Palette { colors: v }
    }
}

} // verus!
