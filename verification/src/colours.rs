//! Finite, cyclable colour palettes.
//!
//! A `ColourScheme` is a fixed ordered palette; `by_index` looks a colour up
//! modulo the palette size, so every series index — however large — receives
//! a deterministic colour. The built-in palettes follow perceptually uniform
//! scientific colour maps.

use vstd::arithmetic::div_mod::lemma_mod_multiples_vanish;
use vstd::prelude::*;

verus! {

/// An opaque RGB triple.
#[derive(Clone, Copy, Debug, PartialEq, Eq, Structural)]
pub struct Colour {
    pub red: u8,
    pub green: u8,
    pub blue: u8,
}

impl Colour {
    pub fn from_rgb(red: u8, green: u8, blue: u8) -> (r: Colour)
        ensures
            r == (Colour { red, green, blue }),
    {
        Colour { red, green, blue }
    }
}

/// A fixed-size ordered palette with modulo-indexed lookup.
#[derive(Clone, Debug)]
pub struct ColourScheme {
    pub colours: Vec<Colour>,
}

impl ColourScheme {
    /// Well-formedness: the palette is never empty, so lookup is total.
    pub open spec fn wf(self) -> bool {
        self.colours@.len() > 0
    }

    /// The colour assigned to series index `i`: the palette entry at
    /// `i` modulo the palette size.
    pub open spec fn spec_by_index(self, i: int) -> Colour {
        self.colours@[i % (self.colours@.len() as int)]
    }

    pub fn new(colours: Vec<Colour>) -> (r: ColourScheme)
        requires
            colours@.len() > 0,
        ensures
            r.colours == colours,
            r.wf(),
    {
        ColourScheme { colours }
    }

    pub fn len(&self) -> (r: usize)
        ensures
            r == self.colours@.len(),
    {
        self.colours.len()
    }

    /// Deterministic colour assignment for any series index; indexes past the
    /// end of the palette wrap around.
    pub fn by_index(&self, index: usize) -> (r: Colour)
        requires
            self.wf(),
        ensures
            r == self.spec_by_index(index as int),
    {
        let i = index % self.colours.len();
        self.colours[i]
    }
}

/// Wraparound law: stepping a series index forward by the palette size yields
/// the same colour, so colour assignment is cyclic with period `len`.
pub proof fn lemma_by_index_wraps(s: ColourScheme, i: int)
    requires
        s.wf(),
        i >= 0,
    ensures
        s.spec_by_index(i + s.colours@.len()) == s.spec_by_index(i),
{
    let m = s.colours@.len() as int;
    lemma_mod_multiples_vanish(1, i, m);
    assert(m * 1 + i == i + m);
}

/// The lajolla palette, used as the default scheme: dark on light, ordered
/// from darkest to lightest.
pub fn lajolla() -> (r: ColourScheme)
    ensures
        r.wf(),
        r.colours@ =~= lajolla_palette(),
{
    let mut colours: Vec<Colour> = Vec::new();
    colours.push(Colour { red: 0x19, green: 0x19, blue: 0x00 });
    colours.push(Colour { red: 0x33, green: 0x22, blue: 0x0F });
    colours.push(Colour { red: 0x5B, green: 0x30, blue: 0x23 });
    colours.push(Colour { red: 0x8F, green: 0x40, blue: 0x3D });
    colours.push(Colour { red: 0xC7, green: 0x50, blue: 0x4B });
    colours.push(Colour { red: 0xE0, green: 0x72, blue: 0x4F });
    colours.push(Colour { red: 0xE7, green: 0x94, blue: 0x52 });
    colours.push(Colour { red: 0xEE, green: 0xB5, blue: 0x55 });
    colours.push(Colour { red: 0xF8, green: 0xDF, blue: 0x7C });
    colours.push(Colour { red: 0xFF, green: 0xFE, blue: 0xCB });
    ColourScheme { colours }
}

/// The colours of the lajolla palette, darkest first.
pub open spec fn lajolla_palette() -> Seq<Colour> {
    seq![
        Colour { red: 0x19, green: 0x19, blue: 0x00 },
        Colour { red: 0x33, green: 0x22, blue: 0x0F },
        Colour { red: 0x5B, green: 0x30, blue: 0x23 },
        Colour { red: 0x8F, green: 0x40, blue: 0x3D },
        Colour { red: 0xC7, green: 0x50, blue: 0x4B },
        Colour { red: 0xE0, green: 0x72, blue: 0x4F },
        Colour { red: 0xE7, green: 0x94, blue: 0x52 },
        Colour { red: 0xEE, green: 0xB5, blue: 0x55 },
        Colour { red: 0xF8, green: 0xDF, blue: 0x7C },
        Colour { red: 0xFF, green: 0xFE, blue: 0xCB },
    ]
}

/// The lipari palette: a dark-to-light scheme with a warm mid-range.
pub fn lipari() -> (r: ColourScheme)
    ensures
        r.wf(),
        r.colours@ =~= lipari_palette(),
{
    let mut colours: Vec<Colour> = Vec::new();
    colours.push(Colour { red: 0x03, green: 0x13, blue: 0x26 });
    colours.push(Colour { red: 0x13, green: 0x38, blue: 0x5A });
    colours.push(Colour { red: 0x47, green: 0x58, blue: 0x7A });
    colours.push(Colour { red: 0x6B, green: 0x5F, blue: 0x76 });
    colours.push(Colour { red: 0x8E, green: 0x61, blue: 0x6C });
    colours.push(Colour { red: 0xBC, green: 0x64, blue: 0x61 });
    colours.push(Colour { red: 0xE5, green: 0x7B, blue: 0x62 });
    colours.push(Colour { red: 0xE7, green: 0xA2, blue: 0x79 });
    colours.push(Colour { red: 0xE9, green: 0xC9, blue: 0x9F });
    colours.push(Colour { red: 0xFD, green: 0xF5, blue: 0xDA });
    ColourScheme { colours }
}

/// The colours of the lipari palette, darkest first.
pub open spec fn lipari_palette() -> Seq<Colour> {
    seq![
        Colour { red: 0x03, green: 0x13, blue: 0x26 },
        Colour { red: 0x13, green: 0x38, blue: 0x5A },
        Colour { red: 0x47, green: 0x58, blue: 0x7A },
        Colour { red: 0x6B, green: 0x5F, blue: 0x76 },
        Colour { red: 0x8E, green: 0x61, blue: 0x6C },
        Colour { red: 0xBC, green: 0x64, blue: 0x61 },
        Colour { red: 0xE5, green: 0x7B, blue: 0x62 },
        Colour { red: 0xE7, green: 0xA2, blue: 0x79 },
        Colour { red: 0xE9, green: 0xC9, blue: 0x9F },
        Colour { red: 0xFD, green: 0xF5, blue: 0xDA },
    ]
}

} // verus!
