//! Colours and the palette that pen commands choose them from.

use vstd::prelude::*;
use crate::error::ErrorKind;

verus! {

/// A colour, by the strength of its red, green and blue parts: 0 is none of
/// a part and 255 all of it.
#[derive(Clone, Copy, Debug, PartialEq, Eq, Structural)]
pub struct Rgb {
    pub red: u8,
    pub green: u8,
    pub blue: u8,
}

/// A fixed list of colours, addressed by index from zero. A palette is never
/// empty: the colour at index zero is the one a pen starts with.
pub struct Palette {
    colors: Vec<Rgb>,
}

/// The colours of the standard palette, in order: black, white, red, green,
/// blue, cyan, purple and yellow.
pub open spec fn standard_colors() -> Seq<Rgb> {
    seq![
        Rgb { red: 0, green: 0, blue: 0 },
        Rgb { red: 255, green: 255, blue: 255 },
        Rgb { red: 255, green: 0, blue: 0 },
        Rgb { red: 0, green: 255, blue: 0 },
        Rgb { red: 0, green: 0, blue: 255 },
        Rgb { red: 0, green: 255, blue: 255 },
        Rgb { red: 255, green: 0, blue: 255 },
        Rgb { red: 255, green: 255, blue: 0 },
    ]
}

impl View for Palette {
    type V = Seq<Rgb>;

    closed spec fn view(&self) -> Seq<Rgb> {
        self.colors@
    }
}

impl Palette {
    #[verifier::type_invariant]
    spec fn not_empty(self) -> bool {
        self.colors@.len() > 0
    }

    /// Makes a palette of the given colours, in their order. There is no
    /// palette without a colour: an empty list gives `None`.
    pub fn new(colors: Vec<Rgb>) -> (palette: Option<Palette>)
        ensures
            palette is Some <==> colors@.len() > 0,
            palette matches Some(p) ==> p@ == colors@,
    {
        if colors.len() == 0 {
            None
        } else {
            Some(Palette { colors })
        }
    }

    /// Makes the standard palette of eight colours.
    pub fn standard() -> (palette: Palette)
        ensures
            palette@ == standard_colors(),
    {
        let mut colors: Vec<Rgb> = Vec::new();
        colors.push(Rgb { red: 0, green: 0, blue: 0 });
        colors.push(Rgb { red: 255, green: 255, blue: 255 });
        colors.push(Rgb { red: 255, green: 0, blue: 0 });
        colors.push(Rgb { red: 0, green: 255, blue: 0 });
        colors.push(Rgb { red: 0, green: 0, blue: 255 });
        colors.push(Rgb { red: 0, green: 255, blue: 255 });
        colors.push(Rgb { red: 255, green: 0, blue: 255 });
        colors.push(Rgb { red: 255, green: 255, blue: 0 });
        assert(colors@ =~= standard_colors());
        Palette { colors }
    }

    /// Returns the number of colours, which is at least one.
    pub fn len(&self) -> (n: usize)
        ensures
            n == self@.len(),
            n > 0,
    {
        proof {
            use_type_invariant(self);
        }
        self.colors.len()
    }

    /// Returns the colour at index zero.
    pub fn first(&self) -> (color: Rgb)
        ensures
            self@.len() > 0,
            color == self@[0],
    {
        proof {
            use_type_invariant(self);
        }
        self.colors[0]
    }

    /// Returns the colour at `index`, or the error `ColorIndexOutOfRange`
    /// where the palette has no such index.
    pub fn lookup(&self, index: u32) -> (r: Result<Rgb, ErrorKind>)
        ensures
            r == if index < self@.len() {
                Ok::<Rgb, ErrorKind>(self@[index as int])
            } else {
                Err::<Rgb, ErrorKind>(ErrorKind::ColorIndexOutOfRange)
            },
    {
        if (index as usize) < self.colors.len() {
            Ok(self.colors[index as usize])
        } else {
            Err(ErrorKind::ColorIndexOutOfRange)
        }
    }
}

} // verus!
