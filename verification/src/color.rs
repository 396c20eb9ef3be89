//! Colours with 8 bits for each of red, green, blue and alpha.

use vstd::prelude::*;

verus! {

/// An RGBA colour. An alpha of 255 is opaque.
#[derive(Clone, Copy, Debug, PartialEq, Eq, Structural)]
pub struct Color {
    pub r: u8,
    pub g: u8,
    pub b: u8,
    pub a: u8,
}

/// The alpha of a highlighter stroke: a quarter of full opacity, rounded.
pub const HIGHLIGHT_ALPHA: u8 = 64;

/// The upper-case hexadecimal digit for a value below 16.
pub open spec fn hex_digit(n: int) -> char {
    if n == 0 {
        '0'
    } else if n == 1 {
        '1'
    } else if n == 2 {
        '2'
    } else if n == 3 {
        '3'
    } else if n == 4 {
        '4'
    } else if n == 5 {
        '5'
    } else if n == 6 {
        '6'
    } else if n == 7 {
        '7'
    } else if n == 8 {
        '8'
    } else if n == 9 {
        '9'
    } else if n == 10 {
        'A'
    } else if n == 11 {
        'B'
    } else if n == 12 {
        'C'
    } else if n == 13 {
        'D'
    } else if n == 14 {
        'E'
    } else {
        'F'
    }
}

/// The digit that [`hex_digit`] describes.
fn hex_char(n: u8) -> (c: char)
    requires
        n < 16,
    ensures
        c == hex_digit(n as int),
{
    if n == 0 {
        '0'
    } else if n == 1 {
        '1'
    } else if n == 2 {
        '2'
    } else if n == 3 {
        '3'
    } else if n == 4 {
        '4'
    } else if n == 5 {
        '5'
    } else if n == 6 {
        '6'
    } else if n == 7 {
        '7'
    } else if n == 8 {
        '8'
    } else if n == 9 {
        '9'
    } else if n == 10 {
        'A'
    } else if n == 11 {
        'B'
    } else if n == 12 {
        'C'
    } else if n == 13 {
        'D'
    } else if n == 14 {
        'E'
    } else {
        'F'
    }
}

impl Color {
    /// The colour with the given channels.
    pub fn rgba8(r: u8, g: u8, b: u8, a: u8) -> (c: Color)
        ensures
            c == (Color { r, g, b, a }),
    {
        Color { r, g, b, a }
    }

    /// The opaque colour with the given channels.
    pub fn rgb8(r: u8, g: u8, b: u8) -> (c: Color)
        ensures
            c == (Color { r, g, b, a: 255 }),
    {
        Color { r, g, b, a: 255 }
    }

    pub open spec fn spec_red() -> Color {
        Color { r: 255, g: 0, b: 0, a: 255 }
    }

    #[verifier::when_used_as_spec(spec_red)]
    pub fn red() -> (c: Color)
        ensures
            c == Color::spec_red(),
    {
        Color::rgb8(255, 0, 0)
    }

    pub fn green() -> (c: Color)
        ensures
            c == (Color { r: 0, g: 128, b: 0, a: 255 }),
    {
        Color::rgb8(0, 128, 0)
    }

    pub fn black() -> (c: Color)
        ensures
            c == (Color { r: 0, g: 0, b: 0, a: 255 }),
    {
        Color::rgb8(0, 0, 0)
    }

    pub fn white() -> (c: Color)
        ensures
            c == (Color { r: 255, g: 255, b: 255, a: 255 }),
    {
        Color::rgb8(255, 255, 255)
    }

    pub fn aqua() -> (c: Color)
        ensures
            c == (Color { r: 0, g: 255, b: 255, a: 255 }),
    {
        Color::rgb8(0, 255, 255)
    }

    pub fn blue() -> (c: Color)
        ensures
            c == (Color { r: 0, g: 0, b: 255, a: 255 }),
    {
        Color::rgb8(0, 0, 255)
    }

    pub fn fuchsia() -> (c: Color)
        ensures
            c == (Color { r: 255, g: 0, b: 255, a: 255 }),
    {
        Color::rgb8(255, 0, 255)
    }

    pub fn gray() -> (c: Color)
        ensures
            c == (Color { r: 128, g: 128, b: 128, a: 255 }),
    {
        Color::rgb8(128, 128, 128)
    }

    pub fn maroon() -> (c: Color)
        ensures
            c == (Color { r: 128, g: 0, b: 0, a: 255 }),
    {
        Color::rgb8(128, 0, 0)
    }

    pub fn yellow() -> (c: Color)
        ensures
            c == (Color { r: 255, g: 255, b: 0, a: 255 }),
    {
        Color::rgb8(255, 255, 0)
    }

    pub fn silver() -> (c: Color)
        ensures
            c == (Color { r: 192, g: 192, b: 192, a: 255 }),
    {
        Color::rgb8(192, 192, 192)
    }

    /// The same colour with its alpha replaced.
    pub open spec fn spec_with_alpha(self, a: u8) -> Color {
        Color { r: self.r, g: self.g, b: self.b, a }
    }

    #[verifier::when_used_as_spec(spec_with_alpha)]
    pub fn with_alpha(self, a: u8) -> (c: Color)
        ensures
            c == self.spec_with_alpha(a),
    {
        Color { r: self.r, g: self.g, b: self.b, a }
    }

    /// The colour as `#RRGGBB`, in upper-case hexadecimal; alpha is left out.
    pub open spec fn hex_label_chars(self) -> Seq<char> {
        seq![
            '#',
            hex_digit(self.r as int / 16),
            hex_digit(self.r as int % 16),
            hex_digit(self.g as int / 16),
            hex_digit(self.g as int % 16),
            hex_digit(self.b as int / 16),
            hex_digit(self.b as int % 16),
        ]
    }

    /// The characters of the label that names this colour in a menu.
    pub fn hex_label(&self) -> (label: Vec<char>)
        ensures
            label@ == self.hex_label_chars(),
    {
        let mut label: Vec<char> = Vec::new();
        label.push('#');
        label.push(hex_char(self.r / 16));
        label.push(hex_char(self.r % 16));
        label.push(hex_char(self.g / 16));
        label.push(hex_char(self.g % 16));
        label.push(hex_char(self.b / 16));
        label.push(hex_char(self.b % 16));
        assert(label@ =~= self.hex_label_chars());
        label
    }
}

} // verus!
