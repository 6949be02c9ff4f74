//! Colors, as four 8-bit channels, and their CSS `rgb(r,g,b)` form.

use vstd::prelude::*;
use vstd::string::StringExecFns;

use crate::decimal::dec_str;
use crate::decimal::push_decimal;

verus! {

/// The CSS form `rgb(red,green,blue)` of a color; the alpha channel is
/// not part of it.
pub open spec fn color_css(c: Color) -> Seq<char> {
    "rgb("@ + dec_str(c.red as int) + ","@ + dec_str(c.green as int) + ","@ + dec_str(
        c.blue as int,
    ) + ")"@
}

/// A color.
#[derive(Clone, Copy, Debug, PartialEq, Eq, Structural)]
pub struct Color {
    pub red: u8,
    pub green: u8,
    pub blue: u8,
    pub alpha: u8,
}

impl Color {
    /// Create a color with an alpha value of 255.
    pub fn new(red: u8, green: u8, blue: u8) -> (c: Color)
        ensures
            c == (Color { red, green, blue, alpha: 255u8 }),
    {
        Color { red, green, blue, alpha: 255 }
    }

    /// Create a color.
    pub fn new_with_alpha(red: u8, green: u8, blue: u8, alpha: u8) -> (c: Color)
        ensures
            c == (Color { red, green, blue, alpha }),
    {
        Color { red, green, blue, alpha }
    }

    /// Green color.
    pub fn green() -> (c: Color)
        ensures
            c == (Color { red: 0u8, green: 128u8, blue: 0u8, alpha: 255u8 }),
    {
        Color { red: 0, green: 128, blue: 0, alpha: 255 }
    }

    /// Yellow color.
    pub fn yellow() -> (c: Color)
        ensures
            c == (Color { red: 255u8, green: 255u8, blue: 0u8, alpha: 255u8 }),
    {
        Color { red: 255, green: 255, blue: 0, alpha: 255 }
    }

    /// Orange color.
    pub fn orange() -> (c: Color)
        ensures
            c == (Color { red: 255u8, green: 165u8, blue: 0u8, alpha: 255u8 }),
    {
        Color { red: 255, green: 165, blue: 0, alpha: 255 }
    }

    /// Red color.
    pub fn red() -> (c: Color)
        ensures
            c == (Color { red: 255u8, green: 0u8, blue: 0u8, alpha: 255u8 }),
    {
        Color { red: 255, green: 0, blue: 0, alpha: 255 }
    }

    /// Blue color.
    pub fn blue() -> (c: Color)
        ensures
            c == (Color { red: 0u8, green: 0u8, blue: 255u8, alpha: 255u8 }),
    {
        Color { red: 0, green: 0, blue: 255, alpha: 255 }
    }

    /// Cyan color.
    pub fn cyan() -> (c: Color)
        ensures
            c == (Color { red: 0u8, green: 255u8, blue: 255u8, alpha: 255u8 }),
    {
        Color { red: 0, green: 255, blue: 255, alpha: 255 }
    }

    /// Grey color.
    pub fn grey() -> (c: Color)
        ensures
            c == (Color { red: 128u8, green: 128u8, blue: 128u8, alpha: 255u8 }),
    {
        Color { red: 128, green: 128, blue: 128, alpha: 255 }
    }

    /// Pink color.
    pub fn pink() -> (c: Color)
        ensures
            c == (Color { red: 255u8, green: 192u8, blue: 203u8, alpha: 255u8 }),
    {
        Color { red: 255, green: 192, blue: 203, alpha: 255 }
    }

    /// Purple color.
    pub fn purple() -> (c: Color)
        ensures
            c == (Color { red: 128u8, green: 0u8, blue: 128u8, alpha: 255u8 }),
    {
        Color { red: 128, green: 0, blue: 128, alpha: 255 }
    }

    /// No color.
    pub fn black() -> (c: Color)
        ensures
            c == (Color { red: 0u8, green: 0u8, blue: 0u8, alpha: 255u8 }),
    {
        Color { red: 0, green: 0, blue: 0, alpha: 255 }
    }

    /// Pure white.
    pub fn white() -> (c: Color)
        ensures
            c == (Color { red: 255u8, green: 255u8, blue: 255u8, alpha: 255u8 }),
    {
        Color { red: 255, green: 255, blue: 255, alpha: 255 }
    }

    /// The CSS string `rgb(red,green,blue)` naming this color to the host
    /// drawing surface.
    pub fn to_string(&self) -> (r: String)
        ensures
            r@ == color_css(*self),
    {
        let mut color = String::from_str("rgb(");
        push_decimal(&mut color, self.red as u64);
        color.append(",");
        push_decimal(&mut color, self.green as u64);
        color.append(",");
        push_decimal(&mut color, self.blue as u64);
        color.append(")");
        proof {
            assert(color@ =~= color_css(*self));
        }
        color
    }
}

} // verus!
