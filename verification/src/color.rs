//! Colours, and the one operation on them that the layout needs.

use vstd::prelude::*;

verus! {

/// A colour in four bytes: red, green and blue, each already multiplied by
/// the opacity `a`.
#[derive(Debug, Clone, Copy, PartialEq, Eq, Hash, Structural)]
pub struct Color {
    pub r: u8,
    pub g: u8,
    pub b: u8,
    pub a: u8,
}

/// One byte of a colour at `factor` / 255 of its strength, rounded to the
/// nearest whole value.
pub open spec fn faded_channel(channel: u8, factor: u8) -> u8 {
    ((channel * factor + 127) / 255) as u8
}

impl Color {
    /// Opaque white.
    pub open spec fn spec_white() -> Color {
        Color { r: 255, g: 255, b: 255, a: 255 }
    }

    /// Nothing at all: every byte is zero.
    pub open spec fn spec_transparent() -> Color {
        Color { r: 0, g: 0, b: 0, a: 0 }
    }

    /// This colour at `factor` / 255 of its strength, opacity included.
    pub open spec fn faded(self, factor: u8) -> Color {
        Color {
            r: faded_channel(self.r, factor),
            g: faded_channel(self.g, factor),
            b: faded_channel(self.b, factor),
            a: faded_channel(self.a, factor),
        }
    }

    #[verifier::when_used_as_spec(spec_white)]
    pub fn white() -> (c: Color)
        ensures
            c == Color::spec_white(),
    {
        Color { r: 255, g: 255, b: 255, a: 255 }
    }

    #[verifier::when_used_as_spec(spec_transparent)]
    pub fn transparent() -> (c: Color)
        ensures
            c == Color::spec_transparent(),
    {
        Color { r: 0, g: 0, b: 0, a: 0 }
    }
}

/// Calls `egui::Color32::gamma_multiply_u8` on the colour with these four
/// bytes. That method multiplies each of the four bytes by `factor`, adds 127
/// and divides by 255, in 32-bit arithmetic that cannot overflow; the
/// contract claims exactly this of each byte.
#[verifier::external_body]
pub(crate) fn gamma_multiply(color: Color, factor: u8) -> (out: Color)
    ensures
        out == color.faded(factor),
{
    let tint = egui::Color32::from_rgba_premultiplied(color.r, color.g, color.b, color.a);
    let [r, g, b, a] = tint.gamma_multiply_u8(factor).to_array();
    Color { r, g, b, a }
}

} // verus!
